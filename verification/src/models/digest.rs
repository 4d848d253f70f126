//! Byte-level encodings that a block's hash is made of: decimal numbers going
//! into the digest, and the lowercase hexadecimal text coming out of it.

use sha2::Digest;
use vstd::prelude::*;

verus! {

/// The SHA-256 digest of `data`, as the `sha2` crate computes it.
pub uninterp spec fn sha256(data: Seq<u8>) -> Seq<u8>;

/// Number of bytes in a SHA-256 digest.
pub const DIGEST_LEN: usize = 32;

/// Calls `sha2::Sha256::digest` on `data` and copies the output array into a
/// vector.
///
/// Trusted: the result is the SHA-256 digest of exactly the bytes given, and
/// it is 32 bytes long (the output size that `sha2` declares for `Sha256`).
#[verifier::external_body]
pub(crate) fn sha256_digest(data: &[u8]) -> (digest: Vec<u8>)
    ensures
        digest@ == sha256(data@),
        digest@.len() == DIGEST_LEN,
{
    sha2::Sha256::digest(data).to_vec()
}

/// The ASCII decimal digits of `n`, most significant first, without padding.
pub open spec fn decimal_digits(n: nat) -> Seq<u8>
    decreases n,
{
    if n < 10 {
        seq![(48 + n) as u8]
    } else {
        decimal_digits(n / 10).push((48 + n % 10) as u8)
    }
}

/// The sixteen lowercase hexadecimal digits, in order of value.
pub open spec fn hex_digits() -> Seq<char> {
    seq!['0', '1', '2', '3', '4', '5', '6', '7', '8', '9', 'a', 'b', 'c', 'd', 'e', 'f']
}

/// Lowercase hexadecimal text of `bytes`: two digits per byte, high nibble
/// first.
pub open spec fn hex_encode(bytes: Seq<u8>) -> Seq<char> {
    Seq::new(
        2 * bytes.len(),
        |i: int|
            if i % 2 == 0 {
                hex_digits()[bytes[i / 2] as int / 16]
            } else {
                hex_digits()[bytes[i / 2] as int % 16]
            },
    )
}

/// Appends the decimal digits of `n` to `out`.
pub fn push_decimal(out: &mut Vec<u8>, n: u64)
    ensures
        final(out)@ == old(out)@ + decimal_digits(n as nat),
    decreases n,
{
    if n >= 10 {
        push_decimal(out, n / 10);
    }
    let digit: u8 = (n % 10) as u8;
    out.push(48 + digit);
    proof {
        if n >= 10 {
            assert(out@ =~= old(out)@ + decimal_digits((n / 10) as nat).push(
                (48 + n % 10) as u8,
            ));
        } else {
            assert(out@ =~= old(out)@ + seq![(48 + n) as u8]);
        }
    }
}

/// The one-character text of a hexadecimal digit.
fn hex_digit_str(nibble: u8) -> (text: &'static str)
    requires
        nibble < 16,
    ensures
        text@ == seq![hex_digits()[nibble as int]],
{
    proof {
        reveal_strlit("0");
        reveal_strlit("1");
        reveal_strlit("2");
        reveal_strlit("3");
        reveal_strlit("4");
        reveal_strlit("5");
        reveal_strlit("6");
        reveal_strlit("7");
        reveal_strlit("8");
        reveal_strlit("9");
        reveal_strlit("a");
        reveal_strlit("b");
        reveal_strlit("c");
        reveal_strlit("d");
        reveal_strlit("e");
        reveal_strlit("f");
    }
    let text = match nibble {
        0 => "0",
        1 => "1",
        2 => "2",
        3 => "3",
        4 => "4",
        5 => "5",
        6 => "6",
        7 => "7",
        8 => "8",
        9 => "9",
        10 => "a",
        11 => "b",
        12 => "c",
        13 => "d",
        14 => "e",
        _ => "f",
    };
    assert(text@ =~= seq![hex_digits()[nibble as int]]);
    text
}

/// Writes `bytes` as lowercase hexadecimal text.
pub fn to_hex(bytes: &[u8]) -> (text: String)
    ensures
        text@ == hex_encode(bytes@),
{
    let mut text = String::new();
    let mut i: usize = 0;
    while i < bytes.len()
        invariant
            i <= bytes.len(),
            text@ == hex_encode(bytes@.take(i as int)),
        decreases bytes.len() - i,
    {
        let byte: u8 = bytes[i];
        text.append(hex_digit_str(byte / 16));
        text.append(hex_digit_str(byte % 16));
        i += 1;
        assert(text@ =~= hex_encode(bytes@.take(i as int)));
    }
    assert(bytes@.take(i as int) =~= bytes@);
    text
}

} // verus!
