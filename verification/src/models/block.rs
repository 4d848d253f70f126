//! A single block of the ledger.

use crate::models::digest::{decimal_digits, hex_encode, push_decimal, sha256, sha256_digest, to_hex};
use vstd::prelude::*;
use vstd::string::StrSliceExecFns;
use vstd::string::StringSliceAdditionalSpecFns;
use vstd::utf8::encode_utf8;

verus! {

/// One entry of the ledger.
#[derive(Debug)]
pub struct Block {
    /// Position of the block in its chain, starting at zero.
    pub index: u64,
    /// Creation time, in milliseconds since the Unix epoch.
    pub timestamp: u64,
    /// The counter that mining advances until the hash is small enough.
    pub proof_of_work: u64,
    /// Hash of the block before this one; `"0"` for the first block.
    pub previous_hash: String,
    /// Hash of this block; empty until it is computed.
    pub hash: String,
}

/// The mathematical value of a [`Block`].
pub struct BlockView {
    pub index: u64,
    pub timestamp: u64,
    pub proof_of_work: u64,
    pub previous_hash: Seq<char>,
    pub hash: Seq<char>,
}

impl View for Block {
    type V = BlockView;

    open spec fn view(&self) -> BlockView {
        BlockView {
            index: self.index,
            timestamp: self.timestamp,
            proof_of_work: self.proof_of_work,
            previous_hash: self.previous_hash@,
            hash: self.hash@,
        }
    }
}

/// Number of characters in a computed block hash.
pub const HASH_LEN: usize = 64;

/// The bytes that are hashed for a block: the decimal forms of `index`,
/// `timestamp` and `proof_of_work` and the UTF-8 text of `previous_hash`, one
/// after the other with nothing in between.
pub open spec fn block_preimage(
    index: u64,
    timestamp: u64,
    proof_of_work: u64,
    previous_hash: Seq<char>,
) -> Seq<u8> {
    decimal_digits(index as nat) + decimal_digits(timestamp as nat) + decimal_digits(
        proof_of_work as nat,
    ) + encode_utf8(previous_hash)
}

/// The hash of a block with the given fields: the SHA-256 digest of its
/// preimage, as lowercase hexadecimal text.
pub open spec fn block_hash(
    index: u64,
    timestamp: u64,
    proof_of_work: u64,
    previous_hash: Seq<char>,
) -> Seq<char> {
    hex_encode(sha256(block_preimage(index, timestamp, proof_of_work, previous_hash)))
}

/// The difficulty predicate: `hash` begins with `difficulty` characters `'0'`.
pub open spec fn has_leading_zeros(hash: Seq<char>, difficulty: nat) -> bool {
    &&& difficulty <= hash.len()
    &&& forall|i: int| 0 <= i < difficulty ==> hash[i] == '0'
}

impl BlockView {
    /// The hash this block would have with `proof_of_work` as its counter.
    pub open spec fn hash_at(self, proof_of_work: u64) -> Seq<char> {
        block_hash(self.index, self.timestamp, proof_of_work, self.previous_hash)
    }

    /// The block with its hash recomputed from its other fields.
    pub open spec fn hashed(self) -> BlockView {
        BlockView { hash: self.hash_at(self.proof_of_work), ..self }
    }

    /// The stored hash is the hash of the other fields.
    pub open spec fn is_sealed(self) -> bool {
        self.hash == self.hash_at(self.proof_of_work)
    }

    /// Counter `proof_of_work` gives this block a hash that meets `difficulty`.
    pub open spec fn solves(self, proof_of_work: u64, difficulty: nat) -> bool {
        has_leading_zeros(self.hash_at(proof_of_work), difficulty)
    }

    /// `found` is where a search that starts above this block's counter
    /// stops: the least counter above it that solves `difficulty`, or the
    /// largest counter there is when none does.
    pub open spec fn search_stops_at(self, found: u64, difficulty: nat) -> bool {
        &&& self.proof_of_work < found
        &&& forall|p: u64| self.proof_of_work < p < found ==> !self.solves(p, difficulty)
        &&& (self.solves(found, difficulty) || found == u64::MAX)
    }

    /// The block as mining at `difficulty` leaves it when the search stops at
    /// `found`.
    pub open spec fn mined_at(self, found: u64) -> BlockView {
        BlockView { proof_of_work: found, hash: self.hash_at(found), ..self }
    }
}

/// Reads the clock through `chrono::Utc::now` and returns its
/// `timestamp_millis`.
///
/// Trusted: nothing is claimed of the value, which differs from call to call.
/// `chrono` stops the program when the system clock stands before 1970.
#[verifier::external_body]
fn now_millis() -> (millis: i64) {
    chrono::Utc::now().timestamp_millis()
}

/// The unsigned timestamp that stands for a signed count of milliseconds:
/// the count itself when it is not negative, its two's complement otherwise.
pub open spec fn millis_as_timestamp(millis: i64) -> int {
    if millis >= 0 {
        millis as int
    } else {
        millis + 0x1_0000_0000_0000_0000
    }
}

/// Reinterprets a signed count of milliseconds as an unsigned timestamp.
pub fn timestamp_from_millis(millis: i64) -> (timestamp: u64)
    ensures
        timestamp == millis_as_timestamp(millis),
{
    if millis >= 0 {
        millis as u64
    } else {
        let above_min: i64 = millis - i64::MIN;
        above_min as u64 + 0x8000_0000_0000_0000u64
    }
}

/// Whether `hash` begins with `difficulty` characters `'0'`.
pub fn leading_zeros_at_least(hash: &str, difficulty: usize) -> (ok: bool)
    ensures
        ok == has_leading_zeros(hash@, difficulty as nat),
{
    let len: usize = hash.unicode_len();
    if difficulty > len {
        return false;
    }
    let mut i: usize = 0;
    while i < difficulty
        invariant
            i <= difficulty <= len,
            len == hash@.len(),
            forall|j: int| 0 <= j < i ==> hash@[j] == '0',
        decreases difficulty - i,
    {
        if hash.get_char(i) != '0' {
            return false;
        }
        i += 1;
    }
    true
}

impl Block {
    /// A block that has not been mined: counter zero, no hash, stamped with
    /// the time given.
    pub fn with_timestamp(index: u64, previous_hash: String, timestamp: u64) -> (block: Block)
        ensures
            block@ == (BlockView {
                index,
                timestamp,
                proof_of_work: 0,
                previous_hash: previous_hash@,
                hash: Seq::empty(),
            }),
    {
        Block { index, timestamp, proof_of_work: 0, previous_hash, hash: String::new() }
    }

    /// A block that has not been mined, stamped with the current time.
    pub fn new(index: u64, previous_hash: String) -> (block: Block)
        ensures
            block@ == (BlockView {
                index,
                timestamp: block.timestamp,
                proof_of_work: 0,
                previous_hash: previous_hash@,
                hash: Seq::empty(),
            }),
    {
        let timestamp = timestamp_from_millis(now_millis());
        Block::with_timestamp(index, previous_hash, timestamp)
    }

    /// The bytes that are hashed for this block.
    pub fn preimage(&self) -> (bytes: Vec<u8>)
        ensures
            bytes@ == block_preimage(
                self.index,
                self.timestamp,
                self.proof_of_work,
                self.previous_hash@,
            ),
    {
        let mut bytes: Vec<u8> = Vec::new();
        push_decimal(&mut bytes, self.index);
        push_decimal(&mut bytes, self.timestamp);
        push_decimal(&mut bytes, self.proof_of_work);
        let ghost numbers = bytes@;
        let text = self.previous_hash.as_str().as_bytes();
        bytes.extend_from_slice(text);
        assert(bytes@ =~= numbers + encode_utf8(self.previous_hash@));
        bytes
    }

    /// Recomputes `hash` from the other four fields, which stay as they are.
    pub fn calculate_hash(&mut self)
        ensures
            final(self)@ == old(self)@.hashed(),
            final(self)@.hash.len() == HASH_LEN,
    {
        let bytes = self.preimage();
        let digest = sha256_digest(bytes.as_slice());
        self.hash = to_hex(digest.as_slice());
    }

    /// Whether the stored hash begins with `difficulty` characters `'0'`.
    pub fn meets_difficulty(&self, difficulty: usize) -> (ok: bool)
        ensures
            ok == has_leading_zeros(self@.hash, difficulty as nat),
    {
        leading_zeros_at_least(self.hash.as_str(), difficulty)
    }

    /// Searches upward from the counter after the current one for the first
    /// whose hash begins with `difficulty` zeros, and leaves the block with
    /// that counter and its hash. With `difficulty` zero the next counter is
    /// taken at once. The search gives up at the largest counter, which then
    /// stays in the block with its hash.
    pub fn mine(&mut self, difficulty: usize)
        requires
            old(self).proof_of_work < u64::MAX,
        ensures
            old(self)@.search_stops_at(final(self).proof_of_work, difficulty as nat),
            final(self)@ == old(self)@.mined_at(final(self).proof_of_work),
            final(self)@.is_sealed(),
            final(self)@.hash.len() == HASH_LEN,
            has_leading_zeros(final(self)@.hash, difficulty as nat) || final(self).proof_of_work
                == u64::MAX,
            difficulty == 0 ==> final(self).proof_of_work == old(self).proof_of_work + 1,
    {
        loop
            invariant_except_break
                self.proof_of_work < u64::MAX,
                forall|p: u64|
                    old(self).proof_of_work < p <= self.proof_of_work ==> !old(self)@.solves(
                        p,
                        difficulty as nat,
                    ),
            invariant
                old(self).proof_of_work <= self.proof_of_work,
                self.index == old(self).index,
                self.timestamp == old(self).timestamp,
                self.previous_hash@ == old(self).previous_hash@,
            ensures
                old(self)@.search_stops_at(self.proof_of_work, difficulty as nat),
                self@ == old(self)@.mined_at(self.proof_of_work),
                self@.hash.len() == HASH_LEN,
            decreases u64::MAX - self.proof_of_work,
        {
            self.proof_of_work += 1;
            self.calculate_hash();
            assert(self@ == old(self)@.mined_at(self.proof_of_work));
            if self.meets_difficulty(difficulty) || self.proof_of_work == u64::MAX {
                break ;
            }
        }
        proof {
            if difficulty == 0 {
                lemma_no_difficulty_stops_at_once(old(self)@, self.proof_of_work);
            }
        }
    }
}

impl Clone for Block {
    fn clone(&self) -> (copy: Block)
        ensures
            copy@ == self@,
    {
        Block {
            index: self.index,
            timestamp: self.timestamp,
            proof_of_work: self.proof_of_work,
            previous_hash: self.previous_hash.clone(),
            hash: self.hash.clone(),
        }
    }
}

/// Hashing a block twice gives what hashing it once gives: the hash depends
/// on the four other fields alone, and hashing leaves them as they are.
pub proof fn lemma_hashing_is_idempotent(block: BlockView)
    ensures
        block.hashed().hashed() == block.hashed(),
        block.hashed().is_sealed(),
{
}

/// Two blocks that agree on index, timestamp, counter and previous hash get
/// the same hash, whatever hash they held before.
pub proof fn lemma_hash_depends_on_fields_only(a: BlockView, b: BlockView)
    requires
        a.index == b.index,
        a.timestamp == b.timestamp,
        a.proof_of_work == b.proof_of_work,
        a.previous_hash == b.previous_hash,
    ensures
        a.hashed() == b.hashed(),
{
}

/// Mining at difficulty zero stops at the very next counter.
pub proof fn lemma_no_difficulty_stops_at_once(block: BlockView, found: u64)
    requires
        block.search_stops_at(found, 0),
    ensures
        found == block.proof_of_work + 1,
{
    if found > block.proof_of_work + 1 {
        let next = (block.proof_of_work + 1) as u64;
        assert(block.solves(next, 0));
    }
}

/// The search stops at one counter only: mining is a function of the block
/// and the difficulty.
pub proof fn lemma_search_stop_is_unique(block: BlockView, a: u64, b: u64, difficulty: nat)
    requires
        block.search_stops_at(a, difficulty),
        block.search_stops_at(b, difficulty),
    ensures
        a == b,
{
}

} // verus!
