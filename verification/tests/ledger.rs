use blockchain::models::block::{leading_zeros_at_least, timestamp_from_millis, Block};
use blockchain::models::blockchain::Blockchain;
use blockchain::models::digest::{push_decimal, to_hex};
use sha2::{Digest, Sha256};

fn reference_hash(block: &Block) -> String {
    let text = format!(
        "{}{}{}{}",
        block.index, block.timestamp, block.proof_of_work, block.previous_hash
    );
    format!("{:x}", Sha256::digest(text.as_bytes()))
}

fn assert_linked(blockchain: &Blockchain) {
    for (i, block) in blockchain.chain.iter().enumerate() {
        assert_eq!(block.index, i as u64);
        if i == 0 {
            assert_eq!(block.previous_hash, "0");
        } else {
            assert_eq!(block.previous_hash, blockchain.chain[i - 1].hash);
        }
        assert_eq!(block.hash, reference_hash(block));
        assert!(block.hash.starts_with(&"0".repeat(blockchain.difficulty)));
    }
}

#[test]
fn decimal_digits_of_small_and_large_numbers() {
    let mut out = Vec::new();
    push_decimal(&mut out, 0);
    assert_eq!(out, b"0".to_vec());
    push_decimal(&mut out, 7);
    push_decimal(&mut out, 10);
    push_decimal(&mut out, 1700000000000);
    push_decimal(&mut out, u64::MAX);
    assert_eq!(out, b"0710170000000000018446744073709551615".to_vec());
}

#[test]
fn decimal_digits_keep_what_was_there() {
    let mut out = vec![1u8, 2, 3];
    push_decimal(&mut out, 405);
    assert_eq!(out, vec![1u8, 2, 3, b'4', b'0', b'5']);
}

#[test]
fn hex_is_lowercase_two_digits_per_byte() {
    assert_eq!(to_hex(&[]), "");
    assert_eq!(to_hex(&[10, 20, 30]), "0a141e");
    assert_eq!(to_hex(&[0x00, 0x0f, 0xf0, 0xff, 0xab]), "000ff0ffab");
}

#[test]
fn hex_agrees_with_the_digest_crate_formatting() {
    let digest = Sha256::digest(b"some bytes");
    assert_eq!(to_hex(digest.as_slice()), format!("{:x}", digest));
}

#[test]
fn timestamp_of_signed_millis() {
    assert_eq!(timestamp_from_millis(0), 0);
    assert_eq!(timestamp_from_millis(1700000000000), 1700000000000);
    assert_eq!(timestamp_from_millis(i64::MAX), i64::MAX as u64);
    assert_eq!(timestamp_from_millis(-1), u64::MAX);
    assert_eq!(timestamp_from_millis(-2), (-2i64) as u64);
    assert_eq!(timestamp_from_millis(i64::MIN), 1u64 << 63);
}

#[test]
fn leading_zeros_edge_cases() {
    assert!(leading_zeros_at_least("", 0));
    assert!(!leading_zeros_at_least("", 1));
    assert!(leading_zeros_at_least("abc", 0));
    assert!(leading_zeros_at_least("00ab", 1));
    assert!(leading_zeros_at_least("00ab", 2));
    assert!(!leading_zeros_at_least("00ab", 3));
    assert!(leading_zeros_at_least("000", 3));
    assert!(!leading_zeros_at_least("000", 4));
    assert!(!leading_zeros_at_least("0é0", 3));
    assert!(leading_zeros_at_least("0é0", 1));
    assert!(!leading_zeros_at_least("000", usize::MAX));
}

#[test]
fn new_block_is_unmined() {
    let block = Block::new(3, String::from("abc"));
    assert_eq!(block.index, 3);
    assert_eq!(block.proof_of_work, 0);
    assert_eq!(block.previous_hash, "abc");
    assert_eq!(block.hash, "");
    assert!(block.timestamp > 1_600_000_000_000);
}

#[test]
fn block_with_timestamp_takes_the_time_given() {
    let block = Block::with_timestamp(9, String::from("ff"), 12345);
    assert_eq!(block.index, 9);
    assert_eq!(block.timestamp, 12345);
    assert_eq!(block.proof_of_work, 0);
    assert_eq!(block.previous_hash, "ff");
    assert_eq!(block.hash, "");
}

#[test]
fn preimage_is_the_fields_without_delimiters() {
    let mut block = Block::with_timestamp(1, String::from("abc"), 2);
    block.proof_of_work = 3;
    assert_eq!(block.preimage(), b"123abc".to_vec());
    let other = Block::with_timestamp(12, String::from(""), 3);
    assert_eq!(other.preimage(), b"1230".to_vec());
}

#[test]
fn calculate_hash_exact_value() {
    let mut block = Block::with_timestamp(1, String::from("abc"), 2);
    block.proof_of_work = 3;
    block.calculate_hash();
    assert_eq!(
        block.hash,
        "dd130a849d7b29e5541b05d2f7f86a4acd4f1ec598c1c9438783f56bc4f0ff80"
    );
    assert_eq!(block.index, 1);
    assert_eq!(block.timestamp, 2);
    assert_eq!(block.proof_of_work, 3);
    assert_eq!(block.previous_hash, "abc");
}

#[test]
fn calculate_hash_of_non_ascii_previous_hash() {
    let mut block = Block::with_timestamp(5, String::from("é"), 71);
    block.proof_of_work = 8;
    block.calculate_hash();
    assert_eq!(
        block.hash,
        "fe0cbb408fb5ddd896560443b360cea658952add880f75d44b8ed7aebe6f2023"
    );
}

#[test]
fn calculate_hash_is_idempotent() {
    let mut block = Block::with_timestamp(4, String::from("00aa"), 1700000000000);
    block.proof_of_work = 77;
    block.calculate_hash();
    let first = block.hash.clone();
    block.calculate_hash();
    assert_eq!(block.hash, first);
    block.hash = String::from("stale");
    block.calculate_hash();
    assert_eq!(block.hash, first);
    assert_eq!(first.len(), 64);
    assert_eq!(first, reference_hash(&block));
}

#[test]
fn calculate_hash_depends_on_every_field() {
    let mut base = Block::with_timestamp(1, String::from("a"), 2);
    base.calculate_hash();
    let mut other_index = Block::with_timestamp(3, String::from("a"), 2);
    other_index.calculate_hash();
    let mut other_time = Block::with_timestamp(1, String::from("a"), 4);
    other_time.calculate_hash();
    let mut other_previous = Block::with_timestamp(1, String::from("b"), 2);
    other_previous.calculate_hash();
    let mut other_counter = Block::with_timestamp(1, String::from("a"), 2);
    other_counter.proof_of_work = 1;
    other_counter.calculate_hash();
    assert_ne!(base.hash, other_index.hash);
    assert_ne!(base.hash, other_time.hash);
    assert_ne!(base.hash, other_previous.hash);
    assert_ne!(base.hash, other_counter.hash);
}

#[test]
fn mine_at_difficulty_zero_takes_the_next_counter() {
    let mut block = Block::with_timestamp(0, String::from("0"), 1700000000000);
    block.mine(0);
    assert_eq!(block.proof_of_work, 1);
    assert_eq!(
        block.hash,
        "0a66cc1957753e32756377ef9929ceaa3bbcb6c3af800afadda549659a8360bd"
    );
    block.mine(0);
    assert_eq!(block.proof_of_work, 2);
    assert_eq!(block.hash, reference_hash(&block));
}

#[test]
fn mine_finds_the_first_counter_that_solves() {
    let expected: [(usize, u64, &str); 5] = [
        (0, 1, "0a66cc1957753e32756377ef9929ceaa3bbcb6c3af800afadda549659a8360bd"),
        (1, 1, "0a66cc1957753e32756377ef9929ceaa3bbcb6c3af800afadda549659a8360bd"),
        (2, 432, "00fc787eb099cfb8674799922a7031781a9746b090512ed1296c8a103133be7a"),
        (3, 556, "00068587b10599c611c8348cbfb3166b03bfc9825dad152932eac0260e4089e9"),
        (4, 8064, "0000cd9e19090fb8698948be018d8ac18a673fa382a9158dcbc7007b248c81ea"),
    ];
    for (difficulty, counter, hash) in expected {
        let mut block = Block::with_timestamp(0, String::from("0"), 1700000000000);
        block.mine(difficulty);
        assert_eq!(block.proof_of_work, counter);
        assert_eq!(block.hash, hash);
        assert!(block.meets_difficulty(difficulty));
        assert_eq!(block.index, 0);
        assert_eq!(block.timestamp, 1700000000000);
        assert_eq!(block.previous_hash, "0");
    }
}

#[test]
fn mined_hash_has_the_leading_zeros_for_each_difficulty() {
    for difficulty in 0..=4usize {
        let mut block = Block::new(7, String::from("00ab"));
        block.mine(difficulty);
        assert!(block.hash.starts_with(&"0".repeat(difficulty)));
        assert!(block.meets_difficulty(difficulty));
        assert_eq!(block.hash, reference_hash(&block));
        assert!(block.proof_of_work >= 1);
    }
}

#[test]
fn mine_gives_up_at_the_largest_counter() {
    let mut block = Block::with_timestamp(2, String::from("0"), 5);
    block.proof_of_work = u64::MAX - 1;
    block.mine(65);
    assert_eq!(block.proof_of_work, u64::MAX);
    assert_eq!(block.hash, reference_hash(&block));
    assert!(!block.meets_difficulty(65));
}

#[test]
fn meets_difficulty_reads_the_stored_hash() {
    let mut block = Block::with_timestamp(0, String::from("0"), 1);
    assert!(block.meets_difficulty(0));
    assert!(!block.meets_difficulty(1));
    block.hash = String::from("0001ff");
    assert!(block.meets_difficulty(3));
    assert!(!block.meets_difficulty(4));
}

#[test]
fn block_clone_keeps_every_field() {
    let mut block = Block::with_timestamp(6, String::from("prev"), 99);
    block.mine(1);
    let copy = block.clone();
    assert_eq!(copy.index, block.index);
    assert_eq!(copy.timestamp, block.timestamp);
    assert_eq!(copy.proof_of_work, block.proof_of_work);
    assert_eq!(copy.previous_hash, block.previous_hash);
    assert_eq!(copy.hash, block.hash);
}

#[test]
fn empty_ledger_has_no_block_and_no_difficulty() {
    let blockchain = Blockchain::empty();
    assert!(blockchain.is_empty());
    assert_eq!(blockchain.chain.len(), 0);
    assert_eq!(blockchain.difficulty, 0);
}

#[test]
fn new_chain_has_a_mined_genesis_block() {
    for difficulty in 0..=3usize {
        let blockchain = Blockchain::new(difficulty);
        assert_eq!(blockchain.difficulty, difficulty);
        assert_eq!(blockchain.chain.len(), 1);
        assert!(!blockchain.is_empty());
        assert_eq!(blockchain.chain[0].index, 0);
        assert_eq!(blockchain.chain[0].previous_hash, "0");
        assert_linked(&blockchain);
    }
}

#[test]
fn genesis_at_difficulty_zero_uses_counter_one() {
    let blockchain = Blockchain::new(0);
    let genesis = &blockchain.chain[0];
    assert_eq!(genesis.proof_of_work, 1);
    let text = format!("{}{}{}0", 0, genesis.timestamp, genesis.proof_of_work);
    assert_eq!(genesis.hash, format!("{:x}", Sha256::digest(text.as_bytes())));
}

#[test]
fn add_block_links_to_the_tip() {
    let mut blockchain = Blockchain::new(2);
    for expected_len in 2..=5usize {
        let before: Vec<String> = blockchain.chain.iter().map(|b| b.hash.clone()).collect();
        blockchain.add_block();
        assert_eq!(blockchain.chain.len(), expected_len);
        assert_eq!(blockchain.difficulty, 2);
        let after: Vec<String> = blockchain.chain.iter().map(|b| b.hash.clone()).collect();
        assert_eq!(&after[..expected_len - 1], &before[..]);
        let tip = &blockchain.chain[expected_len - 1];
        assert_eq!(tip.index, (expected_len - 1) as u64);
        assert_eq!(tip.previous_hash, before[expected_len - 2]);
        assert_linked(&blockchain);
    }
}

#[test]
fn add_block_first_solution_from_known_tip() {
    let mut genesis = Block::with_timestamp(0, String::from("0"), 1700000000000);
    genesis.mine(2);
    let mut blockchain = Blockchain { chain: vec![genesis], difficulty: 2 };
    blockchain.add_block();
    let tip = &blockchain.chain[1];
    assert_eq!(
        tip.previous_hash,
        "00fc787eb099cfb8674799922a7031781a9746b090512ed1296c8a103133be7a"
    );
    let mut replay = Block::with_timestamp(1, tip.previous_hash.clone(), tip.timestamp);
    replay.mine(2);
    assert_eq!(replay.proof_of_work, tip.proof_of_work);
    assert_eq!(replay.hash, tip.hash);
}

#[test]
fn mine_block_mines_only_the_block_named() {
    let first = Block::with_timestamp(0, String::from("0"), 1700000000000);
    let second = Block::with_timestamp(1, String::from("x"), 1700000000001);
    let mut blockchain = Blockchain { chain: vec![first, second], difficulty: 2 };
    blockchain.mine_block(0);
    assert_eq!(blockchain.chain[0].proof_of_work, 432);
    assert_eq!(
        blockchain.chain[0].hash,
        "00fc787eb099cfb8674799922a7031781a9746b090512ed1296c8a103133be7a"
    );
    assert_eq!(blockchain.chain[1].proof_of_work, 0);
    assert_eq!(blockchain.chain[1].hash, "");
    assert_eq!(blockchain.chain.len(), 2);
    assert_eq!(blockchain.difficulty, 2);
}

#[test]
fn mine_block_without_such_a_block_changes_nothing() {
    let mut blockchain = Blockchain::new(1);
    let counter = blockchain.chain[0].proof_of_work;
    let hash = blockchain.chain[0].hash.clone();
    blockchain.mine_block(1);
    blockchain.mine_block(u64::MAX);
    assert_eq!(blockchain.chain.len(), 1);
    assert_eq!(blockchain.chain[0].proof_of_work, counter);
    assert_eq!(blockchain.chain[0].hash, hash);
    let mut empty = Blockchain::empty();
    empty.mine_block(0);
    assert!(empty.is_empty());
}

#[test]
fn compare_returns_the_longer_chain() {
    let mut long = Blockchain::new(0);
    long.add_block();
    long.add_block();
    let short = Blockchain::new(0);
    assert!(std::ptr::eq(Blockchain::compare(&long, &short), &long));
    assert!(std::ptr::eq(Blockchain::compare(&short, &long), &long));
}

#[test]
fn compare_tie_goes_to_the_second_chain() {
    let mut a = Blockchain::new(0);
    a.add_block();
    let mut b = Blockchain::new(1);
    b.add_block();
    assert!(std::ptr::eq(Blockchain::compare(&a, &b), &b));
    assert!(std::ptr::eq(Blockchain::compare(&b, &a), &a));
    let empty1 = Blockchain::empty();
    let empty2 = Blockchain::empty();
    assert!(std::ptr::eq(Blockchain::compare(&empty1, &empty2), &empty2));
}

#[test]
fn compare_with_an_empty_ledger() {
    let empty = Blockchain::empty();
    let one = Blockchain::new(0);
    assert!(std::ptr::eq(Blockchain::compare(&empty, &one), &one));
    assert!(std::ptr::eq(Blockchain::compare(&one, &empty), &one));
}

#[test]
fn blockchain_clone_is_an_equal_chain() {
    let mut blockchain = Blockchain::new(1);
    blockchain.add_block();
    blockchain.add_block();
    let copy = blockchain.clone();
    assert_eq!(copy.difficulty, blockchain.difficulty);
    assert_eq!(copy.chain.len(), blockchain.chain.len());
    for (a, b) in copy.chain.iter().zip(blockchain.chain.iter()) {
        assert_eq!(a.index, b.index);
        assert_eq!(a.timestamp, b.timestamp);
        assert_eq!(a.proof_of_work, b.proof_of_work);
        assert_eq!(a.previous_hash, b.previous_hash);
        assert_eq!(a.hash, b.hash);
    }
    assert_linked(&copy);
}
