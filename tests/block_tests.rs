use p2p_ledger::block::{Block, GENESIS_NONCE, GENESIS_TEXT};

fn starts_with_00(d: &[u8]) -> bool {
    d.len() >= 2 && d[0] == 0x30 && d[1] == 0x30
}

#[test]
fn t() {
    let mut b = Block::genesis(1_700_000_000);
    b.hash = hex::encode(b.calculate_hash());
    println!("{:?}", b);
    assert_eq!(b.id, 0);
    assert_eq!(b.nonce, GENESIS_NONCE);
}

#[test]
fn mine() {
    let mut b = Block::genesis(1_700_000_000);
    b.hash = hex::encode(b.calculate_hash());
    println!("{:?}", b);
    let s = b.mine_block(String::from("second block"), 1_700_000_060).unwrap();
    println!("{:?}", s);
    assert_eq!(s.id, 1);
    assert_eq!(s.data, "second block");
}

#[test]
fn genesis_digest_has_fixed_layout() {
    let g = Block::genesis(0);
    assert_eq!(
        g.hash,
        "ad6450c0612224863d1e711f2ea449c92d0187a2a5cef4688acf3aa3b4c0af43"
    );
    assert_eq!(g.previous_hash, GENESIS_TEXT);
    assert_eq!(g.data, GENESIS_TEXT);
}

#[test]
fn digest_covers_fields_in_order() {
    let b = Block {
        id: 7,
        hash: String::from("ignored"),
        previous_hash: String::from("ab"),
        timestamp: -2,
        data: String::from("é"),
        nonce: 9,
    };
    assert_eq!(
        hex::encode(b.calculate_hash()),
        "daca704aac09a84e8bd753ab975a7ebe485e61a160203c44d3b025e1f1387763"
    );
}

#[test]
fn digest_is_deterministic() {
    let a = Block::genesis(42);
    let mut b = a.duplicate();
    b.hash = String::from("something else");
    assert_eq!(a.calculate_hash(), a.calculate_hash());
    assert_eq!(a.calculate_hash(), b.calculate_hash());
    assert_eq!(a.calculate_hash().len(), 32);
}

#[test]
fn mined_block_meets_difficulty() {
    let g = Block::genesis(1000);
    let b = g.mine_block(String::from("payload"), 1001).unwrap();
    assert!(starts_with_00(&b.calculate_hash()));
    assert_eq!(b.hash, hex::encode(b.calculate_hash()));
    assert_eq!(b.hash.len(), 64);
    assert!(b.hash.starts_with("3030"));
}

#[test]
fn mining_second_block_from_genesis() {
    let g = Block::genesis(1_600_000_000);
    let b = g.mine_block(String::from("second block"), 1_600_000_001).unwrap();
    assert_eq!(b.id, 1);
    assert_eq!(b.previous_hash, hex::encode(g.calculate_hash()));
    assert_eq!(b.timestamp, 1_600_000_001);
    assert!(starts_with_00(&b.calculate_hash()));
    let mut probe = b.duplicate();
    for n in 0..b.nonce {
        probe.nonce = n;
        assert!(!starts_with_00(&probe.calculate_hash()));
    }
}

#[test]
fn blocks_before_the_epoch() {
    let g = Block::genesis(-86_400);
    assert_eq!(g.timestamp, -86_400);
    assert_eq!(g.hash, hex::encode(g.calculate_hash()));
    let b = g.mine_block(String::from("old"), -86_399).unwrap();
    assert_eq!(b.timestamp, -86_399);
    assert!(starts_with_00(&b.calculate_hash()));
}
