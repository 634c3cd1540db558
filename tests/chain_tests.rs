use p2p_ledger::block::Block;
use p2p_ledger::chain::{check_block, BlockFault, Chain, ChainError};

fn mined_chain(n: usize) -> Vec<Block> {
    let mut v = vec![Block::genesis(10)];
    for i in 1..n {
        let b = v[i - 1]
            .mine_block(format!("block {}", i), 10 + i as i64)
            .unwrap();
        v.push(b);
    }
    v
}

#[test]
fn is_chain_valid_test() {
    let mut c = Chain::new();
    c.genesis(1_700_000_000);
    let b = c
        .blocks
        .last()
        .expect("should not happen")
        .mine_block(String::from("value"), 1_700_000_060)
        .unwrap();
    assert_eq!(c.try_add_block(b), Ok(true));
    assert_eq!(c.blocks.len(), 2);
    assert_eq!(c.is_chain_valid(c.blocks.as_slice()), true);
}

#[test]
fn repeated_mining_gives_valid_chain() {
    let c = Chain::new();
    let v = mined_chain(4);
    assert!(c.is_chain_valid(&v));
}

#[test]
fn mutated_previous_hash_breaks_chain() {
    let c = Chain::new();
    let mut v = mined_chain(3);
    assert!(c.is_chain_valid(&v));
    v[1].previous_hash = String::from("tampered");
    assert!(!c.is_chain_valid(&v));
}

#[test]
fn short_chains_are_valid() {
    let c = Chain::new();
    assert!(c.is_chain_valid(&[]));
    let mut g = Block::genesis(0);
    g.hash = String::from("not hex at all");
    assert!(c.is_chain_valid(&[g]));
}

#[test]
fn block_faults_in_order() {
    let v = mined_chain(2);
    let (p, b) = (&v[0], &v[1]);
    assert_eq!(check_block(b, p), Ok(()));

    let mut x = b.duplicate();
    x.previous_hash = String::from("00");
    assert_eq!(check_block(&x, p), Err(BlockFault::PreviousHashMismatch));

    let mut x = b.duplicate();
    x.hash = String::from("zz");
    assert_eq!(check_block(&x, p), Err(BlockFault::MalformedHash));
    x.hash = String::from("303");
    assert_eq!(check_block(&x, p), Err(BlockFault::MalformedHash));

    let mut x = b.duplicate();
    x.hash = String::from("0000");
    assert_eq!(check_block(&x, p), Err(BlockFault::Difficulty));
    x.hash = String::from("3030AB");
    assert_eq!(check_block(&x, p), Ok(()));

    let mut x = b.duplicate();
    x.id = 5;
    assert_eq!(check_block(&x, p), Err(BlockFault::IdMismatch));

    let mut q = p.duplicate();
    q.data = String::from("changed in place");
    assert_eq!(check_block(b, &q), Err(BlockFault::ParentDigestMismatch));

    let c = Chain::new();
    assert!(c.is_block_valid(b, p));
    assert!(!c.is_block_valid(b, &q));
}

#[test]
fn fork_choice_prefers_longer_valid_chain() {
    let mut c = Chain::new();
    let short = mined_chain(2);
    let long = mined_chain(3);
    assert_eq!(c.choose_chain(short.clone(), long.clone()), Ok(long.clone()));
    assert_eq!(c.choose_chain(long.clone(), short.clone()), Ok(long.clone()));
}

#[test]
fn fork_choice_tie_keeps_local() {
    let mut c = Chain::new();
    let a = mined_chain(2);
    let g = Block::genesis(99);
    let b = vec![g.clone(), g.mine_block(String::from("other"), 100).unwrap()];
    assert_eq!(c.choose_chain(a.clone(), b.clone()), Ok(a.clone()));
    assert_eq!(c.choose_chain(b.clone(), a.clone()), Ok(b));
}

#[test]
fn fork_choice_takes_the_valid_one() {
    let mut c = Chain::new();
    let good = mined_chain(2);
    let mut bad = mined_chain(3);
    bad[2].id = 9;
    assert_eq!(c.choose_chain(good.clone(), bad.clone()), Ok(good.clone()));
    assert_eq!(c.choose_chain(bad.clone(), good.clone()), Ok(good));
}

#[test]
fn fork_choice_both_invalid_is_an_error() {
    let mut c = Chain::new();
    let mut bad = mined_chain(2);
    bad[1].id = 9;
    assert_eq!(
        c.choose_chain(bad.clone(), bad.clone()),
        Err(ChainError::BothChainsInvalid)
    );
}

#[test]
fn adding_to_empty_chain_is_not_initialized() {
    let mut c = Chain::new();
    assert_eq!(
        c.try_add_block(Block::genesis(0)),
        Err(ChainError::NotInitialized)
    );
    assert!(c.blocks.is_empty());
}

#[test]
fn invalid_block_is_not_added() {
    let mut c = Chain::new();
    c.genesis(1_700_000_000);
    let other = Block::genesis(5).mine_block(String::from("x"), 6).unwrap();
    assert_eq!(c.try_add_block(other), Ok(false));
    assert_eq!(c.blocks.len(), 1);
}
