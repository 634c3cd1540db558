//! The block record, its digest, and proof-of-work mining.
use crate::hexcode::{encode_hex, hex_chars};
use vstd::bytes::{spec_u64_to_le_bytes, u64_to_le_bytes};
use vstd::prelude::*;
use vstd::utf8::encode_utf8;

verus! {

/// Text that stands in the genesis block for both the parent hash and the payload.
pub const GENESIS_TEXT: &'static str = "创世区块";

/// The nonce of the genesis block.
pub const GENESIS_NONCE: u64 = 123;

/// One ledger entry.
#[derive(Clone, Debug, PartialEq, Eq)]
pub struct Block {
    pub id: u64,
    pub hash: String,
    pub previous_hash: String,
    pub timestamp: i64,
    pub data: String,
    pub nonce: u64,
}

/// What SHA-256 gives for a byte string.
pub uninterp spec fn sha256_of(b: Seq<u8>) -> Seq<u8>;

/// Relies on sha2::Sha256: a 32-byte digest that depends on the input bytes alone.
#[verifier::external_body]
fn sha256(b: &[u8]) -> (r: Vec<u8>)
    ensures
        r@ == sha256_of(b@),
        r@.len() == 32,
{
    <sha2::Sha256 as sha2::Digest>::digest(b).to_vec()
}

/// The bytes that are hashed: id, timestamp (both little-endian),
/// the parent hash and payload as UTF-8, then the nonce (little-endian).
pub open spec fn preimage_of(
    id: u64,
    timestamp: i64,
    previous_hash: Seq<char>,
    data: Seq<char>,
    nonce: u64,
) -> Seq<u8> {
    spec_u64_to_le_bytes(id) + spec_u64_to_le_bytes(timestamp as u64) + encode_utf8(previous_hash)
        + encode_utf8(data) + spec_u64_to_le_bytes(nonce)
}

pub open spec fn digest_of(
    id: u64,
    timestamp: i64,
    previous_hash: Seq<char>,
    data: Seq<char>,
    nonce: u64,
) -> Seq<u8> {
    sha256_of(preimage_of(id, timestamp, previous_hash, data, nonce))
}

/// The difficulty predicate: the raw digest starts with the bytes of "00".
pub open spec fn meets_difficulty(d: Seq<u8>) -> bool {
    d.len() >= 2 && d[0] == 0x30u8 && d[1] == 0x30u8
}

pub fn has_difficulty_prefix(d: &[u8]) -> (r: bool)
    ensures
        r == meets_difficulty(d@),
{
    d.len() >= 2 && d[0] == 0x30u8 && d[1] == 0x30u8
}

/// No nonce at all makes a block with these fields meet the difficulty.
pub open spec fn no_nonce_meets(
    id: u64,
    timestamp: i64,
    previous_hash: Seq<char>,
    data: Seq<char>,
) -> bool {
    forall|n: u64| !meets_difficulty(#[trigger] digest_of(id, timestamp, previous_hash, data, n))
}

impl Block {
    /// The digest of this block's fields.
    pub open spec fn digest(&self) -> Seq<u8> {
        digest_of(self.id, self.timestamp, self.previous_hash@, self.data@, self.nonce)
    }

    /// The stored hash is the hex text of the block's own digest.
    pub open spec fn hash_consistent(&self) -> bool {
        self.hash@ == hex_chars(self.digest())
    }

    /// This block is what mining over `parent` and `data` at `timestamp` yields:
    /// it chains to the parent, meets the difficulty, and holds its own hash.
    pub open spec fn mined_from(&self, parent: Block) -> bool {
        &&& self.id == parent.id + 1
        &&& self.previous_hash@ == parent.hash@
        &&& meets_difficulty(self.digest())
        &&& self.hash_consistent()
    }

    /// An exact copy of the block.
    pub fn duplicate(&self) -> (r: Block)
        ensures
            r == *self,
    {
        Block {
            id: self.id,
            hash: self.hash.clone(),
            previous_hash: self.previous_hash.clone(),
            timestamp: self.timestamp,
            data: self.data.clone(),
            nonce: self.nonce,
        }
    }

    fn preimage(&self) -> (r: Vec<u8>)
        ensures
            r@ == preimage_of(
                self.id,
                self.timestamp,
                self.previous_hash@,
                self.data@,
                self.nonce,
            ),
    {
        let mut v = u64_to_le_bytes(self.id);
        let mut t = u64_to_le_bytes(self.timestamp as u64);
        v.append(&mut t);
        push_bytes(&mut v, self.previous_hash.as_str().as_bytes());
        push_bytes(&mut v, self.data.as_str().as_bytes());
        let mut n = u64_to_le_bytes(self.nonce);
        v.append(&mut n);
        v
    }

    /// The raw digest of the block's fields.
    pub fn calculate_hash(&self) -> (r: Vec<u8>)
        ensures
            r@ == self.digest(),
            r@.len() == 32,
    {
        let p = self.preimage();
        sha256(p.as_slice())
    }

    /// The genesis block with the given timestamp.
    pub fn genesis(timestamp: i64) -> (r: Block)
        ensures
            r.id == 0,
            r.timestamp == timestamp,
            r.previous_hash@ == GENESIS_TEXT@,
            r.data@ == GENESIS_TEXT@,
            r.nonce == GENESIS_NONCE,
            r.hash_consistent(),
    {
        let mut b = Block {
            id: 0,
            timestamp,
            previous_hash: GENESIS_TEXT.to_owned(),
            data: GENESIS_TEXT.to_owned(),
            nonce: GENESIS_NONCE,
            hash: String::new(),
        };
        let d = b.calculate_hash();
        b.hash = encode_hex(d.as_slice());
        b
    }

    /// Mines a child of this block over `data` at `timestamp`: tries nonces
    /// from zero upward and takes the first whose digest meets the difficulty.
    /// Gives `None` only when no nonce at all does.
    pub fn mine_block(&self, data: String, timestamp: i64) -> (r: Option<Block>)
        requires
            self.id < u64::MAX,
        ensures
            match r {
                Some(b) => {
                    &&& b.mined_from(*self)
                    &&& b.timestamp == timestamp
                    &&& b.data@ == data@
                    &&& forall|n: u64|
                        n < b.nonce ==> !meets_difficulty(
                            #[trigger] digest_of(b.id, timestamp, self.hash@, data@, n),
                        )
                },
                None => no_nonce_meets((self.id + 1) as u64, timestamp, self.hash@, data@),
            },
    {
        let mut b = Block {
            id: self.id + 1,
            hash: String::new(),
            previous_hash: self.hash.clone(),
            timestamp,
            data,
            nonce: 0,
        };
        loop
            invariant
                b.id == self.id + 1,
                b.previous_hash@ == self.hash@,
                b.timestamp == timestamp,
                b.data@ == data@,
                forall|n: u64|
                    n < b.nonce ==> !meets_difficulty(
                        #[trigger] digest_of(b.id, timestamp, self.hash@, data@, n),
                    ),
            decreases u64::MAX - b.nonce,
        {
            let d = b.calculate_hash();
            if has_difficulty_prefix(d.as_slice()) {
                b.hash = encode_hex(d.as_slice());
                return Some(b);
            }
            if b.nonce == u64::MAX {
                return None;
            }
            b.nonce = b.nonce + 1;
        }
    }

}

/// The digest depends on the fields it covers and nothing else: two blocks
/// that agree on id, timestamp, parent hash, payload and nonce have the
/// same digest, whatever their stored hash.
pub proof fn lemma_digest_deterministic(a: Block, b: Block)
    requires
        a.id == b.id,
        a.timestamp == b.timestamp,
        a.previous_hash@ == b.previous_hash@,
        a.data@ == b.data@,
        a.nonce == b.nonce,
    ensures
        a.digest() == b.digest(),
{
}

fn push_bytes(v: &mut Vec<u8>, s: &[u8])
    ensures
        final(v)@ == old(v)@ + s@,
{
    let mut i: usize = 0;
    while i < s.len()
        invariant
            0 <= i <= s.len(),
            v@ == old(v)@ + s@.subrange(0, i as int),
        decreases s.len() - i,
    {
        v.push(s[i]);
        i = i + 1;
        assert(s@.subrange(0, i as int) =~= s@.subrange(0, i - 1) + seq![s@[i - 1]]);
    }
    assert(s@.subrange(0, s.len() as int) =~= s@);
}

} // verus!
