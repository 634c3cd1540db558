//! Peer synchronisation: the messages nodes exchange and how a node
//! answers each of them.
use crate::block::{digest_of, meets_difficulty, no_nonce_meets, Block, GENESIS_NONCE, GENESIS_TEXT};
use crate::chain::{
    block_valid, chain_valid, choice, lemma_mined_block_valid, lemma_push_valid, Chain, ChainError,
};
use vstd::prelude::*;

verus! {

/// A request that the named peer reveal its chain.
#[derive(Clone, Debug, PartialEq, Eq)]
pub struct ChainRequest {
    pub from_peer_id: String,
}

/// A chain sent in answer to a request, addressed to the requester.
#[derive(Clone, Debug, PartialEq, Eq)]
pub struct ChainResponse {
    pub blocks: Vec<Block>,
    pub receiver: String,
}

/// A decoded inbound message.
#[derive(Clone, Debug, PartialEq, Eq)]
pub enum Message {
    Response(ChainResponse),
    Request(ChainRequest),
    /// A newly mined block announced by a peer.
    Announce(Block),
}

/// What the node's event loop reacts to.
#[derive(Debug)]
pub enum Event {
    /// A response to send to the peers.
    ChainResponse(ChainResponse),
    /// A command line typed by the user.
    Cmd(String),
    /// The startup timer fired.
    Init,
}

/// Picks the message that an inbound payload stands for, given the result of
/// reading it as each of the three shapes: a response first, then a request,
/// then a block. `None` when it is none of them.
pub fn pick_message(
    response: Option<ChainResponse>,
    request: Option<ChainRequest>,
    block: Option<Block>,
) -> (r: Option<Message>)
    ensures
        match response {
            Some(resp) => r == Some(Message::Response(resp)),
            None => match request {
                Some(req) => r == Some(Message::Request(req)),
                None => match block {
                    Some(b) => r == Some(Message::Announce(b)),
                    None => r is None,
                },
            },
        },
{
    match response {
        Some(resp) => Some(Message::Response(resp)),
        None => match request {
            Some(req) => Some(Message::Request(req)),
            None => match block {
                Some(b) => Some(Message::Announce(b)),
                None => None,
            },
        },
    }
}

/// A copy of a sequence of blocks.
pub fn copy_blocks(v: &Vec<Block>) -> (r: Vec<Block>)
    ensures
        r@ == v@,
{
    let mut r: Vec<Block> = Vec::new();
    let mut i: usize = 0;
    while i < v.len()
        invariant
            0 <= i <= v.len(),
            r@ == v@.subrange(0, i as int),
        decreases v.len() - i,
    {
        r.push(v[i].duplicate());
        i = i + 1;
        assert(r@ =~= v@.subrange(0, i as int));
    }
    assert(v@.subrange(0, v.len() as int) =~= v@);
    r
}

impl Chain {
    /// Handles one inbound message for the node named `own_id`; `source` is
    /// the peer it came from. A response addressed to this node goes through
    /// fork choice and the winner becomes the local chain; a request naming
    /// this node is answered with the whole local chain, addressed to
    /// `source`; an announced block is appended if valid against the tip.
    /// Everything else leaves the chain as it is.
    pub fn handle_message(&mut self, own_id: &String, source: &String, msg: Message) -> (r: Result<
        Option<ChainResponse>,
        ChainError,
    >)
        ensures
            match msg {
                Message::Response(resp) => if resp.receiver@ == own_id@ {
                    match choice(old(self).blocks@, resp.blocks@) {
                        Ok(c) => r is Ok && r->Ok_0 is None && final(self).blocks@ == c,
                        Err(e) => r == Err::<Option<ChainResponse>, ChainError>(e)
                            && final(self).blocks@ == old(self).blocks@,
                    }
                } else {
                    r is Ok && r->Ok_0 is None && final(self).blocks@ == old(self).blocks@
                },
                Message::Request(req) => {
                    &&& final(self).blocks@ == old(self).blocks@
                    &&& r is Ok
                    &&& if req.from_peer_id@ == own_id@ {
                        &&& r->Ok_0 is Some
                        &&& r->Ok_0->Some_0.blocks@ == old(self).blocks@
                        &&& r->Ok_0->Some_0.receiver@ == source@
                    } else {
                        r->Ok_0 is None
                    }
                },
                Message::Announce(b) => if old(self).blocks@.len() == 0 {
                    r == Err::<Option<ChainResponse>, ChainError>(ChainError::NotInitialized)
                        && final(self).blocks@ == old(self).blocks@
                } else {
                    &&& r is Ok
                    &&& r->Ok_0 is None
                    &&& final(self).blocks@ == if block_valid(b, old(self).blocks@.last()) {
                        old(self).blocks@.push(b)
                    } else {
                        old(self).blocks@
                    }
                },
            },
            chain_valid(old(self).blocks@) ==> chain_valid(final(self).blocks@),
    {
        match msg {
            Message::Response(resp) => {
                if resp.receiver == *own_id {
                    let local = copy_blocks(&self.blocks);
                    match self.choose_chain(local, resp.blocks) {
                        Ok(c) => {
                            self.blocks = c;
                            Ok(None)
                        },
                        Err(e) => Err(e),
                    }
                } else {
                    Ok(None)
                }
            },
            Message::Request(req) => {
                if req.from_peer_id == *own_id {
                    Ok(Some(ChainResponse { blocks: copy_blocks(&self.blocks), receiver: source.clone() }))
                } else {
                    Ok(None)
                }
            },
            Message::Announce(b) => {
                match self.try_add_block(b) {
                    Ok(_) => Ok(None),
                    Err(e) => Err(e),
                }
            },
        }
    }

    /// Startup: appends a genesis block stamped with `timestamp` and, when
    /// some peer is known, asks the last of `peers` for its chain.
    pub fn start(&mut self, peers: &Vec<String>, timestamp: i64) -> (r: Option<ChainRequest>)
        ensures
            final(self).blocks@.len() == old(self).blocks@.len() + 1,
            final(self).blocks@.drop_last() == old(self).blocks@,
            final(self).blocks@.last().id == 0,
            final(self).blocks@.last().previous_hash@ == GENESIS_TEXT@,
            final(self).blocks@.last().data@ == GENESIS_TEXT@,
            final(self).blocks@.last().nonce == GENESIS_NONCE,
            final(self).blocks@.last().timestamp == timestamp,
            final(self).blocks@.last().hash_consistent(),
            peers@.len() == 0 ==> r is None,
            peers@.len() > 0 ==> r is Some && r->Some_0.from_peer_id@ == peers@.last()@,
    {
        self.genesis(timestamp);
        if peers.len() == 0 {
            None
        } else {
            Some(ChainRequest { from_peer_id: peers[peers.len() - 1].clone() })
        }
    }

    /// Mines a block over `data` at `timestamp` on top of the tip and appends
    /// it. Gives the new block, for announcing to the peers.
    pub fn create_block(&mut self, data: String, timestamp: i64) -> (r: Result<Block, ChainError>)
        ensures
            old(self).blocks@.len() == 0 ==> r == Err::<Block, ChainError>(ChainError::NotInitialized),
            old(self).blocks@.len() > 0 && old(self).blocks@.last().id == u64::MAX ==> r == Err::<
                Block,
                ChainError,
            >(ChainError::IdSpaceExhausted),
            r is Err ==> final(self).blocks@ == old(self).blocks@,
            r is Ok ==> {
                let b = r->Ok_0;
                let tip = old(self).blocks@.last();
                &&& b.mined_from(tip)
                &&& b.data@ == data@
                &&& b.timestamp == timestamp
                &&& final(self).blocks@ == old(self).blocks@.push(b)
                &&& forall|n: u64|
                    n < b.nonce ==> !meets_difficulty(
                        #[trigger] digest_of(b.id, b.timestamp, tip.hash@, data@, n),
                    )
            },
            r == Err::<Block, ChainError>(ChainError::NonceSpaceExhausted) ==> no_nonce_meets(
                (old(self).blocks@.last().id + 1) as u64,
                timestamp,
                old(self).blocks@.last().hash@,
                data@,
            ),
            old(self).blocks@.len() > 0 && old(self).blocks@.last().id < u64::MAX && r is Err ==> r
                == Err::<Block, ChainError>(ChainError::NonceSpaceExhausted),
            chain_valid(old(self).blocks@) && (old(self).blocks@.len() > 0 ==> old(
                self,
            ).blocks@.last().hash_consistent()) ==> chain_valid(final(self).blocks@),
    {
        let n = self.blocks.len();
        if n == 0 {
            return Err(ChainError::NotInitialized);
        }
        if self.blocks[n - 1].id == u64::MAX {
            return Err(ChainError::IdSpaceExhausted);
        }
        match self.blocks[n - 1].mine_block(data, timestamp) {
            Some(b) => {
                self.blocks.push(b.duplicate());
                proof {
                    if chain_valid(old(self).blocks@) && old(self).blocks@.last().hash_consistent() {
                        lemma_mined_block_valid(b, old(self).blocks@.last());
                        lemma_push_valid(old(self).blocks@, b);
                    }
                }
                Ok(b)
            },
            None => Err(ChainError::NonceSpaceExhausted),
        }
    }
}

} // verus!
