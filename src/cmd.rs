//! The node's command lines: `ls p`, `ls c` and `create b <text>`.
use vstd::prelude::*;
use vstd::string::StringSliceAdditionalSpecFns;
use vstd::utf8::{
    encode_utf8, encode_utf8_valid_utf8, is_char_boundary, length_of_first_scalar, pop_first_scalar, valid_utf8,
};

verus! {

/// A command typed by the user.
#[derive(Clone, Debug, PartialEq, Eq)]
pub enum Command {
    /// `ls p`: list the known peers.
    ListPeers,
    /// `ls c` (and anything after it): print the local chain.
    PrintChain,
    /// `create b` followed by the payload, which is everything after those
    /// eight characters.
    CreateBlock(String),
    /// Anything else.
    Unknown,
}

/// The bytes of `ls p`.
pub open spec fn list_peers_text() -> Seq<u8> {
    seq![0x6cu8, 0x73u8, 0x20u8, 0x70u8]
}

/// The bytes of `ls c`.
pub open spec fn print_chain_text() -> Seq<u8> {
    seq![0x6cu8, 0x73u8, 0x20u8, 0x63u8]
}

/// The bytes of `create b`.
pub open spec fn create_block_text() -> Seq<u8> {
    seq![0x63u8, 0x72u8, 0x65u8, 0x61u8, 0x74u8, 0x65u8, 0x20u8, 0x62u8]
}

pub open spec fn starts_with(b: Seq<u8>, p: Seq<u8>) -> bool {
    p.len() <= b.len() && b.subrange(0, p.len() as int) == p
}

/// A position within a leading run of one-byte characters is a character boundary.
proof fn lemma_ascii_boundary(bytes: Seq<u8>, k: int)
    requires
        valid_utf8(bytes),
        0 <= k <= bytes.len(),
        forall|i: int| 0 <= i < k ==> bytes[i] < 0x80,
    ensures
        is_char_boundary(bytes, k),
    decreases k,
{
    if k > 0 {
        assert(length_of_first_scalar(bytes) == 1);
        let rest = pop_first_scalar(bytes);
        assert forall|i: int| 0 <= i < k - 1 implies rest[i] < 0x80 by {
            assert(rest[i] == bytes[i + 1]);
        }
        lemma_ascii_boundary(rest, k - 1);
    }
}

/// Reads a command line. `ls p` must be the whole line; `ls c` and
/// `create b` need only start it.
pub fn parse_command(line: &str) -> (r: Command)
    ensures
        ({
            let b = line.spec_bytes();
            match r {
                Command::ListPeers => b == list_peers_text(),
                Command::PrintChain => b != list_peers_text() && starts_with(b, print_chain_text()),
                Command::CreateBlock(d) => {
                    &&& b != list_peers_text()
                    &&& !starts_with(b, print_chain_text())
                    &&& starts_with(b, create_block_text())
                    &&& encode_utf8(d@) == b.subrange(8, b.len() as int)
                },
                Command::Unknown => {
                    &&& b != list_peers_text()
                    &&& !starts_with(b, print_chain_text())
                    &&& !starts_with(b, create_block_text())
                },
            }
        }),
{
    let b = line.as_bytes();
    proof {
        encode_utf8_valid_utf8(line@);
    }
    let n = b.len();
    if n >= 4 && b[0] == 0x6cu8 && b[1] == 0x73u8 && b[2] == 0x20u8 {
        if b[3] == 0x70u8 && n == 4 {
            assert(b@ =~= list_peers_text());
            return Command::ListPeers;
        }
        if b[3] == 0x63u8 {
            assert(b@.subrange(0, 4) =~= print_chain_text());
            return Command::PrintChain;
        }
        assert(b@.subrange(0, 4) != print_chain_text());
        assert(b@ != list_peers_text());
    } else {
        assert(b@.len() < 4 || b@.subrange(0, 4)[0] != 0x6cu8 || b@.subrange(0, 4)[1] != 0x73u8
            || b@.subrange(0, 4)[2] != 0x20u8);
        assert(b@ != list_peers_text());
    }
    if n >= 8 && b[0] == 0x63u8 && b[1] == 0x72u8 && b[2] == 0x65u8 && b[3] == 0x61u8 && b[4]
        == 0x74u8 && b[5] == 0x65u8 && b[6] == 0x20u8 && b[7] == 0x62u8 {
        assert(b@.subrange(0, 8) =~= create_block_text());
        proof {
            lemma_ascii_boundary(b@, 8);
        }
        let (_, rest) = line.split_at(8);
        let d = rest.to_owned();
        return Command::CreateBlock(d);
    }
    assert(!starts_with(b@, create_block_text())) by {
        if starts_with(b@, create_block_text()) {
            assert(b@.subrange(0, 8)[0] == b@[0]);
            assert(b@.subrange(0, 8)[1] == b@[1]);
            assert(b@.subrange(0, 8)[2] == b@[2]);
            assert(b@.subrange(0, 8)[3] == b@[3]);
            assert(b@.subrange(0, 8)[4] == b@[4]);
            assert(b@.subrange(0, 8)[5] == b@[5]);
            assert(b@.subrange(0, 8)[6] == b@[6]);
            assert(b@.subrange(0, 8)[7] == b@[7]);
        }
    }
    Command::Unknown
}

} // verus!
