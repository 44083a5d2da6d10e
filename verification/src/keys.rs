//! Account addresses and the well-known program addresses the wallet
//! checks account ownership against.

use vstd::prelude::*;

verus! {

/// A 256-bit account address, held as four little-endian 64-bit words
/// (word 0 covers bytes 0..8 of the address, word 3 bytes 24..32).
#[derive(Clone, Copy, Debug, PartialEq, Eq, Structural)]
pub struct Address {
    pub w0: u64,
    pub w1: u64,
    pub w2: u64,
    pub w3: u64,
}

/// A 256-bit hash (a blockhash or a durable-nonce value), same layout
/// as an address but a different notion.
#[derive(Clone, Copy, Debug, PartialEq, Eq, Structural)]
pub struct Hash32 {
    pub w0: u64,
    pub w1: u64,
    pub w2: u64,
    pub w3: u64,
}

/// The eight little-endian bytes of a 64-bit word.
pub open spec fn word_bytes(w: u64) -> Seq<u8> {
    seq![
        (w % 0x100) as u8,
        ((w / 0x100) % 0x100) as u8,
        ((w / 0x10000) % 0x100) as u8,
        ((w / 0x1000000) % 0x100) as u8,
        ((w / 0x100000000) % 0x100) as u8,
        ((w / 0x10000000000) % 0x100) as u8,
        ((w / 0x1000000000000) % 0x100) as u8,
        ((w / 0x100000000000000) % 0x100) as u8,
    ]
}

impl Address {
    /// The 32 bytes of the address, in order.
    pub open spec fn bytes_spec(self) -> Seq<u8> {
        word_bytes(self.w0) + word_bytes(self.w1) + word_bytes(self.w2) + word_bytes(self.w3)
    }
}

/// Append the eight little-endian bytes of `w` to `out`.
fn push_word_bytes(out: &mut Vec<u8>, w: u64)
    ensures
        final(out)@ == old(out)@ + word_bytes(w),
{
    out.push((w % 0x100) as u8);
    out.push(((w / 0x100) % 0x100) as u8);
    out.push(((w / 0x10000) % 0x100) as u8);
    out.push(((w / 0x1000000) % 0x100) as u8);
    out.push(((w / 0x100000000) % 0x100) as u8);
    out.push(((w / 0x10000000000) % 0x100) as u8);
    out.push(((w / 0x1000000000000) % 0x100) as u8);
    out.push(((w / 0x100000000000000) % 0x100) as u8);
    proof {
        assert(out@ =~= old(out)@ + word_bytes(w));
    }
}


/// The 32 bytes of an address, in order.
pub fn address_bytes(a: &Address) -> (r: Vec<u8>)
    ensures
        r@ == a.bytes_spec(),
        r@.len() == 32,
{
    let mut out: Vec<u8> = Vec::new();
    push_word_bytes(&mut out, a.w0);
    push_word_bytes(&mut out, a.w1);
    push_word_bytes(&mut out, a.w2);
    push_word_bytes(&mut out, a.w3);
    proof {
        assert(out@ =~= a.bytes_spec());
    }
    out
}

/// The address that owns every stake account
/// (base58 `Stake11111111111111111111111111111111111111`).
pub open spec fn stake_program_address() -> Address {
    Address {
        w0: 0x2a54379117d8a106,
        w1: 0xb27a2afebd373498,
        w2: 0x2b72788a5c537f55,
        w3: 0xc09da468,
    }
}

/// The address that owns every vote account
/// (base58 `Vote111111111111111111111111111111111111111`).
pub open spec fn vote_program_address() -> Address {
    Address {
        w0: 0xbb7474351d486107,
        w1: 0xb3bdd3eb24764d7c,
        w2: 0xfc4310d1735e35d8,
        w3: 0x8053a30d,
    }
}

pub fn stake_program_id() -> (r: Address)
    ensures
        r == stake_program_address(),
{
    Address {
        w0: 0x2a54379117d8a106,
        w1: 0xb27a2afebd373498,
        w2: 0x2b72788a5c537f55,
        w3: 0xc09da468,
    }
}

pub fn vote_program_id() -> (r: Address)
    ensures
        r == vote_program_address(),
{
    Address {
        w0: 0xbb7474351d486107,
        w1: 0xb3bdd3eb24764d7c,
        w2: 0xfc4310d1735e35d8,
        w3: 0x8053a30d,
    }
}

} // verus!
