//! Little-endian readers over raw account payloads, and the error type
//! every account-state decoder reports.

use vstd::prelude::*;
use crate::keys::{Address, Hash32};

verus! {

/// Which account-state schema a decoder was asked to match.
#[derive(Clone, Copy, Debug, PartialEq, Eq, Structural)]
pub enum AccountSchema {
    StakeState,
    NonceState,
    VoteState,
}

/// Why a payload failed to match its schema.
#[derive(Clone, Copy, Debug, PartialEq, Eq, Structural)]
pub enum DecodeCause {
    /// The payload ends before the schema does.
    Truncated { needed: usize, have: usize },
    /// The leading variant tag is not one the schema defines.
    UnknownTag { tag: u32 },
    /// The payload is malformed in some deeper way the decoder reports
    /// without further detail.
    Malformed,
}

/// A payload did not match the expected schema.
#[derive(Clone, Copy, Debug, PartialEq, Eq, Structural)]
pub struct DecodeError {
    pub schema: AccountSchema,
    pub cause: DecodeCause,
}

/// The 32-bit little-endian integer held at `b[i..i + 4]`.
pub open spec fn le32_at(b: Seq<u8>, i: int) -> int {
    b[i] + b[i + 1] * 0x100 + b[i + 2] * 0x10000 + b[i + 3] * 0x1000000
}

/// The 64-bit little-endian integer held at `b[i..i + 8]`.
pub open spec fn le64_at(b: Seq<u8>, i: int) -> int {
    b[i] + b[i + 1] * 0x100 + b[i + 2] * 0x10000 + b[i + 3] * 0x1000000
        + b[i + 4] * 0x100000000 + b[i + 5] * 0x10000000000
        + b[i + 6] * 0x1000000000000 + b[i + 7] * 0x100000000000000
}

/// The address whose 32 bytes are held at `b[i..i + 32]`.
pub open spec fn addr_at(b: Seq<u8>, i: int) -> Address {
    Address {
        w0: le64_at(b, i) as u64,
        w1: le64_at(b, i + 8) as u64,
        w2: le64_at(b, i + 16) as u64,
        w3: le64_at(b, i + 24) as u64,
    }
}

/// The hash whose 32 bytes are held at `b[i..i + 32]`.
pub open spec fn hash_at(b: Seq<u8>, i: int) -> Hash32 {
    Hash32 {
        w0: le64_at(b, i) as u64,
        w1: le64_at(b, i + 8) as u64,
        w2: le64_at(b, i + 16) as u64,
        w3: le64_at(b, i + 24) as u64,
    }
}

pub fn read_u32_le(b: &Vec<u8>, i: usize) -> (r: u32)
    requires
        i + 4 <= b@.len(),
    ensures
        r == le32_at(b@, i as int),
{
    // Bind the length as a usize, so the index sums below stay in range.
    let n: usize = b.len();
    (b[i] as u32)
        + (b[i + 1] as u32) * 0x100
        + (b[i + 2] as u32) * 0x10000
        + (b[i + 3] as u32) * 0x1000000
}

pub fn read_u64_le(b: &Vec<u8>, i: usize) -> (r: u64)
    requires
        i + 8 <= b@.len(),
    ensures
        r == le64_at(b@, i as int),
{
    // Bind the length as a usize, so the index sums below stay in range.
    let n: usize = b.len();
    (b[i] as u64)
        + (b[i + 1] as u64) * 0x100
        + (b[i + 2] as u64) * 0x10000
        + (b[i + 3] as u64) * 0x1000000
        + (b[i + 4] as u64) * 0x100000000
        + (b[i + 5] as u64) * 0x10000000000
        + (b[i + 6] as u64) * 0x1000000000000
        + (b[i + 7] as u64) * 0x100000000000000
}

pub fn read_address(b: &Vec<u8>, i: usize) -> (r: Address)
    requires
        i + 32 <= b@.len(),
    ensures
        r == addr_at(b@, i as int),
{
    // Bind the length as a usize, so the index sums below stay in range.
    let n: usize = b.len();
    Address {
        w0: read_u64_le(b, i),
        w1: read_u64_le(b, i + 8),
        w2: read_u64_le(b, i + 16),
        w3: read_u64_le(b, i + 24),
    }
}

pub fn read_hash(b: &Vec<u8>, i: usize) -> (r: Hash32)
    requires
        i + 32 <= b@.len(),
    ensures
        r == hash_at(b@, i as int),
{
    // Bind the length as a usize, so the index sums below stay in range.
    let n: usize = b.len();
    Hash32 {
        w0: read_u64_le(b, i),
        w1: read_u64_le(b, i + 8),
        w2: read_u64_le(b, i + 16),
        w3: read_u64_le(b, i + 24),
    }
}

} // verus!
