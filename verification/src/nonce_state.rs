//! Decoded view of a durable-nonce account's payload.
//!
//! The payload is two nested tagged records: a 32-bit version tag (two
//! versions exist and hold the same shape), then a 32-bit state tag, and
//! for the initialized state the authority key, the stored durable-nonce
//! hash and the fee rate the nonce was created under.

use vstd::prelude::*;
use crate::decode::{
    addr_at, hash_at, le32_at, le64_at, read_address, read_hash, read_u32_le, read_u64_le,
    AccountSchema, DecodeCause, DecodeError,
};
use crate::keys::{Address, Hash32};

verus! {

/// The fields of an initialized durable-nonce account.
#[derive(Clone, Copy, Debug, PartialEq, Eq, Structural)]
pub struct NonceData {
    /// The account that signs transactions using this nonce.
    pub authority: Address,
    /// The stored durable-nonce value.
    pub blockhash: Hash32,
    /// Lamports per signature at the time the nonce was advanced.
    pub lamports_per_signature: u64,
}

/// A nonce account's state, as decoded from its payload.
#[derive(Clone, Copy, Debug, PartialEq, Eq, Structural)]
pub enum NonceStateView {
    Uninitialized,
    Initialized(NonceData),
}

/// Bytes a payload must hold for the two leading tags.
pub const NONCE_TAGS_LEN: usize = 8;

/// Bytes a payload must hold for the initialized state: the two tags,
/// two 32-byte values and the 8-byte fee rate.
pub const NONCE_INITIALIZED_LEN: usize = 80;

pub open spec fn nonce_data_at(b: Seq<u8>, i: int) -> NonceData {
    NonceData {
        authority: addr_at(b, i),
        blockhash: hash_at(b, i + 32),
        lamports_per_signature: le64_at(b, i + 64) as u64,
    }
}

pub open spec fn nonce_decode_spec(b: Seq<u8>) -> Result<NonceStateView, DecodeError> {
    if b.len() < NONCE_TAGS_LEN {
        Err(DecodeError {
            schema: AccountSchema::NonceState,
            cause: DecodeCause::Truncated { needed: NONCE_TAGS_LEN, have: b.len() as usize },
        })
    } else {
        let version = le32_at(b, 0);
        let state = le32_at(b, 4);
        if version != 0 && version != 1 {
            Err(DecodeError {
                schema: AccountSchema::NonceState,
                cause: DecodeCause::UnknownTag { tag: version as u32 },
            })
        } else if state == 0 {
            Ok(NonceStateView::Uninitialized)
        } else if state == 1 {
            if b.len() < NONCE_INITIALIZED_LEN {
                Err(DecodeError {
                    schema: AccountSchema::NonceState,
                    cause: DecodeCause::Truncated {
                        needed: NONCE_INITIALIZED_LEN,
                        have: b.len() as usize,
                    },
                })
            } else {
                Ok(NonceStateView::Initialized(nonce_data_at(b, 8)))
            }
        } else {
            Err(DecodeError {
                schema: AccountSchema::NonceState,
                cause: DecodeCause::UnknownTag { tag: state as u32 },
            })
        }
    }
}

/// Decode a nonce account payload into its state view. The two schema
/// versions hold their state in the same shape, so the version tag is
/// only checked, not kept.
pub fn decode_nonce_state(data: &Vec<u8>) -> (r: Result<NonceStateView, DecodeError>)
    ensures
        r == nonce_decode_spec(data@),
{
    let n: usize = data.len();
    if n < NONCE_TAGS_LEN {
        return Err(DecodeError {
            schema: AccountSchema::NonceState,
            cause: DecodeCause::Truncated { needed: NONCE_TAGS_LEN, have: n },
        });
    }
    let version = read_u32_le(data, 0);
    let state = read_u32_le(data, 4);
    if version != 0 && version != 1 {
        Err(DecodeError {
            schema: AccountSchema::NonceState,
            cause: DecodeCause::UnknownTag { tag: version },
        })
    } else if state == 0 {
        Ok(NonceStateView::Uninitialized)
    } else if state == 1 {
        if n < NONCE_INITIALIZED_LEN {
            return Err(DecodeError {
                schema: AccountSchema::NonceState,
                cause: DecodeCause::Truncated { needed: NONCE_INITIALIZED_LEN, have: n },
            });
        }
        Ok(NonceStateView::Initialized(NonceData {
            authority: read_address(data, 8),
            blockhash: read_hash(data, 40),
            lamports_per_signature: read_u64_le(data, 72),
        }))
    } else {
        Err(DecodeError {
            schema: AccountSchema::NonceState,
            cause: DecodeCause::UnknownTag { tag: state },
        })
    }
}

/// Decoding is a function of the payload alone: two views decoded from
/// equal payloads are structurally equal.
pub proof fn lemma_nonce_decode_deterministic(
    b1: Seq<u8>,
    b2: Seq<u8>,
    r1: Result<NonceStateView, DecodeError>,
    r2: Result<NonceStateView, DecodeError>,
)
    requires
        b1 == b2,
        r1 == nonce_decode_spec(b1),
        r2 == nonce_decode_spec(b2),
    ensures
        r1 == r2,
{
}

} // verus!
