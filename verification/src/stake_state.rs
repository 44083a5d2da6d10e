//! Decoded view of a stake account's payload.
//!
//! A stake account's payload is a tagged record: a 32-bit little-endian
//! variant tag, then for the initialized variants a fixed-width meta
//! record (rent reserve, authorized staker and withdrawer, lockup), and
//! for the delegated variant a delegation record (vote address, stake
//! amount, activation and deactivation epochs) plus a flags byte. The
//! decoder below reads exactly the fields the wallet's rules consult and
//! is specified against the byte layout itself.

use vstd::prelude::*;
use crate::decode::{
    addr_at, le32_at, le64_at, read_address, read_u32_le, read_u64_le, AccountSchema,
    DecodeCause, DecodeError,
};
use crate::keys::Address;

verus! {

/// The epoch value that marks a delegation as not deactivated: a stake
/// whose deactivation epoch still holds this bound is active.
pub const ACTIVE_STAKE_EPOCH_BOUND: u64 = 18446744073709551615;

/// The authority keys of an initialized stake account.
#[derive(Clone, Copy, Debug, PartialEq, Eq, Structural)]
pub struct StakeMeta {
    pub staker: Address,
    pub withdrawer: Address,
}

/// The delegation record of a delegated stake account.
#[derive(Clone, Copy, Debug, PartialEq, Eq, Structural)]
pub struct StakeDelegation {
    /// The vote account the stake is delegated to.
    pub voter: Address,
    /// Delegated amount, in lamports.
    pub stake: u64,
    /// Epoch the delegation became active.
    pub activation_epoch: u64,
    /// Epoch deactivation was requested, or [`ACTIVE_STAKE_EPOCH_BOUND`]
    /// if it never was.
    pub deactivation_epoch: u64,
}

/// A stake account's lifecycle state, as decoded from its payload.
#[derive(Clone, Copy, Debug, PartialEq, Eq, Structural)]
pub enum StakeStateView {
    Uninitialized,
    Initialized(StakeMeta),
    Stake(StakeMeta, StakeDelegation),
    RewardsPool,
}

/// Bytes a payload must hold up to and including the variant tag.
pub const STAKE_TAG_LEN: usize = 4;

/// Bytes a payload must hold for the `Initialized` variant: the tag and
/// the meta record (8-byte rent reserve, two 32-byte authority keys and
/// a 48-byte lockup).
pub const STAKE_INITIALIZED_LEN: usize = 124;

/// Bytes a payload must hold for the `Stake` variant: the `Initialized`
/// layout, the delegation record and one flags byte.
pub const STAKE_DELEGATED_LEN: usize = 197;

/// The meta record held at `b[i..]`: the staker key 8 bytes in (after
/// the rent reserve), the withdrawer key right after it.
pub open spec fn stake_meta_at(b: Seq<u8>, i: int) -> StakeMeta {
    StakeMeta { staker: addr_at(b, i + 8), withdrawer: addr_at(b, i + 40) }
}

/// The delegation record held at `b[i..]`: the vote address, then the
/// stake amount and the two epochs (the eight bytes after them are a
/// reserved field the schema keeps for layout compatibility).
pub open spec fn stake_delegation_at(b: Seq<u8>, i: int) -> StakeDelegation {
    StakeDelegation {
        voter: addr_at(b, i),
        stake: le64_at(b, i + 32) as u64,
        activation_epoch: le64_at(b, i + 40) as u64,
        deactivation_epoch: le64_at(b, i + 48) as u64,
    }
}

pub open spec fn stake_decode_spec(b: Seq<u8>) -> Result<StakeStateView, DecodeError> {
    if b.len() < STAKE_TAG_LEN {
        Err(DecodeError {
            schema: AccountSchema::StakeState,
            cause: DecodeCause::Truncated { needed: STAKE_TAG_LEN, have: b.len() as usize },
        })
    } else {
        let tag = le32_at(b, 0);
        if tag == 0 {
            Ok(StakeStateView::Uninitialized)
        } else if tag == 1 {
            if b.len() < STAKE_INITIALIZED_LEN {
                Err(DecodeError {
                    schema: AccountSchema::StakeState,
                    cause: DecodeCause::Truncated {
                        needed: STAKE_INITIALIZED_LEN,
                        have: b.len() as usize,
                    },
                })
            } else {
                Ok(StakeStateView::Initialized(stake_meta_at(b, 4)))
            }
        } else if tag == 2 {
            if b.len() < STAKE_DELEGATED_LEN {
                Err(DecodeError {
                    schema: AccountSchema::StakeState,
                    cause: DecodeCause::Truncated {
                        needed: STAKE_DELEGATED_LEN,
                        have: b.len() as usize,
                    },
                })
            } else {
                Ok(StakeStateView::Stake(stake_meta_at(b, 4), stake_delegation_at(b, 124)))
            }
        } else if tag == 3 {
            Ok(StakeStateView::RewardsPool)
        } else {
            Err(DecodeError {
                schema: AccountSchema::StakeState,
                cause: DecodeCause::UnknownTag { tag: tag as u32 },
            })
        }
    }
}

/// Decode a stake account payload into its lifecycle view. Trailing
/// bytes beyond the variant's layout are ignored, as the schema pads
/// every account to one fixed size.
pub fn decode_stake_state(data: &Vec<u8>) -> (r: Result<StakeStateView, DecodeError>)
    ensures
        r == stake_decode_spec(data@),
{
    let n: usize = data.len();
    if n < STAKE_TAG_LEN {
        return Err(DecodeError {
            schema: AccountSchema::StakeState,
            cause: DecodeCause::Truncated { needed: STAKE_TAG_LEN, have: n },
        });
    }
    let tag = read_u32_le(data, 0);
    if tag == 0 {
        Ok(StakeStateView::Uninitialized)
    } else if tag == 1 {
        if n < STAKE_INITIALIZED_LEN {
            return Err(DecodeError {
                schema: AccountSchema::StakeState,
                cause: DecodeCause::Truncated { needed: STAKE_INITIALIZED_LEN, have: n },
            });
        }
        Ok(StakeStateView::Initialized(read_stake_meta(data)))
    } else if tag == 2 {
        if n < STAKE_DELEGATED_LEN {
            return Err(DecodeError {
                schema: AccountSchema::StakeState,
                cause: DecodeCause::Truncated { needed: STAKE_DELEGATED_LEN, have: n },
            });
        }
        Ok(StakeStateView::Stake(read_stake_meta(data), read_stake_delegation(data)))
    } else if tag == 3 {
        Ok(StakeStateView::RewardsPool)
    } else {
        Err(DecodeError {
            schema: AccountSchema::StakeState,
            cause: DecodeCause::UnknownTag { tag },
        })
    }
}

fn read_stake_meta(data: &Vec<u8>) -> (r: StakeMeta)
    requires
        STAKE_INITIALIZED_LEN <= data@.len(),
    ensures
        r == stake_meta_at(data@, 4),
{
    StakeMeta { staker: read_address(data, 12), withdrawer: read_address(data, 44) }
}

fn read_stake_delegation(data: &Vec<u8>) -> (r: StakeDelegation)
    requires
        STAKE_DELEGATED_LEN <= data@.len(),
    ensures
        r == stake_delegation_at(data@, 124),
{
    StakeDelegation {
        voter: read_address(data, 124),
        stake: read_u64_le(data, 156),
        activation_epoch: read_u64_le(data, 164),
        deactivation_epoch: read_u64_le(data, 172),
    }
}

/// Decoding is a function of the payload alone: two views decoded from
/// equal payloads are structurally equal.
pub proof fn lemma_stake_decode_deterministic(
    b1: Seq<u8>,
    b2: Seq<u8>,
    r1: Result<StakeStateView, DecodeError>,
    r2: Result<StakeStateView, DecodeError>,
)
    requires
        b1 == b2,
        r1 == stake_decode_spec(b1),
        r2 == stake_decode_spec(b2),
    ensures
        r1 == r2,
{
}

} // verus!
