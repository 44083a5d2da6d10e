//! Decoder tests, cross-checked against the ledger SDK's own encoders:
//! a payload serialized by the reference types must decode into the
//! matching view.

use scilla::decode::{AccountSchema, DecodeCause, DecodeError};
use scilla::keys::{Address, Hash32};
use scilla::nonce_state::{decode_nonce_state, NonceData, NonceStateView};
use scilla::stake_state::{
    decode_stake_state, StakeDelegation, StakeMeta, StakeStateView, ACTIVE_STAKE_EPOCH_BOUND,
};

use solana_pubkey::Pubkey;

fn addr_to_pubkey(a: &Address) -> Pubkey {
    let mut bytes = [0u8; 32];
    bytes[0..8].copy_from_slice(&a.w0.to_le_bytes());
    bytes[8..16].copy_from_slice(&a.w1.to_le_bytes());
    bytes[16..24].copy_from_slice(&a.w2.to_le_bytes());
    bytes[24..32].copy_from_slice(&a.w3.to_le_bytes());
    Pubkey::new_from_array(bytes)
}

fn bytes_to_address(bytes: &[u8]) -> Address {
    Address {
        w0: u64::from_le_bytes(bytes[0..8].try_into().unwrap()),
        w1: u64::from_le_bytes(bytes[8..16].try_into().unwrap()),
        w2: u64::from_le_bytes(bytes[16..24].try_into().unwrap()),
        w3: u64::from_le_bytes(bytes[24..32].try_into().unwrap()),
    }
}

fn addr(n: u64) -> Address {
    Address { w0: n, w1: n + 1, w2: n + 2, w3: n + 3 }
}

#[test]
fn program_id_constants_match_the_reference_crates() {
    assert_eq!(
        addr_to_pubkey(&scilla::keys::stake_program_id()),
        solana_stake_interface::program::id()
    );
    assert_eq!(addr_to_pubkey(&scilla::keys::vote_program_id()), solana_vote_program::id());
}

#[test]
fn address_bytes_are_the_little_endian_words() {
    let a = addr(12345);
    let bytes = scilla::keys::address_bytes(&a);
    assert_eq!(bytes.len(), 32);
    assert_eq!(bytes_to_address(&bytes), a);
    assert_eq!(addr_to_pubkey(&a).as_ref(), bytes.as_slice());
}

#[allow(deprecated)]
fn reference_meta(staker: &Address, withdrawer: &Address) -> solana_stake_interface::state::Meta {
    solana_stake_interface::state::Meta {
        rent_exempt_reserve: 2_282_880,
        authorized: solana_stake_interface::state::Authorized {
            staker: addr_to_pubkey(staker),
            withdrawer: addr_to_pubkey(withdrawer),
        },
        lockup: solana_stake_interface::state::Lockup::default(),
    }
}

#[test]
fn stake_decoder_matches_reference_encoding_for_delegated_stake() {
    let staker = addr(100);
    let withdrawer = addr(200);
    let voter = addr(300);

    let stake = solana_stake_interface::state::Stake {
        delegation: solana_stake_interface::state::Delegation {
            voter_pubkey: addr_to_pubkey(&voter),
            stake: 5_000_000_000,
            activation_epoch: 11,
            deactivation_epoch: 42,
            _reserved: [0; 8],
        },
        credits_observed: 9_876,
    };
    let state = solana_stake_interface::state::StakeStateV2::Stake(
        reference_meta(&staker, &withdrawer),
        stake,
        solana_stake_interface::stake_flags::StakeFlags::empty(),
    );
    let mut data = bincode::serialize(&state).expect("reference encoding must serialize");
    // Stake accounts are padded to a fixed size on the ledger.
    data.resize(200, 0);

    let view = decode_stake_state(&data).expect("reference bytes must decode");
    assert_eq!(
        view,
        StakeStateView::Stake(
            StakeMeta { staker, withdrawer },
            StakeDelegation {
                voter,
                stake: 5_000_000_000,
                activation_epoch: 11,
                deactivation_epoch: 42,
            },
        )
    );
}

#[test]
fn stake_decoder_matches_reference_encoding_for_other_variants() {
    let staker = addr(1);
    let withdrawer = addr(2);

    let initialized = solana_stake_interface::state::StakeStateV2::Initialized(reference_meta(
        &staker,
        &withdrawer,
    ));
    let data = bincode::serialize(&initialized).unwrap();
    assert_eq!(
        decode_stake_state(&data).unwrap(),
        StakeStateView::Initialized(StakeMeta { staker, withdrawer })
    );

    let data = bincode::serialize(&solana_stake_interface::state::StakeStateV2::Uninitialized)
        .unwrap();
    assert_eq!(decode_stake_state(&data).unwrap(), StakeStateView::Uninitialized);

    let data = bincode::serialize(&solana_stake_interface::state::StakeStateV2::RewardsPool)
        .unwrap();
    assert_eq!(decode_stake_state(&data).unwrap(), StakeStateView::RewardsPool);

    // A delegation whose deactivation epoch is the sentinel decodes to
    // exactly the bound the validation rules compare against.
    let stake = solana_stake_interface::state::Stake {
        delegation: solana_stake_interface::state::Delegation {
            voter_pubkey: addr_to_pubkey(&addr(3)),
            stake: 1,
            activation_epoch: 0,
            deactivation_epoch: u64::MAX,
            _reserved: [0; 8],
        },
        credits_observed: 0,
    };
    let state = solana_stake_interface::state::StakeStateV2::Stake(
        reference_meta(&staker, &withdrawer),
        stake,
        solana_stake_interface::stake_flags::StakeFlags::empty(),
    );
    let data = bincode::serialize(&state).unwrap();
    match decode_stake_state(&data).unwrap() {
        StakeStateView::Stake(_, delegation) => {
            assert_eq!(delegation.deactivation_epoch, ACTIVE_STAKE_EPOCH_BOUND);
        }
        other => panic!("expected the delegated variant, got {other:?}"),
    }
}

#[test]
fn stake_decoder_rejects_malformed_payloads() {
    // Too short for the tag.
    assert_eq!(
        decode_stake_state(&vec![1, 0]),
        Err(DecodeError {
            schema: AccountSchema::StakeState,
            cause: DecodeCause::Truncated { needed: 4, have: 2 },
        })
    );

    // Unknown variant tag.
    assert_eq!(
        decode_stake_state(&vec![7, 0, 0, 0]),
        Err(DecodeError {
            schema: AccountSchema::StakeState,
            cause: DecodeCause::UnknownTag { tag: 7 },
        })
    );
    // The reference decoder agrees that this tag is invalid.
    assert!(bincode::deserialize::<solana_stake_interface::state::StakeStateV2>(&[7, 0, 0, 0])
        .is_err());

    // A delegated tag with a truncated body.
    assert_eq!(
        decode_stake_state(&vec![2, 0, 0, 0]),
        Err(DecodeError {
            schema: AccountSchema::StakeState,
            cause: DecodeCause::Truncated { needed: 197, have: 4 },
        })
    );
    assert!(bincode::deserialize::<solana_stake_interface::state::StakeStateV2>(&[2, 0, 0, 0])
        .is_err());
}

#[test]
fn decoding_twice_yields_equal_views() {
    let state = solana_stake_interface::state::StakeStateV2::Initialized(reference_meta(
        &addr(8),
        &addr(9),
    ));
    let data = bincode::serialize(&state).unwrap();
    assert_eq!(decode_stake_state(&data), decode_stake_state(&data));

    let nonce_bytes = vec![1, 0, 0, 0, 0, 0, 0, 0];
    assert_eq!(decode_nonce_state(&nonce_bytes), decode_nonce_state(&nonce_bytes));
}

#[test]
fn nonce_decoder_matches_reference_encoding() {
    let authority = addr(400);
    let durable_nonce = solana_nonce::state::DurableNonce::from_blockhash(
        &solana_hash::Hash::new_from_array([7u8; 32]),
    );
    let data_fields = solana_nonce::state::Data::new(
        addr_to_pubkey(&authority),
        durable_nonce,
        5_000,
    );
    let state = solana_nonce::versions::Versions::new(solana_nonce::state::State::Initialized(
        data_fields.clone(),
    ));
    let bytes = bincode::serialize(&state).unwrap();

    let stored = bytes_to_address(durable_nonce.as_hash().as_ref());
    let expected_hash = Hash32 { w0: stored.w0, w1: stored.w1, w2: stored.w2, w3: stored.w3 };

    assert_eq!(
        decode_nonce_state(&bytes).unwrap(),
        NonceStateView::Initialized(NonceData {
            authority,
            blockhash: expected_hash,
            lamports_per_signature: 5_000,
        })
    );

    // The legacy version holds its state in the same shape.
    let legacy = solana_nonce::versions::Versions::Legacy(Box::new(
        solana_nonce::state::State::Initialized(data_fields),
    ));
    let legacy_bytes = bincode::serialize(&legacy).unwrap();
    assert_eq!(decode_nonce_state(&legacy_bytes), decode_nonce_state(&bytes));
}

#[test]
fn nonce_decoder_rejects_malformed_payloads() {
    // Too short for the two tags.
    assert_eq!(
        decode_nonce_state(&vec![1, 0, 0, 0]),
        Err(DecodeError {
            schema: AccountSchema::NonceState,
            cause: DecodeCause::Truncated { needed: 8, have: 4 },
        })
    );

    // Unknown version tag.
    assert_eq!(
        decode_nonce_state(&vec![9, 0, 0, 0, 0, 0, 0, 0]),
        Err(DecodeError {
            schema: AccountSchema::NonceState,
            cause: DecodeCause::UnknownTag { tag: 9 },
        })
    );
    assert!(bincode::deserialize::<solana_nonce::versions::Versions>(&[9, 0, 0, 0, 0, 0, 0, 0])
        .is_err());

    // Unknown state tag.
    assert_eq!(
        decode_nonce_state(&vec![1, 0, 0, 0, 3, 0, 0, 0]),
        Err(DecodeError {
            schema: AccountSchema::NonceState,
            cause: DecodeCause::UnknownTag { tag: 3 },
        })
    );

    // Initialized state with a truncated body.
    assert_eq!(
        decode_nonce_state(&vec![1, 0, 0, 0, 1, 0, 0, 0]),
        Err(DecodeError {
            schema: AccountSchema::NonceState,
            cause: DecodeCause::Truncated { needed: 80, have: 8 },
        })
    );
}
