//! Scenario tests for the validation engine and the planners.

use scilla::keys::{stake_program_id, vote_program_id, Address};
use scilla::plan::{
    inspect_nonce_account, plan_airdrop, plan_stake_deactivation, plan_stake_withdrawal,
    plan_transfer, plan_vote_account_creation, plan_vote_withdrawal, vote_creation_precheck,
    InstructionPlan, OperationError,
};
use scilla::amount::LAMPORTS_PER_SOL;
use scilla::ledger::AccountRecord;
use scilla::stake_state::{StakeDelegation, StakeMeta, StakeStateView, ACTIVE_STAKE_EPOCH_BOUND};
use scilla::validate::{
    validate_nonce_initialized, validate_stake_deactivation, validate_stake_withdrawal,
    validate_transfer, validate_vote_creation_keys, validate_vote_creation_target,
    validate_vote_withdrawal, required_vote_account_funding, Rejection, Verdict,
};
use scilla::nonce_state::NonceStateView;

fn addr(n: u64) -> Address {
    Address { w0: n, w1: 0, w2: 0, w3: 0 }
}

fn delegated_state(
    staker: Address,
    withdrawer: Address,
    deactivation_epoch: u64,
) -> StakeStateView {
    StakeStateView::Stake(
        StakeMeta { staker, withdrawer },
        StakeDelegation {
            voter: addr(99),
            stake: 7_000,
            activation_epoch: 5,
            deactivation_epoch,
        },
    )
}

#[test]
fn transfer_with_insufficient_funds_is_rejected_with_both_values() {
    // Balance of 2 units, request of 5 units.
    let have = 2 * LAMPORTS_PER_SOL;
    let requested = 5 * LAMPORTS_PER_SOL;
    assert_eq!(
        validate_transfer(have, requested),
        Verdict::Reject(Rejection::InsufficientBalance { have, requested })
    );
    // No plan is built for it either.
    let r = plan_transfer(addr(1), addr(2), have, requested);
    assert_eq!(r.err(), Some(Rejection::InsufficientBalance { have, requested }));
}

#[test]
fn transfer_within_balance_proceeds() {
    let sender = addr(1);
    let recipient = addr(2);
    assert_eq!(validate_transfer(5, 5), Verdict::Proceed);
    let p = plan_transfer(sender, recipient, 5, 5).expect("covered transfer must proceed");
    assert_eq!(
        p.instructions,
        vec![InstructionPlan::Transfer { from: sender, to: recipient, lamports: 5 }]
    );
    assert_eq!(p.fee_payer, sender);
    assert_eq!(p.signers, vec![sender]);
}

#[test]
fn deactivation_requires_delegated_unset_marker_and_staker() {
    let staker = addr(10);
    let withdrawer = addr(11);
    let owner = stake_program_id();

    // All conditions met.
    let good = delegated_state(staker, withdrawer, ACTIVE_STAKE_EPOCH_BOUND);
    assert_eq!(validate_stake_deactivation(staker, owner, good), Verdict::Proceed);

    // Wrong owner.
    assert_eq!(
        validate_stake_deactivation(staker, addr(3), good),
        Verdict::Reject(Rejection::NotStakeProgramOwned { owner: addr(3) })
    );

    // Marker already set.
    let deactivating = delegated_state(staker, withdrawer, 120);
    assert_eq!(
        validate_stake_deactivation(staker, owner, deactivating),
        Verdict::Reject(Rejection::AlreadyDeactivating { deactivation_epoch: 120 })
    );

    // Wrong staker.
    assert_eq!(
        validate_stake_deactivation(addr(12), owner, good),
        Verdict::Reject(Rejection::NotAuthorizedStaker { authorized: staker, supplied: addr(12) })
    );

    // Initialized but never delegated.
    let initialized = StakeStateView::Initialized(StakeMeta { staker, withdrawer });
    assert_eq!(
        validate_stake_deactivation(staker, owner, initialized),
        Verdict::Reject(Rejection::StakeNotDelegated)
    );

    // No state deactivation applies to.
    assert_eq!(
        validate_stake_deactivation(staker, owner, StakeStateView::Uninitialized),
        Verdict::Reject(Rejection::StakeNotDeactivatable)
    );
    assert_eq!(
        validate_stake_deactivation(staker, owner, StakeStateView::RewardsPool),
        Verdict::Reject(Rejection::StakeNotDeactivatable)
    );
}

#[test]
fn stake_withdraw_before_cooldown_reports_zero_epochs_remaining() {
    // Deactivation epoch 100, current epoch 100: still within the
    // deactivation epoch itself.
    let withdrawer = addr(21);
    let state = delegated_state(addr(20), withdrawer, 100);
    assert_eq!(
        validate_stake_withdrawal(withdrawer, stake_program_id(), state, 1, 100, 1_000),
        Verdict::Reject(Rejection::CooldownNotElapsed {
            current_epoch: 100,
            deactivation_epoch: 100,
            epochs_remaining: 0,
        })
    );
}

#[test]
fn stake_withdraw_cooldown_counts_epochs_remaining() {
    let withdrawer = addr(21);
    let state = delegated_state(addr(20), withdrawer, 107);
    assert_eq!(
        validate_stake_withdrawal(withdrawer, stake_program_id(), state, 1, 100, 1_000),
        Verdict::Reject(Rejection::CooldownNotElapsed {
            current_epoch: 100,
            deactivation_epoch: 107,
            epochs_remaining: 7,
        })
    );
}

#[test]
fn stake_withdraw_rules_cover_every_state() {
    let withdrawer = addr(21);
    let owner = stake_program_id();

    // Zero amount is rejected before anything else.
    let state = delegated_state(addr(20), withdrawer, 100);
    assert_eq!(
        validate_stake_withdrawal(withdrawer, owner, state, 0, 200, 1_000),
        Verdict::Reject(Rejection::NonPositiveAmount)
    );

    // Wrong owner.
    assert_eq!(
        validate_stake_withdrawal(withdrawer, addr(5), state, 1, 200, 1_000),
        Verdict::Reject(Rejection::NotStakeProgramOwned { owner: addr(5) })
    );

    // Wrong withdrawer on a delegated stake.
    assert_eq!(
        validate_stake_withdrawal(addr(22), owner, state, 1, 200, 1_000),
        Verdict::Reject(Rejection::NotAuthorizedWithdrawer {
            authorized: withdrawer,
            supplied: addr(22),
        })
    );

    // Never deactivated.
    let active = delegated_state(addr(20), withdrawer, ACTIVE_STAKE_EPOCH_BOUND);
    assert_eq!(
        validate_stake_withdrawal(withdrawer, owner, active, 1, 200, 1_000),
        Verdict::Reject(Rejection::StakeStillActive)
    );

    // Cooldown elapsed, but the balance does not cover the amount.
    assert_eq!(
        validate_stake_withdrawal(withdrawer, owner, state, 2_000, 200, 1_000),
        Verdict::Reject(Rejection::InsufficientBalance { have: 1_000, requested: 2_000 })
    );

    // Cooldown elapsed and covered.
    assert_eq!(validate_stake_withdrawal(withdrawer, owner, state, 1_000, 200, 1_000), Verdict::Proceed);

    // Initialized stake needs only the withdrawer.
    let initialized = StakeStateView::Initialized(StakeMeta { staker: addr(20), withdrawer });
    assert_eq!(validate_stake_withdrawal(withdrawer, owner, initialized, 1, 0, 1), Verdict::Proceed);
    assert_eq!(
        validate_stake_withdrawal(addr(22), owner, initialized, 1, 0, 1),
        Verdict::Reject(Rejection::NotAuthorizedWithdrawer {
            authorized: withdrawer,
            supplied: addr(22),
        })
    );

    // Uninitialized and rewards-pool states are rejected outright.
    assert_eq!(
        validate_stake_withdrawal(withdrawer, owner, StakeStateView::Uninitialized, 1, 0, 1),
        Verdict::Reject(Rejection::StakeUninitialized)
    );
    assert_eq!(
        validate_stake_withdrawal(withdrawer, owner, StakeStateView::RewardsPool, 1, 0, 1),
        Verdict::Reject(Rejection::RewardsPoolWithdrawal)
    );
}

#[test]
fn vote_withdraw_by_wrong_authority_names_both_keys() {
    let w = addr(40);
    let k = addr(41);
    assert_eq!(
        validate_vote_withdrawal(k, vote_program_id(), w),
        Verdict::Reject(Rejection::NotAuthorizedWithdrawer { authorized: w, supplied: k })
    );
    assert_eq!(validate_vote_withdrawal(w, vote_program_id(), w), Verdict::Proceed);
    assert_eq!(
        validate_vote_withdrawal(w, addr(1), w),
        Verdict::Reject(Rejection::NotVoteProgramOwned { owner: addr(1) })
    );
}

#[test]
fn vote_creation_rejects_fee_payer_as_vote_account_before_any_lookup() {
    // The precheck takes no fetched state at all: a rejection here
    // precedes every balance or account lookup.
    let a = addr(50);
    let b = addr(51);
    assert_eq!(
        vote_creation_precheck(a, a, b),
        Err(Rejection::FeePayerIsVoteAccount { address: a })
    );
    assert_eq!(
        vote_creation_precheck(a, b, b),
        Err(Rejection::VoteAccountIsIdentity { address: b })
    );
    assert_eq!(vote_creation_precheck(a, b, addr(52)), Ok(()));
}

#[test]
fn vote_creation_target_must_be_vacant() {
    let target = addr(60);
    assert_eq!(validate_vote_creation_target(target, None), Verdict::Proceed);
    assert_eq!(
        validate_vote_creation_target(target, Some(vote_program_id())),
        Verdict::Reject(Rejection::VoteAccountExists { address: target })
    );
    assert_eq!(
        validate_vote_creation_target(target, Some(addr(61))),
        Verdict::Reject(Rejection::AccountInUse { address: target, owner: addr(61) })
    );
}

#[test]
fn vote_creation_plan_funds_at_least_one_lamport() {
    assert_eq!(required_vote_account_funding(0), 1);
    assert_eq!(required_vote_account_funding(1), 1);
    assert_eq!(required_vote_account_funding(27_074_400), 27_074_400);

    let fee_payer = addr(70);
    let vote_account = addr(71);
    let identity = addr(72);
    let withdrawer = addr(73);
    let p = plan_vote_account_creation(fee_payer, vote_account, identity, withdrawer, 10, None, 0)
        .expect("vacant target with distinct keys must proceed");
    assert_eq!(
        p.instructions,
        vec![InstructionPlan::CreateVoteAccount {
            fee_payer,
            vote_account,
            identity,
            withdrawer,
            commission: 10,
            lamports: 1,
        }]
    );
    assert_eq!(p.fee_payer, fee_payer);
    assert_eq!(p.signers, vec![fee_payer, vote_account, identity]);
}

#[test]
fn airdrop_asks_for_exactly_one_unit() {
    let r = plan_airdrop(addr(80));
    assert_eq!(r.address, addr(80));
    assert_eq!(r.lamports, LAMPORTS_PER_SOL);
}

#[test]
fn nonce_validation_distinguishes_uninitialized_from_malformed() {
    assert_eq!(
        validate_nonce_initialized(NonceStateView::Uninitialized),
        Verdict::Reject(Rejection::NonceNotInitialized)
    );

    // Well-formed uninitialized bytes: a validation failure.
    let mut data = vec![0u8; 8];
    data[0] = 1; // current version, uninitialized state
    let account = AccountRecord {
        lamports: 1,
        owner: addr(1),
        data,
        executable: false,
        rent_epoch: 0,
    };
    assert_eq!(
        inspect_nonce_account(&account).err(),
        Some(OperationError::Rejected(Rejection::NonceNotInitialized))
    );
}

#[test]
fn stake_plans_exist_only_on_proceed() {
    let staker = addr(90);
    let stake_account = addr(91);

    // An account that is not stake-program owned yields the owner
    // rejection and no plan.
    let account = AccountRecord {
        lamports: 500,
        owner: addr(1),
        data: vec![0u8; 200],
        executable: false,
        rent_epoch: 0,
    };
    assert_eq!(
        plan_stake_deactivation(staker, stake_account, &account).err(),
        Some(OperationError::Rejected(Rejection::NotStakeProgramOwned { owner: addr(1) }))
    );
    assert_eq!(
        plan_stake_withdrawal(staker, stake_account, &account, addr(92), 10, 0).err(),
        Some(OperationError::Rejected(Rejection::NotStakeProgramOwned { owner: addr(1) }))
    );

    // Uninitialized stake bytes (tag 0) under the right owner.
    let account = AccountRecord {
        lamports: 500,
        owner: stake_program_id(),
        data: vec![0u8; 200],
        executable: false,
        rent_epoch: 0,
    };
    assert_eq!(
        plan_stake_deactivation(staker, stake_account, &account).err(),
        Some(OperationError::Rejected(Rejection::StakeNotDeactivatable))
    );
    assert_eq!(
        plan_stake_withdrawal(staker, stake_account, &account, addr(92), 10, 0).err(),
        Some(OperationError::Rejected(Rejection::StakeUninitialized))
    );

    // Malformed bytes are a decode failure, not a validation one.
    let account = AccountRecord {
        lamports: 500,
        owner: stake_program_id(),
        data: vec![9u8; 4],
        executable: false,
        rent_epoch: 0,
    };
    match plan_stake_deactivation(staker, stake_account, &account) {
        Err(OperationError::Decode(_)) => {}
        other => panic!("expected a decode failure, got {other:?}"),
    }
}
