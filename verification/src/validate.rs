//! The validation engine: one rule set per operation, each evaluated
//! against state fetched in the same operation, each resolving to
//! exactly one verdict before any transaction is planned.
//!
//! Every rejection carries the conflicting values (the authority that
//! was expected and the one supplied, the epoch still to wait for, the
//! balance available and the amount requested): operators act on these,
//! so they are part of the contract, not incidental wording.

use vstd::prelude::*;
use crate::keys::{
    stake_program_address, stake_program_id, vote_program_address, vote_program_id, Address,
};
use crate::nonce_state::NonceStateView;
use crate::stake_state::{StakeStateView, ACTIVE_STAKE_EPOCH_BOUND};
use crate::vote_state::{voter_for_epoch, voter_for_epoch_spec, VoteStateView};

verus! {

/// A named precondition failure, with the values that conflicted.
#[derive(Clone, Copy, Debug, PartialEq, Eq, Structural)]
pub enum Rejection {
    /// More lamports requested than the account holds.
    InsufficientBalance { have: u64, requested: u64 },
    /// The account is not owned by the stake program.
    NotStakeProgramOwned { owner: Address },
    /// The account is not owned by the vote program.
    NotVoteProgramOwned { owner: Address },
    /// The stake account is initialized but was never delegated.
    StakeNotDelegated,
    /// The stake account is in no state deactivation applies to.
    StakeNotDeactivatable,
    /// The stake account is uninitialized.
    StakeUninitialized,
    /// A rewards pool cannot be withdrawn from.
    RewardsPoolWithdrawal,
    /// Deactivation was already requested at this epoch.
    AlreadyDeactivating { deactivation_epoch: u64 },
    /// The caller is not the authorized staker.
    NotAuthorizedStaker { authorized: Address, supplied: Address },
    /// The caller is not the authorized withdrawer.
    NotAuthorizedWithdrawer { authorized: Address, supplied: Address },
    /// A withdrawal amount must be greater than zero.
    NonPositiveAmount,
    /// The stake was never deactivated, so it cannot be withdrawn.
    StakeStillActive,
    /// Deactivated, but the cooldown epoch has not passed yet.
    CooldownNotElapsed { current_epoch: u64, deactivation_epoch: u64, epochs_remaining: u64 },
    /// The fee payer cannot be the vote account being created.
    FeePayerIsVoteAccount { address: Address },
    /// The vote account cannot be its own validator identity.
    VoteAccountIsIdentity { address: Address },
    /// A vote account already exists at the target address.
    VoteAccountExists { address: Address },
    /// Some other program's account sits at the target address.
    AccountInUse { address: Address, owner: Address },
    /// The vote state holds no authorized voter for the epoch.
    NoAuthorizedVoter,
    /// The supplied key is neither the current voter nor the withdrawer.
    NotVoteAuthority { supplied: Address, voter: Address, withdrawer: Address },
    /// The account is not an initialized nonce account.
    NonceNotInitialized,
}

/// The outcome of a rule set: go ahead, or one named failure.
#[derive(Clone, Copy, Debug, PartialEq, Eq, Structural)]
pub enum Verdict {
    Proceed,
    Reject(Rejection),
}

impl Verdict {
    pub open spec fn is_proceed(self) -> bool {
        self == Verdict::Proceed
    }
}

// ---------------------------------------------------------------------
// Transfer

pub open spec fn transfer_verdict(balance: u64, requested: u64) -> Verdict {
    if requested > balance {
        Verdict::Reject(Rejection::InsufficientBalance { have: balance, requested })
    } else {
        Verdict::Proceed
    }
}

/// A transfer may not exceed the sender's balance, read in the same
/// operation.
pub fn validate_transfer(balance: u64, requested: u64) -> (v: Verdict)
    ensures
        v == transfer_verdict(balance, requested),
{
    if requested > balance {
        Verdict::Reject(Rejection::InsufficientBalance { have: balance, requested })
    } else {
        Verdict::Proceed
    }
}

/// A transfer proceeds exactly when the requested amount is covered,
/// and an overdraft is rejected citing both values.
pub proof fn lemma_transfer_proceeds_only_within_balance(balance: u64, requested: u64)
    ensures
        transfer_verdict(balance, requested).is_proceed() <==> requested <= balance,
        requested > balance ==> transfer_verdict(balance, requested) == Verdict::Reject(
            Rejection::InsufficientBalance { have: balance, requested },
        ),
{
}

// ---------------------------------------------------------------------
// Stake deactivation

pub open spec fn stake_deactivation_verdict(
    caller: Address,
    owner: Address,
    state: StakeStateView,
) -> Verdict {
    if owner != stake_program_address() {
        Verdict::Reject(Rejection::NotStakeProgramOwned { owner })
    } else {
        match state {
            StakeStateView::Stake(meta, delegation) => {
                if delegation.deactivation_epoch != ACTIVE_STAKE_EPOCH_BOUND {
                    Verdict::Reject(Rejection::AlreadyDeactivating {
                        deactivation_epoch: delegation.deactivation_epoch,
                    })
                } else if meta.staker != caller {
                    Verdict::Reject(Rejection::NotAuthorizedStaker {
                        authorized: meta.staker,
                        supplied: caller,
                    })
                } else {
                    Verdict::Proceed
                }
            },
            StakeStateView::Initialized(_) => Verdict::Reject(Rejection::StakeNotDelegated),
            StakeStateView::Uninitialized => Verdict::Reject(Rejection::StakeNotDeactivatable),
            StakeStateView::RewardsPool => Verdict::Reject(Rejection::StakeNotDeactivatable),
        }
    }
}

/// Deactivation needs a delegated stake whose deactivation marker is
/// still unset, requested by the authorized staker.
pub fn validate_stake_deactivation(caller: Address, owner: Address, state: StakeStateView) -> (v:
    Verdict)
    ensures
        v == stake_deactivation_verdict(caller, owner, state),
{
    if owner != stake_program_id() {
        return Verdict::Reject(Rejection::NotStakeProgramOwned { owner });
    }
    match state {
        StakeStateView::Stake(meta, delegation) => {
            if delegation.deactivation_epoch != ACTIVE_STAKE_EPOCH_BOUND {
                Verdict::Reject(Rejection::AlreadyDeactivating {
                    deactivation_epoch: delegation.deactivation_epoch,
                })
            } else if meta.staker != caller {
                Verdict::Reject(Rejection::NotAuthorizedStaker {
                    authorized: meta.staker,
                    supplied: caller,
                })
            } else {
                Verdict::Proceed
            }
        },
        StakeStateView::Initialized(_) => Verdict::Reject(Rejection::StakeNotDelegated),
        StakeStateView::Uninitialized => Verdict::Reject(Rejection::StakeNotDeactivatable),
        StakeStateView::RewardsPool => Verdict::Reject(Rejection::StakeNotDeactivatable),
    }
}

/// Deactivation proceeds exactly when the account is stake-program
/// owned, the state is the delegated variant, the deactivation marker
/// is unset and the caller is the authorized staker; each violated
/// condition yields the rejection naming it.
pub proof fn lemma_deactivation_conditions(caller: Address, owner: Address, state: StakeStateView)
    ensures
        stake_deactivation_verdict(caller, owner, state).is_proceed() ==> (state matches
        StakeStateView::Stake(meta, delegation) && owner == stake_program_address()
            && delegation.deactivation_epoch == ACTIVE_STAKE_EPOCH_BOUND && meta.staker == caller),
        state matches StakeStateView::Stake(meta, delegation) && owner == stake_program_address()
            && delegation.deactivation_epoch == ACTIVE_STAKE_EPOCH_BOUND && meta.staker == caller
            ==> stake_deactivation_verdict(caller, owner, state).is_proceed(),
        owner != stake_program_address() ==> stake_deactivation_verdict(caller, owner, state)
            == Verdict::Reject(Rejection::NotStakeProgramOwned { owner }),
        state matches StakeStateView::Stake(meta, delegation) ==> (((owner
            == stake_program_address() && delegation.deactivation_epoch
            != ACTIVE_STAKE_EPOCH_BOUND) ==> stake_deactivation_verdict(caller, owner, state)
            == Verdict::Reject(Rejection::AlreadyDeactivating {
            deactivation_epoch: delegation.deactivation_epoch,
        })) && ((owner == stake_program_address() && delegation.deactivation_epoch
            == ACTIVE_STAKE_EPOCH_BOUND && meta.staker != caller)
            ==> stake_deactivation_verdict(caller, owner, state) == Verdict::Reject(
            Rejection::NotAuthorizedStaker { authorized: meta.staker, supplied: caller },
        ))),
        state is Initialized && owner == stake_program_address() ==> stake_deactivation_verdict(
            caller,
            owner,
            state,
        ) == Verdict::Reject(Rejection::StakeNotDelegated),
        (state is Uninitialized || state is RewardsPool) && owner == stake_program_address()
            ==> stake_deactivation_verdict(caller, owner, state) == Verdict::Reject(
            Rejection::StakeNotDeactivatable,
        ),
{
}

// ---------------------------------------------------------------------
// Stake withdrawal

/// The state-dependent part of the withdrawal rules: the authority and
/// lifecycle checks, before the final balance check.
pub open spec fn stake_withdrawal_state_verdict(
    caller: Address,
    state: StakeStateView,
    current_epoch: u64,
) -> Verdict {
    match state {
        StakeStateView::Stake(meta, delegation) => {
            if meta.withdrawer != caller {
                Verdict::Reject(Rejection::NotAuthorizedWithdrawer {
                    authorized: meta.withdrawer,
                    supplied: caller,
                })
            } else if delegation.deactivation_epoch == ACTIVE_STAKE_EPOCH_BOUND {
                Verdict::Reject(Rejection::StakeStillActive)
            } else if current_epoch <= delegation.deactivation_epoch {
                Verdict::Reject(Rejection::CooldownNotElapsed {
                    current_epoch,
                    deactivation_epoch: delegation.deactivation_epoch,
                    epochs_remaining: (delegation.deactivation_epoch - current_epoch) as u64,
                })
            } else {
                Verdict::Proceed
            }
        },
        StakeStateView::Initialized(meta) => {
            if meta.withdrawer != caller {
                Verdict::Reject(Rejection::NotAuthorizedWithdrawer {
                    authorized: meta.withdrawer,
                    supplied: caller,
                })
            } else {
                Verdict::Proceed
            }
        },
        StakeStateView::Uninitialized => Verdict::Reject(Rejection::StakeUninitialized),
        StakeStateView::RewardsPool => Verdict::Reject(Rejection::RewardsPoolWithdrawal),
    }
}

pub open spec fn stake_withdrawal_verdict(
    caller: Address,
    owner: Address,
    state: StakeStateView,
    amount: u64,
    current_epoch: u64,
    balance: u64,
) -> Verdict {
    if amount == 0 {
        Verdict::Reject(Rejection::NonPositiveAmount)
    } else if owner != stake_program_address() {
        Verdict::Reject(Rejection::NotStakeProgramOwned { owner })
    } else {
        match stake_withdrawal_state_verdict(caller, state, current_epoch) {
            Verdict::Reject(r) => Verdict::Reject(r),
            Verdict::Proceed => {
                if amount > balance {
                    Verdict::Reject(Rejection::InsufficientBalance {
                        have: balance,
                        requested: amount,
                    })
                } else {
                    Verdict::Proceed
                }
            },
        }
    }
}

/// Withdrawal from a delegated stake needs the authorized withdrawer,
/// a set deactivation marker and an elapsed cooldown; from a
/// never-delegated one only the withdrawer; and always enough balance.
pub fn validate_stake_withdrawal(
    caller: Address,
    owner: Address,
    state: StakeStateView,
    amount: u64,
    current_epoch: u64,
    balance: u64,
) -> (v: Verdict)
    ensures
        v == stake_withdrawal_verdict(caller, owner, state, amount, current_epoch, balance),
{
    if amount == 0 {
        return Verdict::Reject(Rejection::NonPositiveAmount);
    }
    if owner != stake_program_id() {
        return Verdict::Reject(Rejection::NotStakeProgramOwned { owner });
    }
    let gate = match state {
        StakeStateView::Stake(meta, delegation) => {
            if meta.withdrawer != caller {
                Verdict::Reject(Rejection::NotAuthorizedWithdrawer {
                    authorized: meta.withdrawer,
                    supplied: caller,
                })
            } else if delegation.deactivation_epoch == ACTIVE_STAKE_EPOCH_BOUND {
                Verdict::Reject(Rejection::StakeStillActive)
            } else if current_epoch <= delegation.deactivation_epoch {
                Verdict::Reject(Rejection::CooldownNotElapsed {
                    current_epoch,
                    deactivation_epoch: delegation.deactivation_epoch,
                    epochs_remaining: delegation.deactivation_epoch - current_epoch,
                })
            } else {
                Verdict::Proceed
            }
        },
        StakeStateView::Initialized(meta) => {
            if meta.withdrawer != caller {
                Verdict::Reject(Rejection::NotAuthorizedWithdrawer {
                    authorized: meta.withdrawer,
                    supplied: caller,
                })
            } else {
                Verdict::Proceed
            }
        },
        StakeStateView::Uninitialized => Verdict::Reject(Rejection::StakeUninitialized),
        StakeStateView::RewardsPool => Verdict::Reject(Rejection::RewardsPoolWithdrawal),
    };
    match gate {
        Verdict::Reject(r) => Verdict::Reject(r),
        Verdict::Proceed => {
            if amount > balance {
                Verdict::Reject(Rejection::InsufficientBalance { have: balance, requested: amount })
            } else {
                Verdict::Proceed
            }
        },
    }
}

/// A delegated stake is withdrawable only after the deactivation
/// marker is set and the current epoch is strictly past it; during the
/// cooldown the rejection reports exactly the epochs remaining.
pub proof fn lemma_withdrawal_waits_for_cooldown(
    caller: Address,
    owner: Address,
    state: StakeStateView,
    amount: u64,
    current_epoch: u64,
    balance: u64,
)
    ensures
        state matches StakeStateView::Stake(meta, delegation) ==> ((stake_withdrawal_verdict(
            caller,
            owner,
            state,
            amount,
            current_epoch,
            balance,
        ).is_proceed() ==> (delegation.deactivation_epoch != ACTIVE_STAKE_EPOCH_BOUND
            && current_epoch > delegation.deactivation_epoch)) && ((amount > 0 && owner
            == stake_program_address() && meta.withdrawer == caller
            && delegation.deactivation_epoch != ACTIVE_STAKE_EPOCH_BOUND && current_epoch
            <= delegation.deactivation_epoch) ==> stake_withdrawal_verdict(
            caller,
            owner,
            state,
            amount,
            current_epoch,
            balance,
        ) == Verdict::Reject(Rejection::CooldownNotElapsed {
            current_epoch,
            deactivation_epoch: delegation.deactivation_epoch,
            epochs_remaining: (delegation.deactivation_epoch - current_epoch) as u64,
        }))),
{
}

// ---------------------------------------------------------------------
// Vote account creation

pub open spec fn vote_creation_keys_verdict(
    fee_payer: Address,
    vote_account: Address,
    identity: Address,
) -> Verdict {
    if fee_payer == vote_account {
        Verdict::Reject(Rejection::FeePayerIsVoteAccount { address: fee_payer })
    } else if vote_account == identity {
        Verdict::Reject(Rejection::VoteAccountIsIdentity { address: vote_account })
    } else {
        Verdict::Proceed
    }
}

/// The key-distinctness rules for creating a vote account. They need
/// no fetched state, so they run before any lookup: a rejection here
/// means nothing was read from the ledger for this operation.
pub fn validate_vote_creation_keys(
    fee_payer: Address,
    vote_account: Address,
    identity: Address,
) -> (v: Verdict)
    ensures
        v == vote_creation_keys_verdict(fee_payer, vote_account, identity),
{
    if fee_payer == vote_account {
        Verdict::Reject(Rejection::FeePayerIsVoteAccount { address: fee_payer })
    } else if vote_account == identity {
        Verdict::Reject(Rejection::VoteAccountIsIdentity { address: vote_account })
    } else {
        Verdict::Proceed
    }
}

pub open spec fn vote_creation_target_verdict(
    target: Address,
    existing_owner: Option<Address>,
) -> Verdict {
    match existing_owner {
        Option::Some(owner) => {
            if owner == vote_program_address() {
                Verdict::Reject(Rejection::VoteAccountExists { address: target })
            } else {
                Verdict::Reject(Rejection::AccountInUse { address: target, owner })
            }
        },
        Option::None => Verdict::Proceed,
    }
}

/// The target address must be vacant; an occupied one is rejected,
/// telling a vote account apart from some other program's account.
pub fn validate_vote_creation_target(target: Address, existing_owner: Option<Address>) -> (v:
    Verdict)
    ensures
        v == vote_creation_target_verdict(target, existing_owner),
{
    match existing_owner {
        Option::Some(owner) => {
            if owner == vote_program_id() {
                Verdict::Reject(Rejection::VoteAccountExists { address: target })
            } else {
                Verdict::Reject(Rejection::AccountInUse { address: target, owner })
            }
        },
        Option::None => Verdict::Proceed,
    }
}

/// The funding a new vote account needs: the rent-exempt minimum for
/// the vote-state size, floored at one lamport.
pub fn required_vote_account_funding(rent_exempt_minimum: u64) -> (r: u64)
    ensures
        r == if rent_exempt_minimum >= 1 {
            rent_exempt_minimum
        } else {
            1u64
        },
{
    if rent_exempt_minimum >= 1 {
        rent_exempt_minimum
    } else {
        1
    }
}

// ---------------------------------------------------------------------
// Vote authorize / withdraw

pub open spec fn vote_authorize_verdict(
    supplied: Address,
    owner: Address,
    view: VoteStateView,
    current_epoch: u64,
) -> Verdict {
    if owner != vote_program_address() {
        Verdict::Reject(Rejection::NotVoteProgramOwned { owner })
    } else {
        match voter_for_epoch_spec(view.voters@, current_epoch) {
            Option::None => Verdict::Reject(Rejection::NoAuthorizedVoter),
            Option::Some(voter) => {
                if supplied != voter && supplied != view.withdrawer {
                    Verdict::Reject(Rejection::NotVoteAuthority {
                        supplied,
                        voter,
                        withdrawer: view.withdrawer,
                    })
                } else {
                    Verdict::Proceed
                }
            },
        }
    }
}

/// Changing the authorized voter may be signed by the voter currently
/// authorized for this epoch or by the withdrawer; anyone else is
/// rejected, named against both accepted keys.
pub fn validate_vote_authorize(
    supplied: Address,
    owner: Address,
    view: &VoteStateView,
    current_epoch: u64,
) -> (v: Verdict)
    ensures
        v == vote_authorize_verdict(supplied, owner, *view, current_epoch),
{
    if owner != vote_program_id() {
        return Verdict::Reject(Rejection::NotVoteProgramOwned { owner });
    }
    match voter_for_epoch(&view.voters, current_epoch) {
        Option::None => Verdict::Reject(Rejection::NoAuthorizedVoter),
        Option::Some(voter) => {
            if supplied != voter && supplied != view.withdrawer {
                Verdict::Reject(Rejection::NotVoteAuthority {
                    supplied,
                    voter,
                    withdrawer: view.withdrawer,
                })
            } else {
                Verdict::Proceed
            }
        },
    }
}

pub open spec fn vote_withdrawal_verdict(
    supplied: Address,
    owner: Address,
    withdrawer: Address,
) -> Verdict {
    if owner != vote_program_address() {
        Verdict::Reject(Rejection::NotVoteProgramOwned { owner })
    } else if supplied != withdrawer {
        Verdict::Reject(Rejection::NotAuthorizedWithdrawer { authorized: withdrawer, supplied })
    } else {
        Verdict::Proceed
    }
}

/// Withdrawing from a vote account needs exactly the authorized
/// withdrawer's key.
pub fn validate_vote_withdrawal(supplied: Address, owner: Address, withdrawer: Address) -> (v:
    Verdict)
    ensures
        v == vote_withdrawal_verdict(supplied, owner, withdrawer),
{
    if owner != vote_program_id() {
        Verdict::Reject(Rejection::NotVoteProgramOwned { owner })
    } else if supplied != withdrawer {
        Verdict::Reject(Rejection::NotAuthorizedWithdrawer { authorized: withdrawer, supplied })
    } else {
        Verdict::Proceed
    }
}

// ---------------------------------------------------------------------
// Nonce inspection

pub open spec fn nonce_inspection_verdict(state: NonceStateView) -> Verdict {
    match state {
        NonceStateView::Initialized(_) => Verdict::Proceed,
        NonceStateView::Uninitialized => Verdict::Reject(Rejection::NonceNotInitialized),
    }
}

/// A nonce account whose bytes are well formed but whose state is not
/// initialized fails validation, not decoding.
pub fn validate_nonce_initialized(state: NonceStateView) -> (v: Verdict)
    ensures
        v == nonce_inspection_verdict(state),
{
    match state {
        NonceStateView::Initialized(_) => Verdict::Proceed,
        NonceStateView::Uninitialized => Verdict::Reject(Rejection::NonceNotInitialized),
    }
}

} // verus!
