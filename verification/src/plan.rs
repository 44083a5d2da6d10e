//! Operation orchestration: compose decoding, validation and planning
//! for each operation, so that a transaction plan exists only when the
//! operation's verdict was Proceed.
//!
//! A plan is plain data — which instructions, one fee payer, the exact
//! signer set. The submission layer outside this crate turns a plan
//! into the on-wire instructions, attaches a fresh blockhash, signs
//! with exactly the planned signers and submits.

use vstd::prelude::*;
use crate::amount::LAMPORTS_PER_SOL;
use crate::decode::DecodeError;
use crate::keys::{stake_program_address, vote_program_address, Address};
use crate::ledger::AccountRecord;
use crate::nonce_state::{decode_nonce_state, nonce_decode_spec, NonceData, NonceStateView};
use crate::stake_state::{decode_stake_state, stake_decode_spec};
use crate::validate::{
    stake_deactivation_verdict, stake_withdrawal_verdict, transfer_verdict,
    validate_stake_deactivation, validate_stake_withdrawal, validate_transfer,
    validate_vote_authorize, validate_vote_creation_keys, validate_vote_creation_target,
    validate_vote_withdrawal, vote_authorize_verdict, vote_creation_keys_verdict,
    vote_creation_target_verdict, vote_withdrawal_verdict, Rejection, Verdict,
};
use crate::vote_state::{decode_vote_state, vote_view_of};

verus! {

/// One planned instruction, as plain data.
#[derive(Clone, Copy, Debug, PartialEq, Eq, Structural)]
pub enum InstructionPlan {
    Transfer { from: Address, to: Address, lamports: u64 },
    DeactivateStake { stake_account: Address, authorized: Address },
    WithdrawStake {
        stake_account: Address,
        withdrawer: Address,
        recipient: Address,
        lamports: u64,
    },
    /// Fund and initialize a vote account (the submission layer expands
    /// this into the funding and the initialization instruction).
    CreateVoteAccount {
        fee_payer: Address,
        vote_account: Address,
        identity: Address,
        withdrawer: Address,
        commission: u8,
        lamports: u64,
    },
    AuthorizeVoter { vote_account: Address, authorized: Address, new_authorized: Address },
    WithdrawVote { vote_account: Address, withdrawer: Address, recipient: Address, lamports: u64 },
}

/// A transaction ready to build: ordered instructions, one designated
/// fee payer, and exactly the signers listed.
#[derive(Debug)]
pub struct TransactionPlan {
    pub instructions: Vec<InstructionPlan>,
    pub fee_payer: Address,
    pub signers: Vec<Address>,
}

/// Everything an operation can fail with before submission.
#[derive(Clone, Copy, Debug, PartialEq, Eq, Structural)]
pub enum OperationError {
    /// The fetched payload did not match its schema.
    Decode(DecodeError),
    /// A precondition failed; nothing was submitted.
    Rejected(Rejection),
}

/// An airdrop request: no transaction, just an address and the fixed
/// single-unit amount this wallet asks for.
#[derive(Clone, Copy, Debug, PartialEq, Eq, Structural)]
pub struct AirdropRequest {
    pub address: Address,
    pub lamports: u64,
}

// ---------------------------------------------------------------------
// Transfer

/// Plan a transfer of `amount` lamports, validated against the
/// sender's balance as fetched in this same operation.
pub fn plan_transfer(sender: Address, recipient: Address, balance: u64, amount: u64) -> (r: Result<
    TransactionPlan,
    Rejection,
>)
    ensures
        r is Ok <==> transfer_verdict(balance, amount).is_proceed(),
        r matches Err(rej) ==> Verdict::Reject(rej) == transfer_verdict(balance, amount),
        r matches Ok(p) ==> (p.instructions@ == seq![
            InstructionPlan::Transfer { from: sender, to: recipient, lamports: amount },
        ] && p.fee_payer == sender && p.signers@ == seq![sender]),
{
    match validate_transfer(balance, amount) {
        Verdict::Reject(rej) => Err(rej),
        Verdict::Proceed => {
            let p = TransactionPlan {
                instructions: vec![
                    InstructionPlan::Transfer { from: sender, to: recipient, lamports: amount },
                ],
                fee_payer: sender,
                signers: vec![sender],
            };
            proof {
                assert(p.instructions@ =~= seq![
                    InstructionPlan::Transfer { from: sender, to: recipient, lamports: amount },
                ]);
                assert(p.signers@ =~= seq![sender]);
            }
            Ok(p)
        },
    }
}

/// A transfer plan exists only for an amount within the balance: the
/// builder is never reached on a rejected transfer.
pub proof fn lemma_no_transfer_plan_without_funds(
    balance: u64,
    amount: u64,
    r: Result<TransactionPlan, Rejection>,
)
    requires
        r is Ok <==> transfer_verdict(balance, amount).is_proceed(),
    ensures
        r is Ok ==> amount <= balance,
{
}

// ---------------------------------------------------------------------
// Stake deactivation

/// What stands in the way of deactivating, checked in the order the
/// operation runs: ownership, then decoding, then the state rules.
pub open spec fn stake_deactivation_check(caller: Address, owner: Address, data: Seq<u8>) -> Option<
    OperationError,
> {
    if owner != stake_program_address() {
        Some(OperationError::Rejected(Rejection::NotStakeProgramOwned { owner }))
    } else {
        match stake_decode_spec(data) {
            Err(e) => Some(OperationError::Decode(e)),
            Ok(state) => match stake_deactivation_verdict(caller, owner, state) {
                Verdict::Reject(rej) => Some(OperationError::Rejected(rej)),
                Verdict::Proceed => None,
            },
        }
    }
}

/// Plan deactivating a delegated stake account, after fetching it in
/// this same operation.
pub fn plan_stake_deactivation(
    caller: Address,
    stake_account: Address,
    account: &AccountRecord,
) -> (r: Result<TransactionPlan, OperationError>)
    ensures
        r is Ok <==> stake_deactivation_check(caller, account.owner, account.data@) is None,
        r matches Err(e) ==> Some(e) == stake_deactivation_check(
            caller,
            account.owner,
            account.data@,
        ),
        r matches Ok(p) ==> (p.instructions@ == seq![
            InstructionPlan::DeactivateStake { stake_account, authorized: caller },
        ] && p.fee_payer == caller && p.signers@ == seq![caller]),
{
    if account.owner != crate::keys::stake_program_id() {
        return Err(OperationError::Rejected(Rejection::NotStakeProgramOwned {
            owner: account.owner,
        }));
    }
    let state = match decode_stake_state(&account.data) {
        Err(e) => return Err(OperationError::Decode(e)),
        Ok(state) => state,
    };
    match validate_stake_deactivation(caller, account.owner, state) {
        Verdict::Reject(rej) => Err(OperationError::Rejected(rej)),
        Verdict::Proceed => {
            let p = TransactionPlan {
                instructions: vec![
                    InstructionPlan::DeactivateStake { stake_account, authorized: caller },
                ],
                fee_payer: caller,
                signers: vec![caller],
            };
            proof {
                assert(p.instructions@ =~= seq![
                    InstructionPlan::DeactivateStake { stake_account, authorized: caller },
                ]);
                assert(p.signers@ =~= seq![caller]);
            }
            Ok(p)
        },
    }
}

// ---------------------------------------------------------------------
// Stake withdrawal

/// What stands in the way of a stake withdrawal, in operation order:
/// a positive amount, ownership, decoding, then the state and balance
/// rules.
pub open spec fn stake_withdrawal_check(
    caller: Address,
    owner: Address,
    data: Seq<u8>,
    amount: u64,
    current_epoch: u64,
    balance: u64,
) -> Option<OperationError> {
    if amount == 0 {
        Some(OperationError::Rejected(Rejection::NonPositiveAmount))
    } else if owner != stake_program_address() {
        Some(OperationError::Rejected(Rejection::NotStakeProgramOwned { owner }))
    } else {
        match stake_decode_spec(data) {
            Err(e) => Some(OperationError::Decode(e)),
            Ok(state) => match stake_withdrawal_verdict(
                caller,
                owner,
                state,
                amount,
                current_epoch,
                balance,
            ) {
                Verdict::Reject(rej) => Some(OperationError::Rejected(rej)),
                Verdict::Proceed => None,
            },
        }
    }
}

/// Plan withdrawing `amount` lamports from a stake account to
/// `recipient`, against the account and epoch fetched in this same
/// operation.
pub fn plan_stake_withdrawal(
    caller: Address,
    stake_account: Address,
    account: &AccountRecord,
    recipient: Address,
    amount: u64,
    current_epoch: u64,
) -> (r: Result<TransactionPlan, OperationError>)
    ensures
        r is Ok <==> stake_withdrawal_check(
            caller,
            account.owner,
            account.data@,
            amount,
            current_epoch,
            account.lamports,
        ) is None,
        r matches Err(e) ==> Some(e) == stake_withdrawal_check(
            caller,
            account.owner,
            account.data@,
            amount,
            current_epoch,
            account.lamports,
        ),
        r matches Ok(p) ==> (p.instructions@ == seq![
            InstructionPlan::WithdrawStake {
                stake_account,
                withdrawer: caller,
                recipient,
                lamports: amount,
            },
        ] && p.fee_payer == caller && p.signers@ == seq![caller]),
{
    if amount == 0 {
        return Err(OperationError::Rejected(Rejection::NonPositiveAmount));
    }
    if account.owner != crate::keys::stake_program_id() {
        return Err(OperationError::Rejected(Rejection::NotStakeProgramOwned {
            owner: account.owner,
        }));
    }
    let state = match decode_stake_state(&account.data) {
        Err(e) => return Err(OperationError::Decode(e)),
        Ok(state) => state,
    };
    match validate_stake_withdrawal(
        caller,
        account.owner,
        state,
        amount,
        current_epoch,
        account.lamports,
    ) {
        Verdict::Reject(rej) => Err(OperationError::Rejected(rej)),
        Verdict::Proceed => {
            let p = TransactionPlan {
                instructions: vec![
                    InstructionPlan::WithdrawStake {
                        stake_account,
                        withdrawer: caller,
                        recipient,
                        lamports: amount,
                    },
                ],
                fee_payer: caller,
                signers: vec![caller],
            };
            proof {
                assert(p.instructions@ =~= seq![
                    InstructionPlan::WithdrawStake {
                        stake_account,
                        withdrawer: caller,
                        recipient,
                        lamports: amount,
                    },
                ]);
                assert(p.signers@ =~= seq![caller]);
            }
            Ok(p)
        },
    }
}

// ---------------------------------------------------------------------
// Vote account creation

/// The key-distinctness rules alone. They take no fetched state: run
/// this before any lookup, and a rejection here means no ledger read
/// happened for this operation at all.
pub fn vote_creation_precheck(fee_payer: Address, vote_account: Address, identity: Address) -> (r:
    Result<(), Rejection>)
    ensures
        r is Ok <==> vote_creation_keys_verdict(fee_payer, vote_account, identity).is_proceed(),
        r matches Err(rej) ==> Verdict::Reject(rej) == vote_creation_keys_verdict(
            fee_payer,
            vote_account,
            identity,
        ),
{
    match validate_vote_creation_keys(fee_payer, vote_account, identity) {
        Verdict::Reject(rej) => Err(rej),
        Verdict::Proceed => Ok(()),
    }
}

/// What stands in the way of creating the vote account once state was
/// fetched: the key rules again, then the vacancy of the target.
pub open spec fn vote_creation_check(
    fee_payer: Address,
    vote_account: Address,
    identity: Address,
    existing_owner: Option<Address>,
) -> Option<Rejection> {
    match vote_creation_keys_verdict(fee_payer, vote_account, identity) {
        Verdict::Reject(rej) => Some(rej),
        Verdict::Proceed => match vote_creation_target_verdict(vote_account, existing_owner) {
            Verdict::Reject(rej) => Some(rej),
            Verdict::Proceed => None,
        },
    }
}

/// Plan creating and initializing a vote account. `existing_owner` is
/// the owner of whatever sits at the target address, if anything;
/// `rent_exempt_minimum` is the gateway's answer for the vote-state
/// size. The planned funding is that minimum, floored at one lamport.
pub fn plan_vote_account_creation(
    fee_payer: Address,
    vote_account: Address,
    identity: Address,
    withdrawer: Address,
    commission: u8,
    existing_owner: Option<Address>,
    rent_exempt_minimum: u64,
) -> (r: Result<TransactionPlan, Rejection>)
    ensures
        r is Ok <==> vote_creation_check(fee_payer, vote_account, identity, existing_owner)
            is None,
        r matches Err(rej) ==> Some(rej) == vote_creation_check(
            fee_payer,
            vote_account,
            identity,
            existing_owner,
        ),
        r matches Ok(p) ==> (p.instructions@ == seq![
            InstructionPlan::CreateVoteAccount {
                fee_payer,
                vote_account,
                identity,
                withdrawer,
                commission,
                lamports: if rent_exempt_minimum >= 1 {
                    rent_exempt_minimum
                } else {
                    1u64
                },
            },
        ] && p.fee_payer == fee_payer && p.signers@ == seq![fee_payer, vote_account, identity]),
{
    match validate_vote_creation_keys(fee_payer, vote_account, identity) {
        Verdict::Reject(rej) => {
            return Err(rej);
        },
        Verdict::Proceed => {},
    }
    match validate_vote_creation_target(vote_account, existing_owner) {
        Verdict::Reject(rej) => {
            return Err(rej);
        },
        Verdict::Proceed => {},
    }
    let lamports = crate::validate::required_vote_account_funding(rent_exempt_minimum);
    let p = TransactionPlan {
        instructions: vec![
            InstructionPlan::CreateVoteAccount {
                fee_payer,
                vote_account,
                identity,
                withdrawer,
                commission,
                lamports,
            },
        ],
        fee_payer,
        signers: vec![fee_payer, vote_account, identity],
    };
    proof {
        assert(p.instructions@ =~= seq![
            InstructionPlan::CreateVoteAccount {
                fee_payer,
                vote_account,
                identity,
                withdrawer,
                commission,
                lamports: if rent_exempt_minimum >= 1 {
                    rent_exempt_minimum
                } else {
                    1u64
                },
            },
        ]);
        assert(p.signers@ =~= seq![fee_payer, vote_account, identity]);
    }
    Ok(p)
}

// ---------------------------------------------------------------------
// Vote authorize

/// What stands in the way of changing the authorized voter, in
/// operation order: ownership, decoding, then the authority rule for
/// the current epoch.
pub open spec fn vote_authorize_check(
    supplied: Address,
    vote_account: Address,
    owner: Address,
    data: Seq<u8>,
    current_epoch: u64,
) -> Option<OperationError> {
    if owner != vote_program_address() {
        Some(OperationError::Rejected(Rejection::NotVoteProgramOwned { owner }))
    } else {
        match vote_view_of(data, vote_account.bytes_spec()) {
            Err(e) => Some(OperationError::Decode(e)),
            Ok(view) => match vote_authorize_verdict(supplied, owner, view, current_epoch) {
                Verdict::Reject(rej) => Some(OperationError::Rejected(rej)),
                Verdict::Proceed => None,
            },
        }
    }
}

/// Plan handing the voter authority of `vote_account` to
/// `new_authorized`, signed by `supplied` (the current voter for this
/// epoch, or the withdrawer).
pub fn plan_vote_authorize(
    fee_payer: Address,
    supplied: Address,
    vote_account: Address,
    account: &AccountRecord,
    current_epoch: u64,
    new_authorized: Address,
) -> (r: Result<TransactionPlan, OperationError>)
    ensures
        r is Ok <==> vote_authorize_check(
            supplied,
            vote_account,
            account.owner,
            account.data@,
            current_epoch,
        ) is None,
        r matches Err(e) ==> Some(e) == vote_authorize_check(
            supplied,
            vote_account,
            account.owner,
            account.data@,
            current_epoch,
        ),
        r matches Ok(p) ==> (p.instructions@ == seq![
            InstructionPlan::AuthorizeVoter { vote_account, authorized: supplied, new_authorized },
        ] && p.fee_payer == fee_payer && p.signers@ == seq![fee_payer, supplied]),
{
    if account.owner != crate::keys::vote_program_id() {
        return Err(OperationError::Rejected(Rejection::NotVoteProgramOwned {
            owner: account.owner,
        }));
    }
    let view = match decode_vote_state(&account.data, &vote_account) {
        Err(e) => return Err(OperationError::Decode(e)),
        Ok(view) => view,
    };
    match validate_vote_authorize(supplied, account.owner, &view, current_epoch) {
        Verdict::Reject(rej) => Err(OperationError::Rejected(rej)),
        Verdict::Proceed => {
            let p = TransactionPlan {
                instructions: vec![
                    InstructionPlan::AuthorizeVoter {
                        vote_account,
                        authorized: supplied,
                        new_authorized,
                    },
                ],
                fee_payer,
                signers: vec![fee_payer, supplied],
            };
            proof {
                assert(p.instructions@ =~= seq![
                    InstructionPlan::AuthorizeVoter {
                        vote_account,
                        authorized: supplied,
                        new_authorized,
                    },
                ]);
                assert(p.signers@ =~= seq![fee_payer, supplied]);
            }
            Ok(p)
        },
    }
}

// ---------------------------------------------------------------------
// Vote withdrawal

/// What stands in the way of withdrawing from a vote account, in
/// operation order: ownership, decoding, then the withdrawer rule.
pub open spec fn vote_withdrawal_check(
    supplied: Address,
    vote_account: Address,
    owner: Address,
    data: Seq<u8>,
) -> Option<OperationError> {
    if owner != vote_program_address() {
        Some(OperationError::Rejected(Rejection::NotVoteProgramOwned { owner }))
    } else {
        match vote_view_of(data, vote_account.bytes_spec()) {
            Err(e) => Some(OperationError::Decode(e)),
            Ok(view) => match vote_withdrawal_verdict(supplied, owner, view.withdrawer) {
                Verdict::Reject(rej) => Some(OperationError::Rejected(rej)),
                Verdict::Proceed => None,
            },
        }
    }
}

/// Plan withdrawing `amount` lamports from a vote account to
/// `recipient`, signed by `supplied`, who must be the authorized
/// withdrawer.
pub fn plan_vote_withdrawal(
    fee_payer: Address,
    supplied: Address,
    vote_account: Address,
    account: &AccountRecord,
    recipient: Address,
    amount: u64,
) -> (r: Result<TransactionPlan, OperationError>)
    ensures
        r is Ok <==> vote_withdrawal_check(supplied, vote_account, account.owner, account.data@)
            is None,
        r matches Err(e) ==> Some(e) == vote_withdrawal_check(
            supplied,
            vote_account,
            account.owner,
            account.data@,
        ),
        r matches Ok(p) ==> (p.instructions@ == seq![
            InstructionPlan::WithdrawVote {
                vote_account,
                withdrawer: supplied,
                recipient,
                lamports: amount,
            },
        ] && p.fee_payer == fee_payer && p.signers@ == seq![fee_payer, supplied]),
{
    if account.owner != crate::keys::vote_program_id() {
        return Err(OperationError::Rejected(Rejection::NotVoteProgramOwned {
            owner: account.owner,
        }));
    }
    let view = match decode_vote_state(&account.data, &vote_account) {
        Err(e) => return Err(OperationError::Decode(e)),
        Ok(view) => view,
    };
    match validate_vote_withdrawal(supplied, account.owner, view.withdrawer) {
        Verdict::Reject(rej) => Err(OperationError::Rejected(rej)),
        Verdict::Proceed => {
            let p = TransactionPlan {
                instructions: vec![
                    InstructionPlan::WithdrawVote {
                        vote_account,
                        withdrawer: supplied,
                        recipient,
                        lamports: amount,
                    },
                ],
                fee_payer,
                signers: vec![fee_payer, supplied],
            };
            proof {
                assert(p.instructions@ =~= seq![
                    InstructionPlan::WithdrawVote {
                        vote_account,
                        withdrawer: supplied,
                        recipient,
                        lamports: amount,
                    },
                ]);
                assert(p.signers@ =~= seq![fee_payer, supplied]);
            }
            Ok(p)
        },
    }
}

// ---------------------------------------------------------------------
// Airdrop and nonce inspection

/// An airdrop asks for exactly one display unit; nothing to validate
/// beyond having an address.
pub fn plan_airdrop(recipient: Address) -> (r: AirdropRequest)
    ensures
        r == (AirdropRequest { address: recipient, lamports: LAMPORTS_PER_SOL }),
{
    AirdropRequest { address: recipient, lamports: LAMPORTS_PER_SOL }
}

/// What stands in the way of showing a nonce account: decoding, then
/// the initialized-state rule.
pub open spec fn nonce_inspection_check(data: Seq<u8>) -> Result<NonceData, OperationError> {
    match nonce_decode_spec(data) {
        Err(e) => Err(OperationError::Decode(e)),
        Ok(NonceStateView::Uninitialized) => Err(
            OperationError::Rejected(Rejection::NonceNotInitialized),
        ),
        Ok(NonceStateView::Initialized(nonce_data)) => Ok(nonce_data),
    }
}

/// Decode a fetched nonce account and insist it is initialized: well
/// formed but uninitialized bytes are a validation failure, not a
/// decode failure.
pub fn inspect_nonce_account(account: &AccountRecord) -> (r: Result<NonceData, OperationError>)
    ensures
        r == nonce_inspection_check(account.data@),
{
    match decode_nonce_state(&account.data) {
        Err(e) => Err(OperationError::Decode(e)),
        Ok(NonceStateView::Uninitialized) => Err(
            OperationError::Rejected(Rejection::NonceNotInitialized),
        ),
        Ok(NonceStateView::Initialized(nonce_data)) => Ok(nonce_data),
    }
}

} // verus!
