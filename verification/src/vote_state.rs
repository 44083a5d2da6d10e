//! Decoded view of a vote account's payload, and the carried-forward
//! authorized-voter lookup the authorization rule needs.
//!
//! Unlike the stake and nonce schemas, the vote-state schema is
//! versioned and variable-width, so decoding is delegated to the vote
//! program's own deserializer behind one trusted wrapper; everything
//! that reads the resulting view is verified.

use vstd::prelude::*;
use crate::decode::{AccountSchema, DecodeCause, DecodeError};
use crate::keys::Address;
use solana_pubkey::Pubkey;
use solana_vote_program::vote_state::VoteStateV4;

verus! {

/// One entry of the authorized-voter history: `voter` signs votes from
/// `epoch` on, until a later entry overrides it.
#[derive(Clone, Copy, Debug, PartialEq, Eq, Structural)]
pub struct VoterEntry {
    pub epoch: u64,
    pub voter: Address,
}

/// A vote account's fields, as decoded from its payload.
#[derive(Clone, Debug)]
pub struct VoteStateView {
    /// The validator identity that votes in this account.
    pub node: Address,
    /// The signer for withdrawals.
    pub withdrawer: Address,
    /// Authorized-voter history, ascending by epoch.
    pub voters: Vec<VoterEntry>,
    /// Inflation-rewards commission, in basis points.
    pub commission_bps: u16,
    /// Credits earned by the end of the most recent epoch.
    pub credits: u64,
    pub root_slot: Option<u64>,
    /// Most recent timestamp submitted with a vote, and its slot.
    pub last_timestamp: i64,
    pub last_timestamp_slot: u64,
}

impl VoteStateView {
    /// The voter history is strictly ascending by epoch.
    pub open spec fn wf(self) -> bool {
        forall|i: int, j: int|
            0 <= i < j < self.voters@.len() ==> self.voters@[i].epoch < self.voters@[j].epoch
    }
}

/// The authorized voter a history answers for `epoch`: the entry at
/// `epoch` itself or, failing that, the nearest earlier entry, carried
/// forward. `None` when every entry is later than `epoch`.
pub open spec fn voter_for_epoch_spec(s: Seq<VoterEntry>, epoch: u64) -> Option<Address>
    decreases s.len(),
{
    if s.len() == 0 {
        None
    } else if s.last().epoch <= epoch {
        Some(s.last().voter)
    } else {
        voter_for_epoch_spec(s.drop_last(), epoch)
    }
}

/// What the vote program's deserializer makes of a payload: a function
/// of the payload and the account's own address, nothing else.
pub uninterp spec fn vote_view_of(data: Seq<u8>, account: Seq<u8>) -> Result<
    VoteStateView,
    DecodeError,
>;

/// Relies on `VoteStateV4::deserialize` of the vote program crate,
/// which decodes any supported schema version into the current shape
/// from the payload and account address alone, and on its `credits`
/// accessor (the credits of the last epoch-credits entry). The voter
/// history comes out of an epoch-keyed ordered map, so it is ascending.
#[verifier::external_body]
fn vote_state_from_bytes(data: &Vec<u8>, account_bytes: &Vec<u8>) -> (r: Result<
    VoteStateView,
    DecodeError,
>)
    requires
        account_bytes@.len() == 32,
    ensures
        r == vote_view_of(data@, account_bytes@),
        r matches Ok(v) ==> v.wf(),
{
    let malformed = DecodeError { schema: AccountSchema::VoteState, cause: DecodeCause::Malformed };
    let pk = Pubkey::try_from(account_bytes.as_slice()).map_err(|_| malformed)?;
    let vs = VoteStateV4::deserialize(data.as_slice(), &pk).map_err(|_| malformed)?;
    let voters = vs.authorized_voters.iter().map(
        |(e, p)| VoterEntry { epoch: *e, voter: key_to_address(p.as_array()) },
    ).collect();
    Ok(VoteStateView {
        node: key_to_address(vs.node_pubkey.as_array()),
        withdrawer: key_to_address(vs.authorized_withdrawer.as_array()),
        voters, commission_bps: vs.inflation_rewards_commission_bps,
        credits: vs.credits(), root_slot: vs.root_slot,
        last_timestamp: vs.last_timestamp.timestamp, last_timestamp_slot: vs.last_timestamp.slot,
    })
}

/// The address held in a 32-byte key.
fn key_to_address(key: &[u8; 32]) -> (r: Address)
    ensures
        r == crate::decode::addr_at(key@, 0),
{
    let mut v: Vec<u8> = Vec::new();
    let mut i: usize = 0;
    while i < 32
        invariant
            i <= 32,
            v@ =~= key@.subrange(0, i as int),
        decreases 32 - i,
    {
        v.push(key[i]);
        i = i + 1;
    }
    proof {
        assert(v@ =~= key@);
    }
    crate::decode::read_address(&v, 0)
}

/// Decode a vote account payload into its view. `account` is the vote
/// account's own address, which versioned decoding consults.
pub fn decode_vote_state(data: &Vec<u8>, account: &Address) -> (r: Result<
    VoteStateView,
    DecodeError,
>)
    ensures
        r == vote_view_of(data@, account.bytes_spec()),
        r matches Ok(v) ==> v.wf(),
{
    let bytes = crate::keys::address_bytes(account);
    vote_state_from_bytes(data, &bytes)
}

/// The authorized voter for `epoch`, carried forward from the nearest
/// entry at or before it.
pub fn voter_for_epoch(voters: &Vec<VoterEntry>, epoch: u64) -> (r: Option<Address>)
    ensures
        r == voter_for_epoch_spec(voters@, epoch),
{
    let n: usize = voters.len();
    let mut i: usize = n;
    proof {
        assert(voters@.subrange(0, n as int) =~= voters@);
    }
    while i > 0
        invariant
            i <= n,
            n == voters@.len(),
            voter_for_epoch_spec(voters@, epoch) == voter_for_epoch_spec(
                voters@.subrange(0, i as int),
                epoch,
            ),
        decreases i,
    {
        if voters[i - 1].epoch <= epoch {
            proof {
                assert(voters@.subrange(0, i as int).last() == voters@[i - 1]);
            }
            return Some(voters[i - 1].voter);
        }
        proof {
            assert(voters@.subrange(0, i as int).drop_last() =~= voters@.subrange(
                0,
                i as int - 1,
            ));
        }
        i = i - 1;
    }
    proof {
        assert(voters@.subrange(0, 0) =~= Seq::<VoterEntry>::empty());
    }
    None
}

/// Decoding is a function of the payload and account address alone:
/// two views decoded from equal inputs are structurally equal.
pub proof fn lemma_vote_decode_deterministic(
    data: Seq<u8>,
    account: Seq<u8>,
    r1: Result<VoteStateView, DecodeError>,
    r2: Result<VoteStateView, DecodeError>,
)
    requires
        r1 == vote_view_of(data, account),
        r2 == vote_view_of(data, account),
    ensures
        r1 == r2,
{
}

/// The key shown as the account's vote authority: the most recent
/// authorized voter, or the node identity when the history is empty.
pub fn display_vote_authority(view: &VoteStateView) -> (r: Address)
    ensures
        r == if view.voters@.len() > 0 {
            view.voters@.last().voter
        } else {
            view.node
        },
{
    let n: usize = view.voters.len();
    if n > 0 {
        view.voters[n - 1].voter
    } else {
        view.node
    }
}

} // verus!
