//! Plain-value records for what the ledger gateway hands back, and the
//! session context every operation runs under.
//!
//! The gateway itself (the network client) lives outside this crate;
//! callers fetch state through it and pass these records in.

use vstd::prelude::*;
use crate::keys::Address;

verus! {

/// One fetched account: balance, owner program, raw payload and the
/// ledger's bookkeeping fields.
#[derive(Clone, Debug)]
pub struct AccountRecord {
    pub lamports: u64,
    pub owner: Address,
    pub data: Vec<u8>,
    pub executable: bool,
    pub rent_epoch: u64,
}

/// The durability level reads and confirmations are requested at.
#[derive(Clone, Copy, Debug, PartialEq, Eq, Structural)]
pub enum Commitment {
    Processed,
    Confirmed,
    Finalized,
}

/// Which accounts a largest-accounts query covers.
#[derive(Clone, Copy, Debug, PartialEq, Eq, Structural)]
pub enum LargestAccountsFilter {
    All,
    Circulating,
    NonCirculating,
}

/// The context an operation runs under: the signing key's address and
/// the gateway binding it will be submitted through. Replaced wholesale
/// when the configuration is reloaded, never edited field by field.
#[derive(Clone, Debug)]
pub struct Session {
    /// Address derived from the signing key.
    pub address: Address,
    /// Endpoint the gateway is bound to.
    pub rpc_url: String,
    /// Durability level the gateway confirms at.
    pub commitment: Commitment,
}

impl Session {
    /// Replace the whole session with a freshly loaded one.
    pub fn reload(&mut self, new_session: Session)
        ensures
            *final(self) == new_session,
    {
        *self = new_session;
    }
}

} // verus!
