//! Core of an interactive wallet for a remote ledger: decoding fetched
//! account state, validating each operation's preconditions against that
//! state, and planning the resulting transaction. The network transport,
//! prompting and rendering live outside this crate; everything here is
//! pure logic over plain values and is verified.

pub mod amount;
pub mod commands;
pub mod decode;
pub mod keys;
pub mod ledger;
pub mod nonce_state;
pub mod plan;
pub mod stake_state;
pub mod validate;
pub mod vote_state;
