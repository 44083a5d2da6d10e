//! Commands related to wallet or account management.

use vstd::prelude::*;

verus! {

#[derive(Debug, Clone, Copy, PartialEq, Eq, Structural)]
pub enum AccountCommand {
    FetchAccount,
    Balance,
    Transfer,
    Airdrop,
    LargestAccounts,
    NonceAccount,
    GoBack,
}

impl AccountCommand {
    /// The line shown while the operation runs.
    pub fn spinner_msg(&self) -> (r: &'static str)
        ensures
            r@ == self.spinner_msg_spec(),
    {
        match self {
            AccountCommand::FetchAccount => "Fetching account…",
            AccountCommand::Balance => "Checking SOL balance…",
            AccountCommand::Transfer => "Sending SOL…",
            AccountCommand::Airdrop => "Requesting SOL on devnet/testnet…",
            AccountCommand::LargestAccounts => "Fetching largest accounts on the cluster…",
            AccountCommand::NonceAccount => "Inspecting or managing durable nonces…",
            AccountCommand::GoBack => "Going back…",
        }
    }

    pub open spec fn spinner_msg_spec(self) -> Seq<char> {
        match self {
            AccountCommand::FetchAccount => "Fetching account…"@,
            AccountCommand::Balance => "Checking SOL balance…"@,
            AccountCommand::Transfer => "Sending SOL…"@,
            AccountCommand::Airdrop => "Requesting SOL on devnet/testnet…"@,
            AccountCommand::LargestAccounts => "Fetching largest accounts on the cluster…"@,
            AccountCommand::NonceAccount => "Inspecting or managing durable nonces…"@,
            AccountCommand::GoBack => "Going back…"@,
        }
    }

    /// The menu line this command is shown as.
    pub fn menu_label(&self) -> (r: &'static str)
        ensures
            r@ == self.menu_label_spec(),
    {
        match self {
            AccountCommand::FetchAccount => "Fetch account",
            AccountCommand::Balance => "Check balance",
            AccountCommand::Transfer => "Transfer SOL",
            AccountCommand::Airdrop => "Request airdrop",
            AccountCommand::LargestAccounts => "View largest accounts",
            AccountCommand::NonceAccount => "View nonce account",
            AccountCommand::GoBack => "Go back",
        }
    }

    pub open spec fn menu_label_spec(self) -> Seq<char> {
        match self {
            AccountCommand::FetchAccount => "Fetch account"@,
            AccountCommand::Balance => "Check balance"@,
            AccountCommand::Transfer => "Transfer SOL"@,
            AccountCommand::Airdrop => "Request airdrop"@,
            AccountCommand::LargestAccounts => "View largest accounts"@,
            AccountCommand::NonceAccount => "View nonce account"@,
            AccountCommand::GoBack => "Go back"@,
        }
    }
}

} // verus!
