//! Commands related to validator vote-account operations.

use vstd::prelude::*;

verus! {

#[derive(Debug, Clone, Copy, PartialEq, Eq, Structural)]
pub enum VoteCommand {
    CreateVoteAccount,
    AuthorizeVoter,
    WithdrawFromVoteAccount,
    ShowVoteAccount,
    GoBack,
}

impl VoteCommand {
    /// The line shown while the operation runs.
    pub fn spinner_msg(&self) -> (r: &'static str)
        ensures
            r@ == self.spinner_msg_spec(),
    {
        match self {
            VoteCommand::CreateVoteAccount => "Creating vote account…",
            VoteCommand::AuthorizeVoter => "Authorizing voter…",
            VoteCommand::WithdrawFromVoteAccount => "Withdrawing SOL from vote account…",
            VoteCommand::ShowVoteAccount => "Fetching vote account details…",
            VoteCommand::GoBack => "Going back…",
        }
    }

    pub open spec fn spinner_msg_spec(self) -> Seq<char> {
        match self {
            VoteCommand::CreateVoteAccount => "Creating vote account…"@,
            VoteCommand::AuthorizeVoter => "Authorizing voter…"@,
            VoteCommand::WithdrawFromVoteAccount => "Withdrawing SOL from vote account…"@,
            VoteCommand::ShowVoteAccount => "Fetching vote account details…"@,
            VoteCommand::GoBack => "Going back…"@,
        }
    }

    /// The menu line this command is shown as.
    pub fn menu_label(&self) -> (r: &'static str)
        ensures
            r@ == self.menu_label_spec(),
    {
        match self {
            VoteCommand::CreateVoteAccount => "Create Vote Account",
            VoteCommand::AuthorizeVoter => "Authorize Voter",
            VoteCommand::WithdrawFromVoteAccount => "Withdraw From Vote Account",
            VoteCommand::ShowVoteAccount => "Show Vote Account",
            VoteCommand::GoBack => "Go Back",
        }
    }

    pub open spec fn menu_label_spec(self) -> Seq<char> {
        match self {
            VoteCommand::CreateVoteAccount => "Create Vote Account"@,
            VoteCommand::AuthorizeVoter => "Authorize Voter"@,
            VoteCommand::WithdrawFromVoteAccount => "Withdraw From Vote Account"@,
            VoteCommand::ShowVoteAccount => "Show Vote Account"@,
            VoteCommand::GoBack => "Go Back"@,
        }
    }
}

} // verus!
