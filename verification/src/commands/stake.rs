//! Commands related to staking operations.

use vstd::prelude::*;

verus! {

#[derive(Debug, Clone, Copy, PartialEq, Eq, Structural)]
pub enum StakeCommand {
    Create,
    Delegate,
    Deactivate,
    Withdraw,
    Merge,
    Split,
    Show,
    History,
    GoBack,
}

impl StakeCommand {
    /// The line shown while the operation runs.
    pub fn spinner_msg(&self) -> (r: &'static str)
        ensures
            r@ == self.spinner_msg_spec(),
    {
        match self {
            StakeCommand::Create => "Creating new stake account…",
            StakeCommand::Delegate => "Delegating stake to validator…",
            StakeCommand::Deactivate => "Deactivating stake (cooldown starting)…",
            StakeCommand::Withdraw => "Withdrawing SOL from deactivated stake…",
            StakeCommand::Merge => "Merging stake accounts…",
            StakeCommand::Split => "Splitting stake into multiple accounts…",
            StakeCommand::Show => "Fetching stake account details…",
            StakeCommand::History => "Fetching stake account history…",
            StakeCommand::GoBack => "Going back…",
        }
    }

    pub open spec fn spinner_msg_spec(self) -> Seq<char> {
        match self {
            StakeCommand::Create => "Creating new stake account…"@,
            StakeCommand::Delegate => "Delegating stake to validator…"@,
            StakeCommand::Deactivate => "Deactivating stake (cooldown starting)…"@,
            StakeCommand::Withdraw => "Withdrawing SOL from deactivated stake…"@,
            StakeCommand::Merge => "Merging stake accounts…"@,
            StakeCommand::Split => "Splitting stake into multiple accounts…"@,
            StakeCommand::Show => "Fetching stake account details…"@,
            StakeCommand::History => "Fetching stake account history…"@,
            StakeCommand::GoBack => "Going back…"@,
        }
    }

    /// The menu line this command is shown as.
    pub fn menu_label(&self) -> (r: &'static str)
        ensures
            r@ == self.menu_label_spec(),
    {
        match self {
            StakeCommand::Create => "Create",
            StakeCommand::Delegate => "Delegate",
            StakeCommand::Deactivate => "Deactivate",
            StakeCommand::Withdraw => "Withdraw",
            StakeCommand::Merge => "Merge",
            StakeCommand::Split => "Split",
            StakeCommand::Show => "Show",
            StakeCommand::History => "History",
            StakeCommand::GoBack => "Go Back",
        }
    }

    pub open spec fn menu_label_spec(self) -> Seq<char> {
        match self {
            StakeCommand::Create => "Create"@,
            StakeCommand::Delegate => "Delegate"@,
            StakeCommand::Deactivate => "Deactivate"@,
            StakeCommand::Withdraw => "Withdraw"@,
            StakeCommand::Merge => "Merge"@,
            StakeCommand::Split => "Split"@,
            StakeCommand::Show => "Show"@,
            StakeCommand::History => "History"@,
            StakeCommand::GoBack => "Go Back"@,
        }
    }
}

} // verus!
