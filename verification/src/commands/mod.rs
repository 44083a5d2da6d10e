//! The command hierarchy and the interactive router's state machine.
//!
//! The router is a three-state machine: the main menu, one group menu,
//! or terminated. Every leaf operation resolves to exactly one
//! [`CommandExec`] outcome, and that outcome is the only channel the
//! router reads control flow from.

use vstd::prelude::*;

pub mod account;
pub mod config;
pub mod stake;
pub mod vote;

use account::AccountCommand;
use config::ConfigCommand;
use stake::StakeCommand;
use vote::VoteCommand;

verus! {

/// The single outcome a leaf operation yields: carry on in the same
/// menu with a value, go back to the main menu, or end the session.
#[derive(Debug)]
pub enum CommandExec<T> {
    Process(T),
    GoBack,
    Exit,
}

/// One selected leaf command, under its group.
#[derive(Debug, Clone)]
pub enum Command {
    Stake(StakeCommand),
    Account(AccountCommand),
    Vote(VoteCommand),
    ScillaConfig(ConfigCommand),
    Exit,
}

impl Command {
    /// The group a selected command belongs under.
    pub fn group(&self) -> (r: CommandGroup)
        ensures
            r == match *self {
                Command::Stake(_) => CommandGroup::Stake,
                Command::Account(_) => CommandGroup::Account,
                Command::Vote(_) => CommandGroup::Vote,
                Command::ScillaConfig(_) => CommandGroup::ScillaConfig,
                Command::Exit => CommandGroup::Exit,
            },
    {
        match self {
            Command::Stake(_) => CommandGroup::Stake,
            Command::Account(_) => CommandGroup::Account,
            Command::Vote(_) => CommandGroup::Vote,
            Command::ScillaConfig(_) => CommandGroup::ScillaConfig,
            Command::Exit => CommandGroup::Exit,
        }
    }
}

/// The groups the main menu offers.
#[derive(Debug, Clone, Copy, PartialEq, Eq, Structural)]
pub enum CommandGroup {
    Account,
    Stake,
    Vote,
    ScillaConfig,
    Exit,
}

impl CommandGroup {
    /// The menu line this group is shown as.
    pub fn menu_label(&self) -> (r: &'static str)
        ensures
            r@ == self.menu_label_spec(),
    {
        match self {
            CommandGroup::Account => "Account",
            CommandGroup::Stake => "Stake",
            CommandGroup::Vote => "Vote",
            CommandGroup::ScillaConfig => "ScillaConfig",
            CommandGroup::Exit => "Exit",
        }
    }

    pub open spec fn menu_label_spec(self) -> Seq<char> {
        match self {
            CommandGroup::Account => "Account"@,
            CommandGroup::Stake => "Stake"@,
            CommandGroup::Vote => "Vote"@,
            CommandGroup::ScillaConfig => "ScillaConfig"@,
            CommandGroup::Exit => "Exit"@,
        }
    }
}

/// Where the interactive router stands.
#[derive(Debug, Clone, Copy, PartialEq, Eq, Structural)]
pub enum RouterState {
    MainMenu,
    GroupMenu(CommandGroup),
    Terminated,
}

/// A selection from the main menu: a group opens its menu; the exit
/// entry terminates the session.
pub fn main_menu_transition(group: CommandGroup) -> (r: RouterState)
    ensures
        group == CommandGroup::Exit ==> r == RouterState::Terminated,
        group != CommandGroup::Exit ==> r == RouterState::GroupMenu(group),
{
    match group {
        CommandGroup::Exit => RouterState::Terminated,
        _ => RouterState::GroupMenu(group),
    }
}

/// How an operation's outcome moves the router: a completed operation
/// keeps the current menu, going back returns to the main menu, and
/// exit terminates. A terminated router stays terminated.
pub fn outcome_transition<T>(state: RouterState, outcome: &CommandExec<T>) -> (r: RouterState)
    ensures
        state == RouterState::Terminated ==> r == RouterState::Terminated,
        state != RouterState::Terminated ==> match *outcome {
            CommandExec::Process(_) => r == state,
            CommandExec::GoBack => r == RouterState::MainMenu,
            CommandExec::Exit => r == RouterState::Terminated,
        },
{
    if let RouterState::Terminated = state {
        return RouterState::Terminated;
    }
    match outcome {
        CommandExec::Process(_) => state,
        CommandExec::GoBack => RouterState::MainMenu,
        CommandExec::Exit => RouterState::Terminated,
    }
}

/// Termination is absorbing, and only the exit outcome (or the exit
/// menu entry) reaches it: an outcome that is not `Exit` never
/// terminates a live router.
pub proof fn lemma_only_exit_terminates<T>(state: RouterState, outcome: CommandExec<T>, r: RouterState)
    requires
        state != RouterState::Terminated,
        !(outcome is Exit),
        match outcome {
            CommandExec::Process(_) => r == state,
            CommandExec::GoBack => r == RouterState::MainMenu,
            CommandExec::Exit => r == RouterState::Terminated,
        },
    ensures
        r != RouterState::Terminated,
{
}

} // verus!
