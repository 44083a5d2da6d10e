//! Commands related to the wallet's own configuration: the RPC
//! endpoint, the commitment level and the keypair path.

use vstd::prelude::*;

verus! {

#[derive(Debug, Clone, Copy, PartialEq, Eq, Structural)]
pub enum ConfigCommand {
    Show,
    Generate,
    Edit,
    GoBack,
}

impl ConfigCommand {
    /// The line shown while the operation runs.
    pub fn spinner_msg(&self) -> (r: &'static str)
        ensures
            r@ == self.spinner_msg_spec(),
    {
        match self {
            ConfigCommand::Show => "Displaying current Scilla configuration…",
            ConfigCommand::Generate => "Generating new Scilla configuration…",
            ConfigCommand::Edit => "Editing existing Scilla configuration…",
            ConfigCommand::GoBack => "Going back…",
        }
    }

    pub open spec fn spinner_msg_spec(self) -> Seq<char> {
        match self {
            ConfigCommand::Show => "Displaying current Scilla configuration…"@,
            ConfigCommand::Generate => "Generating new Scilla configuration…"@,
            ConfigCommand::Edit => "Editing existing Scilla configuration…"@,
            ConfigCommand::GoBack => "Going back…"@,
        }
    }

    /// The menu line this command is shown as.
    pub fn menu_label(&self) -> (r: &'static str)
        ensures
            r@ == self.menu_label_spec(),
    {
        match self {
            ConfigCommand::Show => "Show ScillaConfig",
            ConfigCommand::Generate => "Generate ScillaConfig",
            ConfigCommand::Edit => "Edit ScillaConfig",
            ConfigCommand::GoBack => "Go Back",
        }
    }

    pub open spec fn menu_label_spec(self) -> Seq<char> {
        match self {
            ConfigCommand::Show => "Show ScillaConfig"@,
            ConfigCommand::Generate => "Generate ScillaConfig"@,
            ConfigCommand::Edit => "Edit ScillaConfig"@,
            ConfigCommand::GoBack => "Go Back"@,
        }
    }
}

} // verus!
