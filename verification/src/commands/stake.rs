//! Commands on stake accounts.

use crate::commands::CommandExec;
use vstd::prelude::*;

verus! {

/// The question put to the user before a stake account is shown.
pub const STAKE_ACCOUNT_PROMPT: &'static str = "Enter Stake Account Pubkey:";

/// Commands related to staking operations
#[derive(Debug, Clone, Copy, PartialEq, Eq, Structural)]
pub enum StakeCommand {
    Create,
    Delegate,
    Deactivate,
    Withdraw,
    Merge,
    Split,
    Show,
    History,
    GoBack,
}

/// Work that a stake command leaves to the caller.
#[derive(Debug, Clone, Copy, PartialEq, Eq, Structural)]
pub enum StakeTask {
    /// Ask for the address of a stake account, fetch it together with the
    /// stake history and clock sysvars, and show the report on it.
    ShowStakeAccount,
}

impl StakeCommand {
    /// The menu text of each command.
    pub open spec fn description_text(self) -> Seq<char> {
        match self {
            StakeCommand::Create => "Create a new stake account"@,
            StakeCommand::Delegate => "Delegate stake to a validator"@,
            StakeCommand::Deactivate => "Begin stake cooldown"@,
            StakeCommand::Withdraw => "Withdraw SOL from deactivated stake"@,
            StakeCommand::Merge => "Combine two stake accounts"@,
            StakeCommand::Split => "Split stake into multiple accounts"@,
            StakeCommand::Show => "Display stake account details"@,
            StakeCommand::History => "View stake account history"@,
            StakeCommand::GoBack => "Go back"@,
        }
    }

    /// Whether the wallet can carry the command out.
    pub open spec fn is_implemented(self) -> bool {
        self == StakeCommand::Show || self == StakeCommand::GoBack
    }

    /// Returns the text shown for the command in the menu.
    pub fn description(&self) -> (text: &'static str)
        ensures
            text@ == self.description_text(),
    {
        match self {
            StakeCommand::Create => "Create a new stake account",
            StakeCommand::Delegate => "Delegate stake to a validator",
            StakeCommand::Deactivate => "Begin stake cooldown",
            StakeCommand::Withdraw => "Withdraw SOL from deactivated stake",
            StakeCommand::Merge => "Combine two stake accounts",
            StakeCommand::Split => "Split stake into multiple accounts",
            StakeCommand::Show => "Display stake account details",
            StakeCommand::History => "View stake account history",
            StakeCommand::GoBack => "Go back",
        }
    }

    /// Tells whether the command is one that `process_command` accepts.
    pub fn implemented(&self) -> (yes: bool)
        ensures
            yes == self.is_implemented(),
    {
        match self {
            StakeCommand::Show | StakeCommand::GoBack => true,
            _ => false,
        }
    }

    /// Handles the command: showing a stake account is left to the caller as
    /// a task, going back is passed on.
    pub fn process_command(&self) -> (exec: CommandExec<StakeTask>)
        requires
            self.is_implemented(),
        ensures
            exec == match *self {
                StakeCommand::Show => CommandExec::Process(StakeTask::ShowStakeAccount),
                _ => CommandExec::GoBack,
            },
    {
        match self {
            StakeCommand::Show => CommandExec::Process(StakeTask::ShowStakeAccount),
            _ => CommandExec::GoBack,
        }
    }
}

} // verus!
