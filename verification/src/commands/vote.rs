//! Commands on vote accounts.

use crate::commands::CommandExec;
use vstd::prelude::*;

verus! {

/// Commands related to validator/vote account operations
#[derive(Debug, Clone, Copy, PartialEq, Eq, Structural)]
pub enum VoteCommand {
    CreateVoteAccount,
    AuthorizeVoter,
    WithdrawFromVote,
    ShowVoteAccount,
    GoBack,
}

impl VoteCommand {
    /// The menu text of each command.
    pub open spec fn description_text(self) -> Seq<char> {
        match self {
            VoteCommand::CreateVoteAccount => "Initialize a new vote account"@,
            VoteCommand::AuthorizeVoter => "Change authorized voter"@,
            VoteCommand::WithdrawFromVote => "Withdraw from vote account"@,
            VoteCommand::ShowVoteAccount => "Display vote account info"@,
            VoteCommand::GoBack => "Go back"@,
        }
    }

    /// Whether the wallet can carry the command out.
    pub open spec fn is_implemented(self) -> bool {
        self == VoteCommand::GoBack
    }

    /// Returns the text shown for the command in the menu.
    pub fn description(&self) -> (text: &'static str)
        ensures
            text@ == self.description_text(),
    {
        match self {
            VoteCommand::CreateVoteAccount => "Initialize a new vote account",
            VoteCommand::AuthorizeVoter => "Change authorized voter",
            VoteCommand::WithdrawFromVote => "Withdraw from vote account",
            VoteCommand::ShowVoteAccount => "Display vote account info",
            VoteCommand::GoBack => "Go back",
        }
    }

    /// Tells whether the command is one that `process_command` accepts.
    pub fn implemented(&self) -> (yes: bool)
        ensures
            yes == self.is_implemented(),
    {
        match self {
            VoteCommand::GoBack => true,
            _ => false,
        }
    }

    /// Handles the command. Only going back is available for vote accounts.
    pub fn process_command(&self) -> (exec: CommandExec<()>)
        requires
            self.is_implemented(),
        ensures
            exec == CommandExec::<()>::GoBack,
    {
        CommandExec::GoBack
    }
}

} // verus!
