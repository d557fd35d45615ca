//! The command menus and what each command asks the caller to do.

use vstd::prelude::*;

pub mod stake;
pub mod vote;

verus! {

/// What the caller does once a command has been handled.
#[derive(Debug, Clone, Copy, PartialEq, Eq, Structural)]
pub enum CommandExec<T> {
    /// The command ran and produced a value.
    Process(T),
    /// The user asked to return to the previous menu.
    GoBack,
}

} // verus!
