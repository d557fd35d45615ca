//! Staking and voting commands of a Solana command-line wallet.
//!
//! The crate holds the parts of the wallet that decide and compute: the
//! command menus, the decoding of a stake account together with the clock
//! and stake history sysvars, and the table of fields that describes the
//! account. Prompting, RPC and printing are left to the caller.

pub mod commands;
pub mod constants;
pub mod stake_account;
pub mod text;
