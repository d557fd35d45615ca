//! The report on a stake account: from the accounts as they were fetched to
//! the table that is shown.

pub mod codec;
pub mod report;
pub mod sdk;
pub mod state;
pub mod table;

use crate::stake_account::codec::{
    decode_clock, decode_stake_history, decode_stake_state, decoded_clock, decoded_stake_history,
    decoded_stake_state,
};
use crate::stake_account::report::{report_rows, stake_account_rows, Row, RowText};
use crate::stake_account::sdk::{base58, clock_sysvar, stake_history_sysvar};
use crate::stake_account::state::Address;
use crate::stake_account::table::{report_table, row_cells, table_header, table_rows};
use comfy_table::Table;
use vstd::prelude::*;
use vstd::string::StringExecFns;

verus! {

/// The title printed above the report.
pub const STAKE_ACCOUNT_TITLE: &'static str = "STAKE ACCOUNT INFORMATION";

/// An account as it was fetched: its balance, its rent epoch and its data.
#[derive(Debug, Clone)]
pub struct AccountSnapshot {
    pub lamports: u64,
    pub rent_epoch: u64,
    pub data: Vec<u8>,
}

/// Why a stake account could not be shown.
#[derive(Debug, Clone, Copy, PartialEq, Eq, Structural)]
pub enum Failure {
    /// The stake account was not found.
    StakeAccountMissing,
    /// The stake history sysvar was not found.
    StakeHistoryAccountMissing,
    /// The clock sysvar was not found.
    ClockAccountMissing,
    /// The data of the stake history sysvar could not be decoded.
    StakeHistoryInvalid,
    /// The data of the clock sysvar could not be decoded.
    ClockInvalid,
    /// The data of the stake account could not be decoded.
    StakeStateInvalid,
}

/// A failure, with the decoder's own words where data could not be decoded.
#[derive(Debug, Clone)]
pub struct ShowStakeError {
    pub kind: Failure,
    pub detail: String,
}

impl Failure {
    /// Whether the failure is that of a decoder.
    pub open spec fn is_invalid_data(self) -> bool {
        self == Failure::StakeHistoryInvalid || self == Failure::ClockInvalid || self
            == Failure::StakeStateInvalid
    }

    /// The words that say what failed.
    pub open spec fn text(self) -> Seq<char> {
        match self {
            Failure::StakeAccountMissing => "Failed to get stake account"@,
            Failure::StakeHistoryAccountMissing => "Failed to get stake history account"@,
            Failure::ClockAccountMissing => "Failed to get clock account"@,
            Failure::StakeHistoryInvalid => "Failed to deserialize stake history"@,
            Failure::ClockInvalid => "Failed to deserialize clock"@,
            Failure::StakeStateInvalid => "Failed to deserialize stake state"@,
        }
    }
}

impl ShowStakeError {
    /// The message of the error: what failed, then, for a decoder's failure, a
    /// colon and the decoder's words.
    pub open spec fn message_text(self) -> Seq<char> {
        if self.kind.is_invalid_data() {
            self.kind.text() + ": "@ + self.detail@
        } else {
            self.kind.text()
        }
    }

    /// Returns the message to show for the error.
    pub fn message(&self) -> (text: String)
        ensures
            text@ == self.message_text(),
    {
        let (what, decoder) = match self.kind {
            Failure::StakeAccountMissing => ("Failed to get stake account", false),
            Failure::StakeHistoryAccountMissing => ("Failed to get stake history account", false),
            Failure::ClockAccountMissing => ("Failed to get clock account", false),
            Failure::StakeHistoryInvalid => ("Failed to deserialize stake history", true),
            Failure::ClockInvalid => ("Failed to deserialize clock", true),
            Failure::StakeStateInvalid => ("Failed to deserialize stake state", true),
        };
        let mut text = what.to_owned();
        if decoder {
            text.append(": ");
            text.append(self.detail.as_str());
        }
        text
    }
}

/// The addresses of the accounts to fetch before the stake account at `address`
/// can be shown: the account itself, the stake history sysvar and the clock
/// sysvar, in the order in which `show_stake_account` takes them.
pub fn accounts_to_fetch(address: &Address) -> (addresses: [Address; 3])
    ensures
        addresses@[0] == *address,
        base58(addresses@[1]@) == "SysvarStakeHistory1111111111111111111111111"@,
        base58(addresses@[2]@) == "SysvarC1ock11111111111111111111111111111111"@,
{
    [*address, stake_history_sysvar(), clock_sysvar()]
}

/// The account at a position among those fetched, if it was asked for and found.
pub open spec fn account_at(accounts: Seq<Option<AccountSnapshot>>, index: int) -> Option<
    AccountSnapshot,
> {
    if 0 <= index < accounts.len() {
        accounts[index]
    } else {
        None
    }
}

/// What showing a stake account comes to. The accounts are, in this order, the
/// stake account, the stake history sysvar and the clock sysvar. The first
/// account that is missing decides the failure; with all three found, the
/// first that cannot be decoded does, the stake history first, then the clock,
/// then the stake account.
pub open spec fn report_outcome(address: Seq<u8>, accounts: Seq<Option<AccountSnapshot>>) -> Result<
    Seq<RowText>,
    Failure,
> {
    match (account_at(accounts, 0), account_at(accounts, 1), account_at(accounts, 2)) {
        (None, _, _) => Err(Failure::StakeAccountMissing),
        (Some(_), None, _) => Err(Failure::StakeHistoryAccountMissing),
        (Some(_), Some(_), None) => Err(Failure::ClockAccountMissing),
        (Some(stake_account), Some(history_account), Some(clock_account)) => match (
            decoded_stake_history(history_account.data@),
            decoded_clock(clock_account.data@),
            decoded_stake_state(stake_account.data@),
        ) {
            (None, _, _) => Err(Failure::StakeHistoryInvalid),
            (Some(_), None, _) => Err(Failure::ClockInvalid),
            (Some(_), Some(_), None) => Err(Failure::StakeStateInvalid),
            (Some(history), Some(clock), Some(state)) => Ok(
                report_rows(
                    address,
                    stake_account.lamports,
                    stake_account.rent_epoch,
                    state,
                    clock,
                    history,
                ),
            ),
        },
    }
}

fn found_account(accounts: &Vec<Option<AccountSnapshot>>, index: usize) -> (found: Option<
    &AccountSnapshot,
>)
    ensures
        match found {
            Some(account) => account_at(accounts@, index as int) == Some(*account),
            None => account_at(accounts@, index as int) is None,
        },
{
    if index < accounts.len() {
        accounts[index].as_ref()
    } else {
        None
    }
}

fn failure(kind: Failure, detail: String) -> (error: ShowStakeError)
    ensures
        error.kind == kind,
        error.detail == detail,
{
    ShowStakeError { kind, detail }
}

/// Builds the rows of the report on the stake account at `address` from the
/// three accounts that were fetched for it.
pub fn stake_account_report(address: &Address, accounts: &Vec<Option<AccountSnapshot>>) -> (r:
    Result<Vec<Row>, ShowStakeError>)
    ensures
        match r {
            Ok(rows) => report_outcome(address@, accounts@) == Ok::<Seq<RowText>, Failure>(
                rows.deep_view(),
            ),
            Err(error) => report_outcome(address@, accounts@) == Err::<Seq<RowText>, Failure>(
                error.kind,
            ) && (!error.kind.is_invalid_data() ==> error.detail@ == Seq::<char>::empty()),
        },
{
    let Some(stake_account) = found_account(accounts, 0) else {
        return Err(failure(Failure::StakeAccountMissing, String::new()));
    };
    let Some(history_account) = found_account(accounts, 1) else {
        return Err(failure(Failure::StakeHistoryAccountMissing, String::new()));
    };
    let Some(clock_account) = found_account(accounts, 2) else {
        return Err(failure(Failure::ClockAccountMissing, String::new()));
    };
    let history = match decode_stake_history(history_account.data.as_slice()) {
        Ok(history) => history,
        Err(detail) => {
            return Err(failure(Failure::StakeHistoryInvalid, detail));
        },
    };
    let clock = match decode_clock(clock_account.data.as_slice()) {
        Ok(clock) => clock,
        Err(detail) => {
            return Err(failure(Failure::ClockInvalid, detail));
        },
    };
    let state = match decode_stake_state(stake_account.data.as_slice()) {
        Ok(state) => state,
        Err(detail) => {
            return Err(failure(Failure::StakeStateInvalid, detail));
        },
    };
    Ok(
        stake_account_rows(
            address,
            stake_account.lamports,
            stake_account.rent_epoch,
            &state,
            &clock,
            &history,
        ),
    )
}

/// Builds the table that shows the stake account at `address`: the rows of
/// its report under the header `Field`, `Value`.
pub fn show_stake_account(address: &Address, accounts: &Vec<Option<AccountSnapshot>>) -> (r: Result<
    Table,
    ShowStakeError,
>)
    ensures
        match r {
            Ok(table) => report_outcome(address@, accounts@) matches Ok(rows) && table_rows(table)
                == row_cells(rows) && table_header(table) == Some(seq!["Field"@, "Value"@]),
            Err(error) => report_outcome(address@, accounts@) == Err::<Seq<RowText>, Failure>(
                error.kind,
            ) && (!error.kind.is_invalid_data() ==> error.detail@ == Seq::<char>::empty()),
        },
{
    match stake_account_report(address, accounts) {
        Ok(rows) => Ok(report_table(&rows)),
        Err(error) => Err(error),
    }
}

} // verus!
