//! The rows of the report: one label and one value for each field shown.

use crate::constants::ACTIVE_STAKE_EPOCH_BOUND;
use crate::stake_account::codec::{history_entries, HistoryEntry};
use crate::stake_account::sdk::{
    activation_status, address_text, base58, lockup_in_force, stake_activation, ActivationStatus,
};
use crate::stake_account::state::{Address, ClockInfo, LockupInfo, MetaInfo, StakeInfo, StakeState};
use crate::text::{decimal, decimal_text, lamports_to_sol, signed_decimal, signed_decimal_text, sol_text};
use solana_stake_interface::stake_history::StakeHistory;
use vstd::prelude::*;

verus! {

/// A row of the report: the label, then the value.
pub type Row = (String, String);

/// What a row says.
pub type RowText = (Seq<char>, Seq<char>);

/// An epoch of activation or deactivation, or `N/A` where there is none.
pub open spec fn epoch_text(epoch: u64) -> Seq<char> {
    if epoch < ACTIVE_STAKE_EPOCH_BOUND {
        decimal(epoch as nat)
    } else {
        "N/A"@
    }
}

/// The rows that every report starts with. The balance in SOL shows the
/// delegated lamports as they are, zero where nothing is delegated.
pub open spec fn summary_rows(
    address: Seq<u8>,
    lamports: u64,
    rent_epoch: u64,
    state: StakeState,
) -> Seq<RowText> {
    seq![
        ("Stake Account Pubkey"@, base58(address)),
        ("Account Balance (SOL)"@, decimal(state.delegated_lamports() as nat)),
        ("Account Balance (Lamports)"@, decimal(lamports as nat)),
        ("Rent Epoch"@, decimal(rent_epoch as nat)),
    ]
}

/// The three rows of a lockup that holds; none for one that does not.
pub open spec fn lockup_rows(lockup: LockupInfo, clock: ClockInfo) -> Seq<RowText> {
    if lockup.in_force(clock) {
        seq![
            ("Lockup Epoch"@, decimal(lockup.epoch as nat)),
            ("Lockup Unix Timestamp"@, signed_decimal(lockup.unix_timestamp as int)),
            ("Lockup Custodian"@, base58(lockup.custodian@)),
        ]
    } else {
        Seq::empty()
    }
}

/// The rows of an account that is initialized and not delegated.
pub open spec fn initialized_rows(meta: MetaInfo, clock: ClockInfo) -> Seq<RowText> {
    seq![
        ("Stake State"@, "Initialized"@),
        ("Rent Exempt Reserve (Lamports)"@, decimal(meta.rent_exempt_reserve as nat)),
        ("Stake Authority"@, base58(meta.staker@)),
        ("Withdraw Authority"@, base58(meta.withdrawer@)),
    ] + lockup_rows(meta.lockup, clock)
}

/// The rows of a delegated account.
pub open spec fn delegated_rows(
    meta: MetaInfo,
    stake: StakeInfo,
    status: ActivationStatus,
    clock: ClockInfo,
) -> Seq<RowText> {
    seq![
        ("Stake State"@, "Delegated"@),
        ("Stake Authority"@, base58(meta.staker@)),
        ("Withdraw Authority"@, base58(meta.withdrawer@)),
        ("Delegated Vote Account"@, base58(stake.delegation.voter@)),
        ("Delegated Stake (SOL)"@, sol_text(stake.delegation.stake as nat)),
        ("Activation Epoch"@, epoch_text(stake.delegation.activation_epoch)),
        ("Deactivation Epoch"@, epoch_text(stake.delegation.deactivation_epoch)),
        ("Active Stake (SOL)"@, sol_text(status.effective as nat)),
        ("Activating Stake (SOL)"@, sol_text(status.activating as nat)),
        ("Deactivating Stake (SOL)"@, sol_text(status.deactivating as nat)),
        ("Credits Observed"@, decimal(stake.credits_observed as nat)),
    ] + lockup_rows(meta.lockup, clock)
}

/// The rows that depend on the state of the account. A delegated account is
/// measured at the clock's epoch against the stake history.
pub open spec fn state_rows(
    state: StakeState,
    clock: ClockInfo,
    history: Seq<HistoryEntry>,
) -> Seq<RowText> {
    match state {
        StakeState::Uninitialized => seq![("Stake State"@, "Uninitialized"@)],
        StakeState::Initialized(meta) => initialized_rows(meta, clock),
        StakeState::Stake(meta, stake) => delegated_rows(
            meta,
            stake,
            stake_activation(
                stake.delegation.stake,
                stake.delegation.activation_epoch,
                stake.delegation.deactivation_epoch,
                clock.epoch,
                history,
            ),
            clock,
        ),
        StakeState::RewardsPool => seq![("Stake State"@, "Rewards Pool"@)],
    }
}

/// All rows of the report, in the order in which they are shown.
pub open spec fn report_rows(
    address: Seq<u8>,
    lamports: u64,
    rent_epoch: u64,
    state: StakeState,
    clock: ClockInfo,
    history: Seq<HistoryEntry>,
) -> Seq<RowText> {
    summary_rows(address, lamports, rent_epoch, state) + state_rows(state, clock, history)
}

fn push_row(rows: &mut Vec<Row>, label: &str, value: String)
    ensures
        final(rows).deep_view() == old(rows).deep_view().push((label@, value@)),
{
    rows.push((label.to_owned(), value));
    assert(rows.deep_view() =~= old(rows).deep_view().push((label@, value@)));
}

fn push_lockup_rows(rows: &mut Vec<Row>, lockup: &LockupInfo, clock: &ClockInfo)
    ensures
        final(rows).deep_view() == old(rows).deep_view() + lockup_rows(*lockup, *clock),
{
    if lockup_in_force(lockup, clock) {
        push_row(rows, "Lockup Epoch", decimal_text(lockup.epoch));
        push_row(rows, "Lockup Unix Timestamp", signed_decimal_text(lockup.unix_timestamp));
        push_row(rows, "Lockup Custodian", address_text(&lockup.custodian));
    }
    assert(rows.deep_view() =~= old(rows).deep_view() + lockup_rows(*lockup, *clock));
}

fn epoch_or_none(epoch: u64) -> (text: String)
    ensures
        text@ == epoch_text(epoch),
{
    if epoch < ACTIVE_STAKE_EPOCH_BOUND {
        decimal_text(epoch)
    } else {
        "N/A".to_owned()
    }
}

fn delegated_lamports(state: &StakeState) -> (lamports: u64)
    ensures
        lamports == state.delegated_lamports(),
{
    match state {
        StakeState::Stake(_, stake) => stake.delegation.stake,
        _ => 0,
    }
}

fn push_summary_rows(
    rows: &mut Vec<Row>,
    address: &Address,
    lamports: u64,
    rent_epoch: u64,
    state: &StakeState,
)
    ensures
        final(rows).deep_view() == old(rows).deep_view() + summary_rows(
            address@,
            lamports,
            rent_epoch,
            *state,
        ),
{
    push_row(rows, "Stake Account Pubkey", address_text(address));
    push_row(rows, "Account Balance (SOL)", decimal_text(delegated_lamports(state)));
    push_row(rows, "Account Balance (Lamports)", decimal_text(lamports));
    push_row(rows, "Rent Epoch", decimal_text(rent_epoch));
    assert(rows.deep_view() =~= old(rows).deep_view() + summary_rows(
        address@,
        lamports,
        rent_epoch,
        *state,
    ));
}

fn push_initialized_rows(rows: &mut Vec<Row>, meta: &MetaInfo, clock: &ClockInfo)
    ensures
        final(rows).deep_view() == old(rows).deep_view() + initialized_rows(*meta, *clock),
{
    push_row(rows, "Stake State", "Initialized".to_owned());
    push_row(rows, "Rent Exempt Reserve (Lamports)", decimal_text(meta.rent_exempt_reserve));
    push_row(rows, "Stake Authority", address_text(&meta.staker));
    push_row(rows, "Withdraw Authority", address_text(&meta.withdrawer));
    push_lockup_rows(rows, &meta.lockup, clock);
    assert(rows.deep_view() =~= old(rows).deep_view() + initialized_rows(*meta, *clock));
}

fn push_delegated_rows(
    rows: &mut Vec<Row>,
    meta: &MetaInfo,
    stake: &StakeInfo,
    status: &ActivationStatus,
    clock: &ClockInfo,
)
    ensures
        final(rows).deep_view() == old(rows).deep_view() + delegated_rows(
            *meta,
            *stake,
            *status,
            *clock,
        ),
{
    push_row(rows, "Stake State", "Delegated".to_owned());
    push_row(rows, "Stake Authority", address_text(&meta.staker));
    push_row(rows, "Withdraw Authority", address_text(&meta.withdrawer));
    push_row(rows, "Delegated Vote Account", address_text(&stake.delegation.voter));
    push_row(rows, "Delegated Stake (SOL)", lamports_to_sol(stake.delegation.stake));
    push_row(rows, "Activation Epoch", epoch_or_none(stake.delegation.activation_epoch));
    push_row(rows, "Deactivation Epoch", epoch_or_none(stake.delegation.deactivation_epoch));
    push_row(rows, "Active Stake (SOL)", lamports_to_sol(status.effective));
    push_row(rows, "Activating Stake (SOL)", lamports_to_sol(status.activating));
    push_row(rows, "Deactivating Stake (SOL)", lamports_to_sol(status.deactivating));
    push_row(rows, "Credits Observed", decimal_text(stake.credits_observed));
    push_lockup_rows(rows, &meta.lockup, clock);
    assert(rows.deep_view() =~= old(rows).deep_view() + delegated_rows(
        *meta,
        *stake,
        *status,
        *clock,
    ));
}

/// The rows of a delegated account whose activation has been measured.
pub fn delegated_account_rows(
    meta: &MetaInfo,
    stake: &StakeInfo,
    status: &ActivationStatus,
    clock: &ClockInfo,
) -> (rows: Vec<Row>)
    ensures
        rows.deep_view() == delegated_rows(*meta, *stake, *status, *clock),
{
    let mut rows: Vec<Row> = Vec::new();
    push_delegated_rows(&mut rows, meta, stake, status, clock);
    assert(rows.deep_view() =~= delegated_rows(*meta, *stake, *status, *clock));
    rows
}

/// Builds the report on a stake account from what was decoded: the state of
/// the account, the clock, and the stake history against which a delegation
/// is measured.
pub fn stake_account_rows(
    address: &Address,
    lamports: u64,
    rent_epoch: u64,
    state: &StakeState,
    clock: &ClockInfo,
    history: &StakeHistory,
) -> (rows: Vec<Row>)
    ensures
        rows.deep_view() == report_rows(
            address@,
            lamports,
            rent_epoch,
            *state,
            *clock,
            history_entries(*history),
        ),
{
    let mut rows: Vec<Row> = Vec::new();
    push_summary_rows(&mut rows, address, lamports, rent_epoch, state);
    match state {
        StakeState::Uninitialized => {
            push_row(&mut rows, "Stake State", "Uninitialized".to_owned());
        },
        StakeState::Initialized(meta) => {
            push_initialized_rows(&mut rows, meta, clock);
        },
        StakeState::Stake(meta, stake) => {
            let status = activation_status(&stake.delegation, clock.epoch, history);
            push_delegated_rows(&mut rows, meta, stake, &status, clock);
        },
        StakeState::RewardsPool => {
            push_row(&mut rows, "Stake State", "Rewards Pool".to_owned());
        },
    }
    assert(rows.deep_view() =~= report_rows(
        address@,
        lamports,
        rent_epoch,
        *state,
        *clock,
        history_entries(*history),
    ));
    rows
}

} // verus!
