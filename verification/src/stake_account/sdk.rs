//! What the Solana SDK computes for the report: the text of an address,
//! whether a lockup holds, and how much of a delegation is active.

use crate::stake_account::codec::{history_entries, HistoryEntry};
use crate::stake_account::state::{Address, ClockInfo, DelegationInfo, LockupInfo};
use solana_clock::Clock;
use solana_pubkey::Pubkey;
use solana_stake_interface::stake_history::StakeHistory;
use solana_stake_interface::state::{Delegation, Lockup};
use vstd::prelude::*;

verus! {

/// How much of a delegation is effective, still activating, or deactivating.
#[derive(Debug, Clone, Copy, PartialEq, Eq, Structural)]
pub struct ActivationStatus {
    pub effective: u64,
    pub activating: u64,
    pub deactivating: u64,
}

/// The text that `Pubkey` prints for the 32 bytes of an address: its base58 form.
pub uninterp spec fn base58(address: Seq<u8>) -> Seq<char>;

/// What `Delegation::stake_activating_and_deactivating_v2` returns at
/// `target_epoch` for a delegation of `stake` lamports with the two epochs
/// given, over a stake history that holds `history`, before any change of the
/// warmup rate.
pub uninterp spec fn stake_activation(
    stake: u64,
    activation_epoch: u64,
    deactivation_epoch: u64,
    target_epoch: u64,
    history: Seq<HistoryEntry>,
) -> ActivationStatus;

/// Calls the `Display` of `Pubkey`. Trusted: the text is `base58` of the bytes.
#[verifier::external_body]
pub(crate) fn address_text(address: &Address) -> (text: String)
    ensures
        text@ == base58(address@),
{
    Pubkey::new_from_array(*address).to_string()
}

/// Calls `solana_sdk_ids::sysvar::stake_history::id`. Trusted: the address is
/// the one declared there, which prints as the text given.
#[verifier::external_body]
pub(crate) fn stake_history_sysvar() -> (address: Address)
    ensures
        base58(address@) == "SysvarStakeHistory1111111111111111111111111"@,
{
    solana_sdk_ids::sysvar::stake_history::id().to_bytes()
}

/// Calls `solana_sysvar::clock::id`. Trusted: the address is the one declared
/// for the clock, which prints as the text given.
#[verifier::external_body]
pub(crate) fn clock_sysvar() -> (address: Address)
    ensures
        base58(address@) == "SysvarC1ock11111111111111111111111111111111"@,
{
    solana_sysvar::clock::id().to_bytes()
}

/// Calls `Lockup::is_in_force` without a custodian. Trusted: it compares the
/// lockup's Unix time and epoch with those of the clock, as `in_force` says.
#[verifier::external_body]
pub(crate) fn lockup_in_force(lockup: &LockupInfo, clock: &ClockInfo) -> (held: bool)
    ensures
        held == lockup.in_force(*clock),
{
    let sdk_lockup = Lockup {
        unix_timestamp: lockup.unix_timestamp,
        epoch: lockup.epoch,
        custodian: Pubkey::new_from_array(lockup.custodian),
    };
    let sdk_clock =
        Clock { epoch: clock.epoch, unix_timestamp: clock.unix_timestamp, ..Clock::default() };
    sdk_lockup.is_in_force(&sdk_clock, None)
}

/// Calls `Delegation::stake_activating_and_deactivating_v2` with no epoch for
/// a change of the warmup rate. Trusted: the result is `stake_activation` of the
/// delegation's amount and epochs, the target epoch and the history's entries.
#[verifier::external_body]
pub(crate) fn activation_status(
    delegation: &DelegationInfo,
    target_epoch: u64,
    history: &StakeHistory,
) -> (status: ActivationStatus)
    ensures
        status == stake_activation(
            delegation.stake,
            delegation.activation_epoch,
            delegation.deactivation_epoch,
            target_epoch,
            history_entries(*history),
        ),
{
    let sdk_delegation = Delegation {
        stake: delegation.stake,
        activation_epoch: delegation.activation_epoch,
        deactivation_epoch: delegation.deactivation_epoch,
        ..Delegation::default()
    };
    let status = sdk_delegation.stake_activating_and_deactivating_v2(target_epoch, history, None);
    ActivationStatus {
        effective: status.effective,
        activating: status.activating,
        deactivating: status.deactivating,
    }
}

} // verus!
