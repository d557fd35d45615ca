//! Decoding of account data, done by `bincode` on the types of the Solana SDK.

use crate::stake_account::state::{
    ClockInfo, DelegationInfo, LockupInfo, MetaInfo, StakeInfo, StakeState, StateKind,
};
use solana_clock::Clock;
use solana_stake_interface::stake_history::StakeHistory;
use solana_stake_interface::state::StakeStateV2;
use vstd::prelude::*;

verus! {

/// The error of `bincode`, kept as it comes.
#[verifier::external_type_specification]
#[verifier::external_body]
pub struct ExBincodeErrorKind(bincode::ErrorKind);

/// The stake history sysvar, kept as the SDK decodes it.
#[verifier::external_type_specification]
#[verifier::external_body]
pub struct ExStakeHistory(StakeHistory);

/// One stored item of the stake history, kept as the SDK decodes it.
#[verifier::external_type_specification]
#[verifier::external_body]
pub struct ExStakeHistoryItem(solana_stake_history::StakeHistoryItem);

/// One epoch of the stake history: the epoch, then the effective, activating
/// and deactivating lamports of the whole cluster.
pub type HistoryEntry = (u64, u64, u64, u64);

/// The stake state that `bincode::deserialize::<StakeStateV2>` reads from
/// `data`, or `None` where it fails.
pub uninterp spec fn decoded_stake_state(data: Seq<u8>) -> Option<StakeState>;

/// The clock that `bincode::deserialize::<Clock>` reads from `data`, or `None`
/// where it fails.
pub uninterp spec fn decoded_clock(data: Seq<u8>) -> Option<ClockInfo>;

/// The entries that `bincode::deserialize::<StakeHistory>` reads from `data`,
/// in the order in which they are stored, or `None` where it fails.
pub uninterp spec fn decoded_stake_history(data: Seq<u8>) -> Option<Seq<HistoryEntry>>;

/// The entries that a stake history holds, in the order in which it stores them.
pub uninterp spec fn history_entries(history: StakeHistory) -> Seq<HistoryEntry>;

/// Calls `bincode::deserialize::<StakeStateV2>` and tells the four variants apart.
/// Trusted: the call succeeds exactly where `decoded_stake_state` is `Some`, and
/// the variant is the one of that state.
#[verifier::external_body]
fn decode_state_kind(data: &[u8]) -> (r: Result<StateKind, Box<bincode::ErrorKind>>)
    ensures
        match r {
            Ok(kind) => decoded_stake_state(data@) matches Some(state) && state.kind() == kind,
            Err(_) => decoded_stake_state(data@) is None,
        },
{
    match bincode::deserialize::<StakeStateV2>(data)? {
        StakeStateV2::Uninitialized => Ok(StateKind::Uninitialized),
        StakeStateV2::Initialized(_) => Ok(StateKind::Initialized),
        StakeStateV2::Stake(_, _, _) => Ok(StateKind::Stake),
        StakeStateV2::RewardsPool => Ok(StateKind::RewardsPool),
    }
}

/// Calls `bincode::deserialize::<StakeStateV2>` and `StakeStateV2::meta`.
/// Trusted: the result holds the fields of the meta of `decoded_stake_state`.
#[verifier::external_body]
#[allow(deprecated)]
fn decode_state_meta(data: &[u8]) -> (r: Option<MetaInfo>)
    ensures
        r == match decoded_stake_state(data@) {
            Some(state) => state.meta(),
            None => None,
        },
{
    let meta = bincode::deserialize::<StakeStateV2>(data).ok()?.meta()?;
    Some(MetaInfo {
        rent_exempt_reserve: meta.rent_exempt_reserve,
        staker: meta.authorized.staker.to_bytes(),
        withdrawer: meta.authorized.withdrawer.to_bytes(),
        lockup: LockupInfo {
            unix_timestamp: meta.lockup.unix_timestamp,
            epoch: meta.lockup.epoch,
            custodian: meta.lockup.custodian.to_bytes(),
        },
    })
}

/// Calls `bincode::deserialize::<StakeStateV2>` and `StakeStateV2::stake`.
/// Trusted: the result holds the fields of the stake of `decoded_stake_state`.
#[verifier::external_body]
fn decode_state_stake(data: &[u8]) -> (r: Option<StakeInfo>)
    ensures
        r == match decoded_stake_state(data@) {
            Some(state) => state.stake(),
            None => None,
        },
{
    let stake = bincode::deserialize::<StakeStateV2>(data).ok()?.stake()?;
    Some(StakeInfo {
        delegation: DelegationInfo {
            voter: stake.delegation.voter_pubkey.to_bytes(),
            stake: stake.delegation.stake,
            activation_epoch: stake.delegation.activation_epoch,
            deactivation_epoch: stake.delegation.deactivation_epoch,
        },
        credits_observed: stake.credits_observed,
    })
}

/// Calls `bincode::deserialize::<Clock>` and keeps the epoch and the Unix time.
/// Trusted: the result is `decoded_clock`, with the error where that is `None`.
#[verifier::external_body]
fn decode_clock_data(data: &[u8]) -> (r: Result<ClockInfo, Box<bincode::ErrorKind>>)
    ensures
        match r {
            Ok(clock) => decoded_clock(data@) == Some(clock),
            Err(_) => decoded_clock(data@) is None,
        },
{
    let clock = bincode::deserialize::<Clock>(data)?;
    Ok(ClockInfo { epoch: clock.epoch, unix_timestamp: clock.unix_timestamp })
}

/// Calls `bincode::deserialize::<StakeHistory>`.
/// Trusted: the history holds the entries of `decoded_stake_history`, and the
/// call fails where that is `None`.
#[verifier::external_body]
fn decode_history_data(data: &[u8]) -> (r: Result<StakeHistory, Box<bincode::ErrorKind>>)
    ensures
        match r {
            Ok(history) => decoded_stake_history(data@) == Some(history_entries(history)),
            Err(_) => decoded_stake_history(data@) is None,
        },
{
    bincode::deserialize::<StakeHistory>(data)
}

/// Calls the `Display` of `bincode::ErrorKind`. Nothing is claimed of the text.
#[verifier::external_body]
fn error_text(error: &bincode::ErrorKind) -> String {
    error.to_string()
}

/// Decodes the state of a stake account.
///
/// Fails with the text of the decoder's error exactly where the data is not
/// a stake state.
pub fn decode_stake_state(data: &[u8]) -> (r: Result<StakeState, String>)
    ensures
        match r {
            Ok(state) => decoded_stake_state(data@) == Some(state),
            Err(_) => decoded_stake_state(data@) is None,
        },
{
    match decode_state_kind(data) {
        Err(error) => Err(error_text(&error)),
        Ok(kind) => {
            let meta = decode_state_meta(data);
            let stake = decode_state_stake(data);
            match kind {
                StateKind::Uninitialized => Ok(StakeState::Uninitialized),
                StateKind::Initialized => Ok(StakeState::Initialized(meta.unwrap())),
                StateKind::Stake => Ok(StakeState::Stake(meta.unwrap(), stake.unwrap())),
                StateKind::RewardsPool => Ok(StakeState::RewardsPool),
            }
        },
    }
}

/// Decodes the clock sysvar.
pub fn decode_clock(data: &[u8]) -> (r: Result<ClockInfo, String>)
    ensures
        match r {
            Ok(clock) => decoded_clock(data@) == Some(clock),
            Err(_) => decoded_clock(data@) is None,
        },
{
    match decode_clock_data(data) {
        Ok(clock) => Ok(clock),
        Err(error) => Err(error_text(&error)),
    }
}

/// Decodes the stake history sysvar.
pub fn decode_stake_history(data: &[u8]) -> (r: Result<StakeHistory, String>)
    ensures
        match r {
            Ok(history) => decoded_stake_history(data@) == Some(history_entries(history)),
            Err(_) => decoded_stake_history(data@) is None,
        },
{
    match decode_history_data(data) {
        Ok(history) => Ok(history),
        Err(error) => Err(error_text(&error)),
    }
}

} // verus!
