//! What the wallet reads from a stake account and from the clock.

use vstd::prelude::*;

verus! {

/// The 32 bytes of an account address.
pub type Address = [u8; 32];

/// Until when withdrawals from a stake account are held back.
#[derive(Debug, Clone, Copy)]
pub struct LockupInfo {
    /// Unix time at which the lockup ends.
    pub unix_timestamp: i64,
    /// Epoch at which the lockup ends.
    pub epoch: u64,
    /// The account whose signature lifts the lockup.
    pub custodian: Address,
}

/// Who controls a stake account, and its lockup.
#[derive(Debug, Clone, Copy)]
pub struct MetaInfo {
    pub rent_exempt_reserve: u64,
    /// The account that may delegate and deactivate.
    pub staker: Address,
    /// The account that may withdraw.
    pub withdrawer: Address,
    pub lockup: LockupInfo,
}

/// A delegation of stake to a vote account.
#[derive(Debug, Clone, Copy)]
pub struct DelegationInfo {
    /// The vote account the stake is delegated to.
    pub voter: Address,
    /// Delegated lamports.
    pub stake: u64,
    /// Epoch in which the stake was activated; `u64::MAX` for bootstrap stake.
    pub activation_epoch: u64,
    /// Epoch in which the stake was deactivated; `u64::MAX` if it never was.
    pub deactivation_epoch: u64,
}

/// The delegation of a stake account and the vote credits it has seen.
#[derive(Debug, Clone, Copy)]
pub struct StakeInfo {
    pub delegation: DelegationInfo,
    pub credits_observed: u64,
}

/// Which of the four states a stake account is in.
#[derive(Debug, Clone, Copy, PartialEq, Eq, Structural)]
pub enum StateKind {
    Uninitialized,
    Initialized,
    Stake,
    RewardsPool,
}

/// The state stored in a stake account.
#[derive(Debug, Clone, Copy)]
pub enum StakeState {
    Uninitialized,
    Initialized(MetaInfo),
    Stake(MetaInfo, StakeInfo),
    RewardsPool,
}

/// The two readings of the clock sysvar that the wallet uses.
#[derive(Debug, Clone, Copy)]
pub struct ClockInfo {
    pub epoch: u64,
    pub unix_timestamp: i64,
}

impl LockupInfo {
    /// A lockup holds until both its Unix time and its epoch have been reached.
    pub open spec fn in_force(self, clock: ClockInfo) -> bool {
        self.unix_timestamp > clock.unix_timestamp || self.epoch > clock.epoch
    }
}

impl StakeState {
    pub open spec fn kind(self) -> StateKind {
        match self {
            StakeState::Uninitialized => StateKind::Uninitialized,
            StakeState::Initialized(_) => StateKind::Initialized,
            StakeState::Stake(_, _) => StateKind::Stake,
            StakeState::RewardsPool => StateKind::RewardsPool,
        }
    }

    /// The authorities and lockup, for the two states that have them.
    pub open spec fn meta(self) -> Option<MetaInfo> {
        match self {
            StakeState::Initialized(meta) => Some(meta),
            StakeState::Stake(meta, _) => Some(meta),
            _ => None,
        }
    }

    /// The delegation, for a delegated account.
    pub open spec fn stake(self) -> Option<StakeInfo> {
        match self {
            StakeState::Stake(_, stake) => Some(stake),
            _ => None,
        }
    }

    /// The lamports delegated, zero for an account that is not delegated.
    pub open spec fn delegated_lamports(self) -> u64 {
        match self {
            StakeState::Stake(_, stake) => stake.delegation.stake,
            _ => 0,
        }
    }
}

} // verus!
