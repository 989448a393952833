use vstd::prelude::*;

verus! {

/// Platform fee charged at creation, in basis points of the stake (0.5%).
pub const PLATFORM_FEE_BPS: u64 = 50;

/// Penalty for cancelling an active challenge, in basis points (2%).
pub const CANCEL_PENALTY_BPS: u64 = 200;

/// Bonus paid to a successful creator out of the platform fee (0.25%).
pub const CREATOR_BONUS_BPS: u64 = 25;

/// Share of the stake slashed on failure and split among rejecting verifiers (25%).
pub const SLASH_PENALTY_BPS: u64 = 2500;

/// One whole, in basis points.
pub const BASIS_POINTS: u64 = 10000;

/// Length of the dispute window after finalization, in seconds (48 hours).
pub const DISPUTE_WINDOW: i64 = 172800;

pub const MAX_VERIFIERS: usize = 5;

pub const MAX_TITLE_LEN: usize = 100;

pub const MAX_DESCRIPTION_LEN: usize = 500;

pub const MAX_IPFS_HASH_LEN: usize = 64;

pub const MAX_METADATA_LEN: usize = 200;

pub const MAX_DISPUTE_REASON_LEN: usize = 500;

} // verus!
