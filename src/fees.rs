use vstd::prelude::*;
use vstd::arithmetic::div_mod::lemma_div_is_ordered;

use crate::constants::{
    BASIS_POINTS, CANCEL_PENALTY_BPS, CREATOR_BONUS_BPS, PLATFORM_FEE_BPS, SLASH_PENALTY_BPS,
};

verus! {

/// `bps` basis points of `amount`, truncated toward zero.
pub open spec fn bps_of(amount: int, bps: int) -> int {
    amount * bps / (BASIS_POINTS as int)
}

pub open spec fn spec_platform_fee(stake: int) -> int {
    bps_of(stake, PLATFORM_FEE_BPS as int)
}

pub open spec fn spec_cancel_penalty(stake: int) -> int {
    bps_of(stake, CANCEL_PENALTY_BPS as int)
}

pub open spec fn spec_creator_bonus(stake: int) -> int {
    bps_of(stake, CREATOR_BONUS_BPS as int)
}

pub open spec fn spec_slashed_amount(stake: int) -> int {
    bps_of(stake, SLASH_PENALTY_BPS as int)
}

/// A fraction of `amount` never exceeds it, and a smaller rate never gives more.
pub proof fn lemma_bps_bounds(amount: int, lo: int, hi: int)
    requires
        0 <= amount,
        0 <= lo <= hi <= BASIS_POINTS,
    ensures
        0 <= bps_of(amount, lo) <= bps_of(amount, hi) <= amount,
{
    assert(0 <= amount * lo <= amount * hi <= amount * (BASIS_POINTS as int)) by (nonlinear_arith)
        requires
            0 <= amount,
            0 <= lo <= hi <= BASIS_POINTS,
    ;
    lemma_div_is_ordered(0, amount * lo, BASIS_POINTS as int);
    lemma_div_is_ordered(amount * lo, amount * hi, BASIS_POINTS as int);
    lemma_div_is_ordered(amount * hi, amount * (BASIS_POINTS as int), BASIS_POINTS as int);
    assert(amount * (BASIS_POINTS as int) / (BASIS_POINTS as int) == amount) by (nonlinear_arith);
}

fn basis_points(amount: u64, bps: u64) -> (r: u64)
    requires
        bps <= BASIS_POINTS,
    ensures
        r == bps_of(amount as int, bps as int),
{
    proof {
        lemma_bps_bounds(amount as int, bps as int, bps as int);
        assert((amount as int) * (bps as int) <= (u64::MAX as int) * (BASIS_POINTS as int))
            by (nonlinear_arith)
            requires
                amount <= u64::MAX,
                bps <= BASIS_POINTS,
        ;
    }
    let wide: u128 = (amount as u128) * (bps as u128) / (BASIS_POINTS as u128);
    wide as u64
}

/// The platform fee escrowed beside the stake.
pub fn platform_fee(stake_amount: u64) -> (r: u64)
    ensures
        r == spec_platform_fee(stake_amount as int),
{
    basis_points(stake_amount, PLATFORM_FEE_BPS)
}

/// The penalty kept by the platform when an active challenge is cancelled.
pub fn cancel_penalty(stake_amount: u64) -> (r: u64)
    ensures
        r == spec_cancel_penalty(stake_amount as int),
{
    basis_points(stake_amount, CANCEL_PENALTY_BPS)
}

/// The bonus a successful creator receives out of the platform fee.
pub fn creator_bonus(stake_amount: u64) -> (r: u64)
    ensures
        r == spec_creator_bonus(stake_amount as int),
{
    basis_points(stake_amount, CREATOR_BONUS_BPS)
}

/// The part of the stake forfeited on failure.
pub fn slashed_amount(stake_amount: u64) -> (r: u64)
    ensures
        r == spec_slashed_amount(stake_amount as int),
{
    basis_points(stake_amount, SLASH_PENALTY_BPS)
}

/// Every fee is a fraction of the stake, and the bonus fits inside the platform fee.
pub proof fn lemma_fee_bounds(stake: int)
    requires
        0 <= stake,
    ensures
        0 <= spec_creator_bonus(stake) <= spec_platform_fee(stake) <= spec_cancel_penalty(stake)
            <= spec_slashed_amount(stake) <= stake,
{
    lemma_bps_bounds(stake, CREATOR_BONUS_BPS as int, PLATFORM_FEE_BPS as int);
    lemma_bps_bounds(stake, PLATFORM_FEE_BPS as int, CANCEL_PENALTY_BPS as int);
    lemma_bps_bounds(stake, CANCEL_PENALTY_BPS as int, SLASH_PENALTY_BPS as int);
    lemma_bps_bounds(stake, SLASH_PENALTY_BPS as int, BASIS_POINTS as int);
}

} // verus!
