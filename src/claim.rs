use vstd::prelude::*;
use vstd::arithmetic::div_mod::{lemma_fundamental_div_mod, lemma_mod_pos_bound};

use crate::constants::DISPUTE_WINDOW;
use crate::errors::ErrorCode;
use crate::fees::{
    creator_bonus, lemma_fee_bounds, platform_fee, slashed_amount, spec_creator_bonus,
    spec_platform_fee, spec_slashed_amount,
};
use crate::instructions::{find_vote, Payout};
use crate::ledger::{
    count_reject_claims, has_voted, lemma_claims_le_rejects, lemma_count_claim,
    spec_verifier_share, voters, ChallengeLedger,
};
use crate::state::{Challenge, ChallengeStatus, Identity, User, Verification, Vote};

verus! {

/// Where `who`'s vote stands among the votes.
pub open spec fn vote_index(s: Seq<Verification>, who: Identity) -> int {
    choose|i: int| 0 <= i < s.len() && s[i].verifier == who
}

/// Why a claim is refused, checked in this order.
pub open spec fn claim_error(l: ChallengeLedger, claimer: Identity, now: int) -> Option<ErrorCode> {
    let c = l.challenge;
    let s = l.verifications@;
    if c.status != ChallengeStatus::Completed && c.status != ChallengeStatus::Failed {
        Some(ErrorCode::InvalidChallengeStatus)
    } else if now <= c.finalized_at + DISPUTE_WINDOW {
        Some(ErrorCode::DisputeWindowNotExpired)
    } else if c.status == ChallengeStatus::Completed {
        if claimer != c.creator {
            Some(ErrorCode::UnauthorizedCreator)
        } else if c.claimed {
            Some(ErrorCode::AlreadyClaimed)
        } else {
            None
        }
    } else if !has_voted(s, claimer) {
        Some(ErrorCode::UnauthorizedVerifier)
    } else if s[vote_index(s, claimer)].vote != Vote::Reject {
        Some(ErrorCode::VerifierDidNotReject)
    } else if s[vote_index(s, claimer)].claimed {
        Some(ErrorCode::AlreadyClaimed)
    } else {
        None
    }
}

/// What an accepted claim pays. On success the creator gets the stake plus the
/// bonus and the platform the rest of its fee. On failure the claiming verifier
/// gets an equal share of the slashed stake, and the first claim also pays the
/// platform its fee and the creator the unslashed stake.
pub open spec fn claim_payout(c: Challenge) -> Payout {
    let stake = c.stake_amount as int;
    if c.status == ChallengeStatus::Completed {
        Payout {
            creator: (stake + spec_creator_bonus(stake)) as u64,
            platform: (spec_platform_fee(stake) - spec_creator_bonus(stake)) as u64,
            verifier: 0,
        }
    } else if c.claimed {
        Payout {
            creator: 0,
            platform: 0,
            verifier: spec_verifier_share(stake, c.rejection_count as int) as u64,
        }
    } else {
        Payout {
            creator: (stake - spec_slashed_amount(stake)) as u64,
            platform: spec_platform_fee(stake) as u64,
            verifier: spec_verifier_share(stake, c.rejection_count as int) as u64,
        }
    }
}

/// The ledger after `claimer`'s accepted claim: the challenge is marked claimed,
/// on failure the claimer's vote is too, and the escrow pays out the claim.
pub open spec fn claim_post(old: ChallengeLedger, new: ChallengeLedger, claimer: Identity) -> bool {
    let c = old.challenge;
    let s = old.verifications@;
    &&& new.challenge == (Challenge { claimed: true, ..c })
    &&& new.escrow_balance == old.escrow_balance - claim_payout(c).total()
    &&& new.key == old.key
    &&& c.status == ChallengeStatus::Completed ==> new.verifications@ == s
    &&& c.status == ChallengeStatus::Failed ==> new.verifications@ == s.update(
        vote_index(s, claimer),
        Verification { claimed: true, ..s[vote_index(s, claimer)] },
    )
}

/// The creator's profile after a claim on challenge `c`.
pub open spec fn user_after_claim(u: User, c: Challenge) -> User {
    if c.status == ChallengeStatus::Completed {
        User { completed: (u.completed + 1) as u32, ..u }
    } else if !c.claimed {
        User { failed: (u.failed + 1) as u32, ..u }
    } else {
        u
    }
}

/// Pays out a finalized challenge once its dispute window has passed: the
/// creator once on success; each rejecting verifier once on failure.
pub fn claim_funds(
    ledger: &mut ChallengeLedger,
    user: &mut User,
    claimer: Identity,
    now: i64,
) -> (r: Result<Payout, ErrorCode>)
    requires
        old(ledger).wf(),
        old(user).completed < u32::MAX,
        old(user).failed < u32::MAX,
    ensures
        final(ledger).wf(),
        final(ledger).challenge.status == old(ledger).challenge.status,
        claim_error(*old(ledger), claimer, now as int) matches Some(e) ==> (r == Err::<
            Payout,
            ErrorCode,
        >(e) && *final(ledger) == *old(ledger) && *final(user) == *old(user)),
        claim_error(*old(ledger), claimer, now as int) is None ==> (r == Ok::<Payout, ErrorCode>(
            claim_payout(old(ledger).challenge),
        ) && claim_post(*old(ledger), *final(ledger), claimer) && *final(user) == user_after_claim(
            *old(user),
            old(ledger).challenge,
        )),
{
    let status = ledger.challenge.status;
    if status != ChallengeStatus::Completed && status != ChallengeStatus::Failed {
        return Err(ErrorCode::InvalidChallengeStatus);
    }
    if now as i128 <= ledger.challenge.finalized_at as i128 + DISPUTE_WINDOW as i128 {
        return Err(ErrorCode::DisputeWindowNotExpired);
    }
    let stake_amount = ledger.challenge.stake_amount;
    proof {
        lemma_fee_bounds(stake_amount as int);
    }
    if status == ChallengeStatus::Completed {
        if claimer != ledger.challenge.creator {
            return Err(ErrorCode::UnauthorizedCreator);
        }
        if ledger.challenge.claimed {
            return Err(ErrorCode::AlreadyClaimed);
        }
        let bonus = creator_bonus(stake_amount);
        let creator_reward = stake_amount + bonus;
        let platform_fee_remaining = platform_fee(stake_amount) - bonus;
        ledger.escrow_balance = 0;
        ledger.challenge.claimed = true;
        user.completed = user.completed + 1;
        return Ok(Payout { creator: creator_reward, platform: platform_fee_remaining, verifier: 0 });
    }
    let idx = match find_vote(&ledger.verifications, &claimer) {
        Some(i) => i,
        None => {
            return Err(ErrorCode::UnauthorizedVerifier);
        },
    };
    let record = ledger.verifications[idx];
    proof {
        let s = ledger.verifications@;
        let j = vote_index(s, claimer);
        assert(voters(s)[idx as int] == voters(s)[j]);
        assert(j == idx);
    }
    if record.vote != Vote::Reject {
        return Err(ErrorCode::VerifierDidNotReject);
    }
    if record.claimed {
        return Err(ErrorCode::AlreadyClaimed);
    }
    let rejection_count = ledger.challenge.rejection_count;
    let ghost s = ledger.verifications@;
    let ghost k = count_reject_claims(s);
    proof {
        lemma_claims_le_rejects(s);
        assert(k < rejection_count);
    }
    let slashed = slashed_amount(stake_amount);
    let share = slashed / (rejection_count as u64);
    proof {
        lemma_fundamental_div_mod(slashed as int, rejection_count as int);
        lemma_mod_pos_bound(slashed as int, rejection_count as int);
        assert((k + 1) * share <= rejection_count * share) by (nonlinear_arith)
            requires
                k + 1 <= rejection_count,
                share >= 0,
        ;
        assert((k + 1) * share == k * share + share) by (nonlinear_arith);
    }
    let mut payout = Payout { creator: 0, platform: 0, verifier: share };
    if !ledger.challenge.claimed {
        let fee = platform_fee(stake_amount);
        payout = Payout { creator: stake_amount - slashed, platform: fee, verifier: share };
        ledger.escrow_balance = slashed - share;
        ledger.challenge.claimed = true;
        user.failed = user.failed + 1;
    } else {
        ledger.escrow_balance = ledger.escrow_balance - share;
    }
    let updated = Verification { claimed: true, ..record };
    ledger.verifications.set(idx, updated);
    proof {
        lemma_count_claim(s, idx as int, updated);
        assert(voters(ledger.verifications@) =~= voters(s));
    }
    Ok(payout)
}

} // verus!
