use vstd::prelude::*;
use vstd::arithmetic::div_mod::{lemma_fundamental_div_mod, lemma_mod_pos_bound};

use crate::claim::{claim_error, claim_post, vote_index};
use crate::errors::ErrorCode;
use crate::fees::{spec_creator_bonus, spec_platform_fee, spec_slashed_amount};
use crate::ledger::{
    count_reject_claims, escrow_total, lemma_voters_bounded, lemma_votes_total,
    spec_verifier_share, voters, ChallengeLedger,
};
use crate::state::{stage, transition_allowed, ChallengeStatus, Identity};

verus! {

/// No challenge ever holds more votes than it has verifiers.
pub proof fn law_tally_bounded(l: ChallengeLedger)
    requires
        l.wf(),
    ensures
        l.challenge.approval_count + l.challenge.rejection_count <= l.challenge.verifiers@.len(),
{
    lemma_votes_total(l.verifications@);
    lemma_voters_bounded(l.verifications@, l.challenge.verifiers@);
}

/// Every allowed step goes forward along the lifecycle or stays put: no
/// operation moves a challenge back, and none returns to where it was.
pub proof fn law_status_moves_forward(from: ChallengeStatus, to: ChallengeStatus)
    requires
        transition_allowed(from, to),
    ensures
        stage(from) <= stage(to),
        from != to ==> stage(from) < stage(to),
{
}

/// A claim that was accepted cannot be made again: the same claimer at the same
/// time is refused as already claimed, and a refused claim moves no funds.
pub proof fn law_claim_once(
    before: ChallengeLedger,
    after: ChallengeLedger,
    claimer: Identity,
    now: int,
)
    requires
        before.wf(),
        after.wf(),
        claim_error(before, claimer, now) is None,
        claim_post(before, after, claimer),
    ensures
        claim_error(after, claimer, now) == Some(ErrorCode::AlreadyClaimed),
{
    if before.challenge.status == ChallengeStatus::Failed {
        let s = before.verifications@;
        let t = after.verifications@;
        let j = vote_index(s, claimer);
        assert(t[j].verifier == claimer);
        let k = vote_index(t, claimer);
        assert(voters(t)[j] == voters(t)[k]);
        assert(k == j);
    }
}

/// What the escrow has paid out so far, read off the challenge's state: all of
/// it on cancellation; on success the creator's reward and the rest of the fee;
/// on failure the creator's refund, the fee, and one share per verifier who claimed.
pub open spec fn paid_out(l: ChallengeLedger) -> int {
    let c = l.challenge;
    let stake = c.stake_amount as int;
    let k = count_reject_claims(l.verifications@);
    if c.status == ChallengeStatus::Cancelled {
        escrow_total(c)
    } else if !c.claimed {
        0
    } else if k == 0 {
        (stake + spec_creator_bonus(stake)) + (spec_platform_fee(stake) - spec_creator_bonus(stake))
    } else {
        (stake - spec_slashed_amount(stake)) + spec_platform_fee(stake) + k * spec_verifier_share(
            stake,
            c.rejection_count as int,
        )
    }
}

/// The escrow never gains or loses value on its own: what it still holds plus
/// what it has paid out is always the stake plus the platform fee.
pub proof fn law_escrow_conserved(l: ChallengeLedger)
    requires
        l.wf(),
    ensures
        l.escrow_balance + paid_out(l) == escrow_total(l.challenge),
{
}

/// Once everything owed has been paid, the escrow holds only what truncation
/// left behind: nothing after a cancellation or a successful claim, and less
/// than one unit per rejecting verifier after all of them claimed their share.
pub proof fn law_escrow_settles(l: ChallengeLedger)
    requires
        l.wf(),
    ensures
        l.challenge.status == ChallengeStatus::Cancelled ==> l.escrow_balance == 0,
        (l.challenge.status == ChallengeStatus::Completed && l.challenge.claimed)
            ==> l.escrow_balance == 0,
        (l.challenge.status == ChallengeStatus::Failed && l.challenge.claimed && count_reject_claims(
            l.verifications@,
        ) == l.challenge.rejection_count) ==> l.escrow_balance == spec_slashed_amount(
            l.challenge.stake_amount as int,
        ) % (l.challenge.rejection_count as int) && l.escrow_balance
            < l.challenge.rejection_count,
{
    let c = l.challenge;
    let k = count_reject_claims(l.verifications@);
    if c.status == ChallengeStatus::Failed && c.claimed && k == c.rejection_count {
        let slashed = spec_slashed_amount(c.stake_amount as int);
        lemma_fundamental_div_mod(slashed, c.rejection_count as int);
        lemma_mod_pos_bound(slashed, c.rejection_count as int);
    }
}

} // verus!
