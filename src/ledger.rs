use vstd::prelude::*;
use vstd::set_lib::lemma_len_subset;

use crate::constants::MAX_VERIFIERS;
use crate::fees::{platform_fee, slashed_amount, spec_platform_fee, spec_slashed_amount};
use crate::instructions::{contains_identity, has_repeat};
use crate::state::{Challenge, ChallengeStatus, Identity, Verification, Vote};

verus! {

/// What is held for one challenge at its address `key`: the challenge itself,
/// the value in its escrow, and its votes, at most one per verifier.
#[derive(Clone, Debug)]
pub struct ChallengeLedger {
    pub key: Identity,
    pub challenge: Challenge,
    pub escrow_balance: u64,
    pub verifications: Vec<Verification>,
}

/// How many of the votes are `v`.
pub open spec fn count_votes(s: Seq<Verification>, v: Vote) -> nat
    decreases s.len(),
{
    if s.len() == 0 {
        0
    } else {
        count_votes(s.drop_last(), v) + if s.last().vote == v {
            1nat
        } else {
            0nat
        }
    }
}

/// How many rejecting verifiers have already claimed their share.
pub open spec fn count_reject_claims(s: Seq<Verification>) -> nat
    decreases s.len(),
{
    if s.len() == 0 {
        0
    } else {
        count_reject_claims(s.drop_last()) + if s.last().vote == Vote::Reject
            && s.last().claimed {
            1nat
        } else {
            0nat
        }
    }
}

/// Who cast each vote, in order.
pub open spec fn voters(s: Seq<Verification>) -> Seq<Identity> {
    s.map_values(|x: Verification| x.verifier)
}

/// Whether `who` has cast a vote.
pub open spec fn has_voted(s: Seq<Verification>, who: Identity) -> bool {
    exists|i: int| 0 <= i < s.len() && s[i].verifier == who
}

/// The share of the slashed stake that each rejecting verifier receives.
pub open spec fn spec_verifier_share(stake: int, rejections: int) -> int {
    spec_slashed_amount(stake) / rejections
}

/// What the escrow holds before anything is paid out.
pub open spec fn escrow_total(c: Challenge) -> int {
    c.stake_amount + spec_platform_fee(c.stake_amount as int)
}

impl ChallengeLedger {
    /// The parameters fixed at creation are in range.
    pub open spec fn params_ok(&self) -> bool {
        let c = self.challenge;
        &&& c.stake_amount > 0
        &&& escrow_total(c) <= u64::MAX
        &&& c.start_time < c.end_time
        &&& c.required_proofs > 0
        &&& 1 <= c.verifiers@.len() <= MAX_VERIFIERS
        &&& c.verifiers@.no_duplicates()
        &&& c.required_approvals <= c.verifiers@.len()
    }

    /// Evidence never exceeds what is required.
    pub open spec fn evidence_ok(&self) -> bool {
        self.challenge.evidence_count <= self.challenge.required_proofs
    }

    /// One vote per listed verifier, and the counters agree with the votes.
    pub open spec fn votes_ok(&self) -> bool {
        let c = self.challenge;
        let s = self.verifications@;
        &&& voters(s).no_duplicates()
        &&& forall|i: int| 0 <= i < s.len() ==> c.verifiers@.contains(#[trigger] s[i].verifier)
        &&& c.approval_count == count_votes(s, Vote::Approve)
        &&& c.rejection_count == count_votes(s, Vote::Reject)
    }

    /// The escrow holds the stake and fee less exactly what has been paid out.
    pub open spec fn escrow_ok(&self) -> bool {
        let c = self.challenge;
        let k = count_reject_claims(self.verifications@);
        let st = c.status;
        &&& (st == ChallengeStatus::Created || st == ChallengeStatus::Active
            || st == ChallengeStatus::PendingVerification) ==> !c.claimed
        &&& st == ChallengeStatus::Cancelled ==> self.escrow_balance == 0 && !c.claimed
        &&& (st != ChallengeStatus::Cancelled && !c.claimed) ==> self.escrow_balance
            == escrow_total(c)
        &&& !c.claimed ==> k == 0
        &&& (c.claimed && k == 0) ==> self.escrow_balance == 0 && (st == ChallengeStatus::Completed
            || st == ChallengeStatus::Disputed)
        &&& k > 0 ==> {
            &&& k <= c.rejection_count
            &&& self.escrow_balance == spec_slashed_amount(c.stake_amount as int) - k
                * spec_verifier_share(c.stake_amount as int, c.rejection_count as int)
            &&& (st == ChallengeStatus::Failed || st == ChallengeStatus::Disputed)
        }
    }

    /// The invariant every operation keeps.
    pub open spec fn wf(&self) -> bool {
        &&& self.params_ok()
        &&& self.evidence_ok()
        &&& self.votes_ok()
        &&& self.escrow_ok()
    }
}

/// Every vote is an approval or a rejection.
pub proof fn lemma_votes_total(s: Seq<Verification>)
    ensures
        count_votes(s, Vote::Approve) + count_votes(s, Vote::Reject) == s.len(),
    decreases s.len(),
{
    if s.len() > 0 {
        lemma_votes_total(s.drop_last());
    }
}

/// Appending a vote adds it to its tally.
pub proof fn lemma_count_push(s: Seq<Verification>, x: Verification)
    ensures
        count_votes(s.push(x), Vote::Approve) == count_votes(s, Vote::Approve) + if x.vote
            == Vote::Approve {
            1nat
        } else {
            0nat
        },
        count_votes(s.push(x), Vote::Reject) == count_votes(s, Vote::Reject) + if x.vote
            == Vote::Reject {
            1nat
        } else {
            0nat
        },
        count_reject_claims(s.push(x)) == count_reject_claims(s) + if x.vote == Vote::Reject
            && x.claimed {
            1nat
        } else {
            0nat
        },
{
    assert(s.push(x).drop_last() =~= s);
}

/// Marking one unclaimed rejecting vote as claimed adds one claim and keeps the tallies.
pub proof fn lemma_count_claim(s: Seq<Verification>, i: int, x: Verification)
    requires
        0 <= i < s.len(),
        s[i].vote == Vote::Reject,
        !s[i].claimed,
        x.vote == Vote::Reject,
        x.claimed,
    ensures
        count_votes(s.update(i, x), Vote::Approve) == count_votes(s, Vote::Approve),
        count_votes(s.update(i, x), Vote::Reject) == count_votes(s, Vote::Reject),
        count_reject_claims(s.update(i, x)) == count_reject_claims(s) + 1,
    decreases s.len(),
{
    let t = s.update(i, x);
    if i == s.len() - 1 {
        assert(t.drop_last() =~= s.drop_last());
    } else {
        lemma_count_claim(s.drop_last(), i, x);
        assert(t.drop_last() =~= s.drop_last().update(i, x));
    }
}

/// Claims are only ever made on rejecting votes; an unclaimed rejection leaves room.
pub proof fn lemma_claims_le_rejects(s: Seq<Verification>)
    ensures
        count_reject_claims(s) <= count_votes(s, Vote::Reject),
        (exists|i: int| 0 <= i < s.len() && s[i].vote == Vote::Reject && !s[i].claimed)
            ==> count_reject_claims(s) < count_votes(s, Vote::Reject),
    decreases s.len(),
{
    if s.len() > 0 {
        let p = s.drop_last();
        lemma_claims_le_rejects(p);
        if exists|i: int| 0 <= i < s.len() && s[i].vote == Vote::Reject && !s[i].claimed {
            let i = choose|i: int| 0 <= i < s.len() && s[i].vote == Vote::Reject && !s[i].claimed;
            if i < s.len() - 1 {
                assert(p[i] == s[i]);
            }
        }
    }
}

/// Distinct voters drawn from the verifier list are no more than the list.
pub proof fn lemma_voters_bounded(s: Seq<Verification>, verifiers: Seq<Identity>)
    requires
        voters(s).no_duplicates(),
        forall|i: int| 0 <= i < s.len() ==> verifiers.contains(#[trigger] s[i].verifier),
    ensures
        s.len() <= verifiers.len(),
{
    let v = voters(s);
    v.unique_seq_to_set();
    verifiers.lemma_cardinality_of_set();
    assert(v.to_set().subset_of(verifiers.to_set())) by {
        assert forall|x: Identity| v.to_set().contains(x) implies verifiers.to_set().contains(x) by {
            let j = choose|j: int| 0 <= j < v.len() && v[j] == x;
            assert(verifiers.contains(s[j].verifier));
        }
    }
    lemma_len_subset(v.to_set(), verifiers.to_set());
}

/// Whether no two votes come from the same verifier.
fn voters_distinct(s: &Vec<Verification>) -> (r: bool)
    ensures
        r == voters(s@).no_duplicates(),
{
    let mut i: usize = 0;
    while i < s.len()
        invariant
            i <= s@.len(),
            forall|a: int, b: int| 0 <= a < i && a < b < s@.len() ==> s@[a].verifier != s@[b].verifier,
        decreases s@.len() - i,
    {
        let mut j: usize = i + 1;
        while j < s.len()
            invariant
                i < s@.len(),
                i + 1 <= j <= s@.len(),
                forall|a: int, b: int|
                    0 <= a < i && a < b < s@.len() ==> s@[a].verifier != s@[b].verifier,
                forall|b: int| i < b < j ==> s@[i as int].verifier != s@[b].verifier,
            decreases s@.len() - j,
        {
            if s[i].verifier == s[j].verifier {
                assert(voters(s@)[i as int] == voters(s@)[j as int]);
                return false;
            }
            j += 1;
        }
        i += 1;
    }
    assert forall|a: int, b: int|
        0 <= a < voters(s@).len() && 0 <= b < voters(s@).len() && a != b implies voters(s@)[a]
        != voters(s@)[b] by {
        if b < a {
            assert(s@[b].verifier != s@[a].verifier);
        } else {
            assert(s@[a].verifier != s@[b].verifier);
        }
    }
    true
}

/// The approvals, the rejections and the claimed rejections among the votes.
fn tallies(s: &Vec<Verification>) -> (r: (usize, usize, usize))
    ensures
        r.0 == count_votes(s@, Vote::Approve),
        r.1 == count_votes(s@, Vote::Reject),
        r.2 == count_reject_claims(s@),
{
    let mut approvals: usize = 0;
    let mut rejections: usize = 0;
    let mut claims: usize = 0;
    let mut i: usize = 0;
    while i < s.len()
        invariant
            i <= s@.len(),
            approvals == count_votes(s@.take(i as int), Vote::Approve),
            rejections == count_votes(s@.take(i as int), Vote::Reject),
            claims == count_reject_claims(s@.take(i as int)),
            approvals <= i,
            rejections <= i,
            claims <= i,
        decreases s@.len() - i,
    {
        proof {
            let t = s@.take(i as int + 1);
            assert(t.drop_last() =~= s@.take(i as int));
            assert(t.last() == s@[i as int]);
        }
        let v = s[i];
        if v.vote == Vote::Approve {
            approvals = approvals + 1;
        } else {
            rejections = rejections + 1;
            if v.claimed {
                claims = claims + 1;
            }
        }
        i += 1;
    }
    proof {
        assert(s@.take(s@.len() as int) =~= s@);
    }
    (approvals, rejections, claims)
}

impl ChallengeLedger {
    /// Tests the invariant, for a ledger rebuilt from stored data.
    pub fn is_well_formed(&self) -> (r: bool)
        ensures
            r == self.wf(),
    {
        let c = &self.challenge;
        let stake = c.stake_amount;
        if stake == 0 || c.start_time >= c.end_time || c.required_proofs == 0 {
            return false;
        }
        if c.verifiers.len() == 0 || c.verifiers.len() > MAX_VERIFIERS || has_repeat(&c.verifiers) {
            return false;
        }
        if c.required_approvals as usize > c.verifiers.len() {
            return false;
        }
        let fee = platform_fee(stake);
        if fee > u64::MAX - stake {
            return false;
        }
        if c.evidence_count > c.required_proofs {
            return false;
        }
        if !voters_distinct(&self.verifications) {
            return false;
        }
        let mut i: usize = 0;
        while i < self.verifications.len()
            invariant
                i <= self.verifications@.len(),
                forall|j: int|
                    0 <= j < i ==> self.challenge.verifiers@.contains(
                        #[trigger] self.verifications@[j].verifier,
                    ),
            decreases self.verifications@.len() - i,
        {
            let who = self.verifications[i].verifier;
            if !contains_identity(&self.challenge.verifiers, &who) {
                return false;
            }
            i += 1;
        }
        let (approvals, rejections, claims) = tallies(&self.verifications);
        if approvals != c.approval_count as usize || rejections != c.rejection_count as usize {
            return false;
        }
        let st = c.status;
        let early = st == ChallengeStatus::Created || st == ChallengeStatus::Active || st
            == ChallengeStatus::PendingVerification;
        if early && c.claimed {
            return false;
        }
        if st == ChallengeStatus::Cancelled && (self.escrow_balance != 0 || c.claimed) {
            return false;
        }
        if st != ChallengeStatus::Cancelled && !c.claimed && self.escrow_balance != stake + fee {
            return false;
        }
        if !c.claimed && claims != 0 {
            return false;
        }
        if c.claimed && claims == 0 && (self.escrow_balance != 0 || !(st == ChallengeStatus::Completed
            || st == ChallengeStatus::Disputed)) {
            return false;
        }
        if claims > 0 {
            if claims > c.rejection_count as usize {
                return false;
            }
            if !(st == ChallengeStatus::Failed || st == ChallengeStatus::Disputed) {
                return false;
            }
            let slashed = slashed_amount(stake);
            let share = slashed / (c.rejection_count as u64);
            proof {
                assert((claims as int) * (share as int) <= 255 * (u64::MAX as int))
                    by (nonlinear_arith)
                    requires
                        claims <= 255,
                        share <= u64::MAX,
                ;
            }
            let paid: u128 = (claims as u128) * (share as u128);
            if self.escrow_balance as u128 + paid != slashed as u128 {
                return false;
            }
        }
        true
    }
}

} // verus!
