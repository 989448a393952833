use vstd::prelude::*;
use vstd::utf8::encode_utf8;

use crate::constants::{
    DISPUTE_WINDOW, MAX_DISPUTE_REASON_LEN, MAX_DESCRIPTION_LEN, MAX_IPFS_HASH_LEN, MAX_METADATA_LEN, MAX_TITLE_LEN, MAX_VERIFIERS,
};
use crate::errors::ErrorCode;
use crate::fees::{
    cancel_penalty, lemma_fee_bounds, platform_fee, spec_cancel_penalty, spec_platform_fee,
};
use crate::ledger::{
    count_reject_claims, count_votes, has_voted, lemma_count_push, lemma_voters_bounded,
    lemma_votes_total, voters, escrow_total, ChallengeLedger,
};
use crate::state::{
    transition_allowed, Challenge, ChallengeStatus, Dispute, Evidence, Identity, User, Verification, Vote,
};

verus! {

/// The length of a text in bytes, as it is stored.
pub open spec fn byte_len(s: String) -> nat {
    encode_utf8(s@).len()
}

fn text_len(s: &String) -> (r: usize)
    ensures
        r == byte_len(*s),
{
    s.as_str().as_bytes_vec().len()
}

pub(crate) fn contains_identity(list: &Vec<Identity>, who: &Identity) -> (r: bool)
    ensures
        r == list@.contains(*who),
{
    let mut i: usize = 0;
    while i < list.len()
        invariant
            i <= list@.len(),
            forall|j: int| 0 <= j < i ==> list@[j] != *who,
        decreases list@.len() - i,
    {
        if list[i] == *who {
            return true;
        }
        i += 1;
    }
    false
}

/// Whether some identity occurs twice in `list`.
pub(crate) fn has_repeat(list: &Vec<Identity>) -> (r: bool)
    ensures
        r == !list@.no_duplicates(),
{
    let mut i: usize = 0;
    while i < list.len()
        invariant
            i <= list@.len(),
            forall|a: int, b: int| 0 <= a < i && a < b < list@.len() ==> list@[a] != list@[b],
        decreases list@.len() - i,
    {
        let mut j: usize = i + 1;
        while j < list.len()
            invariant
                i < list@.len(),
                i + 1 <= j <= list@.len(),
                forall|a: int, b: int| 0 <= a < i && a < b < list@.len() ==> list@[a] != list@[b],
                forall|b: int| i < b < j ==> list@[i as int] != list@[b],
            decreases list@.len() - j,
        {
            if list[i] == list[j] {
                assert(list@[i as int] == list@[j as int]);
                return true;
            }
            j += 1;
        }
        i += 1;
    }
    assert forall|a: int, b: int| 0 <= a < list@.len() && 0 <= b < list@.len() && a != b implies list@[a]
        != list@[b] by {
        if b < a {
            assert(list@[b] != list@[a]);
        }
    }
    false
}

/// A fresh profile with every counter at zero.
pub fn initialize_user(authority: Identity) -> (r: User)
    ensures
        r == (User {
            authority,
            total_challenges: 0,
            completed: 0,
            failed: 0,
            total_staked: 0,
        }),
{
    User { authority, total_challenges: 0, completed: 0, failed: 0, total_staked: 0 }
}

/// Why a challenge with these parameters is refused, checked in this order: the
/// plain range checks first, then a repeated verifier, then totals that would not
/// fit their integer types.
pub open spec fn create_error(
    title_len: nat,
    description_len: nat,
    stake_amount: u64,
    start_time: i64,
    end_time: i64,
    verification_period: i64,
    required_proofs: u8,
    required_approvals: u8,
    verifiers: Seq<Identity>,
) -> Option<ErrorCode> {
    if title_len > MAX_TITLE_LEN {
        Some(ErrorCode::TitleTooLong)
    } else if description_len > MAX_DESCRIPTION_LEN {
        Some(ErrorCode::DescriptionTooLong)
    } else if stake_amount == 0 {
        Some(ErrorCode::InvalidStakeAmount)
    } else if end_time <= start_time {
        Some(ErrorCode::InvalidTimeRange)
    } else if verifiers.len() == 0 || verifiers.len() > MAX_VERIFIERS {
        Some(ErrorCode::InvalidVerifierCount)
    } else if required_approvals > verifiers.len() {
        Some(ErrorCode::InvalidApprovalCount)
    } else if required_proofs == 0 {
        Some(ErrorCode::InvalidProofCount)
    } else if !verifiers.no_duplicates() {
        Some(ErrorCode::InvalidVerifierCount)
    } else if stake_amount + spec_platform_fee(stake_amount as int) > u64::MAX {
        Some(ErrorCode::InvalidStakeAmount)
    } else if end_time + verification_period > i64::MAX || end_time + verification_period
        < i64::MIN {
        Some(ErrorCode::InvalidTimeRange)
    } else {
        None
    }
}

/// Opens a challenge for `creator`, whose profile is `user`. On success the
/// returned ledger's escrow holds the stake plus the platform fee, which the
/// creator pays in.
pub fn create_challenge(
    user: &mut User,
    key: Identity,
    creator: Identity,
    title: String,
    description: String,
    stake_amount: u64,
    start_time: i64,
    end_time: i64,
    verification_period: i64,
    required_proofs: u8,
    required_approvals: u8,
    verifiers: Vec<Identity>,
) -> (r: Result<ChallengeLedger, ErrorCode>)
    requires
        old(user).total_challenges < u32::MAX,
        old(user).total_staked + stake_amount <= u64::MAX,
    ensures
        create_error(
            byte_len(title),
            byte_len(description),
            stake_amount,
            start_time,
            end_time,
            verification_period,
            required_proofs,
            required_approvals,
            verifiers@,
        ) matches Some(e) ==> (r == Err::<ChallengeLedger, ErrorCode>(e) && *final(user)
            == *old(user)),
        create_error(
            byte_len(title),
            byte_len(description),
            stake_amount,
            start_time,
            end_time,
            verification_period,
            required_proofs,
            required_approvals,
            verifiers@,
        ) is None ==> (r matches Ok(l) && l.wf() && l.key == key && l.challenge == (Challenge {
            creator,
            title,
            description,
            stake_amount,
            start_time,
            end_time,
            verification_period_end: (end_time + verification_period) as i64,
            required_proofs,
            required_approvals,
            verifiers,
            status: ChallengeStatus::Created,
            evidence_count: 0,
            approval_count: 0,
            rejection_count: 0,
            finalized_at: 0,
            claimed: false,
        }) && l.escrow_balance == stake_amount + spec_platform_fee(stake_amount as int)
            && l.verifications@.len() == 0
            && *final(user) == (User {
            total_challenges: (old(user).total_challenges + 1) as u32,
            total_staked: (old(user).total_staked + stake_amount) as u64,
            ..*old(user)
        })),
{
    if text_len(&title) > MAX_TITLE_LEN {
        return Err(ErrorCode::TitleTooLong);
    }
    if text_len(&description) > MAX_DESCRIPTION_LEN {
        return Err(ErrorCode::DescriptionTooLong);
    }
    if stake_amount == 0 {
        return Err(ErrorCode::InvalidStakeAmount);
    }
    if end_time <= start_time {
        return Err(ErrorCode::InvalidTimeRange);
    }
    if verifiers.len() == 0 || verifiers.len() > MAX_VERIFIERS {
        return Err(ErrorCode::InvalidVerifierCount);
    }
    if required_approvals as usize > verifiers.len() {
        return Err(ErrorCode::InvalidApprovalCount);
    }
    if required_proofs == 0 {
        return Err(ErrorCode::InvalidProofCount);
    }
    if has_repeat(&verifiers) {
        return Err(ErrorCode::InvalidVerifierCount);
    }
    let fee = platform_fee(stake_amount);
    if fee > u64::MAX - stake_amount {
        return Err(ErrorCode::InvalidStakeAmount);
    }
    let period_end: i128 = end_time as i128 + verification_period as i128;
    if period_end > i64::MAX as i128 || period_end < i64::MIN as i128 {
        return Err(ErrorCode::InvalidTimeRange);
    }
    let challenge = Challenge {
        creator,
        title,
        description,
        stake_amount,
        start_time,
        end_time,
        verification_period_end: period_end as i64,
        required_proofs,
        required_approvals,
        verifiers,
        status: ChallengeStatus::Created,
        evidence_count: 0,
        approval_count: 0,
        rejection_count: 0,
        finalized_at: 0,
        claimed: false,
    };
    let ledger = ChallengeLedger {
        key,
        challenge,
        escrow_balance: stake_amount + fee,
        verifications: Vec::new(),
    };
    proof {
        assert(voters(ledger.verifications@) =~= Seq::<Identity>::empty());
        assert(count_votes(ledger.verifications@, Vote::Approve) == 0);
        assert(count_votes(ledger.verifications@, Vote::Reject) == 0);
        assert(count_reject_claims(ledger.verifications@) == 0);
    }
    user.total_challenges = user.total_challenges + 1;
    user.total_staked = user.total_staked + stake_amount;
    Ok(ledger)
}

/// Everything but the challenge itself is as it was.
pub open spec fn records_unchanged(a: ChallengeLedger, b: ChallengeLedger) -> bool {
    &&& a.key == b.key
    &&& a.escrow_balance == b.escrow_balance
    &&& a.verifications@ == b.verifications@
}

/// The status a time check moves a challenge to at time `now`.
pub open spec fn time_step(c: Challenge, now: int) -> ChallengeStatus {
    match c.status {
        ChallengeStatus::Created => if now >= c.start_time {
            ChallengeStatus::Active
        } else {
            ChallengeStatus::Created
        },
        ChallengeStatus::Active => if now > c.end_time {
            if c.evidence_count < c.required_proofs {
                ChallengeStatus::Failed
            } else {
                ChallengeStatus::PendingVerification
            }
        } else {
            ChallengeStatus::Active
        },
        ChallengeStatus::PendingVerification => if now > c.verification_period_end {
            ChallengeStatus::Completed
        } else {
            ChallengeStatus::PendingVerification
        },
        _ => c.status,
    }
}

/// The challenge after moving from its status to `next` at time `now`: a move into
/// Completed or Failed records the time of finalization.
pub open spec fn moved_to(c: Challenge, next: ChallengeStatus, now: i64) -> Challenge {
    if next != c.status && (next == ChallengeStatus::Completed || next == ChallengeStatus::Failed) {
        Challenge { status: next, finalized_at: now, ..c }
    } else {
        Challenge { status: next, ..c }
    }
}

/// The creator's profile after the challenge moved from `from` to `to`.
pub open spec fn user_after(u: User, from: ChallengeStatus, to: ChallengeStatus) -> User {
    if from != to && to == ChallengeStatus::Completed {
        User { completed: (u.completed + 1) as u32, ..u }
    } else if from != to && to == ChallengeStatus::Failed {
        User { failed: (u.failed + 1) as u32, ..u }
    } else {
        u
    }
}

/// Moves a challenge along by time alone. Only `admin` may call it, and
/// calling it when no time guard holds changes nothing.
pub fn update_challenge_state(
    ledger: &mut ChallengeLedger,
    user: &mut User,
    admin: Identity,
    signer: Identity,
    now: i64,
) -> (r: Result<(), ErrorCode>)
    requires
        old(ledger).wf(),
        old(user).completed < u32::MAX,
        old(user).failed < u32::MAX,
    ensures
        final(ledger).wf(),
        transition_allowed(old(ledger).challenge.status, final(ledger).challenge.status),
        signer != admin ==> r == Err::<(), ErrorCode>(ErrorCode::UnauthorizedAdmin)
            && *final(ledger) == *old(ledger) && *final(user) == *old(user),
        signer == admin ==> r is Ok && records_unchanged(*final(ledger), *old(ledger))
            && final(ledger).challenge == moved_to(
            old(ledger).challenge,
            time_step(old(ledger).challenge, now as int),
            now,
        ) && *final(user) == user_after(
            *old(user),
            old(ledger).challenge.status,
            time_step(old(ledger).challenge, now as int),
        ),
{
    if signer != admin {
        return Err(ErrorCode::UnauthorizedAdmin);
    }
    match ledger.challenge.status {
        ChallengeStatus::Created => {
            if now >= ledger.challenge.start_time {
                ledger.challenge.status = ChallengeStatus::Active;
            }
        },
        ChallengeStatus::Active => {
            if now > ledger.challenge.end_time {
                if ledger.challenge.evidence_count < ledger.challenge.required_proofs {
                    ledger.challenge.status = ChallengeStatus::Failed;
                    ledger.challenge.finalized_at = now;
                    user.failed = user.failed + 1;
                } else {
                    ledger.challenge.status = ChallengeStatus::PendingVerification;
                }
            }
        },
        ChallengeStatus::PendingVerification => {
            if now > ledger.challenge.verification_period_end {
                ledger.challenge.status = ChallengeStatus::Completed;
                ledger.challenge.finalized_at = now;
                user.completed = user.completed + 1;
            }
        },
        _ => {},
    }
    Ok(())
}

/// Why evidence is refused, checked in this order.
pub open spec fn evidence_error(
    l: ChallengeLedger,
    submitter: Identity,
    hash_len: nat,
    metadata_len: nat,
    now: int,
) -> Option<ErrorCode> {
    let c = l.challenge;
    if hash_len > MAX_IPFS_HASH_LEN {
        Some(ErrorCode::IpfsHashTooLong)
    } else if metadata_len > MAX_METADATA_LEN {
        Some(ErrorCode::MetadataTooLong)
    } else if submitter != c.creator {
        Some(ErrorCode::UnauthorizedSubmitter)
    } else if c.status != ChallengeStatus::Active {
        Some(ErrorCode::InvalidChallengeStatus)
    } else if now >= c.end_time {
        Some(ErrorCode::ChallengeExpired)
    } else if c.evidence_count >= c.required_proofs {
        Some(ErrorCode::AllEvidenceSubmitted)
    } else {
        None
    }
}

/// Accepts the next piece of evidence and returns its record, numbered by
/// arrival; the last one required moves the challenge to verification at once.
pub fn submit_evidence(
    ledger: &mut ChallengeLedger,
    submitter: Identity,
    ipfs_hash: String,
    metadata: String,
    now: i64,
) -> (r: Result<Evidence, ErrorCode>)
    requires
        old(ledger).wf(),
    ensures
        final(ledger).wf(),
        transition_allowed(old(ledger).challenge.status, final(ledger).challenge.status),
        evidence_error(*old(ledger), submitter, byte_len(ipfs_hash), byte_len(metadata), now as int)
            matches Some(e) ==> (r == Err::<Evidence, ErrorCode>(e) && *final(ledger) == *old(
            ledger,
        )),
        evidence_error(*old(ledger), submitter, byte_len(ipfs_hash), byte_len(metadata), now as int)
            is None ==> ({
            let c = old(ledger).challenge;
            let count = (c.evidence_count + 1) as u8;
            &&& r == Ok::<Evidence, ErrorCode>(
                Evidence {
                    challenge: old(ledger).key,
                    ipfs_hash,
                    metadata,
                    timestamp: now,
                    evidence_index: c.evidence_count,
                },
            )
            &&& final(ledger).challenge == (Challenge {
                evidence_count: count,
                status: if count == c.required_proofs {
                    ChallengeStatus::PendingVerification
                } else {
                    ChallengeStatus::Active
                },
                ..c
            })
            &&& final(ledger).key == old(ledger).key
            &&& final(ledger).escrow_balance == old(ledger).escrow_balance
            &&& final(ledger).verifications@ == old(ledger).verifications@
        }),
{
    if text_len(&ipfs_hash) > MAX_IPFS_HASH_LEN {
        return Err(ErrorCode::IpfsHashTooLong);
    }
    if text_len(&metadata) > MAX_METADATA_LEN {
        return Err(ErrorCode::MetadataTooLong);
    }
    if submitter != ledger.challenge.creator {
        return Err(ErrorCode::UnauthorizedSubmitter);
    }
    if ledger.challenge.status != ChallengeStatus::Active {
        return Err(ErrorCode::InvalidChallengeStatus);
    }
    if now >= ledger.challenge.end_time {
        return Err(ErrorCode::ChallengeExpired);
    }
    if ledger.challenge.evidence_count >= ledger.challenge.required_proofs {
        return Err(ErrorCode::AllEvidenceSubmitted);
    }
    let evidence_index = ledger.challenge.evidence_count;
    ledger.challenge.evidence_count = evidence_index + 1;
    if ledger.challenge.evidence_count == ledger.challenge.required_proofs {
        ledger.challenge.status = ChallengeStatus::PendingVerification;
    }
    Ok(Evidence { challenge: ledger.key, ipfs_hash, metadata, timestamp: now, evidence_index })
}

pub(crate) fn find_vote(s: &Vec<Verification>, who: &Identity) -> (r: Option<usize>)
    ensures
        r matches Some(i) ==> (i < s@.len() && s@[i as int].verifier == *who),
        r is None ==> !has_voted(s@, *who),
{
    let mut i: usize = 0;
    while i < s.len()
        invariant
            i <= s@.len(),
            forall|j: int| 0 <= j < i ==> s@[j].verifier != *who,
        decreases s@.len() - i,
    {
        if s[i].verifier == *who {
            return Some(i);
        }
        i += 1;
    }
    None
}

/// Why a vote is refused, checked in this order.
pub open spec fn vote_error(l: ChallengeLedger, verifier: Identity, now: int) -> Option<ErrorCode> {
    let c = l.challenge;
    if c.status != ChallengeStatus::PendingVerification {
        Some(ErrorCode::InvalidChallengeStatus)
    } else if now >= c.verification_period_end {
        Some(ErrorCode::VerificationPeriodExpired)
    } else if !c.verifiers@.contains(verifier) {
        Some(ErrorCode::UnauthorizedVerifier)
    } else if has_voted(l.verifications@, verifier) {
        Some(ErrorCode::AlreadyVoted)
    } else {
        None
    }
}

/// The status after a vote leaves the tallies at `approvals` and `rejections`:
/// enough approvals complete the challenge; otherwise more rejections than the
/// approvals can spare fail it.
pub open spec fn tally_status(c: Challenge, approvals: int, rejections: int) -> ChallengeStatus {
    if approvals >= c.required_approvals {
        ChallengeStatus::Completed
    } else if rejections > c.verifiers@.len() - c.required_approvals {
        ChallengeStatus::Failed
    } else {
        ChallengeStatus::PendingVerification
    }
}

/// One if `v` is `w`, else zero.
pub open spec fn vote_unit(v: Vote, w: Vote) -> int {
    if v == w {
        1
    } else {
        0
    }
}

/// Records one verifier's vote, once, and finalizes the challenge in the same
/// call when the vote crosses a threshold.
pub fn verify_evidence(
    ledger: &mut ChallengeLedger,
    user: &mut User,
    verifier: Identity,
    vote: Vote,
    now: i64,
) -> (r: Result<(), ErrorCode>)
    requires
        old(ledger).wf(),
        old(user).completed < u32::MAX,
        old(user).failed < u32::MAX,
    ensures
        final(ledger).wf(),
        transition_allowed(old(ledger).challenge.status, final(ledger).challenge.status),
        vote_error(*old(ledger), verifier, now as int) matches Some(e) ==> (r == Err::<
            (),
            ErrorCode,
        >(e) && *final(ledger) == *old(ledger) && *final(user) == *old(user)),
        vote_error(*old(ledger), verifier, now as int) is None ==> ({
            let c = old(ledger).challenge;
            let approvals = c.approval_count + vote_unit(vote, Vote::Approve);
            let rejections = c.rejection_count + vote_unit(vote, Vote::Reject);
            let next = tally_status(c, approvals, rejections);
            &&& r is Ok
            &&& final(ledger).verifications@ == old(ledger).verifications@.push(
                Verification {
                    challenge: old(ledger).key,
                    verifier,
                    vote,
                    timestamp: now,
                    claimed: false,
                },
            )
            &&& final(ledger).challenge == moved_to(
                Challenge {
                    approval_count: approvals as u8,
                    rejection_count: rejections as u8,
                    ..c
                },
                next,
                now,
            )
            &&& *final(user) == user_after(*old(user), c.status, next)
            &&& final(ledger).key == old(ledger).key
            &&& final(ledger).escrow_balance == old(ledger).escrow_balance
        }),
{
    if ledger.challenge.status != ChallengeStatus::PendingVerification {
        return Err(ErrorCode::InvalidChallengeStatus);
    }
    if now >= ledger.challenge.verification_period_end {
        return Err(ErrorCode::VerificationPeriodExpired);
    }
    if !contains_identity(&ledger.challenge.verifiers, &verifier) {
        return Err(ErrorCode::UnauthorizedVerifier);
    }
    if find_vote(&ledger.verifications, &verifier).is_some() {
        return Err(ErrorCode::AlreadyVoted);
    }
    let record = Verification {
        challenge: ledger.key,
        verifier,
        vote,
        timestamp: now,
        claimed: false,
    };
    proof {
        let s0 = ledger.verifications@;
        let s1 = s0.push(record);
        assert(voters(s1) =~= voters(s0).push(verifier));
        assert(voters(s1).no_duplicates()) by {
            assert forall|i: int, j: int|
                0 <= i < voters(s1).len() && 0 <= j < voters(s1).len() && i != j implies voters(
                s1,
            )[i] != voters(s1)[j] by {
                if i < s0.len() && j < s0.len() {
                    assert(voters(s0)[i] != voters(s0)[j]);
                } else if i < s0.len() {
                    assert(s0[i].verifier != verifier);
                } else {
                    assert(s0[j].verifier != verifier);
                }
            }
        }
        lemma_voters_bounded(s1, ledger.challenge.verifiers@);
        lemma_votes_total(s0);
        lemma_count_push(s0, record);
    }
    ledger.verifications.push(record);
    match vote {
        Vote::Approve => {
            ledger.challenge.approval_count = ledger.challenge.approval_count + 1;
        },
        Vote::Reject => {
            ledger.challenge.rejection_count = ledger.challenge.rejection_count + 1;
        },
    }
    let total_verifiers = ledger.challenge.verifiers.len() as u8;
    let required_approvals = ledger.challenge.required_approvals;
    let max_possible_rejections = total_verifiers - required_approvals;
    if ledger.challenge.approval_count >= required_approvals {
        ledger.challenge.status = ChallengeStatus::Completed;
        ledger.challenge.finalized_at = now;
        user.completed = user.completed + 1;
    } else if ledger.challenge.rejection_count > max_possible_rejections {
        ledger.challenge.status = ChallengeStatus::Failed;
        ledger.challenge.finalized_at = now;
        user.failed = user.failed + 1;
    }
    Ok(())
}

/// Value leaving the escrow in one operation, by recipient.
#[derive(Clone, Copy, Debug, PartialEq, Eq, Structural)]
pub struct Payout {
    pub creator: u64,
    pub platform: u64,
    pub verifier: u64,
}

impl Payout {
    pub open spec fn total(&self) -> int {
        self.creator + self.platform + self.verifier
    }
}

/// Why a cancellation is refused, checked in this order.
pub open spec fn cancel_error(l: ChallengeLedger, signer: Identity) -> Option<ErrorCode> {
    let c = l.challenge;
    if signer != c.creator {
        Some(ErrorCode::UnauthorizedCreator)
    } else if c.status != ChallengeStatus::Created && c.status != ChallengeStatus::Active {
        Some(ErrorCode::CannotCancelChallenge)
    } else {
        None
    }
}

/// What a cancellation pays: everything back before activation; once active,
/// the platform keeps the cancellation penalty and the creator gets the rest.
pub open spec fn cancel_payout(c: Challenge) -> Payout {
    let penalty = if c.status == ChallengeStatus::Created {
        0
    } else {
        spec_cancel_penalty(c.stake_amount as int)
    };
    Payout {
        creator: (escrow_total(c) - penalty) as u64,
        platform: penalty as u64,
        verifier: 0,
    }
}

/// The creator withdraws a challenge that has not yet reached verification.
pub fn cancel_challenge(ledger: &mut ChallengeLedger, signer: Identity) -> (r: Result<
    Payout,
    ErrorCode,
>)
    requires
        old(ledger).wf(),
    ensures
        final(ledger).wf(),
        transition_allowed(old(ledger).challenge.status, final(ledger).challenge.status),
        cancel_error(*old(ledger), signer) matches Some(e) ==> (r == Err::<Payout, ErrorCode>(e)
            && *final(ledger) == *old(ledger)),
        cancel_error(*old(ledger), signer) is None ==> ({
            let c = old(ledger).challenge;
            &&& r == Ok::<Payout, ErrorCode>(cancel_payout(c))
            &&& cancel_payout(c).total() == old(ledger).escrow_balance
            &&& final(ledger).escrow_balance == 0
            &&& final(ledger).challenge == (Challenge { status: ChallengeStatus::Cancelled, ..c })
            &&& final(ledger).key == old(ledger).key
            &&& final(ledger).verifications@ == old(ledger).verifications@
        }),
{
    if signer != ledger.challenge.creator {
        return Err(ErrorCode::UnauthorizedCreator);
    }
    if ledger.challenge.status != ChallengeStatus::Created && ledger.challenge.status
        != ChallengeStatus::Active {
        return Err(ErrorCode::CannotCancelChallenge);
    }
    let stake_amount = ledger.challenge.stake_amount;
    let fee = platform_fee(stake_amount);
    let penalty: u64 = if ledger.challenge.status == ChallengeStatus::Created {
        0
    } else {
        cancel_penalty(stake_amount)
    };
    proof {
        lemma_fee_bounds(stake_amount as int);
    }
    let refund_amount = stake_amount + fee - penalty;
    ledger.escrow_balance = 0;
    ledger.challenge.status = ChallengeStatus::Cancelled;
    Ok(Payout { creator: refund_amount, platform: penalty, verifier: 0 })
}

/// Why a dispute is refused, checked in this order.
pub open spec fn dispute_error(
    l: ChallengeLedger,
    disputer: Identity,
    reason_len: nat,
    now: int,
) -> Option<ErrorCode> {
    let c = l.challenge;
    if reason_len > MAX_DISPUTE_REASON_LEN {
        Some(ErrorCode::DisputeReasonTooLong)
    } else if c.status != ChallengeStatus::Completed && c.status != ChallengeStatus::Failed {
        Some(ErrorCode::InvalidChallengeStatus)
    } else if now > c.finalized_at + DISPUTE_WINDOW {
        Some(ErrorCode::DisputeWindowExpired)
    } else if disputer != c.creator && !has_voted(l.verifications@, disputer) {
        Some(ErrorCode::UnauthorizedDisputer)
    } else {
        None
    }
}

/// The creator or a verifier who voted contests a finalized outcome within the
/// dispute window, and the dispute's record is returned. A disputed challenge
/// has no way out: its funds stay in escrow.
pub fn dispute_verification(
    ledger: &mut ChallengeLedger,
    disputer: Identity,
    reason: String,
    now: i64,
) -> (r: Result<Dispute, ErrorCode>)
    requires
        old(ledger).wf(),
    ensures
        final(ledger).wf(),
        transition_allowed(old(ledger).challenge.status, final(ledger).challenge.status),
        dispute_error(*old(ledger), disputer, byte_len(reason), now as int) matches Some(e) ==> (r
            == Err::<Dispute, ErrorCode>(e) && *final(ledger) == *old(ledger)),
        dispute_error(*old(ledger), disputer, byte_len(reason), now as int) is None ==> ({
            let c = old(ledger).challenge;
            &&& r == Ok::<Dispute, ErrorCode>(
                Dispute { challenge: old(ledger).key, disputer, reason, timestamp: now },
            )
            &&& final(ledger).challenge == (Challenge { status: ChallengeStatus::Disputed, ..c })
            &&& final(ledger).key == old(ledger).key
            &&& final(ledger).escrow_balance == old(ledger).escrow_balance
            &&& final(ledger).verifications@ == old(ledger).verifications@
        }),
{
    if text_len(&reason) > MAX_DISPUTE_REASON_LEN {
        return Err(ErrorCode::DisputeReasonTooLong);
    }
    if ledger.challenge.status != ChallengeStatus::Completed && ledger.challenge.status
        != ChallengeStatus::Failed {
        return Err(ErrorCode::InvalidChallengeStatus);
    }
    if now as i128 > ledger.challenge.finalized_at as i128 + DISPUTE_WINDOW as i128 {
        return Err(ErrorCode::DisputeWindowExpired);
    }
    if disputer != ledger.challenge.creator && find_vote(&ledger.verifications, &disputer).is_none() {
        return Err(ErrorCode::UnauthorizedDisputer);
    }
    ledger.challenge.status = ChallengeStatus::Disputed;
    Ok(Dispute { challenge: ledger.key, disputer, reason, timestamp: now })
}

} // verus!
