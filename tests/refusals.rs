use proof_of_touch_grass::claim::claim_funds;
use proof_of_touch_grass::constants::DISPUTE_WINDOW;
use proof_of_touch_grass::errors::ErrorCode;
use proof_of_touch_grass::fees::{cancel_penalty, creator_bonus, platform_fee, slashed_amount};
use proof_of_touch_grass::instructions::{
    cancel_challenge, create_challenge, dispute_verification, initialize_user, submit_evidence,
    update_challenge_state, verify_evidence,
};
use proof_of_touch_grass::ledger::ChallengeLedger;
use proof_of_touch_grass::state::{ChallengeStatus, Identity, User, Vote};

fn id(b: u8) -> Identity {
    Identity { bytes: [b; 32] }
}

fn creator() -> Identity {
    id(1)
}

fn admin() -> Identity {
    id(99)
}

fn create(
    title: &str,
    description: &str,
    stake: u64,
    start: i64,
    end: i64,
    period: i64,
    proofs: u8,
    approvals: u8,
    verifier_count: u8,
) -> Result<ChallengeLedger, ErrorCode> {
    let mut user = initialize_user(creator());
    let verifiers: Vec<Identity> = (0..verifier_count).map(|i| id(10 + i)).collect();
    create_challenge(
        &mut user,
        id(50),
        creator(),
        title.to_string(),
        description.to_string(),
        stake,
        start,
        end,
        period,
        proofs,
        approvals,
        verifiers,
    )
}

fn pending() -> (ChallengeLedger, User) {
    let mut user = initialize_user(creator());
    let mut ledger = create("t", "d", 1_000_000, 100, 1000, 500, 1, 2, 3).unwrap();
    update_challenge_state(&mut ledger, &mut user, admin(), admin(), 100).unwrap();
    submit_evidence(&mut ledger, creator(), "h".to_string(), "m".to_string(), 200).unwrap();
    (ledger, user)
}

#[test]
fn fee_formulas_are_exact() {
    assert_eq!(platform_fee(1_000_000), 5_000);
    assert_eq!(cancel_penalty(1_000_000), 20_000);
    assert_eq!(creator_bonus(1_000_000), 2_500);
    assert_eq!(slashed_amount(1_000_000), 250_000);
    assert_eq!(platform_fee(199), 0);
    assert_eq!(platform_fee(200), 1);
    assert_eq!(platform_fee(u64::MAX), 92_233_720_368_547_758);
}

#[test]
fn creation_validates_parameters() {
    let long_title = "x".repeat(101);
    assert!(create(&"x".repeat(100), "d", 1, 0, 1, 0, 1, 0, 1).is_ok());
    assert_eq!(create(&long_title, "d", 1, 0, 1, 0, 1, 0, 1).err(), Some(ErrorCode::TitleTooLong));
    let long_description = "y".repeat(501);
    assert_eq!(
        create("t", &long_description, 1, 0, 1, 0, 1, 0, 1).err(),
        Some(ErrorCode::DescriptionTooLong)
    );
    assert_eq!(create("t", "d", 0, 0, 1, 0, 1, 0, 1).err(), Some(ErrorCode::InvalidStakeAmount));
    assert_eq!(
        create("t", "d", u64::MAX, 0, 1, 0, 1, 0, 1).err(),
        Some(ErrorCode::InvalidStakeAmount)
    );
    assert_eq!(create("t", "d", 1, 5, 5, 0, 1, 0, 1).err(), Some(ErrorCode::InvalidTimeRange));
    assert_eq!(
        create("t", "d", 1, 0, i64::MAX, 1, 1, 0, 1).err(),
        Some(ErrorCode::InvalidTimeRange)
    );
    assert_eq!(create("t", "d", 1, 0, 1, 0, 1, 0, 0).err(), Some(ErrorCode::InvalidVerifierCount));
    assert_eq!(create("t", "d", 1, 0, 1, 0, 1, 0, 6).err(), Some(ErrorCode::InvalidVerifierCount));
    assert_eq!(create("t", "d", 1, 0, 1, 0, 1, 3, 2).err(), Some(ErrorCode::InvalidApprovalCount));
    assert_eq!(create("t", "d", 1, 0, 1, 0, 0, 1, 2).err(), Some(ErrorCode::InvalidProofCount));
}

#[test]
fn created_ledger_holds_stake_and_fee() {
    let ledger = create("t", "d", 1_000_000, 100, 1000, 500, 2, 1, 2).unwrap();
    assert_eq!(ledger.escrow_balance, 1_005_000);
    assert_eq!(ledger.challenge.verification_period_end, 1500);
    assert_eq!(ledger.challenge.status, ChallengeStatus::Created);
    assert!(ledger.verifications.is_empty());
}

#[test]
fn only_admin_advances_time() {
    let mut user = initialize_user(creator());
    let mut ledger = create("t", "d", 1_000, 100, 1000, 500, 1, 1, 1).unwrap();
    let r = update_challenge_state(&mut ledger, &mut user, admin(), creator(), 100);
    assert_eq!(r, Err(ErrorCode::UnauthorizedAdmin));
    assert_eq!(ledger.challenge.status, ChallengeStatus::Created);
}

#[test]
fn evidence_refusals() {
    let mut user = initialize_user(creator());
    let mut ledger = create("t", "d", 1_000, 100, 1000, 500, 2, 1, 1).unwrap();
    let r = submit_evidence(&mut ledger, creator(), "h".to_string(), "m".to_string(), 50);
    assert_eq!(r.err(), Some(ErrorCode::InvalidChallengeStatus));
    update_challenge_state(&mut ledger, &mut user, admin(), admin(), 100).unwrap();
    let r = submit_evidence(&mut ledger, creator(), "h".repeat(65), "m".to_string(), 200);
    assert_eq!(r.err(), Some(ErrorCode::IpfsHashTooLong));
    let r = submit_evidence(&mut ledger, creator(), "h".to_string(), "m".repeat(201), 200);
    assert_eq!(r.err(), Some(ErrorCode::MetadataTooLong));
    let r = submit_evidence(&mut ledger, id(7), "h".to_string(), "m".to_string(), 200);
    assert_eq!(r.err(), Some(ErrorCode::UnauthorizedSubmitter));
    let r = submit_evidence(&mut ledger, creator(), "h".to_string(), "m".to_string(), 1000);
    assert_eq!(r.err(), Some(ErrorCode::ChallengeExpired));
    assert_eq!(ledger.challenge.evidence_count, 0);
    let first =
        submit_evidence(&mut ledger, creator(), "h".repeat(64), "m".repeat(200), 999).unwrap();
    assert_eq!(first.evidence_index, 0);
    assert_eq!(first.timestamp, 999);
    assert_eq!(first.challenge, id(50));
    assert_eq!(ledger.challenge.status, ChallengeStatus::Active);
    let second = submit_evidence(&mut ledger, creator(), "h2".to_string(), "m2".to_string(), 999)
        .unwrap();
    assert_eq!(second.evidence_index, 1);
    assert_eq!(second.ipfs_hash, "h2");
    assert_eq!(ledger.challenge.evidence_count, 2);
    assert_eq!(ledger.challenge.status, ChallengeStatus::PendingVerification);
    let r = submit_evidence(&mut ledger, creator(), "h3".to_string(), "m3".to_string(), 999);
    assert_eq!(r.err(), Some(ErrorCode::InvalidChallengeStatus));
}

#[test]
fn vote_refusals() {
    let (mut ledger, mut user) = pending();
    let r = verify_evidence(&mut ledger, &mut user, id(10), Vote::Approve, 1500);
    assert_eq!(r, Err(ErrorCode::VerificationPeriodExpired));
    let r = verify_evidence(&mut ledger, &mut user, id(7), Vote::Approve, 1100);
    assert_eq!(r, Err(ErrorCode::UnauthorizedVerifier));
    verify_evidence(&mut ledger, &mut user, id(10), Vote::Reject, 1100).unwrap();
    let r = verify_evidence(&mut ledger, &mut user, id(10), Vote::Approve, 1100);
    assert_eq!(r, Err(ErrorCode::AlreadyVoted));
    assert_eq!(ledger.challenge.rejection_count, 1);
    assert_eq!(ledger.challenge.approval_count, 0);
}

#[test]
fn cancel_refusals() {
    let (mut ledger, _user) = pending();
    assert_eq!(cancel_challenge(&mut ledger, id(7)), Err(ErrorCode::UnauthorizedCreator));
    assert_eq!(cancel_challenge(&mut ledger, creator()), Err(ErrorCode::CannotCancelChallenge));
}

#[test]
fn dispute_refusals() {
    let (mut ledger, mut user) = pending();
    let r = dispute_verification(&mut ledger, creator(), "r".to_string(), 1100);
    assert_eq!(r.err(), Some(ErrorCode::InvalidChallengeStatus));
    verify_evidence(&mut ledger, &mut user, id(10), Vote::Approve, 1100).unwrap();
    verify_evidence(&mut ledger, &mut user, id(11), Vote::Approve, 1100).unwrap();
    let r = dispute_verification(&mut ledger, creator(), "r".repeat(501), 1100);
    assert_eq!(r.err(), Some(ErrorCode::DisputeReasonTooLong));
    let r = dispute_verification(&mut ledger, id(12), "r".to_string(), 1100);
    assert_eq!(r.err(), Some(ErrorCode::UnauthorizedDisputer));
    let d = dispute_verification(&mut ledger, id(11), "r".to_string(), 1100 + DISPUTE_WINDOW);
    assert_eq!(d.unwrap().disputer, id(11));
}

#[test]
fn claim_refusals() {
    let (mut ledger, mut user) = pending();
    let r = claim_funds(&mut ledger, &mut user, creator(), 10_000_000);
    assert_eq!(r, Err(ErrorCode::InvalidChallengeStatus));
    verify_evidence(&mut ledger, &mut user, id(10), Vote::Approve, 1100).unwrap();
    verify_evidence(&mut ledger, &mut user, id(11), Vote::Reject, 1100).unwrap();
    verify_evidence(&mut ledger, &mut user, id(12), Vote::Reject, 1100).unwrap();
    assert_eq!(ledger.challenge.status, ChallengeStatus::Failed);
    let r = claim_funds(&mut ledger, &mut user, id(11), 1100 + DISPUTE_WINDOW);
    assert_eq!(r, Err(ErrorCode::DisputeWindowNotExpired));
    let after = 1100 + DISPUTE_WINDOW + 1;
    let r = claim_funds(&mut ledger, &mut user, creator(), after);
    assert_eq!(r, Err(ErrorCode::UnauthorizedVerifier));
    let r = claim_funds(&mut ledger, &mut user, id(10), after);
    assert_eq!(r, Err(ErrorCode::VerifierDidNotReject));
    assert_eq!(ledger.escrow_balance, 1_005_000);
}

#[test]
fn completed_claim_only_by_creator() {
    let (mut ledger, mut user) = pending();
    verify_evidence(&mut ledger, &mut user, id(10), Vote::Approve, 1100).unwrap();
    verify_evidence(&mut ledger, &mut user, id(11), Vote::Approve, 1100).unwrap();
    let r = claim_funds(&mut ledger, &mut user, id(10), 1100 + DISPUTE_WINDOW + 1);
    assert_eq!(r, Err(ErrorCode::UnauthorizedCreator));
}

#[test]
fn status_and_vote_names() {
    assert_eq!(ChallengeStatus::Created.to_string(), "Created");
    assert_eq!(ChallengeStatus::PendingVerification.to_string(), "PendingVerification");
    assert_eq!(ChallengeStatus::Disputed.to_string(), "Disputed");
    assert_eq!(Vote::Approve.to_string(), "Approve");
    assert_eq!(Vote::Reject.to_string(), "Reject");
}

#[test]
fn identities_compare_by_bytes() {
    let mut a = [3u8; 32];
    let b = Identity { bytes: a };
    a[31] = 4;
    assert!(Identity { bytes: a } != b);
    assert!(Identity { bytes: [3u8; 32] } == b);
}

#[test]
fn repeated_verifier_is_refused() {
    let mut user = initialize_user(creator());
    let r = create_challenge(
        &mut user,
        id(50),
        creator(),
        "t".to_string(),
        "d".to_string(),
        1_000_000,
        100,
        1000,
        500,
        1,
        2,
        vec![id(10), id(11), id(10)],
    );
    assert_eq!(r.err(), Some(ErrorCode::InvalidVerifierCount));
    assert_eq!(user.total_challenges, 0);
    assert_eq!(user.total_staked, 0);
}

#[test]
fn creation_refusals_follow_the_plain_checks_first() {
    assert_eq!(
        create("t", "d", u64::MAX, 5, 5, 0, 1, 0, 1).err(),
        Some(ErrorCode::InvalidTimeRange)
    );
    assert_eq!(
        create("t", "d", u64::MAX, 0, 1, 0, 0, 0, 1).err(),
        Some(ErrorCode::InvalidProofCount)
    );
    assert_eq!(
        create("t", "d", 1, 0, i64::MAX, 1, 0, 0, 1).err(),
        Some(ErrorCode::InvalidProofCount)
    );
    let mut user = initialize_user(creator());
    let r = create_challenge(
        &mut user,
        id(50),
        creator(),
        "t".to_string(),
        "d".to_string(),
        1_000_000,
        100,
        1000,
        500,
        1,
        3,
        vec![id(10), id(10)],
    );
    assert_eq!(r.err(), Some(ErrorCode::InvalidApprovalCount));
    let r = create_challenge(
        &mut user,
        id(50),
        creator(),
        "t".to_string(),
        "d".to_string(),
        u64::MAX,
        100,
        1000,
        500,
        1,
        1,
        vec![id(10), id(10)],
    );
    assert_eq!(r.err(), Some(ErrorCode::InvalidVerifierCount));
}

#[test]
fn stored_ledgers_are_checked() {
    let (mut ledger, _user) = pending();
    assert!(ledger.is_well_formed());
    let mut bad = ledger.clone();
    bad.escrow_balance -= 1;
    assert!(!bad.is_well_formed());
    let mut bad = ledger.clone();
    bad.challenge.approval_count = 1;
    assert!(!bad.is_well_formed());
    let mut bad = ledger.clone();
    bad.challenge.verifiers.push(id(10));
    assert!(!bad.is_well_formed());
    ledger.challenge.evidence_count = 2;
    assert!(!ledger.is_well_formed());
}
