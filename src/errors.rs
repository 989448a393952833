use vstd::prelude::*;

verus! {

/// Every way an operation can be refused. A refused operation changes nothing.
#[derive(Clone, Copy, Debug, PartialEq, Eq, Structural)]
pub enum ErrorCode {
    TitleTooLong,
    DescriptionTooLong,
    InvalidStakeAmount,
    InvalidTimeRange,
    InvalidVerifierCount,
    InvalidApprovalCount,
    InvalidProofCount,
    IpfsHashTooLong,
    MetadataTooLong,
    UnauthorizedSubmitter,
    InvalidChallengeStatus,
    ChallengeExpired,
    AllEvidenceSubmitted,
    VerificationPeriodExpired,
    UnauthorizedVerifier,
    VerificationPeriodNotExpired,
    UnauthorizedCreator,
    CannotCancelChallenge,
    DisputeReasonTooLong,
    DisputeWindowExpired,
    UnauthorizedDisputer,
    VerifierDidNotReject,
    AlreadyClaimed,
    DisputeWindowNotExpired,
    UnauthorizedAdmin,
    AlreadyVoted,
}

} // verus!
