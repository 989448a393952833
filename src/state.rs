use vstd::prelude::*;

verus! {

/// A participant's 32-byte public identity.
#[derive(Clone, Copy, Debug)]
pub struct Identity {
    pub bytes: [u8; 32],
}

impl PartialEq for Identity {
    fn eq(&self, other: &Identity) -> (r: bool) {
        let mut i: usize = 0;
        while i < 32
            invariant
                i <= 32,
                forall|j: int| 0 <= j < i ==> self.bytes@[j] == other.bytes@[j],
            decreases 32 - i,
        {
            if self.bytes[i] != other.bytes[i] {
                return false;
            }
            i += 1;
        }
        assert(self.bytes =~= other.bytes);
        true
    }
}

impl Eq for Identity {
}

impl vstd::std_specs::cmp::PartialEqSpecImpl for Identity {
    open spec fn obeys_eq_spec() -> bool {
        true
    }

    open spec fn eq_spec(&self, other: &Identity) -> bool {
        *self == *other
    }
}

/// Per-participant statistics.
#[derive(Clone, Copy, Debug)]
pub struct User {
    pub authority: Identity,
    pub total_challenges: u32,
    pub completed: u32,
    pub failed: u32,
    pub total_staked: u64,
}

/// The lifecycle state of a challenge.
#[derive(Clone, Copy, Debug, PartialEq, Eq, Structural)]
pub enum ChallengeStatus {
    Created,
    Active,
    PendingVerification,
    Completed,
    Failed,
    Cancelled,
    Disputed,
}

pub open spec fn status_name(s: ChallengeStatus) -> Seq<char> {
    match s {
        ChallengeStatus::Created => "Created"@,
        ChallengeStatus::Active => "Active"@,
        ChallengeStatus::PendingVerification => "PendingVerification"@,
        ChallengeStatus::Completed => "Completed"@,
        ChallengeStatus::Failed => "Failed"@,
        ChallengeStatus::Cancelled => "Cancelled"@,
        ChallengeStatus::Disputed => "Disputed"@,
    }
}

impl ChallengeStatus {
    pub fn to_string(&self) -> (r: String)
        ensures
            r@ == status_name(*self),
    {
        match self {
            ChallengeStatus::Created => "Created".to_string(),
            ChallengeStatus::Active => "Active".to_string(),
            ChallengeStatus::PendingVerification => "PendingVerification".to_string(),
            ChallengeStatus::Completed => "Completed".to_string(),
            ChallengeStatus::Failed => "Failed".to_string(),
            ChallengeStatus::Cancelled => "Cancelled".to_string(),
            ChallengeStatus::Disputed => "Disputed".to_string(),
        }
    }
}

/// The edges of the lifecycle: a status may stay as it is or follow one of these.
pub open spec fn transition_allowed(from: ChallengeStatus, to: ChallengeStatus) -> bool {
    ||| from == to
    ||| from == ChallengeStatus::Created && to == ChallengeStatus::Active
    ||| from == ChallengeStatus::Active && to == ChallengeStatus::PendingVerification
    ||| from == ChallengeStatus::Active && to == ChallengeStatus::Failed
    ||| from == ChallengeStatus::PendingVerification && to == ChallengeStatus::Completed
    ||| from == ChallengeStatus::PendingVerification && to == ChallengeStatus::Failed
    ||| from == ChallengeStatus::Created && to == ChallengeStatus::Cancelled
    ||| from == ChallengeStatus::Active && to == ChallengeStatus::Cancelled
    ||| from == ChallengeStatus::Completed && to == ChallengeStatus::Disputed
    ||| from == ChallengeStatus::Failed && to == ChallengeStatus::Disputed
}

/// How far along the lifecycle a status lies.
pub open spec fn stage(s: ChallengeStatus) -> nat {
    match s {
        ChallengeStatus::Created => 0,
        ChallengeStatus::Active => 1,
        ChallengeStatus::PendingVerification => 2,
        ChallengeStatus::Completed => 3,
        ChallengeStatus::Failed => 3,
        ChallengeStatus::Cancelled => 3,
        ChallengeStatus::Disputed => 4,
    }
}

/// A verifier's decision.
#[derive(Clone, Copy, Debug, PartialEq, Eq, Structural)]
pub enum Vote {
    Approve,
    Reject,
}

pub open spec fn vote_name(v: Vote) -> Seq<char> {
    match v {
        Vote::Approve => "Approve"@,
        Vote::Reject => "Reject"@,
    }
}

impl Vote {
    pub fn to_string(&self) -> (r: String)
        ensures
            r@ == vote_name(*self),
    {
        match self {
            Vote::Approve => "Approve".to_string(),
            Vote::Reject => "Reject".to_string(),
        }
    }
}

/// A challenge: what the creator staked on, and how far it has come.
#[derive(Clone, Debug)]
pub struct Challenge {
    pub creator: Identity,
    pub title: String,
    pub description: String,
    pub stake_amount: u64,
    pub start_time: i64,
    pub end_time: i64,
    pub verification_period_end: i64,
    pub required_proofs: u8,
    pub required_approvals: u8,
    pub verifiers: Vec<Identity>,
    pub status: ChallengeStatus,
    pub evidence_count: u8,
    pub approval_count: u8,
    pub rejection_count: u8,
    pub finalized_at: i64,
    pub claimed: bool,
}

/// One submitted piece of evidence.
#[derive(Clone, Debug)]
pub struct Evidence {
    pub challenge: Identity,
    pub ipfs_hash: String,
    pub metadata: String,
    pub timestamp: i64,
    pub evidence_index: u8,
}

/// One verifier's vote on a challenge.
#[derive(Clone, Copy, Debug)]
pub struct Verification {
    pub challenge: Identity,
    pub verifier: Identity,
    pub vote: Vote,
    pub timestamp: i64,
    pub claimed: bool,
}

/// A dispute filed against a finalized challenge.
#[derive(Clone, Debug)]
pub struct Dispute {
    pub challenge: Identity,
    pub disputer: Identity,
    pub reason: String,
    pub timestamp: i64,
}

} // verus!
