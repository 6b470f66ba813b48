//! Account model: the data that the instructions read and write.

use vstd::prelude::*;
use vstd::utf8::encode_utf8;

verus! {

/// A 32-byte account address (a public key), as raw bytes.
pub type Address = [u8; 32];

/// Longest trial id, in bytes.
pub const MAX_TRIAL_ID: usize = 32;
/// Longest title, in bytes.
pub const MAX_TITLE: usize = 64;
/// Longest description, in bytes.
pub const MAX_DESC: usize = 256;
/// Longest category, in bytes.
pub const MAX_CATEGORY: usize = 32;
/// Longest skills list, in bytes.
pub const MAX_SKILLS: usize = 128;
/// Longest difficulty label, in bytes.
pub const MAX_DIFFICULTY: usize = 16;
/// Longest objective, in bytes.
pub const MAX_OBJECTIVE: usize = 256;
/// Longest requirements text, in bytes.
pub const MAX_REQUIREMENTS: usize = 512;
/// Longest definition-of-done text, in bytes.
pub const MAX_DOD: usize = 512;
/// Longest referral note, in bytes.
pub const MAX_NOTE: usize = 128;
/// Lowest verdict score that pays out.
pub const PASS_SCORE: u64 = 70;

/// Length in bytes of the UTF-8 encoding of a text.
pub open spec fn byte_len(s: Seq<char>) -> nat {
    encode_utf8(s).len()
}

/// The stages of a trial.
#[derive(Clone, Copy, Debug, PartialEq, Eq, Structural)]
pub enum TrialStatus {
    Open,
    InProgress,
    ReadyTorun,
    UnderReview,
    Verified,
    Paid,
    Rejected,
}

/// The errors that the instructions report.
#[derive(Clone, Copy, Debug, PartialEq, Eq, Structural)]
pub enum CustomError {
    TrialIdTooLong,
    TrialNotOpen,
    InvalidStatus,
    Overflow,
    UnauthorizedEndpoint,
    InvalidSourceEID,
    InvalidPeerSender,
    InvalidPayloadLength,
    InvalidPayload,
    TrialIdMismatch,
    InvalidCandidateAccount,
    InvalidReferrerAccount,
    MetadataTooLong,
    CannotReferSelf,
}

/// The message that goes with each error.
pub open spec fn error_message(e: CustomError) -> Seq<char> {
    match e {
        CustomError::TrialIdTooLong => "Trial ID exceeds maximum length of 32 bytes."@,
        CustomError::TrialNotOpen => "Trial is not open for applicants."@,
        CustomError::InvalidStatus => "Trial is in an invalid state for this operation."@,
        CustomError::Overflow => "Arithmetic overflow occurred."@,
        CustomError::UnauthorizedEndpoint => "Unauthorized LayerZero Endpoint caller."@,
        CustomError::InvalidSourceEID => "Invalid Source EID from LayerZero message."@,
        CustomError::InvalidPeerSender => "Invalid Peer Sender from LayerZero message."@,
        CustomError::InvalidPayloadLength => "Invalid payload length."@,
        CustomError::InvalidPayload => "Invalid payload data."@,
        CustomError::TrialIdMismatch => "Trial ID in payload does not match account."@,
        CustomError::InvalidCandidateAccount => "Candidate token account does not match payload recipient."@,
        CustomError::InvalidReferrerAccount => "Referrer token account does not match payload recipient."@,
        CustomError::MetadataTooLong => "A metadata field exceeds its maximum length."@,
        CustomError::CannotReferSelf => "Referrer cannot refer themselves."@,
    }
}

impl CustomError {
    /// The human-readable message of the error.
    pub fn message(&self) -> (m: &'static str)
        ensures
            m@ == error_message(*self),
    {
        match self {
            CustomError::TrialIdTooLong => "Trial ID exceeds maximum length of 32 bytes.",
            CustomError::TrialNotOpen => "Trial is not open for applicants.",
            CustomError::InvalidStatus => "Trial is in an invalid state for this operation.",
            CustomError::Overflow => "Arithmetic overflow occurred.",
            CustomError::UnauthorizedEndpoint => "Unauthorized LayerZero Endpoint caller.",
            CustomError::InvalidSourceEID => "Invalid Source EID from LayerZero message.",
            CustomError::InvalidPeerSender => "Invalid Peer Sender from LayerZero message.",
            CustomError::InvalidPayloadLength => "Invalid payload length.",
            CustomError::InvalidPayload => "Invalid payload data.",
            CustomError::TrialIdMismatch => "Trial ID in payload does not match account.",
            CustomError::InvalidCandidateAccount => "Candidate token account does not match payload recipient.",
            CustomError::InvalidReferrerAccount => "Referrer token account does not match payload recipient.",
            CustomError::MetadataTooLong => "A metadata field exceeds its maximum length.",
            CustomError::CannotReferSelf => "Referrer cannot refer themselves.",
        }
    }
}

/// Configuration of the messaging application: who administers it and
/// which endpoint program may deliver messages.
#[derive(Clone, Debug, PartialEq, Eq)]
pub struct OAppConfig {
    pub admin: Address,
    pub endpoint_program: Address,
    pub bump: u8,
}

/// An allowed message source: a source endpoint id and the peer address on it.
#[derive(Clone, Debug, PartialEq, Eq)]
pub struct PeerConfig {
    pub src_eid: u32,
    pub address: [u8; 32],
    pub bump: u8,
}

/// A referral of a candidate to a trial.
#[derive(Clone, Debug, PartialEq, Eq)]
pub struct Referral {
    pub trial: Address,
    pub trial_id: String,
    pub referrer: Address,
    pub candidate: Address,
    pub note: String,
}

/// A trial and its escrow bookkeeping.
#[derive(Clone, Debug, PartialEq, Eq)]
pub struct TrialAccount {
    pub employer: Address,
    pub trial_id: String,
    pub title: String,
    pub description: String,
    pub category: String,
    pub skills: String,
    pub difficulty: String,
    pub objective: String,
    pub requirements: String,
    pub candidate_reward: u64,
    pub referral_reward: u64,
    pub total_locked: u64,
    pub status: TrialStatus,
    pub selected_candidate: Option<Address>,
    pub vault_bump: u8,
}

/// A message delivered by the messaging endpoint.
#[derive(Clone, Debug, PartialEq, Eq)]
pub struct LzReceiveParams {
    pub src_eid: u32,
    pub sender: [u8; 32],
    pub nonce: u64,
    pub guid: [u8; 32],
    pub payload: Vec<u8>,
    pub extra_data: Vec<u8>,
}

impl OAppConfig {
    /// Bytes of account data that a configuration takes.
    pub const SIZE: usize = 32 + 32 + 1;
}

impl PeerConfig {
    /// Bytes of account data that a peer entry takes.
    pub const SIZE: usize = 4 + 32 + 1;
}

impl Referral {
    /// Bytes of account data that a referral takes.
    pub const SIZE: usize = 32 + (4 + 32) + 32 + 32 + (4 + MAX_NOTE);
}

impl TrialAccount {
    /// Bytes of account data that a trial takes.
    pub const SIZE: usize = 32 + (4 + 32) + (4 + MAX_TITLE) + (4 + MAX_DESC) + (4 + MAX_CATEGORY) + (4
        + MAX_SKILLS) + (4 + MAX_DIFFICULTY) + (4 + MAX_OBJECTIVE) + (4 + MAX_REQUIREMENTS) + 8 + 8
        + 8 + 1 + (1 + 32) + 1;

    /// What every instruction keeps of a trial: the vault holds exactly the two
    /// rewards, the texts respect their caps, and a candidate is selected
    /// exactly when the trial has left the `Open` stage.
    pub open spec fn wf(&self) -> bool {
        &&& self.total_locked == self.candidate_reward + self.referral_reward
        &&& byte_len(self.trial_id@) <= MAX_TRIAL_ID
        &&& byte_len(self.title@) <= MAX_TITLE
        &&& byte_len(self.description@) <= MAX_DESC
        &&& byte_len(self.category@) <= MAX_CATEGORY
        &&& byte_len(self.skills@) <= MAX_SKILLS
        &&& byte_len(self.difficulty@) <= MAX_DIFFICULTY
        &&& byte_len(self.objective@) <= MAX_OBJECTIVE
        &&& byte_len(self.requirements@) <= MAX_REQUIREMENTS
        &&& (self.status == TrialStatus::Open) == (self.selected_candidate is None)
    }
}

/// Whether two addresses are the same.
pub fn same_address(a: &Address, b: &Address) -> (r: bool)
    ensures
        r == (*a == *b),
        r == (a@ == b@),
{
    let mut i: usize = 0;
    while i < 32
        invariant
            i <= 32,
            forall|j: int| 0 <= j < i ==> a[j] == b[j],
        decreases 32 - i,
    {
        if a[i] != b[i] {
            proof {
                assert(a@[i as int] != b@[i as int]);
            }
            return false;
        }
        i = i + 1;
    }
    proof {
        broadcast use vstd::array::axiom_array_ext_equal;
        assert(*a =~= *b);
    }
    true
}

} // verus!
