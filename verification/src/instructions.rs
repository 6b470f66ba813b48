//! The instructions of the trial program, as functions from the accounts they
//! read and the values they are given to the accounts they write and the
//! transfers they ask for. Each one is stated by a spec function of the same
//! name with `_result` appended; the executable function computes it.

use vstd::prelude::*;
use crate::state::{
    byte_len, same_address, Address, CustomError, LzReceiveParams, OAppConfig, PeerConfig,
    Referral, TrialAccount, TrialStatus, MAX_CATEGORY, MAX_DESC, MAX_DIFFICULTY, MAX_NOTE,
    MAX_OBJECTIVE, MAX_REQUIREMENTS, MAX_SKILLS, MAX_TITLE, MAX_TRIAL_ID, PASS_SCORE,
};
use crate::payload::{be_u64, parse_verdict_payload, PAYLOAD_LEN};
use crate::text::{decode_trial_id, field_trial_id, text_byte_len, trim_nul};
use vstd::utf8::{decode_utf8, valid_utf8};

verus! {

/// What a verdict message asks for once it has been accepted.
#[derive(Clone, Copy, Debug, PartialEq, Eq)]
pub enum Settlement {
    /// The verdict failed: the trial is now `Rejected` and nothing is paid.
    Rejected,
    /// The verdict passed: the trial is now `Paid`; `candidate_amount` goes from
    /// the vault to the candidate's token account, and `referral_amount`, when
    /// there is one, to the referrer's token account.
    Pay { candidate_amount: u64, referral_amount: Option<u64> },
}

/// A trial in `status` may take a verdict.
pub open spec fn awaits_verdict(status: TrialStatus) -> bool {
    status == TrialStatus::InProgress || status == TrialStatus::UnderReview
}

/// A trial in `status` may take referrals.
pub open spec fn accepts_referrals(status: TrialStatus) -> bool {
    status == TrialStatus::Open || status == TrialStatus::InProgress
}

/// The configuration that `init_oapp` writes.
pub open spec fn init_oapp_result(endpoint_program: Address, admin: Address, bump: u8) -> OAppConfig {
    OAppConfig { admin, endpoint_program, bump }
}

/// Creates the messaging configuration: its administrator, the endpoint
/// program allowed to deliver messages, and the account's bump.
pub fn init_oapp(endpoint_program: Address, admin: Address, bump: u8) -> (config: OAppConfig)
    ensures
        config == init_oapp_result(endpoint_program, admin, bump),
        config.admin == admin,
        config.endpoint_program == endpoint_program,
        config.bump == bump,
{
    OAppConfig { admin, endpoint_program, bump }
}

/// The peer entry that `set_peer` writes.
pub open spec fn set_peer_result(src_eid: u32, peer_address: [u8; 32], bump: u8) -> PeerConfig {
    PeerConfig { src_eid, address: peer_address, bump }
}

/// Allows messages from the peer `peer_address` on the source endpoint
/// `src_eid`; an earlier entry for the same source is overwritten.
pub fn set_peer(src_eid: u32, peer_address: [u8; 32], bump: u8) -> (peer: PeerConfig)
    ensures
        peer == set_peer_result(src_eid, peer_address, bump),
        peer.src_eid == src_eid,
        peer.address == peer_address,
        peer.bump == bump,
{
    PeerConfig { src_eid, address: peer_address, bump }
}

/// Some metadata text of a new trial is over its cap.
pub open spec fn metadata_too_long(
    title: Seq<char>,
    description: Seq<char>,
    category: Seq<char>,
    skills: Seq<char>,
    difficulty: Seq<char>,
    objective: Seq<char>,
    requirements: Seq<char>,
) -> bool {
    ||| byte_len(title) > MAX_TITLE
    ||| byte_len(description) > MAX_DESC
    ||| byte_len(category) > MAX_CATEGORY
    ||| byte_len(skills) > MAX_SKILLS
    ||| byte_len(difficulty) > MAX_DIFFICULTY
    ||| byte_len(objective) > MAX_OBJECTIVE
    ||| byte_len(requirements) > MAX_REQUIREMENTS
}

/// The trial that `initialize_trial` creates, or the error it reports.
pub open spec fn initialize_trial_result(
    employer: Address,
    trial_id: String,
    title: String,
    description: String,
    category: String,
    skills: String,
    difficulty: String,
    objective: String,
    requirements: String,
    candidate_reward: u64,
    referral_reward: u64,
    vault_bump: u8,
) -> Result<TrialAccount, CustomError> {
    if byte_len(trial_id@) > MAX_TRIAL_ID {
        Err(CustomError::TrialIdTooLong)
    } else if metadata_too_long(
        title@,
        description@,
        category@,
        skills@,
        difficulty@,
        objective@,
        requirements@,
    ) {
        Err(CustomError::MetadataTooLong)
    } else if candidate_reward + referral_reward > u64::MAX {
        Err(CustomError::Overflow)
    } else {
        Ok(
            TrialAccount {
                employer,
                trial_id,
                title,
                description,
                category,
                skills,
                difficulty,
                objective,
                requirements,
                candidate_reward,
                referral_reward,
                total_locked: (candidate_reward + referral_reward) as u64,
                status: TrialStatus::Open,
                selected_candidate: None,
                vault_bump,
            },
        )
    }
}

/// Creates an open trial whose vault is to hold both rewards. The texts are
/// checked against their caps, the id first; the amount that the employer then
/// transfers into the vault is the new trial's `total_locked`.
pub fn initialize_trial(
    employer: Address,
    trial_id: String,
    title: String,
    description: String,
    category: String,
    skills: String,
    difficulty: String,
    objective: String,
    requirements: String,
    candidate_reward: u64,
    referral_reward: u64,
    vault_bump: u8,
) -> (r: Result<TrialAccount, CustomError>)
    ensures
        r == initialize_trial_result(
            employer,
            trial_id,
            title,
            description,
            category,
            skills,
            difficulty,
            objective,
            requirements,
            candidate_reward,
            referral_reward,
            vault_bump,
        ),
        r matches Ok(t) ==> t.wf(),
        r matches Ok(t) ==> {
            &&& t.employer == employer
            &&& t.trial_id == trial_id
            &&& t.title == title
            &&& t.description == description
            &&& t.category == category
            &&& t.skills == skills
            &&& t.difficulty == difficulty
            &&& t.objective == objective
            &&& t.requirements == requirements
            &&& t.candidate_reward == candidate_reward
            &&& t.referral_reward == referral_reward
            &&& t.total_locked == candidate_reward + referral_reward
            &&& t.status == TrialStatus::Open
            &&& t.selected_candidate is None
            &&& t.vault_bump == vault_bump
        },
        r is Ok <==> (byte_len(trial_id@) <= MAX_TRIAL_ID && !metadata_too_long(
            title@,
            description@,
            category@,
            skills@,
            difficulty@,
            objective@,
            requirements@,
        ) && candidate_reward + referral_reward <= u64::MAX),
{
    if text_byte_len(&trial_id) > MAX_TRIAL_ID {
        return Err(CustomError::TrialIdTooLong);
    }
    if text_byte_len(&title) > MAX_TITLE {
        return Err(CustomError::MetadataTooLong);
    }
    if text_byte_len(&description) > MAX_DESC {
        return Err(CustomError::MetadataTooLong);
    }
    if text_byte_len(&category) > MAX_CATEGORY {
        return Err(CustomError::MetadataTooLong);
    }
    if text_byte_len(&skills) > MAX_SKILLS {
        return Err(CustomError::MetadataTooLong);
    }
    if text_byte_len(&difficulty) > MAX_DIFFICULTY {
        return Err(CustomError::MetadataTooLong);
    }
    if text_byte_len(&objective) > MAX_OBJECTIVE {
        return Err(CustomError::MetadataTooLong);
    }
    if text_byte_len(&requirements) > MAX_REQUIREMENTS {
        return Err(CustomError::MetadataTooLong);
    }
    let total_locked = match candidate_reward.checked_add(referral_reward) {
        Some(total) => total,
        None => {
            return Err(CustomError::Overflow);
        },
    };
    Ok(
        TrialAccount {
            employer,
            trial_id,
            title,
            description,
            category,
            skills,
            difficulty,
            objective,
            requirements,
            candidate_reward,
            referral_reward,
            total_locked,
            status: TrialStatus::Open,
            selected_candidate: None,
            vault_bump,
        },
    )
}

/// `after` and `r` are what an instruction that mutates a trial leaves when
/// its model gives `model` for the trial `before`: on success the modelled
/// trial, on an error that error and the trial untouched.
pub open spec fn applies<T>(
    before: TrialAccount,
    after: TrialAccount,
    r: Result<T, CustomError>,
    model: Result<TrialAccount, CustomError>,
) -> bool {
    match model {
        Ok(t) => r is Ok && after == t,
        Err(e) => r == Err::<T, CustomError>(e) && after == before,
    }
}

/// The trial after `start_trial`, or the error it reports.
pub open spec fn start_trial_result(trial: TrialAccount, candidate: Address) -> Result<
    TrialAccount,
    CustomError,
> {
    if trial.status == TrialStatus::Open {
        Ok(
            TrialAccount {
                selected_candidate: Some(candidate),
                status: TrialStatus::InProgress,
                ..trial
            },
        )
    } else {
        Err(CustomError::TrialNotOpen)
    }
}

/// The first candidate to start an open trial becomes its selected candidate,
/// and the trial moves to `InProgress`.
pub fn start_trial(trial: &mut TrialAccount, candidate: Address) -> (r: Result<(), CustomError>)
    ensures
        applies(*old(trial), *final(trial), r, start_trial_result(*old(trial), candidate)),
        old(trial).wf() ==> final(trial).wf(),
        r is Ok <==> old(trial).status == TrialStatus::Open,
        r is Ok ==> final(trial).selected_candidate == Some(candidate) && final(trial).status
            == TrialStatus::InProgress && (TrialAccount {
            selected_candidate: old(trial).selected_candidate,
            status: old(trial).status,
            ..*final(trial)
        }) == *old(trial),
{
    if trial.status != TrialStatus::Open {
        return Err(CustomError::TrialNotOpen);
    }
    trial.selected_candidate = Some(candidate);
    trial.status = TrialStatus::InProgress;
    Ok(())
}

/// The referral that `refer_candidate` records, or the error it reports.
pub open spec fn refer_candidate_result(
    trial: TrialAccount,
    trial_key: Address,
    referrer: Address,
    candidate: Address,
    note: String,
) -> Result<Referral, CustomError> {
    if byte_len(note@) > MAX_NOTE {
        Err(CustomError::MetadataTooLong)
    } else if !accepts_referrals(trial.status) {
        Err(CustomError::InvalidStatus)
    } else if candidate == referrer {
        Err(CustomError::CannotReferSelf)
    } else {
        Ok(Referral { trial: trial_key, trial_id: trial.trial_id, referrer, candidate, note })
    }
}

/// Records that `referrer` refers `candidate` to the trial at `trial_key`,
/// while the trial is open or in progress; nobody may refer themselves.
pub fn refer_candidate(
    trial: &TrialAccount,
    trial_key: Address,
    referrer: Address,
    candidate: Address,
    note: String,
) -> (r: Result<Referral, CustomError>)
    ensures
        r == refer_candidate_result(*trial, trial_key, referrer, candidate, note),
        r matches Ok(rf) ==> {
            &&& rf.trial == trial_key
            &&& rf.trial_id == trial.trial_id
            &&& rf.referrer == referrer
            &&& rf.candidate == candidate
            &&& rf.note == note
        },
        r is Ok <==> (byte_len(note@) <= MAX_NOTE && accepts_referrals(trial.status) && candidate
            != referrer),
{
    if text_byte_len(&note) > MAX_NOTE {
        return Err(CustomError::MetadataTooLong);
    }
    if !(trial.status == TrialStatus::Open || trial.status == TrialStatus::InProgress) {
        return Err(CustomError::InvalidStatus);
    }
    if same_address(&candidate, &referrer) {
        return Err(CustomError::CannotReferSelf);
    }
    Ok(
        Referral {
            trial: trial_key,
            trial_id: trial.trial_id.clone(),
            referrer,
            candidate,
            note,
        },
    )
}

/// The verdict in the message `p` pays out.
pub open spec fn payload_passes(p: Seq<u8>) -> bool {
    p[104] != 0 && be_u64(p.subrange(96, 104)) >= PASS_SCORE
}

/// What the referrer receives on a pass: the referral reward, if that reward is
/// above zero and the referrer's token account takes part in the call.
pub open spec fn referral_payout(trial: TrialAccount, referrer_token_owner: Option<Address>) -> Option<
    u64,
> {
    if trial.referral_reward > 0 && referrer_token_owner is Some {
        Some(trial.referral_reward)
    } else {
        None
    }
}

/// The trial and settlement after `lz_receive`, or the error it reports.
pub open spec fn lz_receive_result(
    oapp_config: OAppConfig,
    peer_config: PeerConfig,
    trial: TrialAccount,
    endpoint_program: Address,
    params: LzReceiveParams,
    candidate_token_owner: Address,
    referrer_token_owner: Option<Address>,
) -> Result<(TrialAccount, Settlement), CustomError> {
    let p = params.payload@;
    if endpoint_program != oapp_config.endpoint_program {
        Err(CustomError::UnauthorizedEndpoint)
    } else if params.src_eid != peer_config.src_eid {
        Err(CustomError::InvalidSourceEID)
    } else if params.sender != peer_config.address {
        Err(CustomError::InvalidPeerSender)
    } else if p.len() < PAYLOAD_LEN {
        Err(CustomError::InvalidPayloadLength)
    } else if trial.trial_id@ != field_trial_id(p.subrange(0, 32)) {
        Err(CustomError::TrialIdMismatch)
    } else if !awaits_verdict(trial.status) {
        Err(CustomError::InvalidStatus)
    } else if candidate_token_owner@ != p.subrange(32, 64) {
        Err(CustomError::InvalidCandidateAccount)
    } else if referrer_token_owner matches Some(owner) && owner@ != p.subrange(64, 96) {
        Err(CustomError::InvalidReferrerAccount)
    } else if !payload_passes(p) {
        Ok((TrialAccount { status: TrialStatus::Rejected, ..trial }, Settlement::Rejected))
    } else {
        Ok(
            (
                TrialAccount { status: TrialStatus::Paid, ..trial },
                Settlement::Pay {
                    candidate_amount: trial.candidate_reward,
                    referral_amount: referral_payout(trial, referrer_token_owner),
                },
            ),
        )
    }
}

/// Takes a verdict message delivered by the messaging endpoint. The caller, the
/// source and the sender must be the configured ones, the message must be long
/// enough and name this trial, the trial must await a verdict, the candidate
/// token account must be owned by the candidate that the message names, and a
/// referrer token account, when one is given, by the referrer it names. A failed
/// verdict (not verified, or a score under 70) rejects the trial and pays
/// nothing. A passed one marks the trial `Paid` and asks for the candidate
/// reward, and the referral reward when it is positive and a referrer token
/// account was given, to be paid out of the vault.
pub fn lz_receive(
    oapp_config: &OAppConfig,
    peer_config: &PeerConfig,
    trial: &mut TrialAccount,
    endpoint_program: Address,
    params: &LzReceiveParams,
    candidate_token_owner: Address,
    referrer_token_owner: Option<Address>,
) -> (r: Result<Settlement, CustomError>)
    ensures
        match lz_receive_result(
            *oapp_config,
            *peer_config,
            *old(trial),
            endpoint_program,
            *params,
            candidate_token_owner,
            referrer_token_owner,
        ) {
            Ok((t, s)) => r == Ok::<Settlement, CustomError>(s) && *final(trial) == t,
            Err(e) => r == Err::<Settlement, CustomError>(e) && *final(trial) == *old(trial),
        },
        old(trial).wf() ==> final(trial).wf(),
        r is Ok ==> {
            &&& params.payload@.len() >= PAYLOAD_LEN
            &&& old(trial).trial_id@ == field_trial_id(params.payload@.subrange(0, 32))
            &&& valid_utf8(params.payload@.subrange(0, 32)) ==> old(trial).trial_id@ == trim_nul(
                decode_utf8(params.payload@.subrange(0, 32)),
            )
            &&& (TrialAccount { status: old(trial).status, ..*final(trial) }) == *old(trial)
        },
        ({
            let field = params.payload@.subrange(0, 32);
            (endpoint_program == oapp_config.endpoint_program && params.src_eid
                == peer_config.src_eid && params.sender == peer_config.address
                && params.payload@.len() >= PAYLOAD_LEN && valid_utf8(field) && trim_nul(
                decode_utf8(field),
            ) != old(trial).trial_id@) ==> r == Err::<Settlement, CustomError>(
                CustomError::TrialIdMismatch,
            )
        }),
{
    if !same_address(&endpoint_program, &oapp_config.endpoint_program) {
        return Err(CustomError::UnauthorizedEndpoint);
    }
    if params.src_eid != peer_config.src_eid {
        return Err(CustomError::InvalidSourceEID);
    }
    if !same_address(&params.sender, &peer_config.address) {
        return Err(CustomError::InvalidPeerSender);
    }
    let verdict = match parse_verdict_payload(params.payload.as_slice()) {
        Ok(v) => v,
        Err(e) => {
            return Err(e);
        },
    };
    let trial_id = decode_trial_id(&verdict.trial_id_field);
    if trial.trial_id != trial_id {
        return Err(CustomError::TrialIdMismatch);
    }
    if !(trial.status == TrialStatus::InProgress || trial.status == TrialStatus::UnderReview) {
        return Err(CustomError::InvalidStatus);
    }
    if !same_address(&candidate_token_owner, &verdict.candidate) {
        return Err(CustomError::InvalidCandidateAccount);
    }
    if let Some(owner) = referrer_token_owner {
        if !same_address(&owner, &verdict.referrer) {
            return Err(CustomError::InvalidReferrerAccount);
        }
    }
    if !verdict.is_verified || verdict.score < PASS_SCORE {
        trial.status = TrialStatus::Rejected;
        return Ok(Settlement::Rejected);
    }
    let referral_amount = if trial.referral_reward > 0 && referrer_token_owner.is_some() {
        Some(trial.referral_reward)
    } else {
        None
    };
    trial.status = TrialStatus::Paid;
    Ok(Settlement::Pay { candidate_amount: trial.candidate_reward, referral_amount })
}

} // verus!
