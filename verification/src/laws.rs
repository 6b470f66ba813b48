//! Laws of the trial program: what holds across its instructions.

use vstd::prelude::*;
use vstd::utf8::{decode_utf8, encode_scalar, encode_utf8, valid_utf8};
use crate::state::{
    byte_len, Address, CustomError, LzReceiveParams, OAppConfig, PeerConfig, TrialAccount,
    TrialStatus,
};
use crate::payload::{be_bytes, be_u64, encode_verdict, VerdictPayload};
use crate::instructions::{
    accepts_referrals, awaits_verdict, init_oapp_result, initialize_trial_result,
    lz_receive_result, metadata_too_long, payload_passes, refer_candidate_result, set_peer_result,
    start_trial_result, Settlement,
};
use crate::text::field_trial_id;
use crate::state::{MAX_NOTE, MAX_TRIAL_ID};
use crate::text::{strip_leading_nul, strip_trailing_nul, trim_nul};

verus! {

/// The stage changes that a trial may go through in one instruction: none,
/// `Open` to `InProgress`, or from awaiting a verdict to `Paid` or `Rejected`.
pub open spec fn status_step(from: TrialStatus, to: TrialStatus) -> bool {
    ||| from == to
    ||| (from == TrialStatus::Open && to == TrialStatus::InProgress)
    ||| (awaits_verdict(from) && (to == TrialStatus::Paid || to == TrialStatus::Rejected))
}

/// A new trial is open, has no selected candidate, locks exactly the sum of
/// its two rewards and is well formed.
pub proof fn lemma_new_trial_locks_both_rewards(
    employer: Address,
    trial_id: String,
    title: String,
    description: String,
    category: String,
    skills: String,
    difficulty: String,
    objective: String,
    requirements: String,
    candidate_reward: u64,
    referral_reward: u64,
    vault_bump: u8,
)
    ensures
        initialize_trial_result(
            employer,
            trial_id,
            title,
            description,
            category,
            skills,
            difficulty,
            objective,
            requirements,
            candidate_reward,
            referral_reward,
            vault_bump,
        ) matches Ok(t) ==> {
            &&& t.status == TrialStatus::Open
            &&& t.selected_candidate is None
            &&& t.total_locked == candidate_reward + referral_reward
            &&& t.employer == employer
            &&& t.wf()
        },
{
}

/// A new trial holds each value it was given in its own field, and creation
/// succeeds exactly when the texts are within their caps and the rewards add up
/// without overflow.
pub proof fn lemma_new_trial_stores_its_inputs(
    employer: Address,
    trial_id: String,
    title: String,
    description: String,
    category: String,
    skills: String,
    difficulty: String,
    objective: String,
    requirements: String,
    candidate_reward: u64,
    referral_reward: u64,
    vault_bump: u8,
)
    ensures
        ({
            let r = initialize_trial_result(
                employer,
                trial_id,
                title,
                description,
                category,
                skills,
                difficulty,
                objective,
                requirements,
                candidate_reward,
                referral_reward,
                vault_bump,
            );
            &&& r is Ok <==> (byte_len(trial_id@) <= MAX_TRIAL_ID && !metadata_too_long(
                title@,
                description@,
                category@,
                skills@,
                difficulty@,
                objective@,
                requirements@,
            ) && candidate_reward + referral_reward <= u64::MAX)
            &&& r matches Ok(t) ==> {
                &&& t.employer == employer
                &&& t.trial_id == trial_id
                &&& t.title == title
                &&& t.description == description
                &&& t.category == category
                &&& t.skills == skills
                &&& t.difficulty == difficulty
                &&& t.objective == objective
                &&& t.requirements == requirements
                &&& t.candidate_reward == candidate_reward
                &&& t.referral_reward == referral_reward
                &&& t.vault_bump == vault_bump
            }
        }),
{
}

/// Starting a trial records the candidate who started it and moves the trial to
/// `InProgress`; nothing else about the trial changes.
pub proof fn lemma_start_records_candidate(trial: TrialAccount, candidate: Address)
    ensures
        start_trial_result(trial, candidate) is Ok <==> trial.status == TrialStatus::Open,
        start_trial_result(trial, candidate) matches Ok(t) ==> {
            &&& t.selected_candidate == Some(candidate)
            &&& t.status == TrialStatus::InProgress
            &&& t.employer == trial.employer
            &&& t.trial_id == trial.trial_id
            &&& t.candidate_reward == trial.candidate_reward
            &&& t.referral_reward == trial.referral_reward
            &&& t.total_locked == trial.total_locked
            &&& t.vault_bump == trial.vault_bump
        },
{
}

/// A referral records the trial, referrer, candidate and note it was given and
/// the trial's id; it is refused exactly when the note is over its cap, the
/// trial takes no referrals, or the referrer names themselves.
pub proof fn lemma_referral_records_its_inputs(
    trial: TrialAccount,
    trial_key: Address,
    referrer: Address,
    candidate: Address,
    note: String,
)
    ensures
        refer_candidate_result(trial, trial_key, referrer, candidate, note) is Ok <==> (byte_len(
            note@,
        ) <= MAX_NOTE && accepts_referrals(trial.status) && candidate != referrer),
        refer_candidate_result(trial, trial_key, referrer, candidate, note) matches Ok(rf) ==> {
            &&& rf.trial == trial_key
            &&& rf.trial_id == trial.trial_id
            &&& rf.referrer == referrer
            &&& rf.candidate == candidate
            &&& rf.note == note
        },
{
}

/// The configuration and peer entry store what they were given: after
/// `init_oapp` with an endpoint and `set_peer` with a source and sender, a
/// message from that endpoint, source and sender passes the caller, source and
/// sender checks, and a message from any other sender on that source fails with
/// `InvalidPeerSender`.
pub proof fn lemma_registered_peer_is_accepted(
    endpoint_program: Address,
    admin: Address,
    config_bump: u8,
    src_eid: u32,
    peer_address: [u8; 32],
    peer_bump: u8,
    trial: TrialAccount,
    params: LzReceiveParams,
    candidate_token_owner: Address,
    referrer_token_owner: Option<Address>,
)
    requires
        params.src_eid == src_eid,
    ensures
        ({
            let config = init_oapp_result(endpoint_program, admin, config_bump);
            let peer = set_peer_result(src_eid, peer_address, peer_bump);
            let r = lz_receive_result(
                config,
                peer,
                trial,
                endpoint_program,
                params,
                candidate_token_owner,
                referrer_token_owner,
            );
            &&& config.admin == admin && config.endpoint_program == endpoint_program
            &&& peer.src_eid == src_eid && peer.address == peer_address
            &&& params.sender == peer_address ==> {
                &&& r != Err::<(TrialAccount, Settlement), CustomError>(
                    CustomError::UnauthorizedEndpoint,
                )
                &&& r != Err::<(TrialAccount, Settlement), CustomError>(
                    CustomError::InvalidSourceEID,
                )
                &&& r != Err::<(TrialAccount, Settlement), CustomError>(
                    CustomError::InvalidPeerSender,
                )
            }
            &&& params.sender != peer_address ==> r == Err::<(TrialAccount, Settlement), CustomError>(
                CustomError::InvalidPeerSender,
            )
        }),
{
}

/// An accepted verdict names exactly the trial it settles: the trial's id is
/// the id that the first 32 bytes of the message carry, so no message is
/// accepted by two trials with different ids.
pub proof fn lemma_message_names_one_trial(
    oapp_config: OAppConfig,
    peer_config: PeerConfig,
    first: TrialAccount,
    second: TrialAccount,
    endpoint_program: Address,
    params: LzReceiveParams,
    candidate_token_owner: Address,
    referrer_token_owner: Option<Address>,
)
    ensures
        lz_receive_result(
            oapp_config,
            peer_config,
            first,
            endpoint_program,
            params,
            candidate_token_owner,
            referrer_token_owner,
        ) is Ok ==> first.trial_id@ == field_trial_id(params.payload@.subrange(0, 32)),
        lz_receive_result(
            oapp_config,
            peer_config,
            first,
            endpoint_program,
            params,
            candidate_token_owner,
            referrer_token_owner,
        ) is Ok && lz_receive_result(
            oapp_config,
            peer_config,
            second,
            endpoint_program,
            params,
            candidate_token_owner,
            referrer_token_owner,
        ) is Ok ==> first.trial_id@ == second.trial_id@,
{
}

/// A verdict changes nothing of the trial but its stage.
pub proof fn lemma_verdict_changes_only_status(
    oapp_config: OAppConfig,
    peer_config: PeerConfig,
    trial: TrialAccount,
    endpoint_program: Address,
    params: LzReceiveParams,
    candidate_token_owner: Address,
    referrer_token_owner: Option<Address>,
)
    ensures
        lz_receive_result(
            oapp_config,
            peer_config,
            trial,
            endpoint_program,
            params,
            candidate_token_owner,
            referrer_token_owner,
        ) matches Ok((t, _)) ==> {
            &&& t.trial_id == trial.trial_id
            &&& t.employer == trial.employer
            &&& t.selected_candidate == trial.selected_candidate
            &&& t.candidate_reward == trial.candidate_reward
            &&& t.referral_reward == trial.referral_reward
            &&& t.total_locked == trial.total_locked
            &&& t.vault_bump == trial.vault_bump
        },
{
}

/// Fields read from a message laid out from given fields are those fields.
pub proof fn lemma_read_from_layout(
    v: VerdictPayload,
    trial_id_field: Seq<u8>,
    candidate: Seq<u8>,
    referrer: Seq<u8>,
    score: u64,
    passed: bool,
)
    requires
        trial_id_field.len() == 32,
        candidate.len() == 32,
        referrer.len() == 32,
        v.read_from(encode_verdict(trial_id_field, candidate, referrer, score, passed)),
    ensures
        v.trial_id_field@ == trial_id_field,
        v.candidate@ == candidate,
        v.referrer@ == referrer,
        v.score == score,
        v.is_verified == passed,
{
    lemma_verdict_layout_roundtrip(trial_id_field, candidate, referrer, score, passed);
}

/// Every instruction that succeeds on a trial moves it along `status_step`
/// and keeps it well formed.
pub proof fn lemma_instructions_follow_lifecycle(
    trial: TrialAccount,
    candidate: Address,
    oapp_config: OAppConfig,
    peer_config: PeerConfig,
    endpoint_program: Address,
    params: LzReceiveParams,
    candidate_token_owner: Address,
    referrer_token_owner: Option<Address>,
)
    requires
        trial.wf(),
    ensures
        start_trial_result(trial, candidate) matches Ok(t) ==> status_step(trial.status, t.status)
            && t.wf(),
        lz_receive_result(
            oapp_config,
            peer_config,
            trial,
            endpoint_program,
            params,
            candidate_token_owner,
            referrer_token_owner,
        ) matches Ok((t, _)) ==> status_step(trial.status, t.status) && t.wf(),
{
}

/// A trial that is `Paid` or `Rejected` is settled for good: starting it,
/// referring to it and delivering a verdict for it all fail.
pub proof fn lemma_settled_trial_is_final(
    trial: TrialAccount,
    candidate: Address,
    trial_key: Address,
    referrer: Address,
    note: String,
    oapp_config: OAppConfig,
    peer_config: PeerConfig,
    endpoint_program: Address,
    params: LzReceiveParams,
    candidate_token_owner: Address,
    referrer_token_owner: Option<Address>,
)
    requires
        trial.status == TrialStatus::Paid || trial.status == TrialStatus::Rejected,
    ensures
        start_trial_result(trial, candidate) == Err::<TrialAccount, CustomError>(
            CustomError::TrialNotOpen,
        ),
        refer_candidate_result(trial, trial_key, referrer, candidate, note) is Err,
        lz_receive_result(
            oapp_config,
            peer_config,
            trial,
            endpoint_program,
            params,
            candidate_token_owner,
            referrer_token_owner,
        ) is Err,
{
}

/// Only the first candidate to start a trial is selected: a second start fails.
pub proof fn lemma_first_start_wins(trial: TrialAccount, first: Address, second: Address)
    requires
        start_trial_result(trial, first) is Ok,
    ensures
        start_trial_result(trial, first) matches Ok(t) && t.selected_candidate == Some(first)
            && start_trial_result(t, second) == Err::<TrialAccount, CustomError>(
            CustomError::TrialNotOpen,
        ),
{
}

/// An instruction that works on an existing trial, with the values it is given.
pub enum TrialInstruction {
    Start { candidate: Address },
    Refer { trial_key: Address, referrer: Address, candidate: Address, note: String },
    Receive {
        oapp_config: OAppConfig,
        peer_config: PeerConfig,
        endpoint_program: Address,
        params: LzReceiveParams,
        candidate_token_owner: Address,
        referrer_token_owner: Option<Address>,
    },
}

/// The trial after `ins`: what the instruction writes when it succeeds, the
/// trial unchanged when it fails (referrals write only their own account).
pub open spec fn apply_instruction(trial: TrialAccount, ins: TrialInstruction) -> TrialAccount {
    match ins {
        TrialInstruction::Start { candidate } => match start_trial_result(trial, candidate) {
            Ok(t) => t,
            Err(_) => trial,
        },
        TrialInstruction::Refer { .. } => trial,
        TrialInstruction::Receive {
            oapp_config,
            peer_config,
            endpoint_program,
            params,
            candidate_token_owner,
            referrer_token_owner,
        } => match lz_receive_result(
            oapp_config,
            peer_config,
            trial,
            endpoint_program,
            params,
            candidate_token_owner,
            referrer_token_owner,
        ) {
            Ok((t, _)) => t,
            Err(_) => trial,
        },
    }
}

/// The trial after the instructions `script`, in order.
pub open spec fn apply_instructions(trial: TrialAccount, script: Seq<TrialInstruction>) -> TrialAccount
    decreases script.len(),
{
    if script.len() == 0 {
        trial
    } else {
        apply_instructions(apply_instruction(trial, script[0]), script.drop_first())
    }
}

/// Once a candidate is selected, no instruction changes the selection, and the
/// trial stays well formed.
pub proof fn lemma_selection_is_kept(
    trial: TrialAccount,
    script: Seq<TrialInstruction>,
    candidate: Address,
)
    requires
        trial.wf(),
        trial.selected_candidate == Some(candidate),
    ensures
        apply_instructions(trial, script).wf(),
        apply_instructions(trial, script).selected_candidate == Some(candidate),
    decreases script.len(),
{
    if script.len() > 0 {
        lemma_selection_is_kept(apply_instruction(trial, script[0]), script.drop_first(), candidate);
    }
}

/// The first candidate to start a trial stays selected whatever instructions
/// follow, and every later start fails.
pub proof fn lemma_first_candidate_stays_selected(
    trial: TrialAccount,
    first: Address,
    script: Seq<TrialInstruction>,
    later: Address,
)
    requires
        trial.wf(),
        start_trial_result(trial, first) is Ok,
    ensures
        start_trial_result(trial, first) matches Ok(t) && ({
            let after = apply_instructions(t, script);
            &&& after.selected_candidate == Some(first)
            &&& start_trial_result(after, later) == Err::<TrialAccount, CustomError>(
                CustomError::TrialNotOpen,
            )
        }),
{
    let t = start_trial_result(trial, first)->Ok_0;
    lemma_selection_is_kept(t, script, first);
}

/// An accepted verdict rejects the trial exactly when it does not pass (not
/// verified, or a score under 70), and then pays nothing; a passing one marks
/// the trial `Paid` and pays the candidate reward, plus the referral reward
/// when it is positive and a referrer token account was given.
pub proof fn lemma_verdict_decides_payout(
    oapp_config: OAppConfig,
    peer_config: PeerConfig,
    trial: TrialAccount,
    endpoint_program: Address,
    params: LzReceiveParams,
    candidate_token_owner: Address,
    referrer_token_owner: Option<Address>,
)
    ensures
        lz_receive_result(
            oapp_config,
            peer_config,
            trial,
            endpoint_program,
            params,
            candidate_token_owner,
            referrer_token_owner,
        ) matches Ok((t, s)) ==> {
            &&& (s is Rejected) == !payload_passes(params.payload@)
            &&& s is Rejected ==> t.status == TrialStatus::Rejected
            &&& s matches Settlement::Pay { candidate_amount, referral_amount } ==> {
                &&& t.status == TrialStatus::Paid
                &&& candidate_amount == trial.candidate_reward
                &&& referral_amount == (if trial.referral_reward > 0
                    && referrer_token_owner is Some {
                    Some(trial.referral_reward)
                } else {
                    None
                })
            }
        },
{
}

/// An accepted verdict is only accepted when the token accounts belong to the
/// candidate and referrer that the message names.
pub proof fn lemma_payout_goes_to_named_accounts(
    oapp_config: OAppConfig,
    peer_config: PeerConfig,
    trial: TrialAccount,
    endpoint_program: Address,
    params: LzReceiveParams,
    candidate_token_owner: Address,
    referrer_token_owner: Option<Address>,
)
    ensures
        lz_receive_result(
            oapp_config,
            peer_config,
            trial,
            endpoint_program,
            params,
            candidate_token_owner,
            referrer_token_owner,
        ) is Ok ==> {
            &&& candidate_token_owner@ == params.payload@.subrange(32, 64)
            &&& referrer_token_owner matches Some(owner) ==> owner@ == params.payload@.subrange(
                64,
                96,
            )
        },
{
}

/// A passed verdict never pays out more than the vault holds, and pays out all
/// of it when the referral reward is paid.
pub proof fn lemma_payout_within_escrow(
    oapp_config: OAppConfig,
    peer_config: PeerConfig,
    trial: TrialAccount,
    endpoint_program: Address,
    params: LzReceiveParams,
    candidate_token_owner: Address,
    referrer_token_owner: Option<Address>,
)
    requires
        trial.wf(),
    ensures
        lz_receive_result(
            oapp_config,
            peer_config,
            trial,
            endpoint_program,
            params,
            candidate_token_owner,
            referrer_token_owner,
        ) matches Ok((_, Settlement::Pay { candidate_amount, referral_amount })) ==> {
            &&& referral_amount matches Some(r) ==> candidate_amount + r == trial.total_locked
            &&& candidate_amount <= trial.total_locked
        },
{
}

/// A message laid out from given fields is read back as those fields.
pub proof fn lemma_verdict_layout_roundtrip(
    trial_id_field: Seq<u8>,
    candidate: Seq<u8>,
    referrer: Seq<u8>,
    score: u64,
    passed: bool,
)
    requires
        trial_id_field.len() == 32,
        candidate.len() == 32,
        referrer.len() == 32,
    ensures
        ({
            let p = encode_verdict(trial_id_field, candidate, referrer, score, passed);
            &&& p.len() == 105
            &&& p.subrange(0, 32) == trial_id_field
            &&& p.subrange(32, 64) == candidate
            &&& p.subrange(64, 96) == referrer
            &&& be_u64(p.subrange(96, 104)) == score
            &&& (p[104] != 0) == passed
        }),
{
    let p = encode_verdict(trial_id_field, candidate, referrer, score, passed);
    assert(p.subrange(0, 32) =~= trial_id_field);
    assert(p.subrange(32, 64) =~= candidate);
    assert(p.subrange(64, 96) =~= referrer);
    assert(p.subrange(96, 104) =~= be_bytes(score));
    lemma_be_roundtrip(score);
}

/// Reading back the big-endian bytes of a number gives the number.
pub proof fn lemma_be_roundtrip(x: u64)
    ensures
        be_u64(be_bytes(x)) == x,
{
    let b = be_bytes(x);
    let b0 = (x >> 56) as u8;
    let b1 = (x >> 48) as u8;
    let b2 = (x >> 40) as u8;
    let b3 = (x >> 32) as u8;
    let b4 = (x >> 24) as u8;
    let b5 = (x >> 16) as u8;
    let b6 = (x >> 8) as u8;
    let b7 = x as u8;
    assert(b0 as int * 0x100000000000000 + b1 as int * 0x1000000000000 + b2 as int
        * 0x10000000000 + b3 as int * 0x100000000 + b4 as int * 0x1000000 + b5 as int * 0x10000
        + b6 as int * 0x100 + b7 as int == x) by (bit_vector)
        requires
            b0 == (x >> 56) as u8,
            b1 == (x >> 48) as u8,
            b2 == (x >> 40) as u8,
            b3 == (x >> 32) as u8,
            b4 == (x >> 24) as u8,
            b5 == (x >> 16) as u8,
            b6 == (x >> 8) as u8,
            b7 == x as u8,
    ;
}

/// `k` NUL characters.
pub open spec fn nuls(k: nat) -> Seq<char> {
    Seq::new(k, |i: int| '\0')
}

/// `k` zero bytes.
pub open spec fn zeros(k: nat) -> Seq<u8> {
    Seq::new(k, |i: int| 0u8)
}

/// A text neither starts nor ends with a NUL character.
pub open spec fn no_edge_nul(s: Seq<char>) -> bool {
    s.len() > 0 ==> s[0] != '\0' && s.last() != '\0'
}

/// The UTF-8 encoding of a concatenation is the concatenation of the encodings.
pub proof fn lemma_encode_utf8_concat(a: Seq<char>, b: Seq<char>)
    ensures
        encode_utf8(a + b) == encode_utf8(a) + encode_utf8(b),
    decreases a.len(),
{
    if a.len() == 0 {
        assert(a + b =~= b);
        assert(encode_utf8(a) + encode_utf8(b) =~= encode_utf8(b));
    } else {
        assert((a + b).drop_first() =~= a.drop_first() + b);
        lemma_encode_utf8_concat(a.drop_first(), b);
        assert(encode_utf8(a + b) =~= encode_utf8(a) + encode_utf8(b));
    }
}

/// NUL characters encode to zero bytes.
pub proof fn lemma_encode_nuls(k: nat)
    ensures
        encode_utf8(nuls(k)) == zeros(k),
    decreases k,
{
    if k > 0 {
        assert(nuls(k).drop_first() =~= nuls((k - 1) as nat));
        lemma_encode_nuls((k - 1) as nat);
        assert((0u32 & 0x7F) as u8 == 0u8) by (bit_vector);
        assert(encode_scalar(nuls(k)[0] as u32) =~= seq![0u8]);
        assert(encode_utf8(nuls(k)) =~= zeros(k));
    }
}

/// Trailing NULs appended to a text that does not end in one are stripped again.
pub proof fn lemma_strip_trailing_padding(s: Seq<char>, k: nat)
    requires
        s.len() > 0 ==> s.last() != '\0',
    ensures
        strip_trailing_nul(s + nuls(k)) == s,
    decreases k,
{
    if k == 0 {
        assert(s + nuls(0) =~= s);
        if s.len() > 0 {
        }
    } else {
        assert((s + nuls(k)).drop_last() =~= s + nuls((k - 1) as nat));
        lemma_strip_trailing_padding(s, (k - 1) as nat);
    }
}

/// All-NUL text is stripped to nothing.
pub proof fn lemma_strip_leading_all_nul(k: nat)
    ensures
        strip_leading_nul(nuls(k)) == Seq::<char>::empty(),
    decreases k,
{
    if k == 0 {
        assert(nuls(0) =~= Seq::<char>::empty());
    } else {
        assert(nuls(k).drop_first() =~= nuls((k - 1) as nat));
        lemma_strip_leading_all_nul((k - 1) as nat);
    }
}

/// A trial id of at most 32 bytes that neither starts nor ends with NUL,
/// encoded as UTF-8 and padded with zero bytes to 32 bytes, is valid UTF-8 and
/// decodes and trims back to the id.
pub proof fn lemma_padded_trial_id_decodes(id: Seq<char>)
    requires
        byte_len(id) <= 32,
        no_edge_nul(id),
    ensures
        ({
            let field = encode_utf8(id) + zeros((32 - byte_len(id)) as nat);
            &&& field.len() == 32
            &&& valid_utf8(field)
            &&& trim_nul(decode_utf8(field)) == id
        }),
{
    broadcast use vstd::utf8::encode_utf8_valid_utf8, vstd::utf8::encode_utf8_decode_utf8;

    let k = (32 - byte_len(id)) as nat;
    let padded = id + nuls(k);
    lemma_encode_utf8_concat(id, nuls(k));
    lemma_encode_nuls(k);
    let field = encode_utf8(id) + zeros(k);
    assert(encode_utf8(padded) == field);
    assert(decode_utf8(field) == padded);
    if id.len() == 0 {
        assert(padded =~= nuls(k));
        lemma_strip_leading_all_nul(k);
        lemma_strip_trailing_padding(Seq::<char>::empty(), 0);
        assert(Seq::<char>::empty() + nuls(0) =~= Seq::<char>::empty());
        assert(strip_trailing_nul(Seq::<char>::empty()) == Seq::<char>::empty());
        assert(id =~= Seq::<char>::empty());
    } else {
        assert(padded[0] == id[0]);
        assert(strip_leading_nul(padded) == padded);
        lemma_strip_trailing_padding(id, k);
    }
}

} // verus!
