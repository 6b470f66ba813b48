use outcom::instructions::{
    init_oapp, initialize_trial, lz_receive, refer_candidate, set_peer, start_trial, Settlement,
};
use outcom::payload::{parse_verdict_payload, PAYLOAD_LEN};
use outcom::state::{
    same_address, Address, CustomError, LzReceiveParams, OAppConfig, PeerConfig, TrialAccount,
    TrialStatus,
};
use outcom::text::decode_trial_id;

const ENDPOINT: Address = [7u8; 32];
const ADMIN: Address = [1u8; 32];
const PEER: [u8; 32] = [9u8; 32];
const EMPLOYER: Address = [2u8; 32];
const CANDIDATE: Address = [3u8; 32];
const REFERRER: Address = [4u8; 32];
const TRIAL_KEY: Address = [5u8; 32];
const SRC_EID: u32 = 40161;

fn s(text: &str) -> String {
    text.to_string()
}

fn new_trial(id: &str, candidate_reward: u64, referral_reward: u64) -> TrialAccount {
    initialize_trial(
        EMPLOYER,
        s(id),
        s("Build a bridge"),
        s("A short description"),
        s("engineering"),
        s("rust, solana"),
        s("hard"),
        s("ship it"),
        s("tests pass"),
        candidate_reward,
        referral_reward,
        254,
    )
    .unwrap()
}

fn verdict_payload(id: &str, candidate: Address, referrer: Address, score: u64, passed: u8) -> Vec<u8> {
    let mut p = Vec::new();
    let mut field = [0u8; 32];
    field[..id.len()].copy_from_slice(id.as_bytes());
    p.extend_from_slice(&field);
    p.extend_from_slice(&candidate);
    p.extend_from_slice(&referrer);
    p.extend_from_slice(&score.to_be_bytes());
    p.push(passed);
    p
}

fn params(payload: Vec<u8>) -> LzReceiveParams {
    LzReceiveParams {
        src_eid: SRC_EID,
        sender: PEER,
        nonce: 1,
        guid: [0u8; 32],
        payload,
        extra_data: Vec::new(),
    }
}

fn config() -> OAppConfig {
    init_oapp(ENDPOINT, ADMIN, 255)
}

fn peer() -> PeerConfig {
    set_peer(SRC_EID, PEER, 253)
}

fn started_trial(candidate_reward: u64, referral_reward: u64) -> TrialAccount {
    let mut trial = new_trial("trial-1", candidate_reward, referral_reward);
    start_trial(&mut trial, CANDIDATE).unwrap();
    trial
}

#[test]
fn init_oapp_records_admin_endpoint_and_bump() {
    let c = config();
    assert_eq!(c.admin, ADMIN);
    assert_eq!(c.endpoint_program, ENDPOINT);
    assert_eq!(c.bump, 255);
}

#[test]
fn set_peer_records_source_and_address() {
    let p = peer();
    assert_eq!(p.src_eid, SRC_EID);
    assert_eq!(p.address, PEER);
    assert_eq!(p.bump, 253);
}

#[test]
fn initialize_trial_locks_both_rewards() {
    let t = new_trial("trial-1", 1_000_000, 250_000);
    assert_eq!(t.total_locked, 1_250_000);
    assert_eq!(t.status, TrialStatus::Open);
    assert_eq!(t.selected_candidate, None);
    assert_eq!(t.employer, EMPLOYER);
    assert_eq!(t.trial_id, "trial-1");
    assert_eq!(t.vault_bump, 254);
}

#[test]
fn initialize_trial_refuses_long_id() {
    let id = "x".repeat(33);
    let r = initialize_trial(
        EMPLOYER, id, s("t"), s("d"), s("c"), s("s"), s("e"), s("o"), s("r"), 1, 1, 0,
    );
    assert_eq!(r.unwrap_err(), CustomError::TrialIdTooLong);
    let id32 = "x".repeat(32);
    let r = initialize_trial(
        EMPLOYER, id32, s("t"), s("d"), s("c"), s("s"), s("e"), s("o"), s("r"), 1, 1, 0,
    );
    assert!(r.is_ok());
}

#[test]
fn initialize_trial_counts_bytes_not_chars() {
    // 17 two-byte characters: 34 bytes, over the 32-byte cap of the id.
    let id = "é".repeat(17);
    let r = initialize_trial(
        EMPLOYER, id, s("t"), s("d"), s("c"), s("s"), s("e"), s("o"), s("r"), 1, 1, 0,
    );
    assert_eq!(r.unwrap_err(), CustomError::TrialIdTooLong);
    // 16 of them: 32 bytes, at the cap.
    let id = "é".repeat(16);
    let r = initialize_trial(
        EMPLOYER, id, s("t"), s("d"), s("c"), s("s"), s("e"), s("o"), s("r"), 1, 1, 0,
    );
    assert!(r.is_ok());
}

#[test]
fn initialize_trial_refuses_long_metadata() {
    let caps: [usize; 7] = [64, 256, 32, 128, 16, 256, 512];
    for field in 0..7 {
        let mut texts: Vec<String> = (0..7).map(|_| s("ok")).collect();
        texts[field] = "m".repeat(caps[field] + 1);
        let r = initialize_trial(
            EMPLOYER,
            s("id"),
            texts[0].clone(),
            texts[1].clone(),
            texts[2].clone(),
            texts[3].clone(),
            texts[4].clone(),
            texts[5].clone(),
            texts[6].clone(),
            1,
            1,
            0,
        );
        assert_eq!(r.unwrap_err(), CustomError::MetadataTooLong);
        texts[field] = "m".repeat(caps[field]);
        let r = initialize_trial(
            EMPLOYER,
            s("id"),
            texts[0].clone(),
            texts[1].clone(),
            texts[2].clone(),
            texts[3].clone(),
            texts[4].clone(),
            texts[5].clone(),
            texts[6].clone(),
            1,
            1,
            0,
        );
        assert!(r.is_ok());
    }
}

#[test]
fn initialize_trial_checks_id_before_metadata() {
    let r = initialize_trial(
        EMPLOYER,
        "x".repeat(40),
        "t".repeat(100),
        s("d"), s("c"), s("s"), s("e"), s("o"), s("r"), 1, 1, 0,
    );
    assert_eq!(r.unwrap_err(), CustomError::TrialIdTooLong);
}

#[test]
fn initialize_trial_refuses_overflowing_rewards() {
    let r = initialize_trial(
        EMPLOYER, s("id"), s("t"), s("d"), s("c"), s("s"), s("e"), s("o"), s("r"), u64::MAX, 1, 0,
    );
    assert_eq!(r.unwrap_err(), CustomError::Overflow);
    let t = new_trial("id", u64::MAX - 5, 5);
    assert_eq!(t.total_locked, u64::MAX);
}

#[test]
fn start_trial_selects_first_candidate() {
    let mut trial = new_trial("trial-1", 10, 5);
    assert_eq!(start_trial(&mut trial, CANDIDATE), Ok(()));
    assert_eq!(trial.status, TrialStatus::InProgress);
    assert_eq!(trial.selected_candidate, Some(CANDIDATE));
    let before = trial.clone();
    assert_eq!(start_trial(&mut trial, REFERRER), Err(CustomError::TrialNotOpen));
    assert_eq!(trial, before);
}

#[test]
fn refer_candidate_records_referral() {
    let trial = new_trial("trial-1", 10, 5);
    let r = refer_candidate(&trial, TRIAL_KEY, REFERRER, CANDIDATE, s("great fit")).unwrap();
    assert_eq!(r.trial, TRIAL_KEY);
    assert_eq!(r.trial_id, "trial-1");
    assert_eq!(r.referrer, REFERRER);
    assert_eq!(r.candidate, CANDIDATE);
    assert_eq!(r.note, "great fit");
    let started = started_trial(10, 5);
    assert!(refer_candidate(&started, TRIAL_KEY, REFERRER, CANDIDATE, s("")).is_ok());
}

#[test]
fn refer_candidate_errors() {
    let trial = new_trial("trial-1", 10, 5);
    assert_eq!(
        refer_candidate(&trial, TRIAL_KEY, REFERRER, CANDIDATE, "n".repeat(129)).unwrap_err(),
        CustomError::MetadataTooLong
    );
    assert!(refer_candidate(&trial, TRIAL_KEY, REFERRER, CANDIDATE, "n".repeat(128)).is_ok());
    assert_eq!(
        refer_candidate(&trial, TRIAL_KEY, CANDIDATE, CANDIDATE, s("me")).unwrap_err(),
        CustomError::CannotReferSelf
    );
    let mut settled = started_trial(10, 5);
    settled.status = TrialStatus::Paid;
    assert_eq!(
        refer_candidate(&settled, TRIAL_KEY, REFERRER, CANDIDATE, s("late")).unwrap_err(),
        CustomError::InvalidStatus
    );
    // The note is checked first.
    assert_eq!(
        refer_candidate(&settled, TRIAL_KEY, CANDIDATE, CANDIDATE, "n".repeat(200)).unwrap_err(),
        CustomError::MetadataTooLong
    );
}

#[test]
fn parse_payload_reads_layout() {
    let p = verdict_payload("trial-1", CANDIDATE, REFERRER, 0x0102030405060708, 1);
    assert_eq!(p.len(), PAYLOAD_LEN);
    let v = parse_verdict_payload(&p).unwrap();
    assert_eq!(&v.trial_id_field[..7], b"trial-1");
    assert_eq!(v.candidate, CANDIDATE);
    assert_eq!(v.referrer, REFERRER);
    assert_eq!(v.score, 0x0102030405060708);
    assert!(v.is_verified);
    let mut q = verdict_payload("trial-1", CANDIDATE, REFERRER, 80, 0);
    q.extend_from_slice(&[0xAA; 10]);
    let v = parse_verdict_payload(&q).unwrap();
    assert_eq!(v.score, 80);
    assert!(!v.is_verified);
    let mut r = verdict_payload("t", CANDIDATE, REFERRER, 80, 2);
    let v = parse_verdict_payload(&r).unwrap();
    assert!(v.is_verified);
    r.pop();
    assert_eq!(parse_verdict_payload(&r).err(), Some(CustomError::InvalidPayloadLength));
    assert_eq!(parse_verdict_payload(&[]).err(), Some(CustomError::InvalidPayloadLength));
}

#[test]
fn decode_trial_id_trims_padding() {
    let mut field = [0u8; 32];
    field[..7].copy_from_slice(b"trial-1");
    assert_eq!(decode_trial_id(&field), "trial-1");
    let mut lead = [0u8; 32];
    lead[3..8].copy_from_slice(b"abc\0d");
    assert_eq!(decode_trial_id(&lead), "abc\0d");
    assert_eq!(decode_trial_id(&[0u8; 32]), "");
    let full = [b'z'; 32];
    assert_eq!(decode_trial_id(&full), "z".repeat(32));
}

#[test]
fn decode_trial_id_replaces_invalid_utf8() {
    let mut field = [0u8; 32];
    field[0] = b'a';
    field[1] = 0xFF;
    field[2] = b'b';
    assert_eq!(decode_trial_id(&field), "a\u{FFFD}b");
    let mut multi = [0u8; 32];
    multi[..2].copy_from_slice("é".as_bytes());
    assert_eq!(decode_trial_id(&multi), "é");
}

#[test]
fn lz_receive_pays_on_pass() {
    let mut trial = started_trial(1000, 200);
    let p = params(verdict_payload("trial-1", CANDIDATE, REFERRER, 80, 1));
    let out = lz_receive(&config(), &peer(), &mut trial, ENDPOINT, &p, CANDIDATE, Some(REFERRER));
    assert_eq!(
        out,
        Ok(Settlement::Pay { candidate_amount: 1000, referral_amount: Some(200) })
    );
    assert_eq!(trial.status, TrialStatus::Paid);
    assert_eq!(trial.selected_candidate, Some(CANDIDATE));
}

#[test]
fn lz_receive_referral_needs_reward_and_account() {
    let p = params(verdict_payload("trial-1", CANDIDATE, REFERRER, 80, 1));
    let mut no_account = started_trial(1000, 200);
    assert_eq!(
        lz_receive(&config(), &peer(), &mut no_account, ENDPOINT, &p, CANDIDATE, None),
        Ok(Settlement::Pay { candidate_amount: 1000, referral_amount: None })
    );
    assert_eq!(no_account.status, TrialStatus::Paid);
    let mut no_reward = started_trial(1000, 0);
    assert_eq!(
        lz_receive(&config(), &peer(), &mut no_reward, ENDPOINT, &p, CANDIDATE, Some(REFERRER)),
        Ok(Settlement::Pay { candidate_amount: 1000, referral_amount: None })
    );
}

#[test]
fn lz_receive_checks_referrer_account_owner() {
    let p = params(verdict_payload("trial-1", CANDIDATE, REFERRER, 80, 1));
    for reward in [0u64, 200] {
        let mut trial = started_trial(1000, reward);
        let before = trial.clone();
        assert_eq!(
            lz_receive(&config(), &peer(), &mut trial, ENDPOINT, &p, CANDIDATE, Some(CANDIDATE)),
            Err(CustomError::InvalidReferrerAccount)
        );
        assert_eq!(trial, before);
    }
    // A failed verdict checks the accounts too.
    let failed = params(verdict_payload("trial-1", CANDIDATE, REFERRER, 10, 1));
    let mut trial = started_trial(1000, 200);
    assert_eq!(
        lz_receive(&config(), &peer(), &mut trial, ENDPOINT, &failed, CANDIDATE, Some(CANDIDATE)),
        Err(CustomError::InvalidReferrerAccount)
    );
    assert_eq!(trial.status, TrialStatus::InProgress);
}

#[test]
fn lz_receive_threshold_is_seventy() {
    let p = params(verdict_payload("trial-1", CANDIDATE, REFERRER, 70, 1));
    let mut trial = started_trial(1000, 200);
    assert!(matches!(
        lz_receive(&config(), &peer(), &mut trial, ENDPOINT, &p, CANDIDATE, None),
        Ok(Settlement::Pay { .. })
    ));
    let p = params(verdict_payload("trial-1", CANDIDATE, REFERRER, 69, 1));
    let mut trial = started_trial(1000, 200);
    assert_eq!(
        lz_receive(&config(), &peer(), &mut trial, ENDPOINT, &p, CANDIDATE, None),
        Ok(Settlement::Rejected)
    );
    assert_eq!(trial.status, TrialStatus::Rejected);
}

#[test]
fn lz_receive_rejects_unverified() {
    let p = params(verdict_payload("trial-1", CANDIDATE, REFERRER, 100, 0));
    let mut trial = started_trial(1000, 200);
    let out = lz_receive(&config(), &peer(), &mut trial, ENDPOINT, &p, CANDIDATE, Some(REFERRER));
    assert_eq!(out, Ok(Settlement::Rejected));
    assert_eq!(trial.status, TrialStatus::Rejected);
    assert_eq!(trial.selected_candidate, Some(CANDIDATE));
}

#[test]
fn lz_receive_checks_caller_source_and_sender() {
    let good = params(verdict_payload("trial-1", CANDIDATE, REFERRER, 80, 1));
    let mut trial = started_trial(1000, 200);
    let before = trial.clone();
    assert_eq!(
        lz_receive(&config(), &peer(), &mut trial, ADMIN, &good, CANDIDATE, None).err(),
        Some(CustomError::UnauthorizedEndpoint)
    );
    let mut wrong_eid = good.clone();
    wrong_eid.src_eid = SRC_EID + 1;
    assert_eq!(
        lz_receive(&config(), &peer(), &mut trial, ENDPOINT, &wrong_eid, CANDIDATE, None).err(),
        Some(CustomError::InvalidSourceEID)
    );
    let mut wrong_sender = good.clone();
    wrong_sender.sender = [8u8; 32];
    assert_eq!(
        lz_receive(&config(), &peer(), &mut trial, ENDPOINT, &wrong_sender, CANDIDATE, None).err(),
        Some(CustomError::InvalidPeerSender)
    );
    let mut short = good.clone();
    short.payload.truncate(104);
    assert_eq!(
        lz_receive(&config(), &peer(), &mut trial, ENDPOINT, &short, CANDIDATE, None).err(),
        Some(CustomError::InvalidPayloadLength)
    );
    assert_eq!(trial, before);
}

#[test]
fn lz_receive_checks_trial_status_and_candidate() {
    let other = params(verdict_payload("trial-2", CANDIDATE, REFERRER, 80, 1));
    let mut trial = started_trial(1000, 200);
    assert_eq!(
        lz_receive(&config(), &peer(), &mut trial, ENDPOINT, &other, CANDIDATE, None).err(),
        Some(CustomError::TrialIdMismatch)
    );
    let good = params(verdict_payload("trial-1", CANDIDATE, REFERRER, 80, 1));
    let mut open = new_trial("trial-1", 1000, 200);
    assert_eq!(
        lz_receive(&config(), &peer(), &mut open, ENDPOINT, &good, CANDIDATE, None).err(),
        Some(CustomError::InvalidStatus)
    );
    let mut review = started_trial(1000, 200);
    review.status = TrialStatus::UnderReview;
    assert!(lz_receive(&config(), &peer(), &mut review, ENDPOINT, &good, CANDIDATE, None).is_ok());
    assert_eq!(
        lz_receive(&config(), &peer(), &mut trial, ENDPOINT, &good, REFERRER, None).err(),
        Some(CustomError::InvalidCandidateAccount)
    );
    assert_eq!(trial.status, TrialStatus::InProgress);
    // A failed verdict checks the candidate account as well.
    let failed = params(verdict_payload("trial-1", CANDIDATE, REFERRER, 0, 0));
    assert_eq!(
        lz_receive(&config(), &peer(), &mut trial, ENDPOINT, &failed, REFERRER, None).err(),
        Some(CustomError::InvalidCandidateAccount)
    );
    assert_eq!(trial.status, TrialStatus::InProgress);
}

#[test]
fn same_address_compares_all_bytes() {
    let a = [6u8; 32];
    let mut b = a;
    assert!(same_address(&a, &b));
    b[31] = 0;
    assert!(!same_address(&a, &b));
}

#[test]
fn error_messages() {
    assert_eq!(CustomError::TrialIdTooLong.message(), "Trial ID exceeds maximum length of 32 bytes.");
    assert_eq!(CustomError::CannotReferSelf.message(), "Referrer cannot refer themselves.");
    assert_eq!(CustomError::InvalidPayloadLength.message(), "Invalid payload length.");
}

#[test]
fn account_sizes() {
    assert_eq!(OAppConfig::SIZE, 65);
    assert_eq!(PeerConfig::SIZE, 37);
    assert_eq!(outcom::state::Referral::SIZE, 264);
    assert_eq!(TrialAccount::SIZE, 32 + 36 + 68 + 260 + 36 + 132 + 20 + 260 + 516 + 24 + 1 + 33 + 1);
}
