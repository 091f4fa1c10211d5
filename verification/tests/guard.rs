use slack_auth::clock::{within_window, FIRST_INSTANT, FRESHNESS_WINDOW, LAST_INSTANT};
use slack_auth::guard::{
    decide, denial, extract_proof, verify_proof, REJECTION_STATUS, SIGNATURE_HEADER,
    TIMESTAMP_HEADER,
};
use slack_auth::{
    Decision, HeaderField, InboundProof, InboundRequest, Rejection, SecretSigner, SlackAuthConfig,
    SlackAuthLayer,
};
use std::time::{SystemTime, UNIX_EPOCH};

const T: i64 = 1_700_000_000;
const SIGNATURE_AT_T: &str = "v0=e26eb3e543458dfda1bdf69a2a8d21797a732fcef46d007f81ec079352926982";

fn config() -> SlackAuthConfig {
    SlackAuthConfig {
        version_number: "v0".to_string(),
        slack_signing_secret: "testsecret".to_string(),
    }
}

fn text(value: &str) -> HeaderField {
    HeaderField::Text(value.to_string())
}

fn request(signature: &str, timestamp: &str, body: &[u8]) -> InboundRequest {
    InboundRequest { signature: text(signature), timestamp: text(timestamp), body: Some(body.to_vec()) }
}

fn signed(timestamp: i64, body: &str) -> InboundRequest {
    let signature = SecretSigner::new(config(), body.to_string(), timestamp).sign();
    request(&signature, &timestamp.to_string(), body.as_bytes())
}

fn clock() -> i64 {
    SystemTime::now().duration_since(UNIX_EPOCH).unwrap().as_secs() as i64
}

#[test]
fn header_names_and_status_are_the_protocol_s() {
    assert_eq!(SIGNATURE_HEADER, "x-slack-signature");
    assert_eq!(TIMESTAMP_HEADER, "x-slack-request-timestamp");
    assert_eq!(REJECTION_STATUS, 401);
    assert_eq!(FRESHNESS_WINDOW, 300);
}

#[test]
fn request_with_the_known_signature_is_accepted() {
    let decision = decide(&config(), request(SIGNATURE_AT_T, "1700000000", b"payload=1"), T);
    assert_eq!(decision, Decision::Accepted(b"payload=1".to_vec()));
}

#[test]
fn request_signed_now_is_forwarded() {
    let now = clock();
    let service = SlackAuthLayer::new(config()).layer(());
    let decision = service.authenticate(signed(now, "payload=1"));
    assert_eq!(decision, Decision::Accepted(b"payload=1".to_vec()));
}

#[test]
fn request_with_a_signature_of_zeros_is_rejected_with_401() {
    let now = clock();
    let service = SlackAuthLayer::new(config()).layer(());
    let zeros = format!("v0={}", "0".repeat(64));
    let decision = service.authenticate(request(&zeros, &now.to_string(), b"payload=1"));
    assert_eq!(decision, Decision::Rejected(Rejection::SignatureMismatch));
    match decision {
        Decision::Rejected(reason) => {
            let answer = denial(reason);
            assert_eq!(answer.status, 401);
            assert!(answer.body.is_empty());
        }
        Decision::Accepted(_) => panic!("accepted"),
    }
}

#[test]
fn request_signed_four_hundred_seconds_ago_is_rejected() {
    let now = clock();
    let service = SlackAuthLayer::new(config()).layer(());
    let decision = service.authenticate(signed(now - 400, "payload=1"));
    assert_eq!(decision, Decision::Rejected(Rejection::StaleRequest));
    assert_eq!(denial(Rejection::StaleRequest).status, 401);
}

#[test]
fn request_with_a_body_that_is_not_utf8_is_rejected() {
    let now = clock();
    let service = SlackAuthLayer::new(config()).layer(());
    let decision = service.authenticate(request(SIGNATURE_AT_T, &now.to_string(), &[0xff, 0xfe]));
    assert_eq!(decision, Decision::Rejected(Rejection::UndecodableBody));
    let decision = decide(&config(), request(SIGNATURE_AT_T, "1700000000", &[0x70, 0xc3]), T);
    assert_eq!(decision, Decision::Rejected(Rejection::UndecodableBody));
}

#[test]
fn authenticate_reads_the_clock() {
    let service = SlackAuthLayer::new(config()).layer(());
    let decision = service.authenticate(signed(T, "payload=1"));
    assert_eq!(decision, Decision::Rejected(Rejection::StaleRequest));
}

#[test]
fn request_is_accepted_up_to_the_edge_of_the_window() {
    for now in [T - 300, T - 299, T - 1, T, T + 1, T + 299, T + 300] {
        let decision = decide(&config(), signed(T, "payload=1"), now);
        assert_eq!(decision, Decision::Accepted(b"payload=1".to_vec()), "{}", now);
    }
}

#[test]
fn request_is_rejected_beyond_the_window_both_ways() {
    for now in [T + 301, T + 400, T + 86_400, T - 301, T - 400, i64::MAX, i64::MIN, 0] {
        let decision = decide(&config(), signed(T, "payload=1"), now);
        assert_eq!(decision, Decision::Rejected(Rejection::StaleRequest), "{}", now);
    }
}

#[test]
fn request_without_a_header_is_rejected() {
    let mut no_signature = signed(T, "payload=1");
    no_signature.signature = HeaderField::Absent;
    assert_eq!(decide(&config(), no_signature, T), Decision::Rejected(Rejection::MissingProof));
    let mut no_time = signed(T, "payload=1");
    no_time.timestamp = HeaderField::Absent;
    assert_eq!(decide(&config(), no_time, T), Decision::Rejected(Rejection::MissingProof));
    let neither = InboundRequest {
        signature: HeaderField::Absent,
        timestamp: HeaderField::Absent,
        body: Some(b"payload=1".to_vec()),
    };
    assert_eq!(decide(&config(), neither, T), Decision::Rejected(Rejection::MissingProof));
}

#[test]
fn request_with_a_header_that_is_not_text_is_rejected() {
    let mut opaque_signature = signed(T, "payload=1");
    opaque_signature.signature = HeaderField::Opaque;
    assert_eq!(decide(&config(), opaque_signature, T), Decision::Rejected(Rejection::MissingProof));
    let mut opaque_time = signed(T, "payload=1");
    opaque_time.timestamp = HeaderField::Opaque;
    assert_eq!(decide(&config(), opaque_time, T), Decision::Rejected(Rejection::MissingProof));
}

#[test]
fn request_whose_body_broke_is_rejected() {
    let mut broken = signed(T, "payload=1");
    broken.body = None;
    assert_eq!(decide(&config(), broken, T), Decision::Rejected(Rejection::MalformedTransport));
}

#[test]
fn request_with_a_time_that_is_no_number_is_rejected() {
    for time in ["", "soon", "1700000000 ", "1.7e9", "99999999999999999999"] {
        let decision = decide(&config(), request(SIGNATURE_AT_T, time, b"payload=1"), T);
        assert_eq!(decision, Decision::Rejected(Rejection::InvalidTimestamp), "{}", time);
    }
}

#[test]
fn request_with_a_signature_off_by_one_character_is_rejected() {
    let mut last = SIGNATURE_AT_T.to_string();
    last.pop();
    last.push('3');
    let upper = SIGNATURE_AT_T.to_uppercase();
    let shorter = &SIGNATURE_AT_T[..SIGNATURE_AT_T.len() - 1];
    let longer = format!("{}0", SIGNATURE_AT_T);
    let bare = &SIGNATURE_AT_T[3..];
    for presented in [last.as_str(), upper.as_str(), shorter, longer.as_str(), bare, ""] {
        let decision = decide(&config(), request(presented, "1700000000", b"payload=1"), T);
        assert_eq!(decision, Decision::Rejected(Rejection::SignatureMismatch), "{}", presented);
    }
}

#[test]
fn request_whose_body_was_altered_is_rejected() {
    let mut altered = signed(T, "payload=1");
    altered.body = Some(b"payload=2".to_vec());
    assert_eq!(decide(&config(), altered, T), Decision::Rejected(Rejection::SignatureMismatch));
    let mut extended = signed(T, "payload=1");
    extended.body = Some(b"payload=1 ".to_vec());
    assert_eq!(decide(&config(), extended, T), Decision::Rejected(Rejection::SignatureMismatch));
}

#[test]
fn request_signed_under_another_secret_or_version_is_rejected() {
    let other_secret = SlackAuthConfig {
        version_number: "v0".to_string(),
        slack_signing_secret: "testsecreT".to_string(),
    };
    assert_eq!(
        decide(&other_secret, signed(T, "payload=1"), T),
        Decision::Rejected(Rejection::SignatureMismatch)
    );
    let other_version = SlackAuthConfig {
        version_number: "v1".to_string(),
        slack_signing_secret: "testsecret".to_string(),
    };
    assert_eq!(
        decide(&other_version, signed(T, "payload=1"), T),
        Decision::Rejected(Rejection::SignatureMismatch)
    );
}

#[test]
fn time_is_signed_as_the_number_it_reads_as() {
    let decision = decide(&config(), request(SIGNATURE_AT_T, "+01700000000", b"payload=1"), T);
    assert_eq!(decision, Decision::Accepted(b"payload=1".to_vec()));
}

#[test]
fn first_failing_check_gives_the_reason() {
    let broken = InboundRequest { signature: HeaderField::Absent, timestamp: text("x"), body: None };
    assert_eq!(decide(&config(), broken, T), Decision::Rejected(Rejection::MalformedTransport));
    let missing = InboundRequest {
        signature: HeaderField::Absent,
        timestamp: text("x"),
        body: Some(vec![0xff]),
    };
    assert_eq!(decide(&config(), missing, T), Decision::Rejected(Rejection::MissingProof));
    let unreadable = request("nothing", "x", &[0xff]);
    assert_eq!(decide(&config(), unreadable, T), Decision::Rejected(Rejection::InvalidTimestamp));
    let stale = request("nothing", "1", &[0xff]);
    assert_eq!(decide(&config(), stale, T), Decision::Rejected(Rejection::StaleRequest));
    let undecodable = request("nothing", "1700000000", &[0xff]);
    assert_eq!(decide(&config(), undecodable, T), Decision::Rejected(Rejection::UndecodableBody));
    let mismatch = request("nothing", "1700000000", b"payload=1");
    assert_eq!(decide(&config(), mismatch, T), Decision::Rejected(Rejection::SignatureMismatch));
}

#[test]
fn extract_proof_reads_the_three_parts() {
    let found = extract_proof(request("v0=ab", "-17", b"body"));
    match found {
        Ok(evidence) => {
            assert_eq!(evidence.presented_signature, "v0=ab");
            assert_eq!(evidence.timestamp, -17);
            assert_eq!(evidence.raw_body, b"body".to_vec());
        }
        Err(reason) => panic!("{:?}", reason),
    }
}

#[test]
fn extract_proof_gives_each_of_its_reasons() {
    let mut broken = request("v0=ab", "1", b"");
    broken.body = None;
    assert!(matches!(extract_proof(broken), Err(Rejection::MalformedTransport)));
    let mut missing = request("v0=ab", "1", b"");
    missing.timestamp = HeaderField::Absent;
    assert!(matches!(extract_proof(missing), Err(Rejection::MissingProof)));
    assert!(matches!(
        extract_proof(request("v0=ab", "one", b"")),
        Err(Rejection::InvalidTimestamp)
    ));
}

fn evidence_at(timestamp: i64) -> InboundProof {
    InboundProof {
        presented_signature: SecretSigner::new(config(), "b".to_string(), timestamp).sign(),
        timestamp,
        raw_body: b"b".to_vec(),
    }
}

#[test]
fn verify_proof_accepts_the_first_and_the_last_instant_of_the_calendar() {
    assert_eq!(FIRST_INSTANT, -8_334_601_228_800);
    assert_eq!(LAST_INSTANT, 8_210_266_876_799);
    assert_eq!(verify_proof(&config(), &evidence_at(FIRST_INSTANT), FIRST_INSTANT), Ok(()));
    assert_eq!(verify_proof(&config(), &evidence_at(LAST_INSTANT), LAST_INSTANT), Ok(()));
    assert_eq!(verify_proof(&config(), &evidence_at(0), 0), Ok(()));
    assert_eq!(verify_proof(&config(), &evidence_at(-1), 0), Ok(()));
}

#[test]
fn verify_proof_rejects_a_time_that_the_calendar_does_not_name() {
    for timestamp in [FIRST_INSTANT - 1, LAST_INSTANT + 1, i64::MIN, i64::MAX] {
        assert_eq!(
            verify_proof(&config(), &evidence_at(timestamp), timestamp),
            Err(Rejection::InvalidTimestamp),
            "{}",
            timestamp
        );
    }
}

#[test]
fn verify_proof_gives_each_of_its_reasons() {
    assert_eq!(verify_proof(&config(), &evidence_at(T), T + 301), Err(Rejection::StaleRequest));
    let mut undecodable = evidence_at(T);
    undecodable.raw_body = vec![0x80];
    assert_eq!(verify_proof(&config(), &undecodable, T), Err(Rejection::UndecodableBody));
    let mut mismatch = evidence_at(T);
    mismatch.raw_body = b"c".to_vec();
    assert_eq!(verify_proof(&config(), &mismatch, T), Err(Rejection::SignatureMismatch));
}

#[test]
fn within_window_counts_both_ways_and_does_not_overflow() {
    assert!(within_window(0, 0));
    assert!(within_window(300, 0));
    assert!(within_window(0, 300));
    assert!(!within_window(301, 0));
    assert!(!within_window(0, 301));
    assert!(within_window(-150, 150));
    assert!(!within_window(-151, 150));
    assert!(!within_window(i64::MAX, i64::MIN));
    assert!(!within_window(i64::MIN, i64::MAX));
    assert!(!within_window(i64::MAX, -1));
    assert!(within_window(i64::MAX, i64::MAX - 300));
    assert!(within_window(i64::MIN, i64::MIN + 300));
}

#[test]
fn denial_is_the_same_for_every_reason() {
    let reasons = [
        Rejection::MalformedTransport,
        Rejection::MissingProof,
        Rejection::InvalidTimestamp,
        Rejection::StaleRequest,
        Rejection::UndecodableBody,
        Rejection::SignatureMismatch,
    ];
    for reason in reasons {
        let answer = denial(reason);
        assert_eq!(answer.status, 401);
        assert_eq!(answer.body, Vec::<u8>::new());
        assert_eq!(answer, denial(Rejection::MissingProof));
    }
}
