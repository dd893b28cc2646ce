use hmac::Mac;
use slack_morphism::{
    collect_scrollable_pages, SlackApiScrollablePage, SlackClientError, SlackClientHttpError,
    SlackClientTransportError, SlackCursorId, SlackEventSignatureVerifier,
    SlackSignatureErrorReason, SlackSigningSecret,
};

const SECRET: &str = "8f742231b10e8888abcd99yyyzzz85a5";
const BODY: &str = r#"{"type":"event_callback","event":{"type":"message"}}"#;
const TS: &str = "1600000000";

fn make_verifier() -> SlackEventSignatureVerifier {
    SlackEventSignatureVerifier::new(&SlackSigningSecret(SECRET.to_string()), 300)
}

fn reference_signature(secret: &str, body: &str, ts: &str) -> String {
    let mut mac = hmac::Hmac::<sha2::Sha256>::new_from_slice(secret.as_bytes()).unwrap();
    mac.update(format!("v0:{}:{}", ts, body).as_bytes());
    let digest = mac.finalize().into_bytes();
    let mut hex = String::new();
    for b in digest {
        hex.push_str(&format!("{:02x}", b));
    }
    format!("v0={}", hex)
}

#[test]
fn sign_matches_an_independent_hmac_computation() {
    assert_eq!(make_verifier().sign(BODY, TS), reference_signature(SECRET, BODY, TS));
}

#[test]
fn well_signed_fresh_request_verifies() {
    let v = make_verifier();
    let hash = v.sign(BODY, TS);
    assert!(v.verify(&hash, BODY, TS, 1600000010).is_ok());
    let gated = v.decode_signed_response(
        Some(&hash),
        Some(&TS.to_string()),
        BODY.to_string(),
        1600000010,
    );
    assert_eq!(gated.unwrap(), BODY);
}

#[test]
fn changing_one_byte_of_the_body_fails_verification() {
    let v = make_verifier();
    let hash = v.sign(BODY, TS);
    let mut altered = BODY.to_string();
    altered.replace_range(0..1, "[");
    let r = v.verify(&hash, &altered, TS, 1600000010);
    assert_eq!(r.unwrap_err().reason, SlackSignatureErrorReason::WrongSignature);
}

#[test]
fn wrong_hash_fails_verification() {
    let v = make_verifier();
    let r = v.verify("v0=0000", BODY, TS, 1600000010);
    assert_eq!(r.unwrap_err().reason, SlackSignatureErrorReason::WrongSignature);
}

#[test]
fn stale_and_future_timestamps_fail_verification() {
    let v = make_verifier();
    let hash = v.sign(BODY, TS);
    let stale = v.verify(&hash, BODY, TS, 1600000301);
    assert_eq!(stale.unwrap_err().reason, SlackSignatureErrorReason::StaleTimestamp);
    let future = v.verify(&hash, BODY, TS, 1599999699);
    assert_eq!(future.unwrap_err().reason, SlackSignatureErrorReason::StaleTimestamp);
    assert!(v.verify(&hash, BODY, TS, 1600000300).is_ok());
    assert!(v.verify(&hash, BODY, TS, 1599999700).is_ok());
}

#[test]
fn unreadable_timestamp_fails_verification() {
    let v = make_verifier();
    let hash = v.sign(BODY, "not-a-number");
    let r = v.verify(&hash, BODY, "not-a-number", 1600000000);
    assert_eq!(r.unwrap_err().reason, SlackSignatureErrorReason::InvalidTimestamp);
}

#[test]
fn missing_headers_fail_before_any_body_handling() {
    let v = make_verifier();
    let hash = v.sign(BODY, TS);
    let no_hash = v.decode_signed_response(None, Some(&TS.to_string()), BODY.to_string(), 1600000010);
    assert_eq!(no_hash.unwrap_err().reason, SlackSignatureErrorReason::AbsentSignature);
    let no_ts = v.decode_signed_response(Some(&hash), None, BODY.to_string(), 1600000010);
    assert_eq!(no_ts.unwrap_err().reason, SlackSignatureErrorReason::AbsentSignature);
}

#[test]
fn hex_encode_writes_two_lowercase_digits_a_byte() {
    assert_eq!(slack_morphism::hex_encode(&vec![0x00, 0xff, 0x1a]), "00ff1a");
    assert_eq!(slack_morphism::hex_encode(&vec![]), "");
}

#[test]
fn constant_time_eq_agrees_with_plain_equality() {
    assert!(slack_morphism::constant_time_str_eq("abc", "abc"));
    assert!(!slack_morphism::constant_time_str_eq("abc", "abd"));
    assert!(!slack_morphism::constant_time_str_eq("abc", "ab"));
    assert!(slack_morphism::constant_time_str_eq("", ""));
}

fn page(items: &[u32], cursor: Option<&str>) -> Result<SlackApiScrollablePage<u32>, SlackClientError> {
    Ok(SlackApiScrollablePage {
        items: items.to_vec(),
        next_cursor: cursor.map(|c| SlackCursorId(c.to_string())),
    })
}

#[test]
fn scrolling_concatenates_every_page_and_then_ends() {
    let pages = vec![
        page(&[1, 2], Some("c1")),
        page(&[3], Some("c2")),
        page(&[4, 5], Some("")),
    ];
    let (items, err) = collect_scrollable_pages(pages);
    assert_eq!(items, vec![1, 2, 3, 4, 5]);
    assert!(err.is_none());
}

#[test]
fn scrolling_stops_at_the_first_ending_cursor() {
    let pages = vec![page(&[1], None), page(&[9], None)];
    let (items, err) = collect_scrollable_pages(pages);
    assert_eq!(items, vec![1]);
    assert!(err.is_none());
}

#[test]
fn an_error_mid_walk_surfaces_after_the_items_already_gathered() {
    let pages: Vec<Result<SlackApiScrollablePage<u32>, SlackClientError>> = vec![
        page(&[1, 2], Some("c1")),
        page(&[3], Some("c2")),
        Err(SlackClientError::TransportError(SlackClientTransportError {
            cause: "connection reset".to_string(),
        })),
        page(&[9], None),
    ];
    let (items, err) = collect_scrollable_pages(pages);
    assert_eq!(items, vec![1, 2, 3]);
    match err {
        Some(SlackClientError::TransportError(e)) => assert_eq!(e.cause, "connection reset"),
        other => panic!("expected the transport error, got {:?}", other),
    }
}

#[test]
fn an_error_on_the_first_page_yields_no_items() {
    let pages: Vec<Result<SlackApiScrollablePage<u32>, SlackClientError>> = vec![
        Err(SlackClientError::HttpError(SlackClientHttpError {
            status_code: 429,
            http_response_body: None,
        })),
        page(&[1], None),
    ];
    let (items, err) = collect_scrollable_pages(pages);
    assert!(items.is_empty());
    match err {
        Some(SlackClientError::HttpError(e)) => assert_eq!(e.status_code, 429),
        other => panic!("expected the http error, got {:?}", other),
    }
}
