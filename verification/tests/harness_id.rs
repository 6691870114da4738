use std::str::FromStr;

use herdr_harness_coordinator::contract::{HarnessId, fresh_uuid_text};

#[test]
fn harness_id_accepts_a_valid_slug() {
    let id = HarnessId::from_str("codex-review");

    assert!(id.is_ok(), "valid Harness ID was rejected: {id:?}");
}

#[test]
fn harness_id_rejects_repeated_separators() {
    let error = HarnessId::from_str("codex--review").expect_err("invalid ID must fail");

    assert_eq!(error.to_text(), "invalid Harness ID `codex--review`");
}

#[test]
fn harness_id_round_trips_its_text() {
    let id = HarnessId::parse("worker-7").expect("valid ID");
    assert_eq!(id.as_str(), "worker-7");
}

#[test]
fn harness_id_rejects_each_malformed_shape() {
    for bad in ["", "7worker", "Worker", "worker-", "-worker", "wor ker", "wörker"] {
        assert!(HarnessId::parse(bad).is_err(), "{bad:?} must be rejected");
    }
    let long = "a".repeat(65);
    assert!(HarnessId::parse(&long).is_err());
    assert!(HarnessId::parse(&"a".repeat(64)).is_ok());
}

#[test]
fn harness_id_from_str_agrees_with_parse() {
    let id = HarnessId::from_str("worker-2").expect("valid ID");
    assert_eq!(id.as_str(), "worker-2");
    assert_eq!(
        HarnessId::from_str("Worker").expect_err("upper case").to_text(),
        "invalid Harness ID `Worker`"
    );
}

#[test]
fn fresh_correlations_are_version_seven_uuid_text() {
    let text = fresh_uuid_text();
    assert_eq!(text.len(), 36);
    let parsed = uuid::Uuid::parse_str(&text).expect("hyphenated UUID text");
    assert_eq!(parsed.get_version_num(), 7);
    assert_eq!(parsed.hyphenated().to_string(), text);
    assert!(matches!(&text[19..20], "8" | "9" | "a" | "b"));
}
