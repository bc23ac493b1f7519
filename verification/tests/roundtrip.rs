//! Tests of the base64 round trip and of the host lookups.

use drawsave::codec::reencode_payload;
use drawsave::host::{now_utc, resolve_downloads_dir};

#[test]
fn decoding_then_reencoding_reproduces_the_payload() {
    for payload in ["iVBORw0KGgo=", "", "AAAA", "aGVsbG8gd29ybGQ=", "/+/+", "01234567"] {
        let reencoded = reencode_payload(payload);
        assert_eq!(reencoded.as_deref(), Some(payload), "payload {:?}", payload);
    }
}

#[test]
fn invalid_payloads_do_not_reencode() {
    for payload in ["not-valid-base64!!", "AAA", "A", "====", "aa a"] {
        assert!(reencode_payload(payload).is_none(), "payload {:?}", payload);
    }
}

#[test]
fn reencoding_agrees_with_an_independent_decode() {
    let payload = "iVBORw0KGgo=";
    let bytes =
        base64::Engine::decode(&base64::engine::general_purpose::STANDARD, payload).unwrap();
    assert_eq!(bytes, vec![0x89, 0x50, 0x4E, 0x47, 0x0D, 0x0A, 0x1A, 0x0A]);
    let reencoded =
        base64::Engine::encode(&base64::engine::general_purpose::STANDARD, &bytes);
    assert_eq!(reencode_payload(payload), Some(reencoded));
}

#[test]
fn the_clock_reading_is_a_calendar_timestamp() {
    let now = now_utc().expect("the current year has four digits");
    assert!(now.year <= 9999);
    assert!((1..=12).contains(&now.month));
    assert!((1..=31).contains(&now.day));
    assert!(now.hour <= 23);
    assert!(now.minute <= 59);
    assert!(now.second <= 59);
}

#[test]
fn the_downloads_directory_resolves_or_reports_its_absence() {
    match resolve_downloads_dir() {
        Ok(dir) => assert!(!dir.is_empty()),
        Err(e) => assert_eq!(e.message(), "Could not find downloads directory"),
    }
}
