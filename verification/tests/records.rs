use dns_01_web::models::{Column, Record, Row};
use dns_01_web::records::{
    found_record, RecordAction, RecordData, RecordError, RecordEvent, RecordPublisher, RecordStage,
    RecordWrite,
};

const KEY: &str = "0123456789abcdefghijABCDEFGHIJ01";
const TOKEN: &str = "tttttttttttttttttttttttttttttttt";

fn data(name: &str, token: &str, apikey: &str, ttl: u32) -> RecordData {
    RecordData { apikey: apikey.to_string(), name: name.to_string(), token: token.to_string(), ttl }
}

fn ok_data() -> RecordData {
    data("myhost", TOKEN, KEY, 300)
}

fn record(name: &str, apikey: &str) -> Record {
    Record {
        name: name.to_string(),
        token: TOKEN.to_string(),
        expiration: "2030-01-01 00:00:00".to_string(),
        apikey: apikey.to_string(),
    }
}

fn finish_err(a: RecordAction) -> RecordError {
    match a {
        RecordAction::Finish(Err(e)) => e,
        _ => panic!("expected a refusal"),
    }
}

fn start(d: RecordData) -> (RecordPublisher, RecordAction) {
    RecordPublisher::start(d)
}

fn first_err(d: RecordData) -> RecordError {
    finish_err(start(d).1)
}

/// A publisher for `ok_data()` that has reached the lookup of the name.
fn at_existing(d: RecordData) -> RecordPublisher {
    let (mut p, a) = start(d);
    assert!(matches!(a, RecordAction::LookUpApikey));
    assert!(matches!(p.step(RecordEvent::ApikeyLookedUp(true)), RecordAction::LookUpExisting));
    p
}

/// Runs the whole exchange against fixed database answers; reports the answer
/// and what was written.
fn run(
    d: RecordData,
    key_exists: bool,
    existing: Option<Record>,
    stored: Option<Record>,
) -> (Result<Record, RecordError>, Vec<RecordWrite>) {
    let mut writes = Vec::new();
    let mut existing = Some(existing);
    let mut stored = Some(stored);
    let (mut p, mut action) = start(d);
    loop {
        action = match action {
            RecordAction::LookUpApikey => p.step(RecordEvent::ApikeyLookedUp(key_exists)),
            RecordAction::LookUpExisting => p.step(RecordEvent::ExistingLookedUp(existing.take().unwrap())),
            RecordAction::Store(w) => {
                writes.push(w);
                p.step(RecordEvent::Stored)
            }
            RecordAction::LookUpStored => p.step(RecordEvent::StoredLookedUp(stored.take().unwrap())),
            RecordAction::Finish(r) => return (r, writes),
            RecordAction::Rejected => panic!("events are given in order"),
        }
    }
}

#[test]
fn valid_request_asks_for_the_key() {
    let (p, a) = start(ok_data());
    assert!(matches!(a, RecordAction::LookUpApikey));
    assert_eq!(p.current_stage(), RecordStage::AwaitingApikey);
}

#[test]
fn name_of_64_bytes_is_too_long() {
    let name = "a".repeat(64);
    let e = first_err(data(&name, TOKEN, KEY, 300));
    assert_eq!(e, RecordError::NameTooLong);
    assert_eq!(
        e.message(),
        "record names cannot be longer than 63 characters due to limitations in the dns specification"
    );
}

#[test]
fn name_of_63_bytes_is_accepted() {
    let name = "a".repeat(63);
    assert!(matches!(start(data(&name, TOKEN, KEY, 300)).1, RecordAction::LookUpApikey));
}

#[test]
fn name_length_counts_bytes() {
    // 32 characters of two bytes each: 64 bytes.
    let name = "é".repeat(32);
    assert_eq!(first_err(data(&name, TOKEN, KEY, 300)), RecordError::NameTooLong);
}

#[test]
fn name_of_two_bytes_is_too_short() {
    let e = first_err(data("ab", TOKEN, KEY, 300));
    assert_eq!(e.message(), "record names must be at least 3 characters, but preferably longer");
}

#[test]
fn name_of_three_bytes_is_accepted() {
    assert!(matches!(start(data("abc", TOKEN, KEY, 300)).1, RecordAction::LookUpApikey));
}

#[test]
fn token_of_31_bytes_is_invalid() {
    let token = "t".repeat(31);
    let e = first_err(data("myhost", &token, KEY, 300));
    assert_eq!(e.message(), "the provided token does not appear to be valid");
}

#[test]
fn apikey_of_wrong_length_is_invalid() {
    let e = first_err(data("myhost", TOKEN, &KEY[..31], 300));
    assert_eq!(e.message(), "the apikey is not valid");
    let long = format!("{}x", KEY);
    assert_eq!(first_err(data("myhost", TOKEN, &long, 300)), RecordError::InvalidApikey);
}

#[test]
fn name_is_checked_before_token_and_key() {
    assert_eq!(first_err(data("ab", "short", "short", 0)), RecordError::NameTooShort);
}

#[test]
fn unknown_key_is_refused() {
    let (mut p, _) = start(ok_data());
    let e = finish_err(p.step(RecordEvent::ApikeyLookedUp(false)));
    assert_eq!(e.message(), "that apikey does not exist");
    assert_eq!(p.current_stage(), RecordStage::Done);
}

#[test]
fn ttl_bounds() {
    let (mut p, _) = start(data("myhost", TOKEN, KEY, 59));
    let e = finish_err(p.step(RecordEvent::ApikeyLookedUp(true)));
    assert_eq!(
        e.message(),
        "ttl must be at least 60 seconds. You risk LetsEncrypt missing the update if less than that."
    );
    let (mut p, _) = start(data("myhost", TOKEN, KEY, 86401));
    let e = finish_err(p.step(RecordEvent::ApikeyLookedUp(true)));
    assert_eq!(e.message(), "ttl must be less than 24h (86400 seconds)");
    for ttl in [60u32, 86400u32] {
        let (mut p, _) = start(data("myhost", TOKEN, KEY, ttl));
        assert!(matches!(p.step(RecordEvent::ApikeyLookedUp(true)), RecordAction::LookUpExisting));
    }
}

#[test]
fn unknown_key_is_reported_before_ttl() {
    let (mut p, _) = start(data("myhost", TOKEN, KEY, 1));
    assert_eq!(finish_err(p.step(RecordEvent::ApikeyLookedUp(false))), RecordError::UnknownApikey);
}

#[test]
fn name_owned_by_another_key_is_refused() {
    let other = "ZZZZZZZZZZZZZZZZZZZZZZZZZZZZZZZZ";
    let mut p = at_existing(ok_data());
    let e = finish_err(p.step(RecordEvent::ExistingLookedUp(Some(record("myhost", other)))));
    assert_eq!(e.message(), "record with that name already exists, and you don't own it");
}

#[test]
fn own_or_free_name_is_stored_with_the_request_values() {
    let mut p = at_existing(ok_data());
    match p.step(RecordEvent::ExistingLookedUp(Some(record("myhost", KEY)))) {
        RecordAction::Store(w) => {
            assert_eq!(w.name, "myhost");
            assert_eq!(w.token, TOKEN);
            assert_eq!(w.apikey, KEY);
            assert_eq!(w.ttl, 300);
        }
        _ => panic!("expected a write"),
    }
    let mut p = at_existing(ok_data());
    assert!(matches!(p.step(RecordEvent::ExistingLookedUp(None)), RecordAction::Store(_)));
}

#[test]
fn after_storing_the_record_is_read_back() {
    let mut p = at_existing(ok_data());
    assert!(matches!(p.step(RecordEvent::ExistingLookedUp(None)), RecordAction::Store(_)));
    assert!(matches!(p.step(RecordEvent::Stored), RecordAction::LookUpStored));
    let e = finish_err(p.step(RecordEvent::StoredLookedUp(None)));
    assert_eq!(e.message(), "could not create record");
    let mut p = at_existing(ok_data());
    p.step(RecordEvent::ExistingLookedUp(None));
    p.step(RecordEvent::Stored);
    match p.step(RecordEvent::StoredLookedUp(Some(record("myhost", KEY)))) {
        RecordAction::Finish(Ok(r)) => {
            assert_eq!(r.name, "myhost");
            assert_eq!(r.apikey, KEY);
        }
        _ => panic!("expected the stored record"),
    }
}

#[test]
fn events_out_of_order_are_rejected() {
    let (mut p, _) = start(ok_data());
    // the name may not be looked up before the key is known
    assert!(matches!(p.step(RecordEvent::ExistingLookedUp(None)), RecordAction::Rejected));
    assert!(matches!(p.step(RecordEvent::Stored), RecordAction::Rejected));
    assert_eq!(p.current_stage(), RecordStage::AwaitingApikey);
    // a refused request takes no further answers
    let e = finish_err(p.step(RecordEvent::ApikeyLookedUp(false)));
    assert_eq!(e, RecordError::UnknownApikey);
    assert!(matches!(p.step(RecordEvent::ApikeyLookedUp(true)), RecordAction::Rejected));
    assert!(matches!(p.step(RecordEvent::ExistingLookedUp(None)), RecordAction::Rejected));
}

#[test]
fn full_run_publishes_and_writes_once() {
    let (answer, writes) = run(ok_data(), true, None, Some(record("myhost", KEY)));
    assert_eq!(writes.len(), 1);
    assert_eq!(answer.ok().unwrap().token, TOKEN);
}

#[test]
fn full_run_never_overwrites_a_foreign_name() {
    let other = "ZZZZZZZZZZZZZZZZZZZZZZZZZZZZZZZZ";
    let (answer, writes) = run(ok_data(), true, Some(record("myhost", other)), None);
    assert!(writes.is_empty());
    assert_eq!(answer.err().unwrap(), RecordError::NotOwner);
}

#[test]
fn full_run_with_invalid_input_touches_nothing() {
    let (answer, writes) = run(data("x", TOKEN, KEY, 300), true, None, None);
    assert!(writes.is_empty());
    assert_eq!(answer.err().unwrap(), RecordError::NameTooShort);
}

#[test]
fn found_record_reads_the_row() {
    let col = |s: &str| Column { uint: None, text: Some(s.to_string()) };
    let row = Row { columns: vec![col("n"), col("t"), col("e"), col("k")] };
    let r = found_record(Some(row)).unwrap();
    assert_eq!(r.token, "t");
    assert!(found_record(None).is_none());
}
