use spaces_search::config::{parse_mode, validate_rate, RunMode};
use spaces_search::dedup::DedupScope;
use spaces_search::duration::{format_duration, format_elapsed, TimestampParseError};
use spaces_search::model::{ParticipantRole, SpaceEvent, UserRecord};
use spaces_search::resolver::resolve;
use spaces_search::text::u64_to_dec;

fn user(id: &str, name: &str, username: &str) -> UserRecord {
    UserRecord { id: String::from(id), name: String::from(name), username: String::from(username) }
}

fn event(hosts: &[&str], speakers: &[&str]) -> SpaceEvent {
    SpaceEvent {
        id: String::from("42"),
        title: String::from("topic talk"),
        started_at: String::from("2021-06-01T12:00:00Z"),
        participant_count: String::from("7"),
        host_ids: hosts.iter().map(|s| String::from(*s)).collect(),
        speaker_ids: speakers.iter().map(|s| String::from(*s)).collect(),
    }
}

#[test]
fn hosts_resolve_in_order_first_wins() {
    let users = vec![user("a", "Ann", "ann1"), user("b", "Bob", "bob2"), user("c", "Cyd", "cyd3")];
    let out = resolve(&event(&["a", "b", "c"], &[]), &users);
    assert_eq!(out.len(), 3);
    assert_eq!(out[0].role, ParticipantRole::Host);
    assert_eq!(out[0].user.id, "a");
    assert_eq!(out[1].role, ParticipantRole::CoHost);
    assert_eq!(out[1].user.id, "b");
    assert_eq!(out[2].role, ParticipantRole::CoHost);
    assert_eq!(out[2].user.id, "c");
}

#[test]
fn first_resolved_host_is_host_even_if_not_first_listed() {
    let users = vec![user("b", "Bob", "bob2"), user("c", "Cyd", "cyd3")];
    let out = resolve(&event(&["a", "b", "c"], &[]), &users);
    assert_eq!(out.len(), 2);
    assert_eq!(out[0].role, ParticipantRole::Host);
    assert_eq!(out[0].user.id, "b");
    assert_eq!(out[1].role, ParticipantRole::CoHost);
    assert_eq!(out[1].user.id, "c");
}

#[test]
fn duplicate_user_records_first_wins() {
    let users = vec![user("a", "First", "first"), user("a", "Second", "second")];
    let out = resolve(&event(&["a"], &[]), &users);
    assert_eq!(out.len(), 1);
    assert_eq!(out[0].user.name, "First");
}

#[test]
fn speaker_matching_a_cohost_is_excluded() {
    let users = vec![user("a", "Ann", "ann1"), user("b", "Bob", "bob2"), user("c", "Cyd", "cyd3")];
    let out = resolve(&event(&["a", "b"], &["b", "c"]), &users);
    assert_eq!(out.len(), 3);
    assert_eq!(out[0].role, ParticipantRole::Host);
    assert_eq!(out[0].user.id, "a");
    assert_eq!(out[1].role, ParticipantRole::CoHost);
    assert_eq!(out[1].user.id, "b");
    assert_eq!(out[2].role, ParticipantRole::Speaker);
    assert_eq!(out[2].user.id, "c");
}

#[test]
fn speaker_matching_the_host_is_still_reported() {
    // Only co-host ids are recorded in the exclusion set; an id reported as
    // Host appears again in the speaker section.
    let users = vec![user("a", "Ann", "ann1")];
    let out = resolve(&event(&["a"], &["a"]), &users);
    assert_eq!(out.len(), 2);
    assert_eq!(out[0].role, ParticipantRole::Host);
    assert_eq!(out[1].role, ParticipantRole::Speaker);
}

#[test]
fn unresolvable_ids_are_omitted() {
    let users = vec![user("a", "Ann", "ann1")];
    let out = resolve(&event(&["a", "ghost"], &["phantom"]), &users);
    assert_eq!(out.len(), 1);
    assert_eq!(out[0].role, ParticipantRole::Host);
}

#[test]
fn elapsed_one_hour_23m_45s() {
    let now = 1622548800 + 5025;
    let label = format_elapsed("2021-06-01T12:00:00Z", now).unwrap();
    assert_eq!(label, "1:23:45");
}

#[test]
fn negative_elapsed_masks_minutes_and_seconds() {
    // startedAt ten seconds in the future: hours truncate to 0, minutes and
    // seconds are rendered as the literal "00".
    let now = 1622548800 - 10;
    let label = format_elapsed("2021-06-01T12:00:00Z", now).unwrap();
    assert_eq!(label, "0:00:00");
}

#[test]
fn negative_elapsed_keeps_signed_hours() {
    let now = 1622548800 - 5025;
    let label = format_elapsed("2021-06-01T12:00:00Z", now).unwrap();
    assert_eq!(label, "-1:00:00");
}

#[test]
fn offset_timestamps_parse() {
    // Same instant written with an offset: 13:00:00+01:00 is noon UTC.
    let now = 1622548800 + 61;
    let label = format_elapsed("2021-06-01T13:00:00+01:00", now).unwrap();
    assert_eq!(label, "0:01:01");
}

#[test]
fn malformed_timestamp_is_an_error() {
    assert_eq!(format_elapsed("not a timestamp", 1622548800), Err(TimestampParseError));
    assert_eq!(format_elapsed("", 1622548800), Err(TimestampParseError));
    assert_eq!(format_elapsed("2021-06-01", 1622548800), Err(TimestampParseError));
}

#[test]
fn duration_formatting_edges() {
    assert_eq!(format_duration(0), "0:00:00");
    assert_eq!(format_duration(59), "0:00:59");
    assert_eq!(format_duration(60), "0:01:00");
    assert_eq!(format_duration(3599), "0:59:59");
    assert_eq!(format_duration(3600), "1:00:00");
    assert_eq!(format_duration(86400 + 754), "24:12:34");
    assert_eq!(format_duration(-3599), "0:00:00");
    assert_eq!(format_duration(-3600), "-1:00:00");
}

#[test]
fn decimal_rendering() {
    assert_eq!(u64_to_dec(0), "0");
    assert_eq!(u64_to_dec(7), "7");
    assert_eq!(u64_to_dec(1234567890), "1234567890");
}

#[test]
fn dedup_scope_membership() {
    let mut scope = DedupScope::new();
    assert!(!scope.contains(&String::from("42")));
    scope.insert(String::from("42"));
    assert!(scope.contains(&String::from("42")));
    assert!(!scope.contains(&String::from("43")));
    scope.insert(String::from("42"));
    assert!(scope.contains(&String::from("42")));
}

#[test]
fn mode_flag_classification() {
    assert_eq!(parse_mode("file"), RunMode::File);
    assert_eq!(parse_mode("text"), RunMode::Text);
    assert_eq!(parse_mode("FILE"), RunMode::Unknown);
    assert_eq!(parse_mode(""), RunMode::Unknown);
}

#[test]
fn rate_validation() {
    assert_eq!(validate_rate(0), None);
    assert_eq!(validate_rate(2), Some(2000));
    assert_eq!(validate_rate(300), Some(300000));
    assert_eq!(validate_rate(u64::MAX), None);
}
