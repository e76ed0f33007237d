use spaces_search::cycle::run_cycle_at;
use spaces_search::dedup::DedupScope;
use spaces_search::model::{RawIncludes, RawResponse, RawSpace, UserRecord};
use spaces_search::parser::parse;

fn user(id: &str, name: &str, username: &str) -> UserRecord {
    UserRecord { id: String::from(id), name: String::from(name), username: String::from(username) }
}

fn space(id: &str, state: &str, hosts: &[&str], speakers: &[&str]) -> RawSpace {
    RawSpace {
        id: String::from(id),
        state: String::from(state),
        title: String::from("topic talk"),
        started_at: String::from("2021-06-01T12:00:00Z"),
        participant_count: String::from("7"),
        host_ids: Some(hosts.iter().map(|s| String::from(*s)).collect()),
        speaker_ids: Some(speakers.iter().map(|s| String::from(*s)).collect()),
    }
}

fn response(spaces: Vec<RawSpace>, users: Vec<UserRecord>) -> RawResponse {
    RawResponse { data: Some(spaces), includes: Some(RawIncludes { users: Some(users) }) }
}

#[test]
fn no_live_events_yield_nothing() {
    let resp = response(
        vec![space("1", "scheduled", &["a"], &[]), space("2", "ended", &["b"], &[])],
        vec![user("a", "A", "ua"), user("b", "B", "ub")],
    );
    let mut scope = DedupScope::new();
    let events = parse(&resp, &mut scope);
    assert!(events.is_empty());
    let mut scope2 = DedupScope::new();
    let reports = run_cycle_at(&resp, &mut scope2, 1622548800);
    assert!(reports.is_empty());
}

#[test]
fn duplicate_live_id_reported_once() {
    let resp = response(
        vec![space("42", "live", &["a"], &[]), space("42", "live", &["a"], &[])],
        vec![user("a", "A", "ua")],
    );
    let mut scope = DedupScope::new();
    let reports = run_cycle_at(&resp, &mut scope, 1622548800);
    assert_eq!(reports.len(), 1);
}

#[test]
fn missing_includes_yields_nothing() {
    let resp = RawResponse {
        data: Some(vec![space("42", "live", &["a"], &[])]),
        includes: None,
    };
    let mut scope = DedupScope::new();
    let reports = run_cycle_at(&resp, &mut scope, 1622548800);
    assert!(reports.is_empty());
}

#[test]
fn missing_users_skips_each_event() {
    let resp = RawResponse {
        data: Some(vec![space("42", "live", &["a"], &[])]),
        includes: Some(RawIncludes { users: None }),
    };
    let mut scope = DedupScope::new();
    let reports = run_cycle_at(&resp, &mut scope, 1622548800);
    assert!(reports.is_empty());
}

#[test]
fn missing_host_ids_skips_that_event_only() {
    let mut broken = space("1", "live", &[], &[]);
    broken.host_ids = None;
    let resp = response(
        vec![broken, space("2", "live", &["a"], &[])],
        vec![user("a", "A", "ua")],
    );
    let mut scope = DedupScope::new();
    let reports = run_cycle_at(&resp, &mut scope, 1622548800);
    assert_eq!(reports.len(), 1);
    assert!(reports[0].contains("/i/spaces/2/peek"));
}

#[test]
fn rendering_twice_with_same_scope_yields_one_report() {
    let resp = response(vec![space("42", "live", &["a"], &[])], vec![user("a", "A", "ua")]);
    let mut scope = DedupScope::new();
    let first = run_cycle_at(&resp, &mut scope, 1622548800);
    assert_eq!(first.len(), 1);
    let second = run_cycle_at(&resp, &mut scope, 1622548800);
    assert!(second.is_empty());
}

#[test]
fn fresh_scope_reports_again() {
    let resp = response(vec![space("42", "live", &["a"], &[])], vec![user("a", "A", "ua")]);
    let mut scope = DedupScope::new();
    let first = run_cycle_at(&resp, &mut scope, 1622548800);
    let mut scope2 = DedupScope::new();
    let second = run_cycle_at(&resp, &mut scope2, 1622548800);
    assert_eq!(first, second);
}

#[test]
fn bad_timestamp_skips_that_event_only() {
    let mut bad = space("1", "live", &["a"], &[]);
    bad.started_at = String::from("yesterday noonish");
    let resp = response(
        vec![bad, space("2", "live", &["a"], &[])],
        vec![user("a", "A", "ua")],
    );
    let mut scope = DedupScope::new();
    let reports = run_cycle_at(&resp, &mut scope, 1622548800);
    assert_eq!(reports.len(), 1);
    assert!(reports[0].contains("/i/spaces/2/peek"));
}

#[test]
fn full_report_text() {
    // 2021-06-01T12:00:00Z is 1622548800; one hour, two minutes and three
    // seconds later the elapsed label reads 1:02:03.
    let resp = response(
        vec![space("42", "live", &["a", "b"], &["c"])],
        vec![user("a", "Ann", "ann1"), user("b", "Bob", "bob2"), user("c", "Cyd", "cyd3")],
    );
    let mut scope = DedupScope::new();
    let reports = run_cycle_at(&resp, &mut scope, 1622548800 + 3723);
    assert_eq!(reports.len(), 1);
    let expected = "--------------------------------------------------------------------------+++++\n\
                    topic talk\n\
                    2021-06-01T12:00:00Z\n\
                    \n    Host: Ann // ann1\n      Co-Host: Bob // bob2\n        Speaker: Cyd // cyd3\n\
                    \n=> https://twitter.com/i/spaces/42/peek\n\
                    => Started: -1:02:03\n\
                    => Guests: 7\n";
    assert_eq!(reports[0], expected);
}
