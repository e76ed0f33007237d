//! The per-cycle pipeline for one decoded response: parse and filter the
//! events, resolve participants, format the elapsed duration, and render one
//! report per surviving event.
//!
//! The network request that obtains the raw payload, and the sink the
//! rendered reports go to, are outside collaborators; this module takes the
//! decoded response and returns the report texts.

use crate::dedup::DedupScope;
use crate::duration::{
    duration_label, format_elapsed, now_unix_secs, rfc3339_secs, MAX_CLOCK_SECS,
};
use crate::model::{string_views, event_views, RawResponse, SpaceEventView, UserRecord};
use crate::parser::{has_users, parse, parse_result, parse_result_scope};
use crate::render::{render, report_text};
use crate::resolver::{resolve, resolve_spec};
use vstd::prelude::*;

verus! {

/// The report for one accepted event at time `now`, or `None` when its start
/// timestamp is not valid RFC 3339 (that event's rendering is aborted, the
/// cycle goes on).
pub open spec fn event_report(ev: SpaceEventView, users: Seq<UserRecord>, now: int) -> Option<
    Seq<char>,
> {
    match rfc3339_secs(ev.started_at) {
        Some(start) => Some(
            report_text(
                ev,
                resolve_spec(ev.host_ids, ev.speaker_ids, users),
                duration_label(now - start),
            ),
        ),
        None => None,
    }
}

/// The reports for the first `n` accepted events, in event order.
pub open spec fn reports_of(
    events: Seq<SpaceEventView>,
    users: Seq<UserRecord>,
    now: int,
    n: int,
) -> Seq<Seq<char>>
    decreases n,
{
    if n <= 0 {
        Seq::empty()
    } else {
        let prev = reports_of(events, users, now, n - 1);
        match event_report(events[n - 1], users, now) {
            Some(t) => prev.push(t),
            None => prev,
        }
    }
}

/// The user records the resolver sees: empty when the response carries none
/// (no event is accepted then anyway).
pub open spec fn users_of(resp: RawResponse) -> Seq<UserRecord> {
    if has_users(resp) {
        resp.includes->0.users->0@
    } else {
        Seq::empty()
    }
}

/// The reports of one whole cycle over one response.
pub open spec fn cycle_reports(resp: RawResponse, scope: Set<Seq<char>>, now: int) -> Seq<
    Seq<char>,
> {
    let evs = parse_result(resp, scope);
    reports_of(evs, users_of(resp), now, evs.len() as int)
}

/// Runs one cycle's pipeline over a decoded response, taking the current
/// time as whole seconds since the Unix epoch. Accepted ids are recorded in
/// `scope`; an event whose start timestamp fails to parse yields no report.
pub fn run_cycle_at(resp: &RawResponse, scope: &mut DedupScope, now_secs: i64) -> (reports: Vec<
    String,
>)
    requires
        -MAX_CLOCK_SECS <= now_secs <= MAX_CLOCK_SECS,
    ensures
        string_views(reports@) == cycle_reports(*resp, old(scope)@, now_secs as int),
        final(scope)@ == parse_result_scope(*resp, old(scope)@),
{
    let ghost s0 = scope@;
    let events = parse(resp, scope);
    let empty_users: Vec<UserRecord> = Vec::new();
    let users: &Vec<UserRecord> = match &resp.includes {
        Some(inc) => match &inc.users {
            Some(u) => u,
            None => &empty_users,
        },
        None => &empty_users,
    };
    proof {
        assert(users@ == users_of(*resp));
    }
    let ghost evs = event_views(events@);
    let mut reports: Vec<String> = Vec::new();
    let n = events.len();
    let mut i: usize = 0;
    while i < n
        invariant
            n == events@.len(),
            i <= n,
            evs == event_views(events@),
            evs == parse_result(*resp, s0),
            users@ == users_of(*resp),
            -MAX_CLOCK_SECS <= now_secs <= MAX_CLOCK_SECS,
            string_views(reports@) == reports_of(evs, users@, now_secs as int, i as int),
        decreases n - i,
    {
        let ghost pre = reports@;
        let ev = &events[i];
        proof {
            assert(ev@ == evs[i as int]);
        }
        let participants = resolve(ev, users);
        match format_elapsed(ev.started_at.as_str(), now_secs) {
            Ok(label) => {
                let text = render(ev, &participants, label.as_str());
                reports.push(text);
                proof {
                    assert(string_views(reports@) =~= string_views(pre).push(text@));
                    assert(string_views(reports@) =~= reports_of(
                        evs,
                        users@,
                        now_secs as int,
                        i as int + 1,
                    ));
                }
            },
            Err(_) => {},
        }
        i += 1;
    }
    reports
}

/// Runs one cycle's pipeline at the current time. What instant the clock
/// reports is not known, so the contract holds of some in-range instant.
pub fn run_cycle(resp: &RawResponse, scope: &mut DedupScope) -> (reports: Vec<String>)
    ensures
        exists|now: int|
            -MAX_CLOCK_SECS <= now <= MAX_CLOCK_SECS && string_views(reports@) == cycle_reports(
                *resp,
                old(scope)@,
                now,
            ),
        final(scope)@ == parse_result_scope(*resp, old(scope)@),
{
    let now = now_unix_secs();
    let reports = run_cycle_at(resp, scope, now);
    proof {
        assert(-MAX_CLOCK_SECS <= now as int <= MAX_CLOCK_SECS && string_views(reports@)
            == cycle_reports(*resp, old(scope)@, now as int));
    }
    reports
}

} // verus!
