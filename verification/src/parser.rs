//! Response parsing and filtering: extracts candidate live-room records from
//! a decoded search response and filters out rooms already reported within
//! the current cycle.
//!
//! A response whose `data` array or `includes` object is absent yields an
//! empty sequence — "nothing to report this cycle", not an error. A raw
//! entry whose state is not `"live"`, or whose id is already in the cycle's
//! [`DedupScope`], is skipped. An entry whose `host_ids`, `speaker_ids` or
//! `includes.users` field could not be read as an array is skipped on its
//! own, without aborting the rest of the response. Each accepted id is
//! inserted into the scope before the event is yielded, so no id is yielded
//! twice even if it appears twice in one response.

use crate::dedup::DedupScope;
use crate::model::{copy_strings, event_views, RawResponse, RawSpace, SpaceEvent, SpaceEventView};
use vstd::prelude::*;

verus! {

/// Whether the response's `includes` object carries a readable `users`
/// array.
pub open spec fn has_users(resp: RawResponse) -> bool {
    resp.includes is Some && resp.includes->0.users is Some
}

/// Whether one raw entry is accepted: live, not yet in the scope, and its
/// host, speaker and user arrays all readable.
pub open spec fn accepts(sp: RawSpace, scope: Set<Seq<char>>, users_ok: bool) -> bool {
    &&& sp.state@ == "live"@
    &&& !scope.contains(sp.id@)
    &&& sp.host_ids is Some
    &&& sp.speaker_ids is Some
    &&& users_ok
}

/// The accepted event built from a raw entry.
pub open spec fn event_of(sp: RawSpace) -> SpaceEventView {
    SpaceEventView {
        id: sp.id@,
        title: sp.title@,
        started_at: sp.started_at@,
        participant_count: sp.participant_count@,
        host_ids: sp.host_ids->0@,
        speaker_ids: sp.speaker_ids->0@,
    }
}

/// The scope after the first `n` raw entries have been examined.
pub open spec fn parse_scope(
    data: Seq<RawSpace>,
    users_ok: bool,
    scope: Set<Seq<char>>,
    n: int,
) -> Set<Seq<char>>
    decreases n,
{
    if n <= 0 {
        scope
    } else {
        let prev = parse_scope(data, users_ok, scope, n - 1);
        if accepts(data[n - 1], prev, users_ok) {
            prev.insert(data[n - 1].id@)
        } else {
            prev
        }
    }
}

/// The events accepted from the first `n` raw entries.
pub open spec fn parse_events(
    data: Seq<RawSpace>,
    users_ok: bool,
    scope: Set<Seq<char>>,
    n: int,
) -> Seq<SpaceEventView>
    decreases n,
{
    if n <= 0 {
        Seq::empty()
    } else {
        let prev = parse_events(data, users_ok, scope, n - 1);
        if accepts(data[n - 1], parse_scope(data, users_ok, scope, n - 1), users_ok) {
            prev.push(event_of(data[n - 1]))
        } else {
            prev
        }
    }
}

/// The parser's whole result for a response: empty when `data` or
/// `includes` is absent or malformed.
pub open spec fn parse_result(resp: RawResponse, scope: Set<Seq<char>>) -> Seq<SpaceEventView> {
    if resp.data is Some && resp.includes is Some {
        parse_events(resp.data->0@, has_users(resp), scope, resp.data->0@.len() as int)
    } else {
        Seq::empty()
    }
}

/// The scope after a whole response: unchanged when `data` or `includes` is
/// absent or malformed.
pub open spec fn parse_result_scope(resp: RawResponse, scope: Set<Seq<char>>) -> Set<Seq<char>> {
    if resp.data is Some && resp.includes is Some {
        parse_scope(resp.data->0@, has_users(resp), scope, resp.data->0@.len() as int)
    } else {
        scope
    }
}

/// Extracts the live, not-yet-reported events from a decoded response,
/// recording each accepted id in `scope`.
pub fn parse(resp: &RawResponse, scope: &mut DedupScope) -> (events: Vec<SpaceEvent>)
    ensures
        event_views(events@) == parse_result(*resp, old(scope)@),
        final(scope)@ == parse_result_scope(*resp, old(scope)@),
{
    let ghost s0 = scope@;
    let mut events: Vec<SpaceEvent> = Vec::new();
    let data = match &resp.data {
        Some(d) => d,
        None => {
            proof {
                assert(event_views(events@) =~= parse_result(*resp, s0));
            }
            return events;
        },
    };
    let users_ok = match &resp.includes {
        Some(inc) => inc.users.is_some(),
        None => {
            proof {
                assert(event_views(events@) =~= parse_result(*resp, s0));
            }
            return events;
        },
    };
    let live = String::from_str("live");
    let ghost datav = data@;
    let n = data.len();
    let mut i: usize = 0;
    while i < n
        invariant
            n == datav.len(),
            i <= n,
            resp.data is Some,
            resp.includes is Some,
            datav == resp.data->0@,
            datav == data@,
            users_ok == has_users(*resp),
            live@ == "live"@,
            event_views(events@) == parse_events(datav, users_ok, s0, i as int),
            scope@ == parse_scope(datav, users_ok, s0, i as int),
        decreases n - i,
    {
        let ghost pre_events = events@;
        let sp = &data[i];
        if sp.state.eq(&live) && !scope.contains(&sp.id) && users_ok {
            match (&sp.host_ids, &sp.speaker_ids) {
                (Some(hosts), Some(speakers)) => {
                    let ev = SpaceEvent {
                        id: sp.id.clone(),
                        title: sp.title.clone(),
                        started_at: sp.started_at.clone(),
                        participant_count: sp.participant_count.clone(),
                        host_ids: copy_strings(hosts),
                        speaker_ids: copy_strings(speakers),
                    };
                    proof {
                        assert(ev@ == event_of(datav[i as int]));
                        assert(accepts(datav[i as int], scope@, users_ok));
                    }
                    scope.insert(sp.id.clone());
                    events.push(ev);
                    proof {
                        assert(event_views(events@) =~= event_views(pre_events).push(
                            event_of(datav[i as int]),
                        ));
                    }
                },
                _ => {
                    proof {
                        assert(!accepts(datav[i as int], scope@, users_ok));
                    }
                },
            }
        } else {
            proof {
                assert(!accepts(datav[i as int], scope@, users_ok));
            }
        }
        i += 1;
    }
    events
}

/// Law: when every raw entry's state differs from `"live"`, the parser
/// yields an empty sequence and leaves the scope unchanged.
pub proof fn lemma_no_live_no_events(
    data: Seq<RawSpace>,
    users_ok: bool,
    scope: Set<Seq<char>>,
    n: int,
)
    requires
        0 <= n <= data.len(),
        forall|k: int| 0 <= k < data.len() ==> #[trigger] data[k].state@ != "live"@,
    ensures
        parse_events(data, users_ok, scope, n) == Seq::<SpaceEventView>::empty(),
        parse_scope(data, users_ok, scope, n) == scope,
    decreases n,
{
    if n > 0 {
        lemma_no_live_no_events(data, users_ok, scope, n - 1);
    }
}

/// Law (dedup invariant): the accepted events carry pairwise distinct ids,
/// even when one id appears in several live entries of the response; every
/// accepted id is in the final scope.
pub proof fn lemma_dedup(data: Seq<RawSpace>, users_ok: bool, scope: Set<Seq<char>>, n: int)
    requires
        0 <= n <= data.len(),
    ensures
        (forall|k: int|
            0 <= k < parse_events(data, users_ok, scope, n).len() ==> parse_scope(
                data,
                users_ok,
                scope,
                n,
            ).contains(#[trigger] parse_events(data, users_ok, scope, n)[k].id)),
        (forall|a: int, b: int|
            0 <= a < b < parse_events(data, users_ok, scope, n).len() ==> #[trigger] parse_events(
                data,
                users_ok,
                scope,
                n,
            )[a].id != #[trigger] parse_events(data, users_ok, scope, n)[b].id),
    decreases n,
{
    if n > 0 {
        lemma_dedup(data, users_ok, scope, n - 1);
        let prev_ev = parse_events(data, users_ok, scope, n - 1);
        let prev_sc = parse_scope(data, users_ok, scope, n - 1);
        let cur_ev = parse_events(data, users_ok, scope, n);
        let cur_sc = parse_scope(data, users_ok, scope, n);
        assert forall|k: int| 0 <= k < cur_ev.len() implies cur_sc.contains(cur_ev[k].id) by {
            if k < prev_ev.len() {
                assert(prev_sc.contains(prev_ev[k].id));
            } else {
                assert(cur_ev[k] == event_of(data[n - 1]));
            }
        }
        assert forall|a: int, b: int| 0 <= a < b < cur_ev.len() implies cur_ev[a].id
            != cur_ev[b].id by {
            if b < prev_ev.len() {
                assert(prev_ev[a].id != prev_ev[b].id);
            } else {
                assert(accepts(data[n - 1], prev_sc, users_ok));
                assert(prev_sc.contains(prev_ev[a].id));
                assert(!prev_sc.contains(data[n - 1].id@));
            }
        }
    }
}

/// The scope only grows as entries are examined.
pub proof fn lemma_scope_monotone(
    data: Seq<RawSpace>,
    users_ok: bool,
    scope: Set<Seq<char>>,
    m: int,
    n: int,
)
    requires
        0 <= m <= n <= data.len(),
    ensures
        parse_scope(data, users_ok, scope, m).subset_of(parse_scope(data, users_ok, scope, n)),
    decreases n,
{
    if m < n {
        lemma_scope_monotone(data, users_ok, scope, m, n - 1);
    }
}

/// Law (round trip): parsing the same response again, with the scope the
/// first parse has already filled, yields nothing and changes nothing — the
/// same event rendered twice within one scope produces one report, not two.
pub proof fn lemma_reparse_empty(
    data: Seq<RawSpace>,
    users_ok: bool,
    scope: Set<Seq<char>>,
    n: int,
)
    requires
        0 <= n <= data.len(),
    ensures
        parse_events(
            data,
            users_ok,
            parse_scope(data, users_ok, scope, data.len() as int),
            n,
        ) == Seq::<SpaceEventView>::empty(),
        parse_scope(data, users_ok, parse_scope(data, users_ok, scope, data.len() as int), n)
            == parse_scope(data, users_ok, scope, data.len() as int),
    decreases n,
{
    let s_star = parse_scope(data, users_ok, scope, data.len() as int);
    if n > 0 {
        lemma_reparse_empty(data, users_ok, scope, n - 1);
        if accepts(data[n - 1], s_star, users_ok) {
            if accepts(data[n - 1], parse_scope(data, users_ok, scope, n - 1), users_ok) {
                lemma_scope_monotone(data, users_ok, scope, n, data.len() as int);
                assert(parse_scope(data, users_ok, scope, n).contains(data[n - 1].id@));
                assert(false);
            } else {
                lemma_scope_monotone(data, users_ok, scope, n - 1, data.len() as int);
                assert(parse_scope(data, users_ok, scope, n - 1).contains(data[n - 1].id@));
                assert(false);
            }
        }
    }
}

/// Law: a response with no `includes` object yields no events and leaves
/// the scope unchanged — nothing propagates to the outer loop.
pub proof fn lemma_missing_includes(resp: RawResponse, scope: Set<Seq<char>>)
    requires
        resp.includes is None,
    ensures
        parse_result(resp, scope) == Seq::<SpaceEventView>::empty(),
        parse_result_scope(resp, scope) == scope,
{
}

} // verus!
