//! Participant-role resolution: cross-references an event's ordered host and
//! speaker identifier lists against the response's user records to produce
//! labeled participant lines.
//!
//! Hosts are scanned in original order; the first host id that resolves to a
//! user record is labeled `Host`, every later resolved host id is labeled
//! `CoHost` and recorded in a co-host id set. Speakers are then scanned in
//! original order; a speaker id found in the co-host set is skipped, so the
//! same id is never reported twice across the two sections. Ids that resolve
//! to no user record are silently omitted. When several user records share an
//! id, the first in iteration order wins.

use crate::model::{copy_user, ParticipantRole, ResolvedParticipant, SpaceEvent, UserRecord};
use vstd::prelude::*;

verus! {

/// The first user record at index `n` or later whose id equals `id`.
pub open spec fn find_user_from(users: Seq<UserRecord>, id: Seq<char>, n: int) -> Option<
    UserRecord,
>
    decreases users.len() - n,
{
    if n < 0 || n >= users.len() {
        None
    } else if users[n].id@ == id {
        Some(users[n])
    } else {
        find_user_from(users, id, n + 1)
    }
}

/// The first user record whose id equals `id`; first match wins when the
/// collection holds duplicate ids.
pub open spec fn find_user(users: Seq<UserRecord>, id: Seq<char>) -> Option<UserRecord> {
    find_user_from(users, id, 0)
}

/// The participant lines for the first `n` host ids: the first id that
/// resolves is labeled `Host`, every later resolved id `CoHost`;
/// unresolvable ids are omitted.
pub open spec fn hosts_out(hosts: Seq<String>, users: Seq<UserRecord>, n: int) -> Seq<
    ResolvedParticipant,
>
    decreases n,
{
    if n <= 0 {
        Seq::empty()
    } else {
        let prev = hosts_out(hosts, users, n - 1);
        match find_user(users, hosts[n - 1]@) {
            Some(u) => prev.push(
                ResolvedParticipant {
                    role: if prev.len() == 0 {
                        ParticipantRole::Host
                    } else {
                        ParticipantRole::CoHost
                    },
                    user: u,
                },
            ),
            None => prev,
        }
    }
}

/// The co-host id set after the first `n` host ids: every resolved host id
/// except the first resolved one.
pub open spec fn cohost_ids(hosts: Seq<String>, users: Seq<UserRecord>, n: int) -> Set<Seq<char>>
    decreases n,
{
    if n <= 0 {
        Set::empty()
    } else {
        let prev = cohost_ids(hosts, users, n - 1);
        if find_user(users, hosts[n - 1]@) is Some {
            if hosts_out(hosts, users, n - 1).len() == 0 {
                prev
            } else {
                prev.insert(hosts[n - 1]@)
            }
        } else {
            prev
        }
    }
}

/// The participant lines for the first `n` speaker ids, given the co-host id
/// set: ids in the set and unresolvable ids are omitted; the rest are
/// labeled `Speaker`.
pub open spec fn speakers_out(
    speakers: Seq<String>,
    users: Seq<UserRecord>,
    cohosts: Set<Seq<char>>,
    n: int,
) -> Seq<ResolvedParticipant>
    decreases n,
{
    if n <= 0 {
        Seq::empty()
    } else {
        let prev = speakers_out(speakers, users, cohosts, n - 1);
        if cohosts.contains(speakers[n - 1]@) {
            prev
        } else {
            match find_user(users, speakers[n - 1]@) {
                Some(u) => prev.push(
                    ResolvedParticipant { role: ParticipantRole::Speaker, user: u },
                ),
                None => prev,
            }
        }
    }
}

/// All participant lines for an event: the host section followed by the
/// speaker section.
pub open spec fn resolve_spec(
    hosts: Seq<String>,
    speakers: Seq<String>,
    users: Seq<UserRecord>,
) -> Seq<ResolvedParticipant> {
    hosts_out(hosts, users, hosts.len() as int) + speakers_out(
        speakers,
        users,
        cohost_ids(hosts, users, hosts.len() as int),
        speakers.len() as int,
    )
}

/// The set of character sequences held by a list of strings.
pub open spec fn id_set(v: Seq<String>) -> Set<Seq<char>> {
    Set::new(|s: Seq<char>| exists|j: int| 0 <= j < v.len() && v[j]@ == s)
}

fn vec_contains_string(v: &Vec<String>, id: &String) -> (r: bool)
    ensures
        r == id_set(v@).contains(id@),
{
    let n = v.len();
    let mut i: usize = 0;
    while i < n
        invariant
            n == v@.len(),
            i <= n,
            forall|j: int| 0 <= j < i ==> v@[j]@ != id@,
        decreases n - i,
    {
        if v[i].eq(id) {
            return true;
        }
        i += 1;
    }
    false
}

fn find_user_exec(users: &Vec<UserRecord>, id: &String) -> (r: Option<UserRecord>)
    ensures
        match r {
            Some(u) => find_user(users@, id@) == Some(u),
            None => find_user(users@, id@) is None,
        },
{
    let n = users.len();
    let mut i: usize = 0;
    while i < n
        invariant
            n == users@.len(),
            i <= n,
            find_user(users@, id@) == find_user_from(users@, id@, i as int),
        decreases n - i,
    {
        if users[i].id.eq(id) {
            return Some(copy_user(&users[i]));
        }
        i += 1;
    }
    None
}

/// Resolves an event's host and speaker ids against the user records into
/// ordered, labeled participant lines: hosts first (`Host`, then `CoHost`s),
/// then speakers, each section in its original id order.
pub fn resolve(event: &SpaceEvent, users: &Vec<UserRecord>) -> (out: Vec<ResolvedParticipant>)
    ensures
        out@ == resolve_spec(event.host_ids@, event.speaker_ids@, users@),
{
    let ghost hostsv = event.host_ids@;
    let ghost speakersv = event.speaker_ids@;
    let ghost usersv = users@;
    let mut out: Vec<ResolvedParticipant> = Vec::new();
    let mut cohosts: Vec<String> = Vec::new();
    proof {
        assert(id_set(cohosts@) =~= cohost_ids(hostsv, usersv, 0));
    }
    let nh = event.host_ids.len();
    let mut i: usize = 0;
    while i < nh
        invariant
            nh == hostsv.len(),
            i <= nh,
            hostsv == event.host_ids@,
            usersv == users@,
            out@ == hosts_out(hostsv, usersv, i as int),
            id_set(cohosts@) == cohost_ids(hostsv, usersv, i as int),
        decreases nh - i,
    {
        let ghost pre_cohosts = cohosts@;
        match find_user_exec(users, &event.host_ids[i]) {
            Some(u) => {
                if out.len() == 0 {
                    out.push(ResolvedParticipant { role: ParticipantRole::Host, user: u });
                } else {
                    cohosts.push(event.host_ids[i].clone());
                    out.push(ResolvedParticipant { role: ParticipantRole::CoHost, user: u });
                    proof {
                        assert forall|s: Seq<char>| id_set(cohosts@).contains(s) implies id_set(
                            pre_cohosts,
                        ).insert(hostsv[i as int]@).contains(s) by {
                            let j = choose|j: int|
                                0 <= j < cohosts@.len() && cohosts@[j]@ == s;
                            if j < pre_cohosts.len() {
                                assert(pre_cohosts[j]@ == s);
                            }
                        }
                        assert forall|s: Seq<char>|
                            id_set(pre_cohosts).insert(hostsv[i as int]@).contains(s) implies id_set(
                            cohosts@,
                        ).contains(s) by {
                            if id_set(pre_cohosts).contains(s) {
                                let j = choose|j: int|
                                    0 <= j < pre_cohosts.len() && pre_cohosts[j]@ == s;
                                assert(cohosts@[j]@ == s);
                            } else {
                                assert(cohosts@[pre_cohosts.len() as int]@ == s);
                            }
                        }
                        assert(id_set(cohosts@) =~= id_set(pre_cohosts).insert(hostsv[i as int]@));
                    }
                }
            },
            None => {},
        }
        i += 1;
    }
    let ghost cset = cohost_ids(hostsv, usersv, nh as int);
    let ns = event.speaker_ids.len();
    let mut j: usize = 0;
    while j < ns
        invariant
            ns == speakersv.len(),
            j <= ns,
            speakersv == event.speaker_ids@,
            usersv == users@,
            id_set(cohosts@) == cset,
            out@ == hosts_out(hostsv, usersv, hostsv.len() as int) + speakers_out(
                speakersv,
                usersv,
                cset,
                j as int,
            ),
            hostsv == event.host_ids@,
            nh == hostsv.len(),
        decreases ns - j,
    {
        if !vec_contains_string(&cohosts, &event.speaker_ids[j]) {
            match find_user_exec(users, &event.speaker_ids[j]) {
                Some(u) => {
                    out.push(ResolvedParticipant { role: ParticipantRole::Speaker, user: u });
                },
                None => {},
            }
        }
        proof {
            assert(out@ =~= hosts_out(hostsv, usersv, hostsv.len() as int) + speakers_out(
                speakersv,
                usersv,
                cset,
                j as int + 1,
            ));
        }
        j += 1;
    }
    out
}

/// A user record found for `id` carries that id.
pub proof fn lemma_find_user_id(users: Seq<UserRecord>, id: Seq<char>, n: int)
    requires
        find_user_from(users, id, n) is Some,
    ensures
        find_user_from(users, id, n)->0.id@ == id,
    decreases users.len() - n,
{
    if !(n < 0 || n >= users.len()) && users[n].id@ != id {
        lemma_find_user_id(users, id, n + 1);
    }
}

/// Law: when every one of the first `n` host ids resolves to a user record,
/// the host section holds exactly `n` lines, in the original id order: the
/// first labeled `Host`, every later one `CoHost`, each carrying the record
/// its id resolved to.
pub proof fn lemma_all_hosts_resolve(hosts: Seq<String>, users: Seq<UserRecord>, n: int)
    requires
        0 <= n <= hosts.len(),
        forall|k: int| 0 <= k < n ==> find_user(users, hosts[k]@) is Some,
    ensures
        hosts_out(hosts, users, n).len() == n,
        forall|k: int|
            0 <= k < n ==> #[trigger] hosts_out(hosts, users, n)[k] == (ResolvedParticipant {
                role: if k == 0 {
                    ParticipantRole::Host
                } else {
                    ParticipantRole::CoHost
                },
                user: find_user(users, hosts[k]@)->0,
            }),
    decreases n,
{
    if n > 0 {
        lemma_all_hosts_resolve(hosts, users, n - 1);
    }
}

/// Law: a speaker id recorded in the co-host set is excluded from the
/// speaker section — no speaker line's user id lies in `cohosts`, so no id
/// is reported both as a co-host and as a speaker.
pub proof fn lemma_speakers_exclude_cohosts(
    speakers: Seq<String>,
    users: Seq<UserRecord>,
    cohosts: Set<Seq<char>>,
    n: int,
)
    requires
        0 <= n <= speakers.len(),
    ensures
        (forall|k: int|
            0 <= k < speakers_out(speakers, users, cohosts, n).len() ==> !cohosts.contains(
                #[trigger] speakers_out(speakers, users, cohosts, n)[k].user.id@,
            )),
    decreases n,
{
    if n > 0 {
        lemma_speakers_exclude_cohosts(speakers, users, cohosts, n - 1);
        if !cohosts.contains(speakers[n - 1]@) && find_user(users, speakers[n - 1]@) is Some {
            lemma_find_user_id(users, speakers[n - 1]@, 0);
        }
    }
}

} // verus!
