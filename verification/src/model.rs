//! Data model for one polling cycle: the decoded search response, the events
//! extracted from it, user records, and participant roles.

use vstd::prelude::*;

verus! {

/// A user record from the response's `includes.users` collection.
pub struct UserRecord {
    pub id: String,
    pub name: String,
    pub username: String,
}

/// One element of the response's `data` array, as decoded from the raw
/// payload. `host_ids` or `speaker_ids` is `None` when the corresponding
/// field could not be read as an array; the parser then skips the event.
pub struct RawSpace {
    pub id: String,
    pub state: String,
    pub title: String,
    pub started_at: String,
    pub participant_count: String,
    pub host_ids: Option<Vec<String>>,
    pub speaker_ids: Option<Vec<String>>,
}

/// The response's `includes` object. `users` is `None` when the `users`
/// field could not be read as an array.
pub struct RawIncludes {
    pub users: Option<Vec<UserRecord>>,
}

/// A decoded search response. A `None` field means the corresponding object
/// or array was absent or malformed; the parser then reports nothing for the
/// whole response.
pub struct RawResponse {
    pub data: Option<Vec<RawSpace>>,
    pub includes: Option<RawIncludes>,
}

/// A live, not-yet-reported room accepted by the parser.
pub struct SpaceEvent {
    pub id: String,
    pub title: String,
    pub started_at: String,
    pub participant_count: String,
    pub host_ids: Vec<String>,
    pub speaker_ids: Vec<String>,
}

/// The mathematical value of a [`SpaceEvent`]: its strings as character
/// sequences and its id lists as sequences.
pub struct SpaceEventView {
    pub id: Seq<char>,
    pub title: Seq<char>,
    pub started_at: Seq<char>,
    pub participant_count: Seq<char>,
    pub host_ids: Seq<String>,
    pub speaker_ids: Seq<String>,
}

impl View for SpaceEvent {
    type V = SpaceEventView;

    open spec fn view(&self) -> SpaceEventView {
        SpaceEventView {
            id: self.id@,
            title: self.title@,
            started_at: self.started_at@,
            participant_count: self.participant_count@,
            host_ids: self.host_ids@,
            speaker_ids: self.speaker_ids@,
        }
    }
}

/// The views of a sequence of accepted events.
pub open spec fn event_views(events: Seq<SpaceEvent>) -> Seq<SpaceEventView> {
    events.map_values(|e: SpaceEvent| e@)
}

/// The views of a sequence of strings.
pub open spec fn string_views(v: Seq<String>) -> Seq<Seq<char>> {
    v.map_values(|s: String| s@)
}

/// The role label attached to a resolved participant line.
#[derive(Clone, Copy, PartialEq, Eq, Structural, Debug)]
pub enum ParticipantRole {
    Host,
    CoHost,
    Speaker,
}

/// A participant line: a role label and the user record it resolved to.
pub struct ResolvedParticipant {
    pub role: ParticipantRole,
    pub user: UserRecord,
}

/// Copies a user record; the copy holds the same strings.
pub fn copy_user(u: &UserRecord) -> (r: UserRecord)
    ensures
        r == *u,
{
    UserRecord { id: u.id.clone(), name: u.name.clone(), username: u.username.clone() }
}

/// Copies a list of strings; the copy's view equals the original's.
pub fn copy_strings(v: &Vec<String>) -> (r: Vec<String>)
    ensures
        r@ == v@,
{
    let n = v.len();
    let mut r: Vec<String> = Vec::new();
    let mut i: usize = 0;
    while i < n
        invariant
            n == v@.len(),
            i <= n,
            r@.len() == i,
            forall|j: int| 0 <= j < i ==> r@[j] == v@[j],
        decreases n - i,
    {
        r.push(v[i].clone());
        i += 1;
    }
    proof {
        assert(r@ =~= v@);
    }
    r
}

} // verus!
