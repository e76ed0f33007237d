//! Report rendering: composes an event, its resolved participant lines and
//! its elapsed-duration label into the final text block for one room.

use crate::model::{ParticipantRole, ResolvedParticipant, SpaceEvent, SpaceEventView};
use vstd::prelude::*;

verus! {

/// One participant line, indented by role.
pub open spec fn participant_line(p: ResolvedParticipant) -> Seq<char> {
    match p.role {
        ParticipantRole::Host => "    Host: "@ + p.user.name@ + " // "@ + p.user.username@
            + "\n"@,
        ParticipantRole::CoHost => "      Co-Host: "@ + p.user.name@ + " // "@ + p.user.username@
            + "\n"@,
        ParticipantRole::Speaker => "        Speaker: "@ + p.user.name@ + " // "@
            + p.user.username@ + "\n"@,
    }
}

/// The participant lines for the first `n` resolved participants, in order.
pub open spec fn participant_lines(ps: Seq<ResolvedParticipant>, n: int) -> Seq<char>
    decreases n,
{
    if n <= 0 {
        Seq::empty()
    } else {
        participant_lines(ps, n - 1) + participant_line(ps[n - 1])
    }
}

/// The full report text for one room: separator, title, raw start
/// timestamp, blank line, ranked participant lines, peek link, elapsed
/// duration, guest count.
pub open spec fn report_text(
    ev: SpaceEventView,
    parts: Seq<ResolvedParticipant>,
    duration: Seq<char>,
) -> Seq<char> {
    "--------------------------------------------------------------------------+++++\n"@
        + ev.title + "\n"@ + ev.started_at + "\n\n"@ + participant_lines(
        parts,
        parts.len() as int,
    ) + "\n=> https://twitter.com/i/spaces/"@ + ev.id + "/peek\n"@ + "=> Started: -"@ + duration
        + "\n"@ + "=> Guests: "@ + ev.participant_count + "\n"@
}

/// Renders the report for one room. Pure composition: no input is mutated.
pub fn render(
    event: &SpaceEvent,
    participants: &Vec<ResolvedParticipant>,
    duration: &str,
) -> (r: String)
    ensures
        r@ == report_text(event@, participants@, duration@),
{
    let mut r = String::from_str(
        "--------------------------------------------------------------------------+++++\n",
    );
    r.append(event.title.as_str());
    r.append("\n");
    r.append(event.started_at.as_str());
    r.append("\n\n");
    let ghost head = r@;
    let n = participants.len();
    let mut i: usize = 0;
    while i < n
        invariant
            n == participants@.len(),
            i <= n,
            r@ == head + participant_lines(participants@, i as int),
        decreases n - i,
    {
        let p = &participants[i];
        match p.role {
            ParticipantRole::Host => r.append("    Host: "),
            ParticipantRole::CoHost => r.append("      Co-Host: "),
            ParticipantRole::Speaker => r.append("        Speaker: "),
        }
        r.append(p.user.name.as_str());
        r.append(" // ");
        r.append(p.user.username.as_str());
        r.append("\n");
        proof {
            assert(r@ =~= head + participant_lines(participants@, i as int + 1));
        }
        i += 1;
    }
    r.append("\n=> https://twitter.com/i/spaces/");
    r.append(event.id.as_str());
    r.append("/peek\n");
    r.append("=> Started: -");
    r.append(duration);
    r.append("\n");
    r.append("=> Guests: ");
    r.append(event.participant_count.as_str());
    r.append("\n");
    proof {
        assert(r@ =~= report_text(event@, participants@, duration@));
    }
    r
}

} // verus!
