//! Decisions of the event handlers: where a text event is routed, and how an
//! invite is answered.  The transport layer performs the sending; everything
//! decided about an event is decided here.

use crate::config::MatrixListenerConfig;
use crate::messages::{MatrixInviteMessage, MatrixInviteType, MatrixMessage, MatrixMessageType};
use crate::util::{contains_string, str_seq_contains};
use vstd::prelude::*;
use vstd::string::StrSliceExecFns;

verus! {

/// Which handler a text event is dispatched to.
#[derive(Debug, PartialEq, Eq, Structural)]
pub enum TextEventRoute {
    /// No leading bang: the commandless handler (corrections, inline unit
    /// conversions, keyword linking and the like).
    Commandless,
    /// The explicit conversion command.
    UnitConversion,
    /// The help command.
    Help,
    /// The ban command.
    Ban,
    /// A bang command the bot does not know: nothing to do.
    Ignored,
}

/// Case-insensitive match of one character against a lowercase pattern
/// character, ASCII letters only.
pub open spec fn ascii_matches_ci(c: char, p: char) -> bool {
    c == p || (65 <= c as u32 <= 90 && c as u32 + 32 == p as u32)
}

/// Whether `s` starts with the lowercase ASCII pattern `pat`, matching
/// letters of either case.
pub open spec fn starts_with_ci(s: Seq<char>, pat: Seq<char>) -> bool {
    s.len() >= pat.len() && forall|i: int|
        0 <= i < pat.len() ==> ascii_matches_ci(s[i], #[trigger] pat[i])
}

/// The conversion command prefix.
pub open spec fn convert_prefix() -> Seq<char> {
    seq!['!', 'c', 'o', 'n', 'v', 'e', 'r', 't', ' ']
}

/// The help command prefix.
pub open spec fn help_prefix() -> Seq<char> {
    seq!['!', 'h', 'e', 'l', 'p']
}

/// The ban command prefix.
pub open spec fn ban_prefix() -> Seq<char> {
    seq!['!', 'b', 'a', 'n']
}

/// Where a text body is routed: no leading bang goes to the commandless
/// handler; the known commands are matched without regard to letter case;
/// any other bang command is ignored.
pub open spec fn route_of(body: Seq<char>) -> TextEventRoute {
    if body.len() == 0 || body[0] != '!' {
        TextEventRoute::Commandless
    } else if starts_with_ci(body, convert_prefix()) {
        TextEventRoute::UnitConversion
    } else if starts_with_ci(body, help_prefix()) {
        TextEventRoute::Help
    } else if starts_with_ci(body, ban_prefix()) {
        TextEventRoute::Ban
    } else {
        TextEventRoute::Ignored
    }
}

/// Whether `s` starts with the lowercase ASCII pattern `pat`, matching
/// letters of either case.
#[verifier::loop_isolation(false)]
fn str_starts_with_ci(s: &String, pat: &str) -> (r: bool)
    ensures
        r == starts_with_ci(s@, pat@),
{
    let sl = s.as_str();
    let n = sl.unicode_len();
    let m = pat.unicode_len();
    if n < m {
        return false;
    }
    for i in 0..m
        invariant
            forall|j: int| 0 <= j < i ==> ascii_matches_ci(s@[j], #[trigger] pat@[j]),
    {
        let a = sl.get_char(i);
        let b = pat.get_char(i);
        let ok = a == b || (a as u32 >= 65 && a as u32 <= 90 && a as u32 + 32 == b as u32);
        if !ok {
            return false;
        }
    }
    true
}

/// Dispatches a text event by its body, as [`route_of`] describes.
pub fn route_text_event(body: &String) -> (r: TextEventRoute)
    ensures
        r == route_of(body@),
{
    let sl = body.as_str();
    let n = sl.unicode_len();
    let leading_bang = n > 0 && sl.get_char(0) == '!';
    if !leading_bang {
        return TextEventRoute::Commandless;
    }
    proof {
        reveal_strlit("!convert ");
        reveal_strlit("!help");
        reveal_strlit("!ban");
        assert("!convert "@ =~= convert_prefix());
        assert("!help"@ =~= help_prefix());
        assert("!ban"@ =~= ban_prefix());
    }
    if str_starts_with_ci(body, "!convert ") {
        TextEventRoute::UnitConversion
    } else if str_starts_with_ci(body, "!help") {
        TextEventRoute::Help
    } else if str_starts_with_ci(body, "!ban") {
        TextEventRoute::Ban
    } else {
        TextEventRoute::Ignored
    }
}

/// Answers a room invite: accepted iff the sender is an admin, declined
/// otherwise, addressed to the inviting room either way.
pub fn invite_event_response(sender: &String, room_id: &String, config: &MatrixListenerConfig) -> (r:
    MatrixMessage)
    ensures
        r.room_id matches Some(rm) && rm@ == room_id@,
        r.message matches MatrixMessageType::Invite(m) && m.sender@ == sender@ && (m.kind
            == MatrixInviteType::Accept <==> str_seq_contains(config.admins.deep_view(), sender@)),
{
    let kind = if contains_string(&config.admins, sender) {
        MatrixInviteType::Accept
    } else {
        MatrixInviteType::Reject
    };
    MatrixMessage {
        room_id: Some(room_id.clone()),
        message: MatrixMessageType::Invite(
            MatrixInviteMessage { kind, sender: sender.clone() },
        ),
    }
}

} // verus!
