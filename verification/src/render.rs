use crate::digits::{dec_digits, u64_to_string};
use crate::priority::DisplayColor;
use crate::task::Task;
use vstd::prelude::*;

verus! {

/// Characters of the status glyph: `[x]` when done, `[ ]` otherwise.
pub open spec fn status_glyph(completed: bool) -> Seq<char> {
    if completed {
        seq!['[', 'x', ']']
    } else {
        seq!['[', ' ', ']']
    }
}

/// Whole hours from `now` until `due`, truncated (1 h 59 min counts as 1).
pub open spec fn hours_until(due: int, now: int) -> int {
    (due - now) / 3600
}

/// Characters of the due-time suffix of a line: ` (Due in H hours)` while
/// the due time lies strictly in the future, ` (Overdue)` once it does not,
/// and nothing when the task has no due time.
pub open spec fn suffix_chars(due_time: Option<i64>, now: int) -> Seq<char> {
    match due_time {
        Option::None => Seq::empty(),
        Option::Some(d) => if d > now {
            seq![' ', '(', 'D', 'u', 'e', ' ', 'i', 'n', ' '] + dec_digits(
                hours_until(d as int, now) as nat,
            ) + seq![' ', 'h', 'o', 'u', 'r', 's', ')']
        } else {
            seq![' ', '(', 'O', 'v', 'e', 'r', 'd', 'u', 'e', ')']
        },
    }
}

/// Color of the suffix: green while there is time left, red once overdue;
/// green as the idle value when there is no suffix at all.
pub open spec fn suffix_color_spec(due_time: Option<i64>, now: int) -> DisplayColor {
    match due_time {
        Option::None => DisplayColor::Green,
        Option::Some(d) => if d > now {
            DisplayColor::Green
        } else {
            DisplayColor::Red
        },
    }
}

/// Characters of the body of a task's line: status glyph, current position,
/// then description, e.g. `[ ] 0: buy milk`.
pub open spec fn body_chars(t: Task, index: nat) -> Seq<char> {
    status_glyph(t.completed) + seq![' '] + dec_digits(index) + seq![':', ' '] + t.description@
}

/// Characters of a task's whole display line, body and suffix together.
pub open spec fn line_chars(t: Task, index: nat, now: int) -> Seq<char> {
    body_chars(t, index) + suffix_chars(t.due_time, now)
}

/// One display line of the listing. The body is shown in the task's own
/// priority color; the suffix (empty when the task has no due time) in the
/// fixed future or overdue color.
pub struct RenderLine {
    pub body: String,
    pub body_color: DisplayColor,
    pub suffix: String,
    pub suffix_color: DisplayColor,
}

/// `line` renders `t` as it stands at position `index`, judged at time `now`.
pub open spec fn line_matches(line: RenderLine, t: Task, index: nat, now: int) -> bool {
    &&& line.body@ == body_chars(t, index)
    &&& line.body_color == t.priority.color_spec()
    &&& line.suffix@ == suffix_chars(t.due_time, now)
    &&& line.suffix_color == suffix_color_spec(t.due_time, now)
}

impl RenderLine {
    /// The full text of the line, body and suffix together.
    pub fn text(&self) -> (r: String)
        ensures
            r@ == self.body@ + self.suffix@,
    {
        let mut r = self.body.clone();
        r.append(self.suffix.as_str());
        r
    }
}

/// The due-time suffix of a task due at `due`, judged at `now`, with its
/// color.
fn make_suffix(due: i64, now: i64) -> (r: (String, DisplayColor))
    ensures
        r.0@ == suffix_chars(Some(due), now as int),
        r.1 == suffix_color_spec(Some(due), now as int),
{
    if due > now {
        let diff_wide: i128 = due as i128 - now as i128;
        let diff: u64 = diff_wide as u64;
        let hours: u64 = diff / 3600;
        assert(hours as int == hours_until(due as int, now as int));
        let mut s = String::from_str(" (Due in ");
        let hour_digits = u64_to_string(hours);
        s.append(hour_digits.as_str());
        s.append(" hours)");
        proof {
            reveal_strlit(" (Due in ");
            reveal_strlit(" hours)");
            assert(" (Due in "@ =~= seq![' ', '(', 'D', 'u', 'e', ' ', 'i', 'n', ' ']);
            assert(" hours)"@ =~= seq![' ', 'h', 'o', 'u', 'r', 's', ')']);
        }
        (s, DisplayColor::Green)
    } else {
        let s = String::from_str(" (Overdue)");
        proof {
            reveal_strlit(" (Overdue)");
            assert(" (Overdue)"@ =~= seq![' ', '(', 'O', 'v', 'e', 'r', 'd', 'u', 'e', ')']);
        }
        (s, DisplayColor::Red)
    }
}

/// Builds the display line of task `t` at position `index`, judging its due
/// time against `now`.
pub fn make_line(t: &Task, index: usize, now: i64) -> (line: RenderLine)
    ensures
        line_matches(line, *t, index as nat, now as int),
{
    let mut body = String::from_str(if t.completed { "[x]" } else { "[ ]" });
    proof {
        reveal_strlit("[x]");
        reveal_strlit("[ ]");
        assert("[x]"@ =~= status_glyph(true));
        assert("[ ]"@ =~= status_glyph(false));
        reveal_strlit(" ");
        reveal_strlit(": ");
        assert(" "@ =~= seq![' ']);
        assert(": "@ =~= seq![':', ' ']);
    }
    body.append(" ");
    let index_digits = u64_to_string(index as u64);
    body.append(index_digits.as_str());
    body.append(": ");
    body.append(t.description.as_str());
    let (suffix, suffix_color): (String, DisplayColor) = match t.due_time {
        Option::None => (String::new(), DisplayColor::Green),
        Option::Some(d) => make_suffix(d, now),
    };
    RenderLine { body, body_color: t.priority.color(), suffix, suffix_color }
}

} // verus!
