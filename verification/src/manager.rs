use crate::priority::Priority;
use crate::render::{line_chars, line_matches, make_line, RenderLine};
use crate::task::Task;
use vstd::prelude::*;

verus! {

/// `s` is sorted by ascending priority rank (`High` first, `Low` last).
pub open spec fn sorted_by_priority(s: Seq<Task>) -> bool {
    forall|i: int, j: int|
        0 <= i <= j < s.len() ==> s[i].priority.rank_spec() <= s[j].priority.rank_spec()
}

/// The first position of `s` whose task ranks strictly above `r`, or the
/// length of `s` when no task does.
pub open spec fn insert_pos(s: Seq<Task>, r: int) -> int
    decreases s.len(),
{
    if s.len() == 0 {
        0
    } else if s[0].priority.rank_spec() <= r {
        1 + insert_pos(s.subrange(1, s.len() as int), r)
    } else {
        0
    }
}

/// `s` with `t` inserted behind every task of equal or smaller rank: the
/// result of appending `t` to `s` and sorting stably by priority.
pub open spec fn stable_insert(s: Seq<Task>, t: Task) -> Seq<Task> {
    s.insert(insert_pos(s, t.priority.rank_spec()), t)
}

/// The insertion position for rank `r` lies within `s`, every task before it
/// ranks at or below `r`, and the task standing at it, if any, ranks above
/// `r`.
pub proof fn lemma_insert_pos_bounds(s: Seq<Task>, r: int)
    ensures
        0 <= insert_pos(s, r) <= s.len(),
        forall|j: int| 0 <= j < insert_pos(s, r) ==> s[j].priority.rank_spec() <= r,
        insert_pos(s, r) < s.len() ==> s[insert_pos(s, r)].priority.rank_spec() > r,
    decreases s.len(),
{
    if s.len() > 0 && s[0].priority.rank_spec() <= r {
        let rest = s.subrange(1, s.len() as int);
        lemma_insert_pos_bounds(rest, r);
        let p = insert_pos(s, r);
        assert forall|j: int| 0 <= j < p implies s[j].priority.rank_spec() <= r by {
            if j > 0 {
                assert(rest[j - 1] == s[j]);
            }
        }
        if p < s.len() {
            assert(rest[p - 1] == s[p]);
        }
    }
}

/// An index whose whole prefix ranks at or below `r`, and which is the end
/// of `s` or ranks above `r` itself, is the insertion position for `r`.
proof fn lemma_insert_pos_is(s: Seq<Task>, r: int, i: int)
    requires
        0 <= i <= s.len(),
        forall|j: int| 0 <= j < i ==> s[j].priority.rank_spec() <= r,
        i < s.len() ==> s[i].priority.rank_spec() > r,
    ensures
        insert_pos(s, r) == i,
    decreases s.len(),
{
    if s.len() > 0 && s[0].priority.rank_spec() <= r {
        let rest = s.subrange(1, s.len() as int);
        assert(i > 0);
        assert forall|j: int| 0 <= j < i - 1 implies rest[j].priority.rank_spec() <= r by {
            assert(rest[j] == s[j + 1]);
        }
        if i - 1 < rest.len() {
            assert(rest[i - 1] == s[i]);
        }
        lemma_insert_pos_is(rest, r, i - 1);
    }
}

/// Law: inserting a task into a priority-sorted sequence keeps it sorted,
/// places the new task after every task of equal or smaller rank and before
/// every task of strictly greater rank, and keeps the other tasks in their
/// old relative order. With insertion-order ties this is exactly a stable
/// sort by priority.
pub proof fn lemma_stable_insert_sorted(s: Seq<Task>, t: Task)
    requires
        sorted_by_priority(s),
    ensures
        sorted_by_priority(stable_insert(s, t)),
        ({
            let p = insert_pos(s, t.priority.rank_spec());
            &&& 0 <= p <= s.len()
            &&& stable_insert(s, t) == s.insert(p, t)
            &&& forall|j: int|
                0 <= j < p ==> s[j].priority.rank_spec() <= t.priority.rank_spec()
            &&& forall|j: int|
                p <= j < s.len() ==> s[j].priority.rank_spec() > t.priority.rank_spec()
            &&& forall|j: int| 0 <= j < p ==> stable_insert(s, t)[j] == s[j]
            &&& stable_insert(s, t)[p] == t
            &&& forall|j: int| p <= j < s.len() ==> stable_insert(s, t)[j + 1] == s[j]
        }),
{
    let r = t.priority.rank_spec();
    let p = insert_pos(s, r);
    lemma_insert_pos_bounds(s, r);
    assert forall|j: int| p <= j < s.len() implies s[j].priority.rank_spec() > r by {
        assert(s[p].priority.rank_spec() <= s[j].priority.rank_spec());
    }
    s.insert_ensures(p, t);
    let u = stable_insert(s, t);
    assert forall|i: int, j: int|
        0 <= i <= j < u.len() implies u[i].priority.rank_spec() <= u[j].priority.rank_spec() by {
        if i < p {
            assert(u[i] == s[i]);
        }
        if j < p {
            assert(u[j] == s[j]);
        }
        if p < i {
            assert(u[i] == s[i - 1]);
        }
        if p < j {
            assert(u[j] == s[j - 1]);
        }
    }
}

/// Owns the ordered task list and keeps it sorted by priority.
pub struct TaskManager {
    tasks: Vec<Task>,
}

impl View for TaskManager {
    type V = Seq<Task>;

    closed spec fn view(&self) -> Seq<Task> {
        self.tasks@
    }
}

impl TaskManager {
    /// The manager's invariant: its tasks stand in priority order. It holds
    /// from creation on and every operation preserves it.
    pub open spec fn inv(&self) -> bool {
        sorted_by_priority(self@)
    }

    /// An empty task list.
    pub fn new() -> (m: TaskManager)
        ensures
            m@ =~= Seq::<Task>::empty(),
            m.inv(),
    {
        TaskManager { tasks: Vec::new() }
    }

    /// The number of tasks currently held.
    pub fn len(&self) -> (n: usize)
        ensures
            n == self@.len(),
    {
        self.tasks.len()
    }

    /// Adds a task, not yet completed, at its priority's place: behind every
    /// task of equal or more urgent priority, before every less urgent one.
    /// Never fails; positions of other tasks may shift.
    pub fn add_task(&mut self, description: String, priority: Priority, due_time: Option<i64>)
        ensures
            final(self)@ == stable_insert(
                old(self)@,
                (Task { description, completed: false, priority, due_time }),
            ),
            old(self).inv() ==> final(self).inv(),
    {
        let t = Task::new(description, priority, due_time);
        let r: u8 = t.priority.rank();
        let ghost s = self.tasks@;
        let mut i: usize = 0;
        while i < self.tasks.len() && self.tasks[i].priority.rank() <= r
            invariant
                self.tasks@ == s,
                t.priority.rank_spec() == r as int,
                0 <= i <= s.len(),
                forall|j: int| 0 <= j < i ==> s[j].priority.rank_spec() <= r as int,
            decreases s.len() - i,
        {
            i += 1;
        }
        proof {
            lemma_insert_pos_is(s, r as int, i as int);
        }
        self.tasks.insert(i, t);
        proof {
            if sorted_by_priority(s) {
                lemma_stable_insert_sorted(s, t);
            }
        }
    }

    /// Marks the task at `index` as completed and changes nothing else; on an
    /// out-of-bounds index the whole list is left unchanged (a deliberate
    /// silent no-op). Marking an already completed task again is idempotent.
    pub fn complete_task(&mut self, index: usize)
        ensures
            index < old(self)@.len() ==> final(self)@ == old(self)@.update(
                index as int,
                old(self)@[index as int].marked_done(),
            ),
            index >= old(self)@.len() ==> final(self)@ == old(self)@,
            old(self).inv() ==> final(self).inv(),
    {
        let ghost s = self.tasks@;
        if index < self.tasks.len() {
            let t = self.tasks.remove(index);
            let done = Task { completed: true, ..t };
            self.tasks.insert(index, done);
            proof {
                s.remove_ensures(index as int);
                s.remove(index as int).insert_ensures(index as int, done);
                assert(self.tasks@ =~= s.update(index as int, s[index as int].marked_done()));
                if sorted_by_priority(s) {
                    assert forall|a: int, b: int|
                        0 <= a <= b < self.tasks@.len() implies self.tasks@[a].priority.rank_spec()
                        <= self.tasks@[b].priority.rank_spec() by {
                        assert(self.tasks@[a].priority == s[a].priority);
                        assert(self.tasks@[b].priority == s[b].priority);
                    }
                }
            }
        }
    }

    /// One display line per task, in the current order, with the due-time
    /// status judged against the instant `now` (seconds of local wall-clock
    /// time).
    pub fn render(&self, now: i64) -> (lines: Vec<RenderLine>)
        ensures
            lines@.len() == self@.len(),
            lines_match_at(self@, lines@, now as int),
    {
        let mut lines: Vec<RenderLine> = Vec::new();
        let mut i: usize = 0;
        while i < self.tasks.len()
            invariant
                0 <= i <= self.tasks@.len(),
                lines@.len() == i,
                forall|j: int|
                    0 <= j < i ==> line_matches(#[trigger] lines@[j], self.tasks@[j], j as nat, now as int),
            decreases self.tasks@.len() - i,
        {
            let line = make_line(&self.tasks[i], i, now);
            lines.push(line);
            i += 1;
        }
        lines
    }

    /// The full text of each display line, in the current order, with the
    /// due-time status judged against the instant `now`.
    pub fn render_text(&self, now: i64) -> (lines: Vec<String>)
        ensures
            lines@.len() == self@.len(),
            forall|i: int|
                0 <= i < self@.len() ==> (#[trigger] lines@[i])@ == line_chars(
                    self@[i],
                    i as nat,
                    now as int,
                ),
    {
        let rendered = self.render(now);
        let mut lines: Vec<String> = Vec::new();
        let mut i: usize = 0;
        while i < rendered.len()
            invariant
                rendered@.len() == self@.len(),
                lines_match_at(self@, rendered@, now as int),
                0 <= i <= rendered@.len(),
                lines@.len() == i,
                forall|j: int|
                    0 <= j < i ==> (#[trigger] lines@[j])@ == line_chars(
                        self@[j],
                        j as nat,
                        now as int,
                    ),
            decreases rendered@.len() - i,
        {
            lines.push(rendered[i].text());
            i += 1;
        }
        lines
    }

    /// One display line per task, judged against the wall clock read afresh
    /// at this call.
    pub fn render_now(&self) -> (lines: Vec<RenderLine>)
        ensures
            lines@.len() == self@.len(),
            exists|now: int| lines_match_at(self@, lines@, now),
    {
        let now = crate::clock::now_local_seconds();
        let lines = self.render(now);
        proof {
            assert(lines_match_at(self@, lines@, now as int));
        }
        lines
    }
}

/// Each of `lines` renders the task of `tasks` at its position, judged at
/// time `now`, and there is one line per task.
pub open spec fn lines_match_at(tasks: Seq<Task>, lines: Seq<RenderLine>, now: int) -> bool {
    &&& lines.len() == tasks.len()
    &&& forall|i: int|
        0 <= i < tasks.len() ==> line_matches(#[trigger] lines[i], tasks[i], i as nat, now)
}

} // verus!
