use vstd::prelude::*;

verus! {

/// The urgency of a task. `High` sorts first, `Low` last.
#[derive(Clone, Copy, PartialEq, Eq, Structural, Debug)]
pub enum Priority {
    High,
    Medium,
    Low,
}

/// A terminal color a piece of a display line is rendered in.
#[derive(Clone, Copy, PartialEq, Eq, Structural, Debug)]
pub enum DisplayColor {
    Red,
    Yellow,
    Green,
}

impl Priority {
    /// Position of this priority in the sort order: `High` before `Medium`
    /// before `Low`.
    pub open spec fn rank_spec(self) -> int {
        match self {
            Priority::High => 0,
            Priority::Medium => 1,
            Priority::Low => 2,
        }
    }

    /// The fixed color each priority is displayed in.
    pub open spec fn color_spec(self) -> DisplayColor {
        match self {
            Priority::High => DisplayColor::Red,
            Priority::Medium => DisplayColor::Yellow,
            Priority::Low => DisplayColor::Green,
        }
    }

    /// The sort key of this priority.
    pub fn rank(&self) -> (r: u8)
        ensures
            r as int == self.rank_spec(),
    {
        match self {
            Priority::High => 0,
            Priority::Medium => 1,
            Priority::Low => 2,
        }
    }

    /// Maps each priority to its display color.
    pub fn color(&self) -> (c: DisplayColor)
        ensures
            c == self.color_spec(),
    {
        match self {
            Priority::High => DisplayColor::Red,
            Priority::Medium => DisplayColor::Yellow,
            Priority::Low => DisplayColor::Green,
        }
    }
}

} // verus!
