//! The output driver: two lines held at opposite levels through a set/reset
//! register, where a single write raises one line and lowers the other.

use vstd::prelude::*;

verus! {

/// Value of a pin's 2-bit mode field that selects general-purpose output.
pub const GENERAL_PURPOSE_OUTPUT: u8 = 1;

/// One of the two output lines.
#[derive(Clone, Copy, Debug, PartialEq, Eq, Structural)]
pub enum Line {
    One,
    Two,
}

/// One write to the set/reset register: the set bit of one line together
/// with the reset bit of the other.
#[derive(Clone, Copy, Debug, PartialEq, Eq, Structural)]
pub struct PairWrite {
    /// The line whose set bit is written. The reset bit written with it is
    /// that of the other line.
    pub high: Line,
}

/// The levels of the two lines; `true` is high.
#[derive(Clone, Copy, Debug, PartialEq, Eq, Structural)]
pub struct Levels {
    /// Level of line one.
    pub one: bool,
    /// Level of line two.
    pub two: bool,
}

impl Line {
    /// The other of the two lines.
    pub open spec fn spec_other(self) -> Line {
        match self {
            Line::One => Line::Two,
            Line::Two => Line::One,
        }
    }

    /// The other of the two lines.
    pub fn other(self) -> (line: Line)
        ensures
            line == self.spec_other(),
    {
        match self {
            Line::One => Line::Two,
            Line::Two => Line::One,
        }
    }
}

impl PairWrite {
    /// The line whose set bit is written.
    pub open spec fn spec_high_line(self) -> Line {
        self.high
    }

    /// The line whose reset bit is written.
    pub open spec fn spec_low_line(self) -> Line {
        self.high.spec_other()
    }

    /// The line whose set bit is written: it goes high.
    pub fn high_line(&self) -> (line: Line)
        ensures
            line == self.spec_high_line(),
    {
        self.high
    }

    /// The line whose reset bit is written: it goes low.
    pub fn low_line(&self) -> (line: Line)
        ensures
            line == self.spec_low_line(),
    {
        self.high.other()
    }
}

impl Levels {
    /// The level of one line.
    pub open spec fn level(self, line: Line) -> bool {
        match line {
            Line::One => self.one,
            Line::Two => self.two,
        }
    }

    /// The levels after one write to the set/reset register: the line whose
    /// set bit was written is high, the line whose reset bit was written is
    /// low.
    pub open spec fn after(self, write: PairWrite) -> Levels {
        Levels {
            one: write.spec_high_line() == Line::One,
            two: write.spec_high_line() == Line::Two,
        }
    }

    /// Reads the level of one line.
    pub fn level_of(&self, line: Line) -> (high: bool)
        ensures
            high == self.level(line),
    {
        match line {
            Line::One => self.one,
            Line::Two => self.two,
        }
    }

    /// Performs one write to the set/reset register.
    pub fn apply(&mut self, write: PairWrite)
        ensures
            *final(self) == old(self).after(write),
    {
        match write.high {
            Line::One => {
                self.one = true;
                self.two = false;
            },
            Line::Two => {
                self.one = false;
                self.two = true;
            },
        }
    }
}

/// The write that drives `high_line` high and the other line low.
pub open spec fn spec_set_pair(high_line: Line) -> PairWrite {
    PairWrite { high: high_line }
}

/// Builds the single register write that drives `high_line` high and
/// `low_line` low.
#[allow(unused_variables)]
pub fn set_pair(high_line: Line, low_line: Line) -> (write: PairWrite)
    requires
        high_line != low_line,
    ensures
        write == spec_set_pair(high_line),
        write.spec_high_line() == high_line,
        write.spec_low_line() == low_line,
{
    PairWrite { high: high_line }
}

/// One pair write settles both lines at once, whatever they held before: the
/// line to be driven high is high, the other is low, so the two never rest
/// at the same level after the write.
pub proof fn lemma_pair_write_settles_both(before: Levels, high_line: Line, low_line: Line)
    requires
        high_line != low_line,
    ensures
        before.after(spec_set_pair(high_line)).level(high_line),
        !before.after(spec_set_pair(high_line)).level(low_line),
        before.after(spec_set_pair(high_line)).one != before.after(spec_set_pair(high_line)).two,
{
}

} // verus!
