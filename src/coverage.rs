use vstd::prelude::*;
use crate::text::same_text;

verus! {

/// The six kinds of counter that a coverage report carries.
#[derive(Clone, Copy, Debug, PartialEq, Eq, Structural)]
pub enum CounterType {
    Instruction,
    Branch,
    Line,
    Complexity,
    Method,
    Class,
}

impl CounterType {
    /// Position of the metric in the fixed reporting order.
    pub open spec fn rank(self) -> nat {
        match self {
            CounterType::Instruction => 0,
            CounterType::Branch => 1,
            CounterType::Line => 2,
            CounterType::Complexity => 3,
            CounterType::Method => 4,
            CounterType::Class => 5,
        }
    }

    /// The metric at position `i` of the reporting order.
    pub open spec fn at_rank(i: nat) -> CounterType {
        if i == 0 {
            CounterType::Instruction
        } else if i == 1 {
            CounterType::Branch
        } else if i == 2 {
            CounterType::Line
        } else if i == 3 {
            CounterType::Complexity
        } else if i == 4 {
            CounterType::Method
        } else {
            CounterType::Class
        }
    }

    /// The metric at position `i` of the reporting order.
    pub fn nth(i: usize) -> (r: CounterType)
        requires
            i < 6,
        ensures
            r == CounterType::at_rank(i as nat),
            r.rank() == i,
    {
        match i {
            0 => CounterType::Instruction,
            1 => CounterType::Branch,
            2 => CounterType::Line,
            3 => CounterType::Complexity,
            4 => CounterType::Method,
            _ => CounterType::Class,
        }
    }

    /// The literal that names the counter in a report's `type` attribute.
    pub open spec fn literal(self) -> Seq<char> {
        match self {
            CounterType::Instruction => "INSTRUCTION"@,
            CounterType::Branch => "BRANCH"@,
            CounterType::Line => "LINE"@,
            CounterType::Complexity => "COMPLEXITY"@,
            CounterType::Method => "METHOD"@,
            CounterType::Class => "CLASS"@,
        }
    }

    /// The lower-case metric name used in the ratio lines.
    pub open spec fn metric_name(self) -> Seq<char> {
        match self {
            CounterType::Instruction => "instruction"@,
            CounterType::Branch => "branch"@,
            CounterType::Line => "line"@,
            CounterType::Complexity => "complexity"@,
            CounterType::Method => "method"@,
            CounterType::Class => "class"@,
        }
    }

    /// The lower-case metric name used in the ratio lines.
    pub fn name(&self) -> (r: &'static str)
        ensures
            r@ == self.metric_name(),
    {
        match self {
            CounterType::Instruction => "instruction",
            CounterType::Branch => "branch",
            CounterType::Line => "line",
            CounterType::Complexity => "complexity",
            CounterType::Method => "method",
            CounterType::Class => "class",
        }
    }
}

/// The counter whose literal is exactly `s`, if any (case-sensitive).
pub open spec fn counter_type_from(s: Seq<char>) -> Option<CounterType> {
    if s == CounterType::Instruction.literal() {
        Some(CounterType::Instruction)
    } else if s == CounterType::Branch.literal() {
        Some(CounterType::Branch)
    } else if s == CounterType::Line.literal() {
        Some(CounterType::Line)
    } else if s == CounterType::Complexity.literal() {
        Some(CounterType::Complexity)
    } else if s == CounterType::Method.literal() {
        Some(CounterType::Method)
    } else if s == CounterType::Class.literal() {
        Some(CounterType::Class)
    } else {
        None
    }
}

/// Maps a `type` attribute to its counter by exact, case-sensitive match.
pub fn counter_type_of(s: &str) -> (r: Option<CounterType>)
    ensures
        r == counter_type_from(s@),
{
    if same_text(s, "INSTRUCTION") {
        Some(CounterType::Instruction)
    } else if same_text(s, "BRANCH") {
        Some(CounterType::Branch)
    } else if same_text(s, "LINE") {
        Some(CounterType::Line)
    } else if same_text(s, "COMPLEXITY") {
        Some(CounterType::Complexity)
    } else if same_text(s, "METHOD") {
        Some(CounterType::Method)
    } else if same_text(s, "CLASS") {
        Some(CounterType::Class)
    } else {
        None
    }
}

/// Covered and missed counts for each of the six metrics.
#[derive(Clone, Copy, Debug, PartialEq, Eq, Structural)]
pub struct Coverage {
    pub branch_covered: u64,
    pub branch_missed: u64,
    pub class_covered: u64,
    pub class_missed: u64,
    pub complexity_covered: u64,
    pub complexity_missed: u64,
    pub instruction_covered: u64,
    pub instruction_missed: u64,
    pub line_covered: u64,
    pub line_missed: u64,
    pub method_covered: u64,
    pub method_missed: u64,
}

impl Coverage {
    /// The aggregate with every count at zero.
    pub open spec fn empty() -> Coverage {
        Coverage {
            branch_covered: 0,
            branch_missed: 0,
            class_covered: 0,
            class_missed: 0,
            complexity_covered: 0,
            complexity_missed: 0,
            instruction_covered: 0,
            instruction_missed: 0,
            line_covered: 0,
            line_missed: 0,
            method_covered: 0,
            method_missed: 0,
        }
    }

    /// The covered count of metric `k`.
    pub open spec fn covered_of(self, k: CounterType) -> u64 {
        match k {
            CounterType::Instruction => self.instruction_covered,
            CounterType::Branch => self.branch_covered,
            CounterType::Line => self.line_covered,
            CounterType::Complexity => self.complexity_covered,
            CounterType::Method => self.method_covered,
            CounterType::Class => self.class_covered,
        }
    }

    /// The missed count of metric `k`.
    pub open spec fn missed_of(self, k: CounterType) -> u64 {
        match k {
            CounterType::Instruction => self.instruction_missed,
            CounterType::Branch => self.branch_missed,
            CounterType::Line => self.line_missed,
            CounterType::Complexity => self.complexity_missed,
            CounterType::Method => self.method_missed,
            CounterType::Class => self.class_missed,
        }
    }

    /// The aggregate with metric `k` set to `covered` and `missed`, all
    /// other metrics unchanged.
    pub open spec fn with_counts(self, k: CounterType, covered: u64, missed: u64) -> Coverage {
        match k {
            CounterType::Instruction => Coverage {
                instruction_covered: covered,
                instruction_missed: missed,
                ..self
            },
            CounterType::Branch => Coverage { branch_covered: covered, branch_missed: missed, ..self },
            CounterType::Line => Coverage { line_covered: covered, line_missed: missed, ..self },
            CounterType::Complexity => Coverage {
                complexity_covered: covered,
                complexity_missed: missed,
                ..self
            },
            CounterType::Method => Coverage { method_covered: covered, method_missed: missed, ..self },
            CounterType::Class => Coverage { class_covered: covered, class_missed: missed, ..self },
        }
    }

    /// A new aggregate with every count at zero.
    pub fn new() -> (r: Coverage)
        ensures
            r == Coverage::empty(),
    {
        Coverage {
            branch_covered: 0,
            branch_missed: 0,
            class_covered: 0,
            class_missed: 0,
            complexity_covered: 0,
            complexity_missed: 0,
            instruction_covered: 0,
            instruction_missed: 0,
            line_covered: 0,
            line_missed: 0,
            method_covered: 0,
            method_missed: 0,
        }
    }

    /// The covered and missed counts of metric `k`.
    pub fn counts(&self, k: CounterType) -> (r: (u64, u64))
        ensures
            r == (self.covered_of(k), self.missed_of(k)),
    {
        match k {
            CounterType::Instruction => (self.instruction_covered, self.instruction_missed),
            CounterType::Branch => (self.branch_covered, self.branch_missed),
            CounterType::Line => (self.line_covered, self.line_missed),
            CounterType::Complexity => (self.complexity_covered, self.complexity_missed),
            CounterType::Method => (self.method_covered, self.method_missed),
            CounterType::Class => (self.class_covered, self.class_missed),
        }
    }

    /// Overwrites metric `k` with `covered` and `missed`.
    pub fn set_counts(&mut self, k: CounterType, covered: u64, missed: u64)
        ensures
            *final(self) == old(self).with_counts(k, covered, missed),
    {
        match k {
            CounterType::Instruction => {
                self.instruction_covered = covered;
                self.instruction_missed = missed;
            },
            CounterType::Branch => {
                self.branch_covered = covered;
                self.branch_missed = missed;
            },
            CounterType::Line => {
                self.line_covered = covered;
                self.line_missed = missed;
            },
            CounterType::Complexity => {
                self.complexity_covered = covered;
                self.complexity_missed = missed;
            },
            CounterType::Method => {
                self.method_covered = covered;
                self.method_missed = missed;
            },
            CounterType::Class => {
                self.class_covered = covered;
                self.class_missed = missed;
            },
        }
    }
}

} // verus!
