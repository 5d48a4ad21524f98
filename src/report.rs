use vstd::prelude::*;
use vstd::string::StringExecFns;
use crate::coverage::{Coverage, CounterType};

verus! {

/// The counts behind one emitted metric.
#[derive(Clone, Copy, Debug, PartialEq, Eq, Structural)]
pub struct Ratio {
    pub metric: CounterType,
    pub covered: u64,
    pub missed: u64,
}

/// The decimal digit `d` as text.
pub open spec fn digit_text(d: nat) -> Seq<char> {
    if d == 0 {
        "0"@
    } else if d == 1 {
        "1"@
    } else if d == 2 {
        "2"@
    } else if d == 3 {
        "3"@
    } else if d == 4 {
        "4"@
    } else if d == 5 {
        "5"@
    } else if d == 6 {
        "6"@
    } else if d == 7 {
        "7"@
    } else if d == 8 {
        "8"@
    } else {
        "9"@
    }
}

/// The decimal digit `d` as text.
fn digit(d: u64) -> (r: &'static str)
    requires
        d < 10,
    ensures
        r@ == digit_text(d as nat),
{
    match d {
        0 => "0",
        1 => "1",
        2 => "2",
        3 => "3",
        4 => "4",
        5 => "5",
        6 => "6",
        7 => "7",
        8 => "8",
        _ => "9",
    }
}

impl Ratio {
    /// Covered plus missed units.
    pub open spec fn total(self) -> nat {
        (self.covered + self.missed) as nat
    }

    /// `covered / total` in hundredths, rounded to the nearest, with halves
    /// rounded up (away from zero).
    pub open spec fn hundredths_spec(self) -> nat
        recommends
            self.total() > 0,
    {
        ((200 * self.covered + self.total()) / (2 * self.total() as int)) as nat
    }

    /// The line `<name>: <ratio with two decimals>` for this metric.
    pub open spec fn line_spec(self) -> Seq<char>
        recommends
            self.total() > 0,
    {
        let h = self.hundredths_spec();
        self.metric.metric_name() + ": "@ + digit_text(h / 100) + "."@ + digit_text((h / 10) % 10)
            + digit_text(h % 10)
    }

    /// `covered / total` in hundredths, rounded half up.
    pub fn hundredths(&self) -> (r: u64)
        requires
            self.total() > 0,
        ensures
            r == self.hundredths_spec(),
            r <= 100,
    {
        let covered = self.covered as u128;
        let total = self.covered as u128 + self.missed as u128;
        let h = (200 * covered + total) / (2 * total);
        proof {
            lemma_hundredths_at_most_hundred(*self);
        }
        h as u64
    }

    /// The line `<name>: <ratio with two decimals>` for this metric.
    pub fn line(&self) -> (r: String)
        requires
            self.total() > 0,
        ensures
            r@ == self.line_spec(),
    {
        let h = self.hundredths();
        let mut s = self.metric.name().to_owned();
        s.append(": ");
        s.append(digit(h / 100));
        s.append(".");
        s.append(digit((h / 10) % 10));
        s.append(digit(h % 10));
        s
    }
}

/// A ratio never exceeds one hundred hundredths.
proof fn lemma_hundredths_at_most_hundred(r: Ratio)
    requires
        r.total() > 0,
    ensures
        r.hundredths_spec() <= 100,
{
    let t = r.total() as int;
    let cv = r.covered as int;
    assert((200 * cv + t) / (2 * t) <= 100) by (nonlinear_arith)
        requires
            0 <= cv <= t,
            t > 0,
    ;
}

/// The counts of metric `k` in `c`.
pub open spec fn ratio_of(c: Coverage, k: CounterType) -> Ratio {
    Ratio { metric: k, covered: c.covered_of(k), missed: c.missed_of(k) }
}

/// The ratios of the first `n` metrics of the reporting order that saw at
/// least one unit, in that order.
pub open spec fn emitted(c: Coverage, n: nat) -> Seq<Ratio>
    decreases n,
{
    if n == 0 {
        Seq::empty()
    } else {
        let prev = emitted(c, (n - 1) as nat);
        let r = ratio_of(c, CounterType::at_rank((n - 1) as nat));
        if r.total() > 0 {
            prev.push(r)
        } else {
            prev
        }
    }
}

/// What the reporter emits for `c`: one ratio for each metric that saw at
/// least one unit, in the order instruction, branch, line, complexity,
/// method, class.
pub open spec fn report_spec(c: Coverage) -> Seq<Ratio> {
    emitted(c, 6)
}

/// Each emitted ratio carries its metric's counts and a positive total,
/// and the ratios follow the reporting order.
proof fn lemma_emitted_entries(c: Coverage, n: nat)
    requires
        n <= 6,
    ensures
        forall|i: int|
            0 <= i < emitted(c, n).len() ==> {
                let r = #[trigger] emitted(c, n)[i];
                &&& r == ratio_of(c, r.metric)
                &&& r.total() > 0
                &&& r.metric.rank() < n
            },
        forall|i: int, j: int|
            0 <= i < j < emitted(c, n).len() ==> (#[trigger] emitted(c, n)[i]).metric.rank() < (
            #[trigger] emitted(c, n)[j]).metric.rank(),
    decreases n,
{
    if n > 0 {
        lemma_emitted_entries(c, (n - 1) as nat);
    }
}

/// Metric `k` is among the first `n` emitted exactly when it comes before
/// position `n` and saw at least one unit.
proof fn lemma_emitted_metrics(c: Coverage, n: nat, k: CounterType)
    requires
        n <= 6,
    ensures
        (exists|i: int| 0 <= i < emitted(c, n).len() && (#[trigger] emitted(c, n)[i]).metric == k)
            <==> (k.rank() < n && ratio_of(c, k).total() > 0),
    decreases n,
{
    if n > 0 {
        let prev = emitted(c, (n - 1) as nat);
        let cur = emitted(c, n);
        lemma_emitted_metrics(c, (n - 1) as nat, k);
        lemma_emitted_entries(c, (n - 1) as nat);
        assert(CounterType::at_rank(k.rank()) == k);
        if exists|i: int| 0 <= i < cur.len() && (#[trigger] cur[i]).metric == k {
            let i = choose|i: int| 0 <= i < cur.len() && (#[trigger] cur[i]).metric == k;
            if i < prev.len() {
                assert(prev[i].metric == k);
            }
        }
        if k.rank() < n && ratio_of(c, k).total() > 0 {
            if k.rank() < n - 1 {
                let i = choose|i: int| 0 <= i < prev.len() && (#[trigger] prev[i]).metric == k;
                assert(cur[i].metric == k);
            } else {
                assert(cur[cur.len() - 1].metric == k);
            }
        }
    }
}

/// Every emitted ratio lies between zero and one: its total is positive,
/// its covered count is at most that total, and its rounded value is at
/// most one hundred hundredths.
pub proof fn lemma_report_ratios_in_unit_range(c: Coverage)
    ensures
        forall|i: int|
            0 <= i < report_spec(c).len() ==> {
                let r = #[trigger] report_spec(c)[i];
                &&& r.total() > 0
                &&& r.covered <= r.total()
                &&& r.hundredths_spec() <= 100
            },
{
    lemma_emitted_entries(c, 6);
    assert forall|i: int| 0 <= i < report_spec(c).len() implies (#[trigger] report_spec(
        c,
    )[i]).hundredths_spec() <= 100 by {
        lemma_hundredths_at_most_hundred(report_spec(c)[i]);
    }
}

/// A metric is emitted exactly when its covered and missed counts add up to
/// more than zero, and an emitted ratio carries that metric's counts.
pub proof fn lemma_report_emits_observed_metrics(c: Coverage, k: CounterType)
    ensures
        (exists|i: int| 0 <= i < report_spec(c).len() && (#[trigger] report_spec(c)[i]).metric == k)
            <==> c.covered_of(k) + c.missed_of(k) > 0,
        forall|i: int|
            0 <= i < report_spec(c).len() ==> #[trigger] report_spec(c)[i] == ratio_of(
                c,
                report_spec(c)[i].metric,
            ),
{
    lemma_emitted_metrics(c, 6, k);
    lemma_emitted_entries(c, 6);
}

/// The metrics of `c` that saw at least one unit, in the order instruction,
/// branch, line, complexity, method, class.
pub fn report(c: &Coverage) -> (r: Vec<Ratio>)
    ensures
        r@ == report_spec(*c),
{
    let mut out: Vec<Ratio> = Vec::new();
    let mut n: usize = 0;
    while n < 6
        invariant
            n <= 6,
            out@ == emitted(*c, n as nat),
        decreases 6 - n,
    {
        let k = CounterType::nth(n);
        let (covered, missed) = c.counts(k);
        if covered > 0 || missed > 0 {
            out.push(Ratio { metric: k, covered, missed });
        }
        n = n + 1;
    }
    out
}

} // verus!
