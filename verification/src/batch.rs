//! Batch processing: the input URL list is split into lines, blank
//! lines are skipped, every remaining URL is processed in order, and
//! failures are aggregated into a report — one item's failure never
//! stops the batch, which is why the report is a total function of
//! all the outcomes.

use vstd::prelude::*;

use crate::sheet::views_of;
use crate::text::{chars_of, string_of};

verus! {

/// The lines of a text: split on newline, empty lines kept (so a
/// text without characters is one empty line).
pub open spec fn lines_of(s: Seq<char>) -> Seq<Seq<char>>
    decreases s.len(),
{
    if s.len() == 0 {
        seq![Seq::empty()]
    } else {
        let rest = lines_of(s.drop_last());
        if s.last() == '\n' {
            rest.push(Seq::empty())
        } else {
            rest.update(rest.len() - 1, rest.last().push(s.last()))
        }
    }
}

/// A line list always holds at least one line.
pub proof fn lemma_lines_nonempty(s: Seq<char>)
    ensures
        lines_of(s).len() > 0,
    decreases s.len(),
{
    if s.len() > 0 {
        lemma_lines_nonempty(s.drop_last());
    }
}

/// Splits a text into its newline-delimited lines.
pub fn split_lines(input: &str) -> (r: Vec<String>)
    ensures
        views_of(r@) == lines_of(input@),
{
    let v = chars_of(input);
    let mut lines: Vec<String> = Vec::new();
    let mut cur: Vec<char> = Vec::new();
    let n = v.len();
    let mut i: usize = 0;
    while i < n
        invariant
            i <= n,
            n == v@.len(),
            v@ == input@,
            views_of(lines@).push(cur@) == lines_of(v@.take(i as int)),
        decreases n - i,
    {
        let c = v[i];
        proof {
            assert(v@.take(i as int).push(c) =~= v@.take(i + 1 as int));
            assert(v@.take(i + 1 as int).drop_last() =~= v@.take(i as int));
            lemma_lines_nonempty(v@.take(i as int));
        }
        if c == '\n' {
            lines.push(string_of(&cur));
            cur = Vec::new();
            proof {
                assert(views_of(lines@).push(cur@) =~= lines_of(v@.take(i + 1 as int)));
            }
        } else {
            cur.push(c);
            proof {
                assert(views_of(lines@).push(cur@) =~= lines_of(v@.take(i + 1 as int)));
            }
        }
        i = i + 1;
    }
    lines.push(string_of(&cur));
    proof {
        assert(v@.take(n as int) =~= v@);
        assert(views_of(lines@) =~= lines_of(input@));
    }
    lines
}

/// The non-blank entries of a line list, in order: the batch skips
/// blank input lines.
pub open spec fn nonempty_of(lines: Seq<Seq<char>>) -> Seq<Seq<char>>
    decreases lines.len(),
{
    if lines.len() == 0 {
        Seq::empty()
    } else {
        let rest = nonempty_of(lines.drop_last());
        if lines.last().len() > 0 {
            rest.push(lines.last())
        } else {
            rest
        }
    }
}

/// One more line is kept exactly when it is non-blank.
proof fn lemma_nonempty_push(lines: Seq<Seq<char>>, l: Seq<char>)
    ensures
        nonempty_of(lines.push(l)) == if l.len() > 0 {
            nonempty_of(lines).push(l)
        } else {
            nonempty_of(lines)
        },
{
    assert(lines.push(l).drop_last() =~= lines);
    assert(lines.push(l).last() == l);
}

/// The non-blank lines, in order.
pub fn nonempty_lines(lines: &Vec<String>) -> (r: Vec<String>)
    ensures
        views_of(r@) == nonempty_of(views_of(lines@)),
{
    let mut r: Vec<String> = Vec::new();
    let n = lines.len();
    let mut i: usize = 0;
    while i < n
        invariant
            i <= n,
            n == lines@.len(),
            views_of(r@) == nonempty_of(views_of(lines@).take(i as int)),
        decreases n - i,
    {
        proof {
            assert(views_of(lines@).take(i as int).push(lines@[i as int]@) =~= views_of(
                lines@,
            ).take(i + 1 as int));
            lemma_nonempty_push(views_of(lines@).take(i as int), lines@[i as int]@);
        }
        if !lines[i].as_str().is_empty() {
            r.push(lines[i].clone());
            proof {
                assert(views_of(r@) =~= nonempty_of(views_of(lines@).take(i + 1 as int)));
            }
        }
        i = i + 1;
    }
    proof {
        assert(views_of(lines@).take(n as int) =~= views_of(lines@));
    }
    r
}

/// One processed URL's outcome: the URL and, when it failed, the
/// reason.
pub type ItemOutcome = (String, Option<String>);

/// How many outcomes in a list succeeded (no failure reason).
pub open spec fn success_count(outcomes: Seq<ItemOutcome>) -> nat
    decreases outcomes.len(),
{
    if outcomes.len() == 0 {
        0
    } else {
        success_count(outcomes.drop_last()) + if outcomes.last().1 is None {
            1nat
        } else {
            0nat
        }
    }
}

/// The failed outcomes in order, each as the URL and its reason.
pub open spec fn failures_of(outcomes: Seq<ItemOutcome>) -> Seq<(Seq<char>, Seq<char>)>
    decreases outcomes.len(),
{
    if outcomes.len() == 0 {
        Seq::empty()
    } else {
        let rest = failures_of(outcomes.drop_last());
        match outcomes.last().1 {
            Some(reason) => rest.push((outcomes.last().0@, reason@)),
            None => rest,
        }
    }
}

/// One more outcome adds a failure entry exactly when it failed.
proof fn lemma_report_push(outcomes: Seq<ItemOutcome>, o: ItemOutcome)
    ensures
        success_count(outcomes.push(o)) == success_count(outcomes) + if o.1 is None {
            1nat
        } else {
            0nat
        },
        failures_of(outcomes.push(o)) == match o.1 {
            Some(reason) => failures_of(outcomes).push((o.0@, reason@)),
            None => failures_of(outcomes),
        },
{
    assert(outcomes.push(o).drop_last() =~= outcomes);
    assert(outcomes.push(o).last() == o);
}

/// The views of a list of URL/reason pairs.
pub open spec fn pair_views(ps: Seq<(String, String)>) -> Seq<(Seq<char>, Seq<char>)> {
    Seq::new(ps.len(), |i: int| (ps[i].0@, ps[i].1@))
}

/// What one batch run reports: how many items succeeded, and each
/// failed item's URL with its reason, in processing order.
pub struct BatchReport {
    pub succeeded: usize,
    pub failed: Vec<(String, String)>,
}

impl BatchReport {
    /// The batch completed without any failed item.
    pub fn all_succeeded(&self) -> (r: bool)
        ensures
            r == (self.failed@.len() == 0),
    {
        self.failed.len() == 0
    }
}

/// Aggregates the outcomes of one batch run, in processing order,
/// into its report. Every outcome is counted — an item's failure is
/// recorded and never stops the batch.
pub fn batch_report(outcomes: Vec<ItemOutcome>) -> (r: BatchReport)
    ensures
        r.succeeded == success_count(outcomes@),
        pair_views(r.failed@) == failures_of(outcomes@),
        r.succeeded + r.failed@.len() == outcomes@.len(),
{
    let mut succeeded: usize = 0;
    let mut failed: Vec<(String, String)> = Vec::new();
    let n = outcomes.len();
    let mut i: usize = 0;
    while i < n
        invariant
            i <= n,
            n == outcomes@.len(),
            succeeded == success_count(outcomes@.take(i as int)),
            pair_views(failed@) == failures_of(outcomes@.take(i as int)),
            succeeded + failed@.len() == i,
        decreases n - i,
    {
        proof {
            assert(outcomes@.take(i as int).push(outcomes@[i as int]) =~= outcomes@.take(
                i + 1 as int,
            ));
            lemma_report_push(outcomes@.take(i as int), outcomes@[i as int]);
        }
        match &outcomes[i].1 {
            Option::None => {
                succeeded = succeeded + 1;
            },
            Option::Some(reason) => {
                failed.push((outcomes[i].0.clone(), reason.clone()));
                proof {
                    assert(pair_views(failed@) =~= failures_of(outcomes@.take(i + 1 as int)));
                }
            },
        }
        i = i + 1;
    }
    proof {
        assert(outcomes@.take(n as int) =~= outcomes@);
    }
    BatchReport { succeeded, failed }
}

} // verus!
