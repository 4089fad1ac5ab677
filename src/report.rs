//! Aggregation of per-file outcomes into the result of a run.
use vstd::prelude::*;
use crate::error::CopyError;

verus! {

/// Failing files listed by name in a failure report; the rest are counted.
pub const SHOWN_FAILURES: usize = 3;

/// The terminal outcome of one file task.
#[derive(Clone, Debug)]
pub enum TaskOutcome {
    Success,
    Failed(CopyError),
    Cancelled,
}

/// One file task's outcome, with the paths it concerns.
#[derive(Clone, Debug)]
pub struct TaskResult {
    pub source: String,
    pub destination: String,
    pub outcome: TaskOutcome,
}

/// What a run of file tasks amounts to.
#[derive(Clone, Debug)]
pub enum RunReport {
    Success,
    /// Some task saw the cancellation flag; ordinary failures are not reported.
    Cancelled { completed: usize, remaining: usize },
    /// `shown` holds the positions of the first failing tasks, `hidden` counts
    /// the failing tasks beyond them.
    Failed { failed: usize, shown: Vec<usize>, hidden: usize },
}

pub open spec fn spec_outcome(r: Result<(), CopyError>) -> TaskOutcome {
    match r {
        Ok(()) => TaskOutcome::Success,
        Err(CopyError::Cancelled) => TaskOutcome::Cancelled,
        Err(e) => TaskOutcome::Failed(e),
    }
}

/// Classifies what a file transfer returned.
pub fn outcome_of(r: Result<(), CopyError>) -> (o: TaskOutcome)
    ensures
        o == spec_outcome(r),
{
    match r {
        Ok(()) => TaskOutcome::Success,
        Err(CopyError::Cancelled) => TaskOutcome::Cancelled,
        Err(e) => TaskOutcome::Failed(e),
    }
}

pub open spec fn any_cancelled(s: Seq<TaskResult>) -> bool {
    exists|i: int| 0 <= i < s.len() && (#[trigger] s[i]).outcome is Cancelled
}

/// Positions of the failed tasks, in order.
pub open spec fn failed_positions(s: Seq<TaskResult>) -> Seq<usize>
    decreases s.len(),
{
    if s.len() == 0 {
        Seq::empty()
    } else {
        let p = failed_positions(s.drop_last());
        if s.last().outcome is Failed {
            p.push((s.len() - 1) as usize)
        } else {
            p
        }
    }
}

pub open spec fn min_int(a: int, b: int) -> int {
    if a < b {
        a
    } else {
        b
    }
}

/// `r` is the report of `results`, where `completed` tasks were counted done
/// out of `total_files`.
pub open spec fn spec_report(
    r: RunReport,
    results: Seq<TaskResult>,
    completed: usize,
    total_files: usize,
) -> bool {
    let fp = failed_positions(results);
    if any_cancelled(results) {
        r == RunReport::Cancelled {
            completed,
            remaining: if completed <= total_files {
                (total_files - completed) as usize
            } else {
                0
            },
        }
    } else if fp.len() > 0 {
        match r {
            RunReport::Failed { failed, shown, hidden } => {
                &&& failed == fp.len()
                &&& shown@ == fp.take(min_int(SHOWN_FAILURES as int, fp.len() as int))
                &&& hidden == fp.len() - shown@.len()
            },
            _ => false,
        }
    } else {
        r is Success
    }
}

/// Folds the outcomes of a run's file tasks into its report: cancellation
/// first, then failures, else success.
pub fn aggregate(results: &Vec<TaskResult>, completed: usize, total_files: usize) -> (r: RunReport)
    ensures
        spec_report(r, results@, completed, total_files),
{
    let n = results.len();
    let mut cancelled = false;
    let mut failed: usize = 0;
    let mut shown: Vec<usize> = Vec::new();
    let mut i: usize = 0;
    while i < n
        invariant
            i <= n,
            n == results@.len(),
            cancelled == any_cancelled(results@.take(i as int)),
            failed == failed_positions(results@.take(i as int)).len(),
            failed <= i,
            shown@ == failed_positions(results@.take(i as int)).take(
                min_int(SHOWN_FAILURES as int, failed as int),
            ),
        decreases n - i,
    {
        let ghost prev = results@.take(i as int);
        let ghost next = results@.take(i + 1);
        assert(next.drop_last() =~= prev);
        assert(next.last() == results@[i as int]);
        let ghost fp = failed_positions(prev);
        match &results[i].outcome {
            TaskOutcome::Cancelled => {
                cancelled = true;
                assert(next[i as int].outcome is Cancelled);
            },
            TaskOutcome::Failed(_) => {
                if shown.len() < SHOWN_FAILURES {
                    shown.push(i);
                }
                failed = failed + 1;
                assert(shown@ =~= fp.push(i).take(min_int(SHOWN_FAILURES as int, failed as int)));
            },
            TaskOutcome::Success => {},
        }
        proof {
            if any_cancelled(next) && !(results@[i as int].outcome is Cancelled) {
                let j = choose|j: int| 0 <= j < next.len() && (#[trigger] next[j]).outcome is Cancelled;
                assert(prev[j] == next[j]);
            }
            if any_cancelled(prev) {
                let j = choose|j: int| 0 <= j < prev.len() && (#[trigger] prev[j]).outcome is Cancelled;
                assert(next[j] == prev[j]);
            }
        }
        i = i + 1;
    }
    assert(results@.take(n as int) =~= results@);
    if cancelled {
        let remaining: usize = if completed <= total_files {
            total_files - completed
        } else {
            0
        };
        RunReport::Cancelled { completed, remaining }
    } else if failed > 0 {
        let hidden = failed - shown.len();
        RunReport::Failed { failed, shown, hidden }
    } else {
        RunReport::Success
    }
}

} // verus!
