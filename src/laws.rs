//! Properties that hold across the engine's decisions.
use vstd::prelude::*;
use crate::driver::{
    directory_steps, file_steps, hardlink_move_steps, spec_schedule, symlink_steps, DirectoryAction,
    Step,
};
use crate::error::CopyError;
use crate::options::CopyOptions;
use crate::plan::CopyPlan;
use crate::report::{any_cancelled, spec_outcome, spec_report, RunReport, TaskResult};
use crate::transfer::{spec_guard, spec_preflight, spec_strategies};

verus! {

/// Attributes-only runs transfer no content: no file gets a content
/// strategy, and no directory is created, only refreshed or left alone.
pub proof fn lemma_attributes_only_keeps_content(plan: CopyPlan, o: CopyOptions, destination_exists: bool)
    requires
        o.attributes_only,
    ensures
        spec_preflight(o, destination_exists) is AttributesOnly,
        forall|i: int|
            0 <= i < plan.directories@.len() ==> (#[trigger] directory_steps(plan, o)[i]) != (Step::Directory {
                index: i as usize,
                action: DirectoryAction::Create,
            }),
{
}

/// With force (outside attributes-only and interactive mode), an existing
/// destination is neither prompted about nor kept: it is unlinked before any
/// strategy runs, after which no strategy refuses to start, the copy-on-write
/// clone included; and a failed creation is retried after unlinking.
pub proof fn lemma_force_overwrites(
    o: CopyOptions,
    zero_copy_available: bool,
    source: String,
    destination: String,
)
    requires
        o.force,
        !o.attributes_only,
        !o.interactive,
    ensures
        spec_preflight(o, true) is Transfer,
        !spec_preflight(o, true)->Transfer_prompt,
        spec_preflight(o, true)->Transfer_remove_first,
        forall|i: int|
            0 <= i < spec_strategies(o, zero_copy_available).len() ==> spec_guard(
                #[trigger] spec_strategies(o, zero_copy_available)[i],
                false,
                false,
                source,
                destination,
            ) is None,
{
}

/// A cancellation seen by any task makes the run's outcome a cancellation,
/// whatever else failed.
pub proof fn lemma_cancellation_outranks_failures(
    r: RunReport,
    results: Seq<TaskResult>,
    completed: usize,
    total_files: usize,
    k: int,
)
    requires
        spec_report(r, results, completed, total_files),
        0 <= k < results.len(),
        results[k].outcome is Cancelled,
    ensures
        r is Cancelled,
        completed <= total_files ==> r->Cancelled_completed + r->Cancelled_remaining == total_files,
{
    assert(any_cancelled(results));
}

/// A failed transfer that saw the cancellation flag is recorded as a
/// cancellation, never as an ordinary failure.
pub proof fn lemma_cancelled_transfer_is_not_a_failure()
    ensures
        spec_outcome(Err(CopyError::Cancelled)) is Cancelled,
{
}

/// On a move, every symbolic link and hard link of the plan is relocated (not
/// copied), unless links are the requested output.
pub proof fn lemma_move_relocates_links(plan: CopyPlan, o: CopyOptions)
    requires
        o.move_files,
        !o.hard_link,
        o.symbolic_link is None,
    ensures
        forall|i: int|
            0 <= i < plan.symlinks@.len() ==> spec_schedule(plan, o).contains(
                Step::MoveSymlink(#[trigger] (i as usize)),
            ),
        forall|i: int|
            0 <= i < plan.hardlinks@.len() ==> spec_schedule(plan, o).contains(
                Step::MoveHardlink(#[trigger] (i as usize)),
            ),
        forall|i: int| 0 <= i < spec_schedule(plan, o).len() ==> !(#[trigger] spec_schedule(plan, o)[i] is CreateSymlink),
{
    let d = directory_steps(plan, o);
    let sy = symlink_steps(plan, o);
    let h = hardlink_move_steps(plan, o);
    let f = file_steps(plan, o);
    let all = spec_schedule(plan, o);
    assert(all == d + sy + h + f);
    assert forall|i: int| 0 <= i < plan.symlinks@.len() implies all.contains(
        Step::MoveSymlink(#[trigger] (i as usize)),
    ) by {
        assert(sy[i] == Step::MoveSymlink(i as usize));
        assert(all[d.len() + i] == sy[i]);
    }
    assert forall|i: int| 0 <= i < plan.hardlinks@.len() implies all.contains(
        Step::MoveHardlink(#[trigger] (i as usize)),
    ) by {
        assert(h[i] == Step::MoveHardlink(i as usize));
        assert(all[d.len() + sy.len() + i] == h[i]);
    }
    assert forall|i: int| 0 <= i < all.len() implies !(#[trigger] all[i] is CreateSymlink) by {
        if i < d.len() {
        } else if i < d.len() + sy.len() {
            assert(all[i] == sy[i - d.len()]);
        } else if i < d.len() + sy.len() + h.len() {
            assert(all[i] == h[i - d.len() - sy.len()]);
        } else {
            assert(all[i] == f[i - d.len() - sy.len() - h.len()]);
        }
    }
}

} // verus!
