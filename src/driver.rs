//! The execution driver: the order in which a plan's work is carried out.
use vstd::prelude::*;
use crate::options::CopyOptions;
use crate::plan::CopyPlan;

verus! {

/// What becomes of one directory of the plan.
#[derive(Clone, Copy, Debug, PartialEq, Eq, Structural)]
pub enum DirectoryAction {
    Create,
    /// Attributes-only mode: re-apply the source's attributes if the
    /// destination exists.
    RefreshAttributes,
    Leave,
}

/// A count announced once a group of links is done.
#[derive(Clone, Copy, Debug, PartialEq, Eq, Structural)]
pub enum Notice {
    HardlinksCreated(usize),
    SymlinksCreated(usize),
    SymlinksMoved(usize),
    HardlinksMoved(usize),
}

/// One step of a run, indices pointing into the plan's task lists.
#[derive(Clone, Copy, Debug, PartialEq, Eq, Structural)]
pub enum Step {
    Directory { index: usize, action: DirectoryAction },
    CreateHardlink(usize),
    CreateSymlink(usize),
    MoveSymlink(usize),
    MoveHardlink(usize),
    Announce(Notice),
    /// Ask once whether the sources may be deleted; a "no" ends the run.
    ConfirmMove,
    /// Transfer every file task one at a time, stopping at the first error.
    TransferSequential,
    /// Transfer the file tasks on the worker pool and aggregate their outcomes.
    TransferParallel,
}

pub open spec fn spec_directory_action(plan: CopyPlan, o: CopyOptions, i: int) -> DirectoryAction {
    if !o.attributes_only {
        DirectoryAction::Create
    } else if plan.directories@[i].source is Some {
        DirectoryAction::RefreshAttributes
    } else {
        DirectoryAction::Leave
    }
}

pub open spec fn directory_steps(plan: CopyPlan, o: CopyOptions) -> Seq<Step> {
    Seq::new(
        plan.directories@.len(),
        |i: int| Step::Directory { index: i as usize, action: spec_directory_action(plan, o, i) },
    )
}

pub open spec fn notice_if(count: usize, n: Notice) -> Seq<Step> {
    if count > 0 {
        seq![Step::Announce(n)]
    } else {
        Seq::empty()
    }
}

pub open spec fn hardlink_creation_steps(plan: CopyPlan) -> Seq<Step> {
    Seq::new(plan.hardlinks@.len(), |i: int| Step::CreateHardlink(i as usize)) + notice_if(
        plan.total_hardlinks,
        Notice::HardlinksCreated(plan.total_hardlinks),
    )
}

pub open spec fn symlink_steps(plan: CopyPlan, o: CopyOptions) -> Seq<Step> {
    if plan.symlinks@.len() == 0 {
        Seq::empty()
    } else if o.move_files {
        Seq::new(plan.symlinks@.len(), |i: int| Step::MoveSymlink(i as usize)) + notice_if(
            plan.total_symlinks,
            Notice::SymlinksMoved(plan.total_symlinks),
        )
    } else {
        Seq::new(plan.symlinks@.len(), |i: int| Step::CreateSymlink(i as usize)) + notice_if(
            plan.total_symlinks,
            Notice::SymlinksCreated(plan.total_symlinks),
        )
    }
}

pub open spec fn hardlink_move_steps(plan: CopyPlan, o: CopyOptions) -> Seq<Step> {
    if o.move_files && plan.hardlinks@.len() > 0 {
        Seq::new(plan.hardlinks@.len(), |i: int| Step::MoveHardlink(i as usize)) + notice_if(
            plan.total_hardlinks,
            Notice::HardlinksMoved(plan.total_hardlinks),
        )
    } else {
        Seq::empty()
    }
}

pub open spec fn file_steps(plan: CopyPlan, o: CopyOptions) -> Seq<Step> {
    if o.interactive {
        if o.move_files && plan.source is Some {
            seq![Step::ConfirmMove, Step::TransferSequential]
        } else {
            seq![Step::TransferSequential]
        }
    } else {
        seq![Step::TransferParallel]
    }
}

/// The steps of a run: directories first; then, when hard links are the
/// output, those links and nothing else; otherwise symbolic links (the end of
/// the run when symbolic links are the output), relocated hard links on a
/// move, and the regular files last.
pub open spec fn spec_schedule(plan: CopyPlan, o: CopyOptions) -> Seq<Step> {
    if o.hard_link {
        directory_steps(plan, o) + hardlink_creation_steps(plan)
    } else if plan.symlinks@.len() > 0 && o.symbolic_link is Some {
        directory_steps(plan, o) + symlink_steps(plan, o)
    } else {
        directory_steps(plan, o) + symlink_steps(plan, o) + hardlink_move_steps(plan, o)
            + file_steps(plan, o)
    }
}

fn directory_action(plan: &CopyPlan, o: &CopyOptions, i: usize) -> (r: DirectoryAction)
    requires
        i < plan.directories@.len(),
    ensures
        r == spec_directory_action(*plan, *o, i as int),
{
    if !o.attributes_only {
        DirectoryAction::Create
    } else if plan.directories[i].source.is_some() {
        DirectoryAction::RefreshAttributes
    } else {
        DirectoryAction::Leave
    }
}

fn push_notice(steps: &mut Vec<Step>, count: usize, n: Notice)
    ensures
        final(steps)@ == old(steps)@ + notice_if(count, n),
{
    if count > 0 {
        steps.push(Step::Announce(n));
    }
    assert(final(steps)@ =~= old(steps)@ + notice_if(count, n));
}

/// The four per-link steps.
#[derive(Clone, Copy, PartialEq, Eq, Structural)]
enum LinkKind {
    CreateHard,
    CreateSym,
    MoveSym,
    MoveHard,
}

spec fn link_step(kind: LinkKind, i: int) -> Step {
    match kind {
        LinkKind::CreateHard => Step::CreateHardlink(i as usize),
        LinkKind::CreateSym => Step::CreateSymlink(i as usize),
        LinkKind::MoveSym => Step::MoveSymlink(i as usize),
        LinkKind::MoveHard => Step::MoveHardlink(i as usize),
    }
}

/// Appends one step of `kind` for each index below `n`.
fn push_link_steps(steps: &mut Vec<Step>, n: usize, kind: LinkKind)
    ensures
        final(steps)@ == old(steps)@ + Seq::new(n as nat, |i: int| link_step(kind, i)),
{
    let mut i: usize = 0;
    while i < n
        invariant
            i <= n,
            steps@ == old(steps)@ + Seq::new(i as nat, |j: int| link_step(kind, j)),
        decreases n - i,
    {
        let s = match kind {
            LinkKind::CreateHard => Step::CreateHardlink(i),
            LinkKind::CreateSym => Step::CreateSymlink(i),
            LinkKind::MoveSym => Step::MoveSymlink(i),
            LinkKind::MoveHard => Step::MoveHardlink(i),
        };
        steps.push(s);
        i = i + 1;
        assert(steps@ =~= old(steps)@ + Seq::new(i as nat, |j: int| link_step(kind, j)));
    }
}

/// The ordered steps that carry out `plan` under `o`.
pub fn schedule(plan: &CopyPlan, o: &CopyOptions) -> (r: Vec<Step>)
    ensures
        r@ == spec_schedule(*plan, *o),
{
    let mut steps: Vec<Step> = Vec::new();
    let nd = plan.directories.len();
    let mut i: usize = 0;
    while i < nd
        invariant
            i <= nd,
            nd == plan.directories@.len(),
            steps@ == directory_steps(*plan, *o).take(i as int),
        decreases nd - i,
    {
        let a = directory_action(plan, o, i);
        steps.push(Step::Directory { index: i, action: a });
        i = i + 1;
        assert(steps@ =~= directory_steps(*plan, *o).take(i as int));
    }
    assert(steps@ =~= directory_steps(*plan, *o));
    let ghost dirs = steps@;

    if o.hard_link {
        push_link_steps(&mut steps, plan.hardlinks.len(), LinkKind::CreateHard);
        push_notice(&mut steps, plan.total_hardlinks, Notice::HardlinksCreated(plan.total_hardlinks));
        assert(Seq::new(plan.hardlinks@.len(), |j: int| link_step(LinkKind::CreateHard, j)) =~= Seq::new(
            plan.hardlinks@.len(),
            |j: int| Step::CreateHardlink(j as usize),
        ));
        assert(steps@ =~= spec_schedule(*plan, *o));
        return steps;
    }
    if plan.symlinks.len() > 0 {
        if o.move_files {
            push_link_steps(&mut steps, plan.symlinks.len(), LinkKind::MoveSym);
            push_notice(&mut steps, plan.total_symlinks, Notice::SymlinksMoved(plan.total_symlinks));
            assert(Seq::new(plan.symlinks@.len(), |j: int| link_step(LinkKind::MoveSym, j)) =~= Seq::new(
                plan.symlinks@.len(),
                |j: int| Step::MoveSymlink(j as usize),
            ));
        } else {
            push_link_steps(&mut steps, plan.symlinks.len(), LinkKind::CreateSym);
            push_notice(&mut steps, plan.total_symlinks, Notice::SymlinksCreated(plan.total_symlinks));
            assert(Seq::new(plan.symlinks@.len(), |j: int| link_step(LinkKind::CreateSym, j)) =~= Seq::new(
                plan.symlinks@.len(),
                |j: int| Step::CreateSymlink(j as usize),
            ));
        }
        assert(steps@ =~= dirs + symlink_steps(*plan, *o));
        if o.symbolic_link.is_some() {
            return steps;
        }
    }
    assert(steps@ =~= dirs + symlink_steps(*plan, *o));
    let ghost before_hardlinks = steps@;
    if o.move_files && plan.hardlinks.len() > 0 {
        push_link_steps(&mut steps, plan.hardlinks.len(), LinkKind::MoveHard);
        push_notice(&mut steps, plan.total_hardlinks, Notice::HardlinksMoved(plan.total_hardlinks));
        assert(Seq::new(plan.hardlinks@.len(), |j: int| link_step(LinkKind::MoveHard, j)) =~= Seq::new(
            plan.hardlinks@.len(),
            |j: int| Step::MoveHardlink(j as usize),
        ));
    }
    assert(steps@ =~= before_hardlinks + hardlink_move_steps(*plan, *o));
    let ghost before_files = steps@;
    if o.interactive {
        if o.move_files && plan.source.is_some() {
            steps.push(Step::ConfirmMove);
        }
        steps.push(Step::TransferSequential);
    } else {
        steps.push(Step::TransferParallel);
    }
    assert(steps@ =~= before_files + file_steps(*plan, *o));
    steps
}

} // verus!
