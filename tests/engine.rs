use cpx::cleanup::{path_depth_of, removal_order};
use cpx::driver::{schedule, DirectoryAction, Notice, Step};
use cpx::error::CopyError;
use cpx::options::{BackupMode, CopyOptions, FollowSymlink, PreserveAttr, ReflinkMode, SymlinkMode};
use cpx::plan::{CopyPlan, DirectoryTask, FileTask, HardlinkTask, SymlinkTask};
use cpx::report::{aggregate, outcome_of, RunReport, TaskOutcome, TaskResult};
use cpx::request::validate_request;
use cpx::sizing::{
    buffer_size, next_chunk, progress_threshold, zero_copy_chunk, ProgressAccumulator,
};
use cpx::tracker::HardLinkTracker;
use cpx::transfer::{
    applies_attributes, bytes_on_completion, guard, preflight, proceeds_after_prompt,
    retry_create_after_removal, strategies, verdict, Attempt, Preflight,
    Strategy, Verdict,
};

fn options() -> CopyOptions {
    CopyOptions {
        recursive: false,
        move_files: false,
        force: false,
        interactive: false,
        preserve: PreserveAttr::none(),
        follow_symlink: FollowSymlink::NoDereference,
        backup: BackupMode::Off,
        symbolic_link: None,
        hard_link: false,
        attributes_only: false,
        remove_destination: false,
        reflink: None,
        parallel: 1,
    }
}

fn s(x: &str) -> String {
    x.to_string()
}

fn result(src: &str, outcome: TaskOutcome) -> TaskResult {
    TaskResult { source: s(src), destination: s("d"), outcome }
}

#[test]
fn buffer_size_follows_tiers() {
    assert_eq!(buffer_size(0), 64 * 1024);
    assert_eq!(buffer_size(1024 * 1024 - 1), 64 * 1024);
    assert_eq!(buffer_size(1024 * 1024), 256 * 1024);
    assert_eq!(buffer_size(8 * 1024 * 1024), 512 * 1024);
    assert_eq!(buffer_size(70 * 1024 * 1024), 1024 * 1024);
    assert_eq!(buffer_size(512 * 1024 * 1024), 2 * 1024 * 1024);
}

#[test]
fn progress_threshold_bounds_updates() {
    assert_eq!(progress_threshold(0), 64 * 1024);
    assert_eq!(progress_threshold(70 * 1024 * 1024), 1024 * 1024);
    let big: u64 = 1 << 30;
    assert_eq!(progress_threshold(big), big / 128);
}

#[test]
fn zero_copy_chunks_scale_with_size() {
    assert_eq!(zero_copy_chunk(0), 4 * 1024 * 1024);
    let big: u64 = 1 << 32;
    assert_eq!(zero_copy_chunk(big), big / 128);
    assert_eq!(next_chunk(10, 25, 20), 5);
    assert_eq!(next_chunk(10, 25, 0), 10);
    assert_eq!(next_chunk(10, 25, 25), 0);
    assert_eq!(next_chunk(10, 25, 30), 0);
}

#[test]
fn accumulator_reports_every_byte_once() {
    let mut acc = ProgressAccumulator::new(0);
    let mut reported = 0u64;
    for _ in 0..3 {
        reported += acc.record(40 * 1024);
    }
    assert_eq!(reported, 80 * 1024);
    reported += acc.flush();
    assert_eq!(reported, 120 * 1024);
    assert_eq!(acc.flush(), 0);
}

#[test]
fn empty_file_needs_no_chunk_and_reports_nothing() {
    assert_eq!(next_chunk(zero_copy_chunk(0), 0, 0), 0);
    let mut acc = ProgressAccumulator::new(0);
    assert_eq!(acc.flush(), 0);
}

fn plan_with_links() -> CopyPlan {
    let mut p = CopyPlan::new();
    p.directories.push(DirectoryTask { source: Some(s("src")), destination: s("dst") });
    p.directories.push(DirectoryTask { source: None, destination: s("dst/new") });
    p.symlinks.push(SymlinkTask { source: s("src/l"), destination: s("dst/l") });
    p.hardlinks.push(HardlinkTask { source: s("src/h"), destination: s("dst/h") });
    p.files.push(FileTask { source: s("src/f"), destination: s("dst/f"), size: 3 });
    p.total_symlinks = 1;
    p.total_hardlinks = 1;
    p.total_files = 1;
    p.source = Some(s("src"));
    p
}

fn dir(i: usize, action: DirectoryAction) -> Step {
    Step::Directory { index: i, action }
}

#[test]
fn schedule_copy_orders_directories_links_files() {
    let p = plan_with_links();
    let steps = schedule(&p, &options());
    assert_eq!(
        steps,
        vec![
            dir(0, DirectoryAction::Create),
            dir(1, DirectoryAction::Create),
            Step::CreateSymlink(0),
            Step::Announce(Notice::SymlinksCreated(1)),
            Step::TransferParallel,
        ]
    );
}

#[test]
fn schedule_move_relocates_links() {
    let p = plan_with_links();
    let mut o = options();
    o.move_files = true;
    let steps = schedule(&p, &o);
    assert_eq!(
        steps,
        vec![
            dir(0, DirectoryAction::Create),
            dir(1, DirectoryAction::Create),
            Step::MoveSymlink(0),
            Step::Announce(Notice::SymlinksMoved(1)),
            Step::MoveHardlink(0),
            Step::Announce(Notice::HardlinksMoved(1)),
            Step::TransferParallel,
        ]
    );
}

#[test]
fn schedule_hardlink_output_stops_after_links() {
    let p = plan_with_links();
    let mut o = options();
    o.hard_link = true;
    let steps = schedule(&p, &o);
    assert_eq!(
        steps,
        vec![
            dir(0, DirectoryAction::Create),
            dir(1, DirectoryAction::Create),
            Step::CreateHardlink(0),
            Step::Announce(Notice::HardlinksCreated(1)),
        ]
    );
}

#[test]
fn schedule_symlink_output_stops_after_symlinks() {
    let p = plan_with_links();
    let mut o = options();
    o.symbolic_link = Some(SymlinkMode::Auto);
    let steps = schedule(&p, &o);
    assert_eq!(steps.len(), 4);
    assert_eq!(steps[3], Step::Announce(Notice::SymlinksCreated(1)));
}

#[test]
fn schedule_attributes_only_refreshes_directories() {
    let p = plan_with_links();
    let mut o = options();
    o.attributes_only = true;
    let steps = schedule(&p, &o);
    assert_eq!(steps[0], dir(0, DirectoryAction::RefreshAttributes));
    assert_eq!(steps[1], dir(1, DirectoryAction::Leave));
}

#[test]
fn schedule_interactive_move_asks_first() {
    let p = plan_with_links();
    let mut o = options();
    o.interactive = true;
    o.move_files = true;
    let steps = schedule(&p, &o);
    let n = steps.len();
    assert_eq!(steps[n - 2], Step::ConfirmMove);
    assert_eq!(steps[n - 1], Step::TransferSequential);
}

#[test]
fn aggregate_success() {
    let r = aggregate(&vec![result("a", TaskOutcome::Success)], 1, 1);
    assert!(matches!(r, RunReport::Success));
}

#[test]
fn aggregate_cancellation_outranks_failures() {
    let rs = vec![
        result("a", TaskOutcome::Failed(CopyError::Io(s("disk full")))),
        result("b", TaskOutcome::Cancelled),
        result("c", TaskOutcome::Success),
    ];
    match aggregate(&rs, 1, 3) {
        RunReport::Cancelled { completed, remaining } => {
            assert_eq!(completed, 1);
            assert_eq!(remaining, 2);
        }
        other => panic!("unexpected report {:?}", other),
    }
}

#[test]
fn aggregate_lists_first_three_failures() {
    let mut rs = Vec::new();
    for i in 0..6 {
        if i == 1 {
            rs.push(result("ok", TaskOutcome::Success));
        } else {
            rs.push(result("bad", TaskOutcome::Failed(CopyError::Io(s("denied")))));
        }
    }
    match aggregate(&rs, 1, 6) {
        RunReport::Failed { failed, shown, hidden } => {
            assert_eq!(failed, 5);
            assert_eq!(shown, vec![0, 2, 3]);
            assert_eq!(hidden, 2);
        }
        other => panic!("unexpected report {:?}", other),
    }
}

#[test]
fn outcome_of_separates_cancellation() {
    assert!(matches!(outcome_of(Err(CopyError::Cancelled)), TaskOutcome::Cancelled));
    assert!(matches!(outcome_of(Err(CopyError::Io(s("x")))), TaskOutcome::Failed(_)));
    assert!(matches!(outcome_of(Ok(())), TaskOutcome::Success));
}

#[test]
fn tracker_copies_each_identity_once() {
    let mut t = HardLinkTracker::new();
    assert_eq!(t.track(1, 10, &s("dst/a")), None);
    assert_eq!(t.track(1, 11, &s("dst/b")), None);
    assert_eq!(t.track(1, 10, &s("dst/c")), Some(s("dst/a")));
    assert_eq!(t.track(2, 10, &s("dst/d")), None);
    assert_eq!(t.track(1, 10, &s("dst/e")), Some(s("dst/a")));
}

#[test]
fn path_depth_counts_components() {
    assert_eq!(path_depth_of(&s("/a/b")), 3);
    assert_eq!(path_depth_of(&s("a//b/")), 2);
    assert_eq!(path_depth_of(&s("")), 0);
    assert_eq!(path_depth_of(&s("/")), 1);
    assert_eq!(path_depth_of(&s("a/./b")), 2);
    assert_eq!(path_depth_of(&s("./a")), 2);
    assert_eq!(path_depth_of(&s("/./a/.")), 2);
    assert_eq!(path_depth_of(&s("a/..")), 2);
    assert_eq!(path_depth_of(&s(".")), 1);
}

#[test]
fn removal_order_is_deepest_first() {
    let dirs = vec![
        DirectoryTask { source: Some(s("src")), destination: s("d") },
        DirectoryTask { source: Some(s("src/a/b")), destination: s("d/a/b") },
        DirectoryTask { source: None, destination: s("d/x") },
        DirectoryTask { source: Some(s("src/a")), destination: s("d/a") },
        DirectoryTask { source: Some(s("src/c")), destination: s("d/c") },
    ];
    assert_eq!(
        removal_order(&dirs),
        vec![s("src/a/b"), s("src/a"), s("src/c"), s("src")]
    );
}

#[test]
fn directory_without_recursive_is_refused() {
    let r = validate_request(&s("source_dir"), &s("dest_dir"), true, true, false, &options());
    let e = r.unwrap_err();
    assert!(e.message().contains("use -r"));
    assert!(!e.is_cancellation());
}

#[test]
fn request_checks() {
    let mut o = options();
    assert!(matches!(
        validate_request(&s("a"), &s("b"), false, false, false, &o),
        Err(CopyError::InvalidSource(p)) if p == "a"
    ));
    assert!(validate_request(&s("a"), &s("b"), true, false, false, &o).is_ok());
    o.recursive = true;
    assert!(matches!(
        validate_request(&s("a"), &s("b"), true, true, true, &o),
        Err(CopyError::InvalidDestination(p)) if p == "b"
    ));
    assert!(validate_request(&s("a"), &s("b"), true, true, false, &o).is_ok());
}

#[test]
fn error_messages() {
    let e = CopyError::ReflinkFailed { source: s("a"), destination: s("b") };
    assert_eq!(e.message(), "Reflink failed from a to b");
    assert_eq!(CopyError::Cancelled.message(), "Operation interrupted by user");
    assert!(CopyError::Cancelled.is_cancellation());
    assert_eq!(CopyError::InvalidSource(s("x")).message(), "Invalid source: x");
}

#[test]
fn preflight_decisions() {
    let mut o = options();
    o.attributes_only = true;
    assert_eq!(preflight(&o, false), Preflight::AttributesOnly { apply: false });
    assert_eq!(preflight(&o, true), Preflight::AttributesOnly { apply: true });
    let mut o = options();
    o.interactive = true;
    o.backup = BackupMode::Numbered;
    o.remove_destination = true;
    assert_eq!(
        preflight(&o, true),
        Preflight::Transfer { prompt: true, backup: true, remove_first: true }
    );
    assert_eq!(
        preflight(&o, false),
        Preflight::Transfer { prompt: false, backup: false, remove_first: true }
    );
}

#[test]
fn force_unlinks_existing_destination_first() {
    let mut o = options();
    o.force = true;
    o.reflink = Some(ReflinkMode::Auto);
    assert_eq!(
        preflight(&o, true),
        Preflight::Transfer { prompt: false, backup: false, remove_first: true }
    );
    // Once unlinked, the clone may start.
    assert!(guard(Strategy::Reflink, false, false, &s("a"), &s("b")).is_none());
    let o = options();
    assert_eq!(
        preflight(&o, true),
        Preflight::Transfer { prompt: false, backup: false, remove_first: false }
    );
}

#[test]
fn small_transfer_decisions() {
    assert!(proceeds_after_prompt(false, false));
    assert!(proceeds_after_prompt(true, true));
    assert!(!proceeds_after_prompt(true, false));
    assert_eq!(bytes_on_completion(Strategy::Reflink, 77), 77);
    assert_eq!(bytes_on_completion(Strategy::Buffered, 77), 0);
    assert_eq!(bytes_on_completion(Strategy::HardlinkDedup, 77), 0);
    let mut o = options();
    assert!(!applies_attributes(&o));
    o.preserve.timestamps = true;
    assert!(applies_attributes(&o));
    let mut o = options();
    assert!(!o.follows_source_link());
    o.follow_symlink = FollowSymlink::CommandLineSymlink;
    assert!(o.follows_source_link());
}

#[test]
fn strategy_chain_order() {
    let mut o = options();
    assert_eq!(strategies(&o, false), vec![Strategy::Buffered]);
    o.preserve.links = true;
    o.reflink = Some(ReflinkMode::Auto);
    assert_eq!(
        strategies(&o, true),
        vec![Strategy::HardlinkDedup, Strategy::Reflink, Strategy::ZeroCopy, Strategy::Buffered]
    );
    o.reflink = Some(ReflinkMode::Never);
    assert_eq!(strategies(&o, false), vec![Strategy::HardlinkDedup, Strategy::Buffered]);
}

#[test]
fn guards_and_verdicts() {
    let (a, b) = (s("a"), s("b"));
    assert!(matches!(
        guard(Strategy::Reflink, true, false, &a, &b),
        Some(CopyError::ReflinkFailed { .. })
    ));
    assert!(guard(Strategy::Reflink, false, true, &a, &b).is_none());
    assert!(matches!(guard(Strategy::ZeroCopy, false, true, &a, &b), Some(CopyError::Cancelled)));
    assert!(guard(Strategy::Buffered, true, true, &a, &b).is_none());

    let mut o = options();
    o.reflink = Some(ReflinkMode::Auto);
    let fail = || Attempt::Failed(CopyError::Io(s("unsupported")));
    assert!(matches!(verdict(Strategy::Reflink, &o, fail(), &a, &b), Verdict::FallThrough));
    o.reflink = Some(ReflinkMode::Always);
    assert!(matches!(
        verdict(Strategy::Reflink, &o, fail(), &a, &b),
        Verdict::Fail(CopyError::ReflinkFailed { .. })
    ));
    assert!(matches!(verdict(Strategy::ZeroCopy, &o, fail(), &a, &b), Verdict::FallThrough));
    assert!(matches!(
        verdict(Strategy::Buffered, &o, fail(), &a, &b),
        Verdict::Fail(CopyError::Io(_))
    ));
    assert!(matches!(
        verdict(Strategy::HardlinkDedup, &o, Attempt::NotApplicable, &a, &b),
        Verdict::FallThrough
    ));
    assert!(matches!(verdict(Strategy::Buffered, &o, Attempt::Handled, &a, &b), Verdict::Done));
}

#[test]
fn force_overwrite_retries_creation() {
    let mut o = options();
    assert!(!retry_create_after_removal(&o));
    o.force = true;
    assert!(retry_create_after_removal(&o));
    for st in strategies(&o, true) {
        assert!(guard(st, true, false, &s("a"), &s("b")).is_none());
    }
}

#[test]
fn progress_bar_shown_only_for_content_runs() {
    let mut o = options();
    assert!(!cpx::progress_bar::shows_progress_bar(0, &o));
    assert!(cpx::progress_bar::shows_progress_bar(2, &o));
    o.interactive = true;
    assert!(!cpx::progress_bar::shows_progress_bar(2, &o));
    let mut o = options();
    o.attributes_only = true;
    assert!(!cpx::progress_bar::shows_progress_bar(2, &o));
}
