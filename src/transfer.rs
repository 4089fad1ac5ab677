//! The per-file transfer strategy chain: which ways of moving the bytes are
//! tried, in which order, and what each attempt's outcome means.
use vstd::prelude::*;
use crate::error::CopyError;
use crate::options::CopyOptions;

verus! {

/// What happens before any byte is moved.
#[derive(Clone, Copy, Debug, PartialEq, Eq, Structural)]
pub enum Preflight {
    /// Attributes-only mode: no content is transferred; the attributes are
    /// applied when the destination exists, otherwise the task does nothing.
    AttributesOnly { apply: bool },
    /// Content transfer, after asking about an overwrite (`prompt`), backing
    /// up the existing destination (`backup`) and unlinking it (`remove_first`,
    /// in force mode or when removal is asked for).
    Transfer { prompt: bool, backup: bool, remove_first: bool },
}

/// A way of committing one file's content, in the order of preference.
#[derive(Clone, Copy, Debug, PartialEq, Eq, Structural)]
pub enum Strategy {
    /// Link to the copy already made of a file with the same identity.
    HardlinkDedup,
    /// Copy-on-write clone.
    Reflink,
    /// In-kernel zero-copy transfer.
    ZeroCopy,
    /// Buffered user-space copy, the universal fallback.
    Buffered,
}

/// What one attempt of a strategy came to.
#[derive(Clone, Debug)]
pub enum Attempt {
    Handled,
    /// The strategy does not apply (no tracked copy of this identity yet).
    NotApplicable,
    Failed(CopyError),
}

/// What the chain does next.
#[derive(Clone, Debug)]
pub enum Verdict {
    Done,
    FallThrough,
    Fail(CopyError),
}

pub open spec fn spec_preflight(o: CopyOptions, destination_exists: bool) -> Preflight {
    if o.attributes_only {
        Preflight::AttributesOnly { apply: destination_exists }
    } else {
        Preflight::Transfer {
            prompt: o.interactive && destination_exists,
            backup: o.spec_wants_backup() && destination_exists,
            remove_first: o.force || o.remove_destination,
        }
    }
}

/// The steps that come before the strategies, given whether the destination
/// exists.
pub fn preflight(o: &CopyOptions, destination_exists: bool) -> (r: Preflight)
    ensures
        r == spec_preflight(*o, destination_exists),
{
    if o.attributes_only {
        Preflight::AttributesOnly { apply: destination_exists }
    } else {
        Preflight::Transfer {
            prompt: o.interactive && destination_exists,
            backup: o.wants_backup() && destination_exists,
            remove_first: o.force || o.remove_destination,
        }
    }
}

pub open spec fn opt_step(b: bool, s: Strategy) -> Seq<Strategy> {
    if b {
        seq![s]
    } else {
        Seq::empty()
    }
}

pub open spec fn spec_strategies(o: CopyOptions, zero_copy_available: bool) -> Seq<Strategy> {
    opt_step(o.preserve.links, Strategy::HardlinkDedup) + opt_step(
        o.spec_wants_reflink(),
        Strategy::Reflink,
    ) + opt_step(zero_copy_available, Strategy::ZeroCopy) + seq![Strategy::Buffered]
}

/// The strategies to try for a file, in order; the buffered copy is always last.
pub fn strategies(o: &CopyOptions, zero_copy_available: bool) -> (r: Vec<Strategy>)
    ensures
        r@ == spec_strategies(*o, zero_copy_available),
        r@.len() > 0,
        r@.last() == Strategy::Buffered,
{
    let mut r: Vec<Strategy> = Vec::new();
    if o.preserve.links {
        r.push(Strategy::HardlinkDedup);
    }
    if o.wants_reflink() {
        r.push(Strategy::Reflink);
    }
    if zero_copy_available {
        r.push(Strategy::ZeroCopy);
    }
    r.push(Strategy::Buffered);
    assert(r@ =~= spec_strategies(*o, zero_copy_available));
    r
}

pub open spec fn spec_guard(
    s: Strategy,
    destination_exists: bool,
    cancel_requested: bool,
    source: String,
    destination: String,
) -> Option<CopyError> {
    match s {
        Strategy::Reflink => if destination_exists {
            Some(CopyError::ReflinkFailed { source, destination })
        } else {
            None
        },
        Strategy::ZeroCopy => if cancel_requested {
            Some(CopyError::Cancelled)
        } else {
            None
        },
        _ => None,
    }
}

/// The failure due before `s` is attempted: a clone cannot overwrite an
/// existing destination, and a pending cancellation stops the zero-copy path.
pub fn guard(
    s: Strategy,
    destination_exists: bool,
    cancel_requested: bool,
    source: &String,
    destination: &String,
) -> (r: Option<CopyError>)
    ensures
        r == spec_guard(s, destination_exists, cancel_requested, *source, *destination),
{
    match s {
        Strategy::Reflink => if destination_exists {
            Some(CopyError::ReflinkFailed { source: source.clone(), destination: destination.clone() })
        } else {
            None
        },
        Strategy::ZeroCopy => if cancel_requested {
            Some(CopyError::Cancelled)
        } else {
            None
        },
        _ => None,
    }
}

pub open spec fn spec_verdict(
    s: Strategy,
    o: CopyOptions,
    a: Attempt,
    source: String,
    destination: String,
) -> Verdict {
    match a {
        Attempt::Handled => Verdict::Done,
        Attempt::NotApplicable => Verdict::FallThrough,
        Attempt::Failed(e) => match s {
            Strategy::Reflink => if o.spec_requires_reflink() {
                Verdict::Fail(CopyError::ReflinkFailed { source, destination })
            } else {
                Verdict::FallThrough
            },
            Strategy::ZeroCopy => Verdict::FallThrough,
            _ => Verdict::Fail(e),
        },
    }
}

/// What follows an attempt of `s`: a failed clone is fatal only when clones
/// are required, a failed zero-copy falls back, other failures are final.
pub fn verdict(s: Strategy, o: &CopyOptions, a: Attempt, source: &String, destination: &String) -> (r:
    Verdict)
    ensures
        r == spec_verdict(s, *o, a, *source, *destination),
{
    match a {
        Attempt::Handled => Verdict::Done,
        Attempt::NotApplicable => Verdict::FallThrough,
        Attempt::Failed(e) => match s {
            Strategy::Reflink => if o.requires_reflink() {
                Verdict::Fail(
                    CopyError::ReflinkFailed { source: source.clone(), destination: destination.clone() },
                )
            } else {
                Verdict::FallThrough
            },
            Strategy::ZeroCopy => Verdict::FallThrough,
            _ => Verdict::Fail(e),
        },
    }
}

/// Creating the destination failed: with force, unlink it and create it again.
pub fn retry_create_after_removal(o: &CopyOptions) -> (r: bool)
    ensures
        r == o.force,
{
    o.force
}

/// Attributes are applied after a successful content transfer unless
/// preservation is fully disabled.
pub fn applies_attributes(o: &CopyOptions) -> (r: bool)
    ensures
        r == !o.preserve.spec_is_none(),
{
    !o.preserve.is_none()
}

/// Whether the task goes on after the overwrite prompt: a declined prompt
/// skips backup and transfer, without error.
pub fn proceeds_after_prompt(prompted: bool, accepted: bool) -> (r: bool)
    ensures
        r == (!prompted || accepted),
{
    !prompted || accepted
}

/// Bytes to add to the progress total once `s` has handled a file of
/// `file_size` bytes: a clone reports the whole file at once, the copying
/// strategies have reported as they went, and a link moves no bytes.
pub fn bytes_on_completion(s: Strategy, file_size: u64) -> (r: u64)
    ensures
        r == if s == Strategy::Reflink {
            file_size
        } else {
            0
        },
{
    match s {
        Strategy::Reflink => file_size,
        _ => 0,
    }
}

} // verus!
