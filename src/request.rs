//! Checks on a single-source request before any plan is built.
use vstd::prelude::*;
use crate::error::CopyError;
use crate::options::CopyOptions;

verus! {

pub open spec fn not_recursive_reason() -> Seq<char> {
    "'src' is a directory (not copied, use -r to copy recursively)"@
}

pub open spec fn spec_validate(
    source: String,
    destination: String,
    source_exists: bool,
    source_is_dir: bool,
    destination_is_file: bool,
    o: CopyOptions,
    r: Result<(), CopyError>,
) -> bool {
    if !source_exists {
        r == Err::<(), CopyError>(CopyError::InvalidSource(source))
    } else if source_is_dir && !o.recursive {
        match r {
            Err(CopyError::CopyFailed { source: s, destination: d, reason }) => s == source
                && d == destination && reason@ == not_recursive_reason(),
            _ => false,
        }
    } else if source_is_dir && destination_is_file {
        r == Err::<(), CopyError>(CopyError::InvalidDestination(destination))
    } else {
        r is Ok
    }
}

/// Whether a request may go on to planning: the source must exist, a
/// directory is copied only in recursive mode, and never onto a file.
pub fn validate_request(
    source: &String,
    destination: &String,
    source_exists: bool,
    source_is_dir: bool,
    destination_is_file: bool,
    o: &CopyOptions,
) -> (r: Result<(), CopyError>)
    ensures
        spec_validate(*source, *destination, source_exists, source_is_dir, destination_is_file, *o, r),
{
    if !source_exists {
        return Err(CopyError::InvalidSource(source.clone()));
    }
    if source_is_dir {
        if !o.recursive {
            return Err(
                CopyError::CopyFailed {
                    source: source.clone(),
                    destination: destination.clone(),
                    reason: String::from_str(
                        "'src' is a directory (not copied, use -r to copy recursively)",
                    ),
                },
            );
        }
        if destination_is_file {
            return Err(CopyError::InvalidDestination(destination.clone()));
        }
    }
    Ok(())
}

} // verus!
