//! Errors of the engine, each tied to the paths it concerns.
use vstd::prelude::*;

verus! {

#[derive(Clone, Debug)]
pub enum CopyError {
    /// The source cannot be examined.
    InvalidSource(String),
    /// The destination is of the wrong kind (a file where a directory is needed).
    InvalidDestination(String),
    CopyFailed { source: String, destination: String, reason: String },
    ReflinkFailed { source: String, destination: String },
    SymlinkFailed { source: String, destination: String },
    /// Any other I/O failure, with the operating system's description.
    Io(String),
    /// The run was cancelled while this transfer was in progress.
    Cancelled,
}

pub open spec fn spec_message(e: CopyError) -> Seq<char> {
    match e {
        CopyError::InvalidSource(p) => "Invalid source: "@ + p@,
        CopyError::InvalidDestination(p) => "Invalid destination: "@ + p@,
        CopyError::CopyFailed { source, destination, reason } => "Failed to copy "@ + source@
            + " to "@ + destination@ + ": "@ + reason@,
        CopyError::ReflinkFailed { source, destination } => "Reflink failed from "@ + source@
            + " to "@ + destination@,
        CopyError::SymlinkFailed { source, destination } => "Failed to create symlink from "@
            + source@ + " to "@ + destination@,
        CopyError::Io(m) => "IO error: "@ + m@,
        CopyError::Cancelled => "Operation interrupted by user"@,
    }
}

fn joined(a: &str, b: &str) -> (r: String)
    ensures
        r@ == a@ + b@,
{
    let mut r = String::from_str(a);
    r.append(b);
    r
}

fn pair_message(lead: &str, source: &String, mid: &str, destination: &String) -> (r: String)
    ensures
        r@ == lead@ + source@ + mid@ + destination@,
{
    let mut r = String::from_str(lead);
    r.append(source.as_str());
    r.append(mid);
    r.append(destination.as_str());
    r
}

impl CopyError {
    /// Human-readable description of the error.
    pub fn message(&self) -> (r: String)
        ensures
            r@ == spec_message(*self),
    {
        match self {
            CopyError::InvalidSource(p) => joined("Invalid source: ", p.as_str()),
            CopyError::InvalidDestination(p) => joined("Invalid destination: ", p.as_str()),
            CopyError::CopyFailed { source, destination, reason } => {
                let mut r = pair_message("Failed to copy ", source, " to ", destination);
                r.append(": ");
                r.append(reason.as_str());
                r
            },
            CopyError::ReflinkFailed { source, destination } => pair_message(
                "Reflink failed from ",
                source,
                " to ",
                destination,
            ),
            CopyError::SymlinkFailed { source, destination } => pair_message(
                "Failed to create symlink from ",
                source,
                " to ",
                destination,
            ),
            CopyError::Io(m) => joined("IO error: ", m.as_str()),
            CopyError::Cancelled => String::from_str("Operation interrupted by user"),
        }
    }

    /// The error stands for a cancelled transfer, not a failure.
    pub fn is_cancellation(&self) -> (r: bool)
        ensures
            r == (*self is Cancelled),
    {
        matches!(self, CopyError::Cancelled)
    }
}

} // verus!
