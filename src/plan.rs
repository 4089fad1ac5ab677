//! The transfer plan handed to the engine: what to create, copy or link, and where.
use vstd::prelude::*;

verus! {

/// A directory to materialise; `source` is set when it mirrors an existing
/// source directory.
#[derive(Clone, Debug)]
pub struct DirectoryTask {
    pub source: Option<String>,
    pub destination: String,
}

/// One regular file to transfer; `size` drives buffer sizing and progress.
#[derive(Clone, Debug)]
pub struct FileTask {
    pub source: String,
    pub destination: String,
    pub size: u64,
}

/// A symbolic link to create or relocate.
#[derive(Clone, Debug)]
pub struct SymlinkTask {
    pub source: String,
    pub destination: String,
}

/// A hard link to create or relocate.
#[derive(Clone, Debug)]
pub struct HardlinkTask {
    pub source: String,
    pub destination: String,
}

/// All the work of one copy or move request.
#[derive(Clone, Debug)]
pub struct CopyPlan {
    pub directories: Vec<DirectoryTask>,
    pub files: Vec<FileTask>,
    pub symlinks: Vec<SymlinkTask>,
    pub hardlinks: Vec<HardlinkTask>,
    pub total_files: usize,
    pub total_size: u64,
    pub total_symlinks: usize,
    pub total_hardlinks: usize,
    pub skipped_files: usize,
    /// The top-level source path of the request.
    pub source: Option<String>,
}

impl CopyPlan {
    /// A plan with no work in it.
    pub fn new() -> (r: CopyPlan)
        ensures
            r.directories@.len() == 0,
            r.files@.len() == 0,
            r.symlinks@.len() == 0,
            r.hardlinks@.len() == 0,
            r.total_files == 0,
            r.total_size == 0,
            r.total_symlinks == 0,
            r.total_hardlinks == 0,
            r.skipped_files == 0,
            r.source is None,
    {
        CopyPlan {
            directories: Vec::new(),
            files: Vec::new(),
            symlinks: Vec::new(),
            hardlinks: Vec::new(),
            total_files: 0,
            total_size: 0,
            total_symlinks: 0,
            total_hardlinks: 0,
            skipped_files: 0,
            source: None,
        }
    }
}

} // verus!
