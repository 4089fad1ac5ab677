//! The configuration a run of the engine is given.
use vstd::prelude::*;

verus! {

/// How a destination that is about to be overwritten is backed up.
#[derive(Clone, Copy, Debug, PartialEq, Eq, Structural)]
pub enum BackupMode {
    Off,
    Simple,
    Numbered,
    Existing,
}

/// Whether the copy-on-write clone is tried, and whether it is required.
#[derive(Clone, Copy, Debug, PartialEq, Eq, Structural)]
pub enum ReflinkMode {
    Auto,
    Always,
    Never,
}

/// How symbolic links are written when links, not copies, are asked for.
#[derive(Clone, Copy, Debug, PartialEq, Eq, Structural)]
pub enum SymlinkMode {
    Auto,
    Absolute,
    Relative,
}

/// Whether symbolic links among the sources are followed.
#[derive(Clone, Copy, Debug, PartialEq, Eq, Structural)]
pub enum FollowSymlink {
    /// Always follow.
    Dereference,
    /// Follow the links named on the command line only.
    CommandLineSymlink,
    /// Never follow.
    NoDereference,
}

/// Which attributes are preserved, and whether hard links between sources are.
#[derive(Clone, Copy, Debug, PartialEq, Eq, Structural)]
pub struct PreserveAttr {
    pub mode: bool,
    pub timestamps: bool,
    pub ownership: bool,
    /// Files that share a (device, inode) identity are re-linked, not copied twice.
    pub links: bool,
}

impl PreserveAttr {
    pub open spec fn spec_is_none(&self) -> bool {
        !self.mode && !self.timestamps && !self.ownership && !self.links
    }

    /// Nothing is preserved.
    pub fn none() -> (r: PreserveAttr)
        ensures
            r.spec_is_none(),
    {
        PreserveAttr { mode: false, timestamps: false, ownership: false, links: false }
    }

    pub fn is_none(&self) -> (r: bool)
        ensures
            r == self.spec_is_none(),
    {
        !self.mode && !self.timestamps && !self.ownership && !self.links
    }
}

/// Flags of one copy or move operation.
#[derive(Clone, Debug)]
pub struct CopyOptions {
    pub recursive: bool,
    pub move_files: bool,
    pub force: bool,
    pub interactive: bool,
    pub preserve: PreserveAttr,
    pub follow_symlink: FollowSymlink,
    pub backup: BackupMode,
    /// Symbolic links are created in place of copies.
    pub symbolic_link: Option<SymlinkMode>,
    /// Hard links are created in place of copies.
    pub hard_link: bool,
    pub attributes_only: bool,
    pub remove_destination: bool,
    pub reflink: Option<ReflinkMode>,
    pub parallel: usize,
}

impl CopyOptions {
    pub open spec fn spec_wants_backup(&self) -> bool {
        self.backup != BackupMode::Off
    }

    pub open spec fn spec_wants_reflink(&self) -> bool {
        match self.reflink {
            Some(m) => m != ReflinkMode::Never,
            None => false,
        }
    }

    pub open spec fn spec_requires_reflink(&self) -> bool {
        self.reflink == Some(ReflinkMode::Always)
    }

    /// A backup mode other than "none" is configured.
    pub fn wants_backup(&self) -> (r: bool)
        ensures
            r == self.spec_wants_backup(),
    {
        !matches!(self.backup, BackupMode::Off)
    }

    /// The top-level source is examined through a symbolic link it may be.
    pub fn follows_source_link(&self) -> (r: bool)
        ensures
            r == (self.follow_symlink != FollowSymlink::NoDereference),
    {
        !matches!(self.follow_symlink, FollowSymlink::NoDereference)
    }

    /// The copy-on-write clone is to be tried.
    pub fn wants_reflink(&self) -> (r: bool)
        ensures
            r == self.spec_wants_reflink(),
    {
        match self.reflink {
            Some(m) => !matches!(m, ReflinkMode::Never),
            None => false,
        }
    }

    /// A failed copy-on-write clone fails the file.
    pub fn requires_reflink(&self) -> (r: bool)
        ensures
            r == self.spec_requires_reflink(),
    {
        matches!(self.reflink, Some(ReflinkMode::Always))
    }
}

} // verus!
