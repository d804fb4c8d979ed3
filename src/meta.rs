//! The native metadata of an entry, as plain values: what the operating
//! system reports, before it is turned into a characteristics record.

use vstd::prelude::*;

use crate::time::Timestamp;

verus! {

/// The file type of an entry.
#[derive(Clone, Copy, Debug, PartialEq, Eq, Structural)]
pub enum FileKind {
    Dir,
    Symlink,
    Block,
    Char,
    Fifo,
    Socket,
    Other,
}

/// How a system describes entries: POSIX `stat` fields, or file attribute
/// bits.
#[derive(Clone, Copy, Debug, PartialEq, Eq, Structural)]
pub enum Platform {
    Posix,
    Attributes,
}

/// The raw `stat` fields of a POSIX system.
#[derive(Clone, Copy, Debug, PartialEq, Eq, Structural)]
pub struct PosixMeta {
    /// Seconds part of the inode change time, as the system reports it.
    pub ctime: i64,
    /// Nanoseconds part of the inode change time, as the system reports it.
    pub ctime_nsec: i64,
    pub mode: u32,
    pub dev: u64,
    pub uid: u32,
    pub gid: u32,
    pub nlink: u64,
}

/// What only one kind of system reports.
#[derive(Clone, Copy, Debug, PartialEq, Eq, Structural)]
pub enum Native {
    Posix(PosixMeta),
    /// The file attribute bits.
    Attributes(u32),
}

/// The attribute bit of a hidden entry.
pub const FILE_ATTRIBUTE_HIDDEN: u32 = 0x2;

/// The attribute bit of an entry that belongs to the system.
pub const FILE_ATTRIBUTE_SYSTEM: u32 = 0x4;

/// The native metadata of one entry. A timestamp the system could not give
/// is `None`.
#[derive(Clone, Copy, Debug, PartialEq, Eq, Structural)]
pub struct Meta {
    pub file_kind: FileKind,
    pub len: u64,
    pub atime: Option<Timestamp>,
    pub btime: Option<Timestamp>,
    pub mtime: Option<Timestamp>,
    pub native: Native,
}

impl Meta {
    pub open spec fn spec_is_dir(self) -> bool {
        self.file_kind == FileKind::Dir
    }

    pub open spec fn spec_is_symlink(self) -> bool {
        self.file_kind == FileKind::Symlink
    }

    /// The metadata describes a directory.
    pub fn is_dir(&self) -> (r: bool)
        ensures
            r == self.spec_is_dir(),
    {
        matches!(self.file_kind, FileKind::Dir)
    }

    /// The metadata describes a symbolic link itself.
    pub fn is_symlink(&self) -> (r: bool)
        ensures
            r == self.spec_is_symlink(),
    {
        matches!(self.file_kind, FileKind::Symlink)
    }

    /// The kind of system that reported the metadata.
    pub fn platform(&self) -> (r: Platform)
        ensures
            r == (match self.native {
                Native::Posix(_) => Platform::Posix,
                Native::Attributes(_) => Platform::Attributes,
            }),
    {
        match self.native {
            Native::Posix(_) => Platform::Posix,
            Native::Attributes(_) => Platform::Attributes,
        }
    }
}

} // verus!
