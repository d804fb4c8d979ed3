//! The characteristics record of an entry: how it is built from native
//! metadata, what it answers, and when two records count as the same.

use vstd::prelude::*;

use crate::kind::{
    kind_bits, lemma_flags_as_kind_bits, lemma_kind_bits_or, ChaKind, DIR, DUMMY, HIDDEN, LINK,
    ORPHAN, SYSTEM,
};
use crate::meta::{
    FileKind, Meta, Native, Platform, PosixMeta, FILE_ATTRIBUTE_HIDDEN, FILE_ATTRIBUTE_SYSTEM,
};
use crate::time::Timestamp;

verus! {

/// Mask of the file type bits of a POSIX mode.
pub const S_IFMT: u32 = 0o170000;

/// File type bits of a socket.
pub const S_IFSOCK: u32 = 0o140000;

/// File type bits of a symbolic link.
pub const S_IFLNK: u32 = 0o120000;

/// File type bits of a block device.
pub const S_IFBLK: u32 = 0o060000;

/// File type bits of a directory.
pub const S_IFDIR: u32 = 0o040000;

/// File type bits of a character device.
pub const S_IFCHR: u32 = 0o020000;

/// File type bits of a FIFO.
pub const S_IFIFO: u32 = 0o010000;

/// The sticky bit.
pub const S_ISVTX: u32 = 0o1000;

/// Execute permission for the owner.
pub const S_IXUSR: u32 = 0o100;

/// Whether the last component of a path is hidden by the dot-name convention.
pub uninterp spec fn name_hidden(path: Seq<char>) -> bool;

/// Relies on `yazi_shared::path::PathDyn::is_hidden`: whether the file name of
/// the path starts with a dot, which depends on the path alone.
#[verifier::external_body]
fn path_is_hidden(path: &str) -> (r: bool)
    ensures
        r == name_hidden(path@),
{
    yazi_shared::path::PathDyn::from(std::path::Path::new(path)).is_hidden()
}

/// The characteristics of one entry: a snapshot of its metadata.
///
/// `ctime`, `mode`, `dev`, `uid`, `gid` and `nlink` come from POSIX systems;
/// a record of a system with file attributes holds `None` and zeros there.
#[derive(Clone, Copy, Debug, PartialEq, Eq, Structural)]
pub struct Cha {
    pub kind: ChaKind,
    pub len: u64,
    pub atime: Option<Timestamp>,
    pub btime: Option<Timestamp>,
    pub ctime: Option<Timestamp>,
    pub mtime: Option<Timestamp>,
    pub mode: u32,
    pub dev: u64,
    pub uid: u32,
    pub gid: u32,
    pub nlink: u64,
}

impl Default for Cha {
    /// The record with no flag, every field zero or absent.
    fn default() -> (r: Cha)
        ensures
            r == Cha::blank(ChaKind { bits: 0 }, 0),
    {
        Cha {
            kind: ChaKind::empty(),
            len: 0,
            atime: None,
            btime: None,
            ctime: None,
            mtime: None,
            mode: 0,
            dev: 0,
            uid: 0,
            gid: 0,
            nlink: 0,
        }
    }
}

/// The inode change time, rebuilt from its raw seconds and nanoseconds with
/// the same conversions as the system's own types; `None` on overflow.
pub open spec fn ctime_of(p: PosixMeta) -> Option<Timestamp> {
    Timestamp::spec_after_epoch(p.ctime as u64, p.ctime_nsec as u32)
}

/// Whether the entry counts as hidden: by the name classifier's answer on a
/// POSIX system, by the hidden attribute otherwise.
pub open spec fn hidden_of(m: Meta, hidden_name: bool) -> bool {
    match m.native {
        Native::Posix(_) => hidden_name,
        Native::Attributes(a) => a & FILE_ATTRIBUTE_HIDDEN != 0,
    }
}

/// Whether the entry carries the system attribute.
pub open spec fn system_of(m: Meta) -> bool {
    match m.native {
        Native::Posix(_) => false,
        Native::Attributes(a) => a & FILE_ATTRIBUTE_SYSTEM != 0,
    }
}

/// The metadata that following a link settles on: the target's where the
/// entry is a link and its target could be read, the entry's own otherwise.
pub open spec fn resolved(m: Meta, target: Option<Meta>) -> Meta {
    if m.spec_is_symlink() {
        match target {
            Some(t) => t,
            None => m,
        }
    } else {
        m
    }
}

/// The raw mode bits that stand for a file type on a POSIX system.
pub open spec fn file_type_mode(t: FileKind) -> u32 {
    match t {
        FileKind::Dir => S_IFDIR,
        FileKind::Symlink => S_IFLNK,
        FileKind::Block => S_IFBLK,
        FileKind::Char => S_IFCHR,
        FileKind::Fifo => S_IFIFO,
        FileKind::Socket => S_IFSOCK,
        FileKind::Other => 0,
    }
}

impl Cha {
    /// A record with the given kind and mode, every other field zero or absent.
    pub open spec fn blank(kind: ChaKind, mode: u32) -> Cha {
        Cha {
            kind,
            len: 0,
            atime: None,
            btime: None,
            ctime: None,
            mtime: None,
            mode,
            dev: 0,
            uid: 0,
            gid: 0,
            nlink: 0,
        }
    }

    /// The same record with the bits of `extra` added to its kind.
    pub open spec fn with_kind(self, extra: u8) -> Cha {
        Cha { kind: ChaKind { bits: (self.kind.bits | extra) as u8 }, ..self }
    }

    pub open spec fn spec_dummy() -> Cha {
        Cha::blank(ChaKind { bits: DUMMY }, 0)
    }

    /// The record of native metadata: DIR or LINK by its file type, its
    /// length and times, and on a POSIX system its raw fields.
    pub open spec fn spec_from_meta(m: Meta) -> Cha {
        let kind = ChaKind {
            bits: kind_bits(m.spec_is_dir(), false, m.spec_is_symlink(), false, false, false),
        };
        match m.native {
            Native::Posix(p) => Cha {
                kind,
                len: m.len,
                atime: m.atime,
                btime: m.btime,
                ctime: ctime_of(p),
                mtime: m.mtime,
                mode: p.mode,
                dev: p.dev,
                uid: p.uid,
                gid: p.gid,
                nlink: p.nlink,
            },
            Native::Attributes(_) => Cha {
                kind,
                len: m.len,
                atime: m.atime,
                btime: m.btime,
                ctime: None,
                mtime: m.mtime,
                mode: 0,
                dev: 0,
                uid: 0,
                gid: 0,
                nlink: 0,
            },
        }
    }

    /// The placeholder record of an entry of which only the file type is known.
    pub open spec fn spec_from_file_type(t: FileKind, platform: Platform) -> Cha {
        Cha::blank(
            ChaKind { bits: kind_bits(t == FileKind::Dir, false, t == FileKind::Symlink, false, true, false) },
            match platform {
                Platform::Posix => file_type_mode(t),
                Platform::Attributes => 0,
            },
        )
    }

    /// The record of native metadata with HIDDEN and SYSTEM added, given the
    /// name classifier's answer for the entry.
    pub open spec fn spec_classify(m: Meta, hidden_name: bool) -> Cha {
        Cha::spec_from_meta(m).with_kind(
            kind_bits(false, hidden_of(m, hidden_name), false, false, false, system_of(m)),
        )
    }

    pub open spec fn spec_new_nofollow(path: Seq<char>, m: Meta) -> Cha {
        Cha::spec_classify(m, name_hidden(path))
    }

    /// The record built from the resolved metadata, with LINK where the entry
    /// is a link and ORPHAN where the resolved metadata is still a link.
    pub open spec fn spec_new(path: Seq<char>, m: Meta, target: Option<Meta>) -> Cha {
        let r = resolved(m, target);
        Cha::spec_new_nofollow(path, r).with_kind(
            kind_bits(false, false, m.spec_is_symlink(), r.spec_is_symlink(), false, false),
        )
    }

    pub open spec fn spec_hits(self, c: Cha) -> bool {
        &&& self.len == c.len
        &&& self.mtime == c.mtime
        &&& self.ctime == c.ctime
        &&& self.btime == c.btime
        &&& self.kind == c.kind
        &&& self.mode == c.mode
    }

    pub open spec fn spec_is_dir(self) -> bool {
        self.kind.has(DIR)
    }

    pub open spec fn spec_is_hidden(self) -> bool {
        self.kind.has(HIDDEN) || self.kind.has(SYSTEM)
    }

    pub open spec fn spec_is_link(self) -> bool {
        self.kind.has(LINK)
    }

    pub open spec fn spec_is_orphan(self) -> bool {
        self.kind.has(ORPHAN)
    }

    pub open spec fn spec_is_dummy(self) -> bool {
        self.kind.has(DUMMY)
    }

    pub open spec fn spec_is_block(self) -> bool {
        self.mode & S_IFMT == S_IFBLK
    }

    pub open spec fn spec_is_char(self) -> bool {
        self.mode & S_IFMT == S_IFCHR
    }

    pub open spec fn spec_is_fifo(self) -> bool {
        self.mode & S_IFMT == S_IFIFO
    }

    pub open spec fn spec_is_sock(self) -> bool {
        self.mode & S_IFMT == S_IFSOCK
    }

    pub open spec fn spec_is_exec(self) -> bool {
        self.mode & S_IXUSR != 0
    }

    pub open spec fn spec_is_sticky(self) -> bool {
        self.mode & S_ISVTX != 0
    }
}

impl Cha {
    /// The record of native metadata: DIR for a directory, LINK for a link,
    /// length and times copied, and on a POSIX system the raw fields, with
    /// the inode change time rebuilt under checked arithmetic.
    pub fn from_meta(m: Meta) -> (r: Cha)
        ensures
            r == Cha::spec_from_meta(m),
    {
        let mut kind = ChaKind::empty();
        if m.is_dir() {
            kind.insert(DIR);
        } else if m.is_symlink() {
            kind.insert(LINK);
        }
        proof {
            lemma_flags_as_kind_bits();
            lemma_kind_bits_or(false, false, false, false, false, false, true, false, false, false, false, false);
            lemma_kind_bits_or(false, false, false, false, false, false, false, false, true, false, false, false);
        }
        match m.native {
            Native::Posix(p) => Cha {
                kind,
                len: m.len,
                atime: m.atime,
                btime: m.btime,
                ctime: Timestamp::after_epoch(
                    #[verifier::truncate]
                    (p.ctime as u64),
                    #[verifier::truncate]
                    (p.ctime_nsec as u32),
                ),
                mtime: m.mtime,
                mode: p.mode,
                dev: p.dev,
                uid: p.uid,
                gid: p.gid,
                nlink: p.nlink,
            },
            Native::Attributes(_) => Cha {
                kind,
                len: m.len,
                atime: m.atime,
                btime: m.btime,
                ctime: None,
                mtime: m.mtime,
                mode: 0,
                dev: 0,
                uid: 0,
                gid: 0,
                nlink: 0,
            },
        }
    }

    /// The placeholder record of an entry of which only the file type is
    /// known: DUMMY, DIR or LINK where they apply, and on a POSIX system the
    /// mode bits of the file type, so that the type predicates still answer.
    pub fn from_file_type(t: FileKind, platform: Platform) -> (r: Cha)
        ensures
            r == Cha::spec_from_file_type(t, platform),
    {
        let mut kind = ChaKind::from_bits_retain(DUMMY);
        if matches!(t, FileKind::Dir) {
            kind.insert(DIR);
        } else if matches!(t, FileKind::Symlink) {
            kind.insert(LINK);
        }
        proof {
            lemma_flags_as_kind_bits();
            lemma_kind_bits_or(false, false, false, false, true, false, true, false, false, false, false, false);
            lemma_kind_bits_or(false, false, false, false, true, false, false, false, true, false, false, false);
        }
        let mode: u32 = match platform {
            Platform::Posix => match t {
                FileKind::Dir => S_IFDIR,
                FileKind::Symlink => S_IFLNK,
                FileKind::Block => S_IFBLK,
                FileKind::Char => S_IFCHR,
                FileKind::Fifo => S_IFIFO,
                FileKind::Socket => S_IFSOCK,
                FileKind::Other => 0,
            },
            Platform::Attributes => 0,
        };
        Cha {
            kind,
            len: 0,
            atime: None,
            btime: None,
            ctime: None,
            mtime: None,
            mode,
            dev: 0,
            uid: 0,
            gid: 0,
            nlink: 0,
        }
    }

    /// The record of native metadata, with HIDDEN and SYSTEM added: on a
    /// POSIX system HIDDEN comes from `hidden_name`, the name classifier's
    /// answer for the entry; on a system with file attributes from the
    /// hidden and system attributes, and `hidden_name` is not read.
    pub fn classify(m: Meta, hidden_name: bool) -> (r: Cha)
        ensures
            r == Cha::spec_classify(m, hidden_name),
    {
        let mut attached = ChaKind::empty();
        let ghost h = hidden_of(m, hidden_name);
        let ghost s = system_of(m);
        proof {
            lemma_flags_as_kind_bits();
        }
        match m.native {
            Native::Posix(_) => {
                if hidden_name {
                    attached.insert(HIDDEN);
                    proof {
                        lemma_kind_bits_or(false, false, false, false, false, false, false, true, false, false, false, false);
                    }
                }
            },
            Native::Attributes(a) => {
                if a & FILE_ATTRIBUTE_HIDDEN != 0 {
                    attached.insert(HIDDEN);
                    proof {
                        lemma_kind_bits_or(false, false, false, false, false, false, false, true, false, false, false, false);
                    }
                }
                if a & FILE_ATTRIBUTE_SYSTEM != 0 {
                    proof {
                        lemma_kind_bits_or(false, h, false, false, false, false, false, false, false, false, false, true);
                    }
                    attached.insert(SYSTEM);
                }
            },
        }
        assert(attached.bits == kind_bits(false, h, false, false, false, s));
        let mut cha = Cha::from_meta(m);
        cha.kind = cha.kind.union(attached);
        cha
    }

    /// Non-following construction: the record of the entry itself, with
    /// HIDDEN and SYSTEM as `classify` gives them. On a POSIX system the
    /// path's name decides HIDDEN. A link is described as the link itself.
    pub fn new_nofollow(path: &str, meta: Meta) -> (r: Cha)
        ensures
            r == Cha::spec_new_nofollow(path@, meta),
    {
        let hidden_name = match meta.native {
            Native::Posix(_) => path_is_hidden(path),
            Native::Attributes(_) => false,
        };
        Cha::classify(meta, hidden_name)
    }

    /// Following construction. `target` is what reading the metadata of the
    /// link's target gave, `None` where that failed; it is read only where
    /// `meta` is a link. A link gets LINK and the record of the resolved
    /// metadata (`resolved`); where that is still a link, ORPHAN too.
    pub fn new(path: &str, meta: Meta, target: Option<Meta>) -> (r: Cha)
        ensures
            r == Cha::spec_new(path@, meta, target),
    {
        let ghost m0 = meta;
        let mut meta = meta;
        let mut attached = ChaKind::empty();
        proof {
            lemma_flags_as_kind_bits();
        }
        if meta.is_symlink() {
            attached.insert(LINK);
            proof {
                lemma_kind_bits_or(false, false, false, false, false, false, false, false, true, false, false, false);
            }
            meta = match target {
                Some(t) => t,
                None => meta,
            };
        }
        assert(meta == resolved(m0, target));
        if meta.is_symlink() {
            proof {
                lemma_kind_bits_or(false, false, true, false, false, false, false, false, false, true, false, false);
            }
            attached.insert(ORPHAN);
        }
        assert(attached.bits == kind_bits(false, false, m0.spec_is_symlink(), meta.spec_is_symlink(), false, false));
        let mut cha = Cha::new_nofollow(path, meta);
        cha.kind = cha.kind.union(attached);
        cha
    }

    /// The placeholder record: DUMMY alone, every other field zero or absent.
    pub fn dummy() -> (r: Cha)
        ensures
            r == Cha::spec_dummy(),
    {
        Cha {
            kind: ChaKind::from_bits_retain(DUMMY),
            len: 0,
            atime: None,
            btime: None,
            ctime: None,
            mtime: None,
            mode: 0,
            dev: 0,
            uid: 0,
            gid: 0,
            nlink: 0,
        }
    }

    /// Whether data derived from `self` may be reused for `c`: same length,
    /// modification, change and birth times, kind and mode. Device, owner,
    /// group and link count are not compared.
    pub fn hits(self, c: Cha) -> (r: bool)
        ensures
            r == self.spec_hits(c),
    {
        self.len == c.len && self.mtime == c.mtime && self.ctime == c.ctime && self.btime == c.btime
            && self.kind == c.kind && self.mode == c.mode
    }
}

impl Cha {
    /// The entry is a directory.
    pub fn is_dir(&self) -> (r: bool)
        ensures
            r == self.spec_is_dir(),
    {
        self.kind.contains(DIR)
    }

    /// The entry is hidden: HIDDEN, or SYSTEM.
    pub fn is_hidden(&self) -> (r: bool)
        ensures
            r == self.spec_is_hidden(),
    {
        self.kind.contains(HIDDEN) || self.kind.contains(SYSTEM)
    }

    /// The entry is a symbolic link.
    pub fn is_link(&self) -> (r: bool)
        ensures
            r == self.spec_is_link(),
    {
        self.kind.contains(LINK)
    }

    /// The entry is a link whose target could not be resolved.
    pub fn is_orphan(&self) -> (r: bool)
        ensures
            r == self.spec_is_orphan(),
    {
        self.kind.contains(ORPHAN)
    }

    /// The entry is a placeholder.
    pub fn is_dummy(&self) -> (r: bool)
        ensures
            r == self.spec_is_dummy(),
    {
        self.kind.contains(DUMMY)
    }

    /// The mode's file type bits are those of a block device.
    pub fn is_block(&self) -> (r: bool)
        ensures
            r == self.spec_is_block(),
    {
        self.mode & S_IFMT == S_IFBLK
    }

    /// The mode's file type bits are those of a character device.
    pub fn is_char(&self) -> (r: bool)
        ensures
            r == self.spec_is_char(),
    {
        self.mode & S_IFMT == S_IFCHR
    }

    /// The mode's file type bits are those of a FIFO.
    pub fn is_fifo(&self) -> (r: bool)
        ensures
            r == self.spec_is_fifo(),
    {
        self.mode & S_IFMT == S_IFIFO
    }

    /// The mode's file type bits are those of a socket.
    pub fn is_sock(&self) -> (r: bool)
        ensures
            r == self.spec_is_sock(),
    {
        self.mode & S_IFMT == S_IFSOCK
    }

    /// The owner may execute the entry.
    pub fn is_exec(&self) -> (r: bool)
        ensures
            r == self.spec_is_exec(),
    {
        self.mode & S_IXUSR != 0
    }

    /// The sticky bit is set.
    pub fn is_sticky(&self) -> (r: bool)
        ensures
            r == self.spec_is_sticky(),
    {
        self.mode & S_ISVTX != 0
    }
}

} // verus!
