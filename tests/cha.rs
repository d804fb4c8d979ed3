use yazi_cha::cha::{
    S_IFBLK, S_IFCHR, S_IFDIR, S_IFIFO, S_IFLNK, S_IFMT, S_IFSOCK, S_ISVTX, S_IXUSR,
};
use yazi_cha::kind::{DIR, DUMMY, HIDDEN, LINK, ORPHAN, SYSTEM};
use yazi_cha::meta::{FILE_ATTRIBUTE_HIDDEN, FILE_ATTRIBUTE_SYSTEM};
use yazi_cha::{Cha, ChaKind, FileKind, Meta, Native, Platform, PosixMeta, Timestamp};

fn ts(secs: i64) -> Option<Timestamp> {
    Some(Timestamp { secs, nanos: 0 })
}

fn posix(mode: u32) -> PosixMeta {
    PosixMeta { ctime: 1_700_000_000, ctime_nsec: 250, mode, dev: 7, uid: 1000, gid: 100, nlink: 1 }
}

fn posix_meta(file_kind: FileKind, len: u64, mtime: i64, mode: u32) -> Meta {
    Meta {
        file_kind,
        len,
        atime: ts(mtime + 10),
        btime: ts(mtime - 10),
        mtime: ts(mtime),
        native: Native::Posix(posix(mode)),
    }
}

fn attr_meta(file_kind: FileKind, attrs: u32) -> Meta {
    Meta { file_kind, len: 12, atime: None, btime: ts(5), mtime: ts(6), native: Native::Attributes(attrs) }
}

#[test]
fn mode_constants_match_libc() {
    assert_eq!(S_IFMT, libc::S_IFMT as u32);
    assert_eq!(S_IFSOCK, libc::S_IFSOCK as u32);
    assert_eq!(S_IFLNK, libc::S_IFLNK as u32);
    assert_eq!(S_IFBLK, libc::S_IFBLK as u32);
    assert_eq!(S_IFDIR, libc::S_IFDIR as u32);
    assert_eq!(S_IFCHR, libc::S_IFCHR as u32);
    assert_eq!(S_IFIFO, libc::S_IFIFO as u32);
    assert_eq!(S_ISVTX, libc::S_ISVTX as u32);
    assert_eq!(S_IXUSR, libc::S_IXUSR as u32);
}

#[test]
fn kind_set_operations() {
    let mut k = ChaKind::empty();
    assert_eq!(k.bits(), 0);
    assert!(!k.contains(DIR));
    k.insert(DIR);
    k.insert(ORPHAN);
    assert!(k.contains(DIR) && k.contains(ORPHAN));
    assert!(!k.contains(LINK));
    assert_eq!(k.bits(), 0b1001);
    let u = k.union(ChaKind::from_bits_retain(SYSTEM | HIDDEN));
    assert_eq!(u.bits(), 0b10_1011);
    assert!(u.contains(HIDDEN | DIR));
    assert!(!u.contains(HIDDEN | DUMMY));
}

#[test]
fn directory_entry_example() {
    let m = posix_meta(FileKind::Dir, 4096, 1_000, 0o040755);
    let a = Cha::new_nofollow("/home/user/docs", m);
    assert!(a.is_dir());
    assert!(!a.is_link());
    assert!(!a.is_hidden());
    assert_eq!(a.len, 4096);
    assert_eq!(a.mtime, ts(1_000));
    let b = Cha { dev: 99, ..a };
    assert!(a.hits(b));
    assert!(b.hits(a));
}

#[test]
fn symlink_to_deleted_target_is_orphan() {
    let m = posix_meta(FileKind::Symlink, 11, 500, 0o120777);
    let c = Cha::new("/tmp/dangling", m, None);
    assert!(c.is_link());
    assert!(c.is_orphan());
    assert_eq!(c.len, 11);
    assert_eq!(c.mode, 0o120777);
    assert_eq!(c.mtime, ts(500));
}

#[test]
fn symlink_to_live_target_describes_target() {
    let m = posix_meta(FileKind::Symlink, 11, 500, 0o120777);
    let t = posix_meta(FileKind::Other, 123_456, 900, 0o100644);
    let c = Cha::new("/tmp/live", m, Some(t));
    assert!(c.is_link());
    assert!(!c.is_orphan());
    assert!(!c.is_dir());
    assert_eq!(c.len, 123_456);
    assert_eq!(c.mtime, ts(900));
    assert_eq!(c.atime, ts(910));
    assert_eq!(c.btime, ts(890));
    assert_eq!(c.mode, 0o100644);
    assert_eq!(c.kind.bits(), LINK);
}

#[test]
fn symlink_to_directory_keeps_dir_and_link() {
    let m = posix_meta(FileKind::Symlink, 3, 1, 0o120777);
    let t = posix_meta(FileKind::Dir, 4096, 2, 0o040755);
    let c = Cha::new("/x/.cfg", m, Some(t));
    assert_eq!(c.kind.bits(), DIR | LINK | HIDDEN);
    assert!(c.is_hidden());
}

#[test]
fn following_a_plain_file_ignores_target() {
    let m = posix_meta(FileKind::Other, 10, 1, 0o100644);
    let t = posix_meta(FileKind::Other, 20, 2, 0o100600);
    let c = Cha::new("/f", m, Some(t));
    assert_eq!(c, Cha::new_nofollow("/f", m));
    assert_eq!(c.len, 10);
    assert!(!c.is_link() && !c.is_orphan());
}

#[test]
fn following_to_a_link_again_is_orphan() {
    let m = posix_meta(FileKind::Symlink, 10, 1, 0o120777);
    let t = posix_meta(FileKind::Symlink, 20, 2, 0o120777);
    let c = Cha::new("/l", m, Some(t));
    assert!(c.is_link() && c.is_orphan());
    assert_eq!(c.len, 20);
}

#[test]
fn nofollow_link_describes_link_itself() {
    let m = posix_meta(FileKind::Symlink, 8, 3, 0o120777);
    let c = Cha::new_nofollow("/a/b", m);
    assert!(c.is_link());
    assert!(!c.is_orphan());
    assert_eq!(c.len, 8);
}

#[test]
fn hidden_by_name_on_posix() {
    let m = posix_meta(FileKind::Other, 1, 1, 0o100644);
    assert!(Cha::new_nofollow("/home/u/.bashrc", m).is_hidden());
    assert!(Cha::new_nofollow(".profile", m).is_hidden());
    assert!(!Cha::new_nofollow("/home/.u/bashrc", m).is_hidden());
    assert!(!Cha::new_nofollow("/home/u/bash.rc", m).is_hidden());
    assert_eq!(Cha::new_nofollow("/home/u/.bashrc", m).kind.bits(), HIDDEN);
}

#[test]
fn classify_takes_name_answer() {
    let m = posix_meta(FileKind::Dir, 1, 1, 0o040755);
    assert_eq!(Cha::classify(m, true).kind.bits(), DIR | HIDDEN);
    assert_eq!(Cha::classify(m, false).kind.bits(), DIR);
    let w = attr_meta(FileKind::Other, FILE_ATTRIBUTE_SYSTEM);
    assert_eq!(Cha::classify(w, true).kind.bits(), SYSTEM);
}

#[test]
fn attributes_hidden_and_system() {
    let h = Cha::new_nofollow("C:\\x", attr_meta(FileKind::Other, FILE_ATTRIBUTE_HIDDEN));
    assert_eq!(h.kind.bits(), HIDDEN);
    assert!(h.is_hidden());
    let s = Cha::new_nofollow("C:\\x", attr_meta(FileKind::Other, FILE_ATTRIBUTE_SYSTEM));
    assert_eq!(s.kind.bits(), SYSTEM);
    assert!(s.is_hidden());
    let both = Cha::new_nofollow("C:\\x", attr_meta(FileKind::Dir, 0x27));
    assert_eq!(both.kind.bits(), DIR | HIDDEN | SYSTEM);
    let none = Cha::new_nofollow(".dot", attr_meta(FileKind::Other, 0x10));
    assert!(!none.is_hidden());
    assert_eq!(none.mode, 0);
    assert_eq!(none.ctime, None);
    assert_eq!((none.dev, none.uid, none.gid, none.nlink), (0, 0, 0, 0));
    assert!(!none.is_exec() && !none.is_block() && !none.is_sticky());
}

#[test]
fn system_flag_alone_is_hidden() {
    let c = Cha { kind: ChaKind::from_bits_retain(SYSTEM), ..Cha::dummy() };
    assert!(c.is_hidden());
    let p = Cha::new_nofollow("/a/b", posix_meta(FileKind::Other, 1, 1, 0o100644));
    assert!(!p.is_hidden());
}

#[test]
fn from_meta_copies_posix_fields() {
    let m = posix_meta(FileKind::Other, 77, 40, 0o104755);
    let c = Cha::from_meta(m);
    assert_eq!(c.kind.bits(), 0);
    assert_eq!(c.len, 77);
    assert_eq!((c.mode, c.dev, c.uid, c.gid, c.nlink), (0o104755, 7, 1000, 100, 1));
    assert_eq!(c.ctime, Some(Timestamp { secs: 1_700_000_000, nanos: 250 }));
    assert!(c.is_exec());
    assert!(!c.is_sticky());
    assert!(!c.is_dir() && !c.is_link());
}

#[test]
fn from_meta_dir_and_link_bits() {
    assert_eq!(Cha::from_meta(posix_meta(FileKind::Dir, 1, 1, 0)).kind.bits(), DIR);
    assert_eq!(Cha::from_meta(posix_meta(FileKind::Symlink, 1, 1, 0)).kind.bits(), LINK);
    assert_eq!(Cha::from_meta(posix_meta(FileKind::Fifo, 1, 1, 0)).kind.bits(), 0);
}

#[test]
fn ctime_carry_and_overflow() {
    let mut p = posix(0);
    p.ctime = 5;
    p.ctime_nsec = 1_500_000_000;
    let m = Meta { native: Native::Posix(p), ..posix_meta(FileKind::Other, 0, 0, 0) };
    assert_eq!(Cha::from_meta(m).ctime, Some(Timestamp { secs: 6, nanos: 500_000_000 }));
    p.ctime = -1;
    p.ctime_nsec = 0;
    let m = Meta { native: Native::Posix(p), ..m };
    assert_eq!(Cha::from_meta(m).ctime, None);
    p.ctime = i64::MAX;
    p.ctime_nsec = 999_999_999;
    let m = Meta { native: Native::Posix(p), ..m };
    assert_eq!(Cha::from_meta(m).ctime, Some(Timestamp { secs: i64::MAX, nanos: 999_999_999 }));
    p.ctime_nsec = 1_000_000_000;
    let m = Meta { native: Native::Posix(p), ..m };
    assert_eq!(Cha::from_meta(m).ctime, None);
}

#[test]
fn timestamps_after_epoch() {
    assert_eq!(Timestamp::after_epoch(0, 0), Some(Timestamp { secs: 0, nanos: 0 }));
    assert_eq!(Timestamp::after_epoch(10, 3_000_000_001), Some(Timestamp { secs: 13, nanos: 1 }));
    assert_eq!(Timestamp::after_epoch(i64::MAX as u64, 5), Some(Timestamp { secs: i64::MAX, nanos: 5 }));
    assert_eq!(Timestamp::after_epoch(i64::MAX as u64, 1_000_000_000), None);
    assert_eq!(Timestamp::after_epoch(u64::MAX, 0), None);
}

#[test]
fn timestamps_before_epoch() {
    assert_eq!(Timestamp::before_epoch(0, 0), Some(Timestamp { secs: 0, nanos: 0 }));
    assert_eq!(Timestamp::before_epoch(0, 1), Some(Timestamp { secs: -1, nanos: 999_999_999 }));
    assert_eq!(Timestamp::before_epoch(2, 250_000_000), Some(Timestamp { secs: -3, nanos: 750_000_000 }));
    assert_eq!(Timestamp::before_epoch(1, 2_000_000_000), Some(Timestamp { secs: -3, nanos: 0 }));
    assert_eq!(Timestamp::before_epoch(1u64 << 63, 0), Some(Timestamp { secs: i64::MIN, nanos: 0 }));
    assert_eq!(Timestamp::before_epoch(1u64 << 63, 1), None);
    assert_eq!(Timestamp::before_epoch(u64::MAX, 0), None);
}

#[test]
fn dummy_is_blank() {
    let d = Cha::dummy();
    assert!(d.is_dummy());
    assert!(!d.is_dir() && !d.is_hidden() && !d.is_link() && !d.is_orphan());
    assert!(!d.is_block() && !d.is_char() && !d.is_fifo() && !d.is_sock());
    assert!(!d.is_exec() && !d.is_sticky());
    assert_eq!(d.kind.bits(), DUMMY);
    assert_eq!((d.len, d.mode, d.dev, d.uid, d.gid, d.nlink), (0, 0, 0, 0, 0, 0));
    assert_eq!((d.atime, d.btime, d.ctime, d.mtime), (None, None, None, None));
}

#[test]
fn file_type_placeholders() {
    let b = Cha::from_file_type(FileKind::Block, Platform::Posix);
    assert!(b.is_dummy() && b.is_block());
    assert!(!b.is_char() && !b.is_fifo() && !b.is_sock());
    assert!(Cha::from_file_type(FileKind::Char, Platform::Posix).is_char());
    assert!(Cha::from_file_type(FileKind::Fifo, Platform::Posix).is_fifo());
    assert!(Cha::from_file_type(FileKind::Socket, Platform::Posix).is_sock());
    let d = Cha::from_file_type(FileKind::Dir, Platform::Posix);
    assert_eq!(d.kind.bits(), DUMMY | DIR);
    assert_eq!(d.mode, S_IFDIR);
    let l = Cha::from_file_type(FileKind::Symlink, Platform::Posix);
    assert_eq!(l.kind.bits(), DUMMY | LINK);
    assert_eq!(l.mode, S_IFLNK);
    assert_eq!(Cha::from_file_type(FileKind::Other, Platform::Posix).mode, 0);
    let w = Cha::from_file_type(FileKind::Dir, Platform::Attributes);
    assert_eq!(w.kind.bits(), DUMMY | DIR);
    assert_eq!(w.mode, 0);
}

#[test]
fn mode_predicates() {
    let c = Cha { mode: 0o041777, ..Cha::dummy() };
    assert!(c.is_sticky() && c.is_exec());
    let f = Cha { mode: 0o100644, ..Cha::dummy() };
    assert!(!f.is_exec() && !f.is_sticky() && !f.is_block());
}

#[test]
fn hits_reflexive_and_ignores_ids() {
    let a = Cha::from_meta(posix_meta(FileKind::Other, 5, 9, 0o100644));
    assert!(a.hits(a));
    let b = Cha { uid: 1, gid: 2, dev: 3, nlink: 4, atime: None, ..a };
    assert!(a.hits(b) && b.hits(a));
}

#[test]
fn hits_fails_on_each_compared_field() {
    let a = Cha::from_meta(posix_meta(FileKind::Other, 5, 9, 0o100644));
    assert!(!a.hits(Cha { mtime: ts(10), ..a }));
    assert!(!a.hits(Cha { btime: None, ..a }));
    assert!(!a.hits(Cha { len: 6, ..a }));
    assert!(!a.hits(Cha { kind: ChaKind::from_bits_retain(HIDDEN), ..a }));
    assert!(!a.hits(Cha { ctime: None, ..a }));
    assert!(!a.hits(Cha { mode: 0o100755, ..a }));
}

#[test]
fn meta_queries() {
    let m = posix_meta(FileKind::Symlink, 1, 1, 0);
    assert!(m.is_symlink() && !m.is_dir());
    assert_eq!(m.platform(), Platform::Posix);
    assert_eq!(attr_meta(FileKind::Dir, 0).platform(), Platform::Attributes);
    assert!(attr_meta(FileKind::Dir, 0).is_dir());
}

#[test]
fn default_record_is_zero() {
    let c = Cha::default();
    assert_eq!(c.kind, ChaKind::default());
    assert_eq!(c.kind.bits(), 0);
    assert!(!c.is_dummy() && !c.is_dir());
    assert_eq!((c.len, c.mode, c.mtime), (0, 0, None));
}
