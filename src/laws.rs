//! Laws that hold of every record the constructors build, and of `hits`.

use vstd::prelude::*;

use crate::cha::{hidden_of, name_hidden, resolved, system_of, Cha};
use crate::kind::{kind_bits, lemma_kind_bits_has, lemma_kind_bits_or, HIDDEN, SYSTEM};
use crate::meta::Meta;

verus! {

/// Facts on the kind of a non-following record, the base of the laws below.
proof fn lemma_nofollow_kind(path: Seq<char>, m: Meta)
    ensures
        Cha::spec_new_nofollow(path, m).kind.bits == kind_bits(
            m.spec_is_dir(),
            hidden_of(m, name_hidden(path)),
            m.spec_is_symlink(),
            false,
            false,
            system_of(m),
        ),
{
    lemma_kind_bits_or(
        m.spec_is_dir(), false, m.spec_is_symlink(), false, false, false,
        false, hidden_of(m, name_hidden(path)), false, false, false, system_of(m),
    );
}

/// Facts on the kind of a following record.
proof fn lemma_new_kind(path: Seq<char>, m: Meta, target: Option<Meta>)
    ensures
        Cha::spec_new(path, m, target).kind.bits == kind_bits(
            resolved(m, target).spec_is_dir(),
            hidden_of(resolved(m, target), name_hidden(path)),
            m.spec_is_symlink() || resolved(m, target).spec_is_symlink(),
            resolved(m, target).spec_is_symlink(),
            false,
            system_of(resolved(m, target)),
        ),
{
    let r = resolved(m, target);
    lemma_nofollow_kind(path, r);
    lemma_kind_bits_or(
        r.spec_is_dir(), hidden_of(r, name_hidden(path)), r.spec_is_symlink(), false, false, system_of(r),
        false, false, m.spec_is_symlink(), r.spec_is_symlink(), false, false,
    );
}

/// Native metadata maps to DIR exactly when it describes a directory and to
/// LINK exactly when it describes a link, never to both; also once HIDDEN and
/// SYSTEM are added by non-following construction.
pub proof fn lemma_meta_dir_or_link(path: Seq<char>, m: Meta)
    ensures
        Cha::spec_from_meta(m).spec_is_dir() == m.spec_is_dir(),
        Cha::spec_from_meta(m).spec_is_link() == m.spec_is_symlink(),
        Cha::spec_new_nofollow(path, m).spec_is_dir() == m.spec_is_dir(),
        Cha::spec_new_nofollow(path, m).spec_is_link() == m.spec_is_symlink(),
        !(Cha::spec_new_nofollow(path, m).spec_is_dir() && Cha::spec_new_nofollow(path, m).spec_is_link()),
{
    lemma_kind_bits_has(m.spec_is_dir(), false, m.spec_is_symlink(), false, false, false);
    lemma_nofollow_kind(path, m);
    lemma_kind_bits_has(
        m.spec_is_dir(), hidden_of(m, name_hidden(path)), m.spec_is_symlink(), false, false, system_of(m),
    );
}

/// The placeholder record is a dummy and nothing else: every other predicate
/// is false and every other field zero or absent.
pub proof fn lemma_dummy_is_blank()
    ensures
        Cha::spec_dummy().spec_is_dummy(),
        !Cha::spec_dummy().spec_is_dir(),
        !Cha::spec_dummy().spec_is_hidden(),
        !Cha::spec_dummy().spec_is_link(),
        !Cha::spec_dummy().spec_is_orphan(),
        !Cha::spec_dummy().spec_is_block(),
        !Cha::spec_dummy().spec_is_char(),
        !Cha::spec_dummy().spec_is_fifo(),
        !Cha::spec_dummy().spec_is_sock(),
        !Cha::spec_dummy().spec_is_exec(),
        !Cha::spec_dummy().spec_is_sticky(),
        Cha::spec_dummy().len == 0,
        Cha::spec_dummy().mode == 0,
        Cha::spec_dummy().dev == 0,
        Cha::spec_dummy().uid == 0,
        Cha::spec_dummy().gid == 0,
        Cha::spec_dummy().nlink == 0,
        Cha::spec_dummy().atime is None,
        Cha::spec_dummy().btime is None,
        Cha::spec_dummy().ctime is None,
        Cha::spec_dummy().mtime is None,
{
    lemma_kind_bits_has(false, false, false, false, true, false);
    assert(16u8 == kind_bits(false, false, false, false, true, false)) by (bit_vector);
    assert(0u32 & 0o170000u32 == 0u32) by (bit_vector);
    assert(0u32 & 0o100u32 == 0u32) by (bit_vector);
    assert(0u32 & 0o1000u32 == 0u32) by (bit_vector);
}

/// Non-following construction never sets ORPHAN.
pub proof fn lemma_nofollow_never_orphan(path: Seq<char>, m: Meta)
    ensures
        !Cha::spec_new_nofollow(path, m).spec_is_orphan(),
{
    lemma_nofollow_kind(path, m);
    lemma_kind_bits_has(
        m.spec_is_dir(), hidden_of(m, name_hidden(path)), m.spec_is_symlink(), false, false, system_of(m),
    );
}

/// Following a link whose target could be read, and is no link itself,
/// gives LINK without ORPHAN, and every field but the kind comes from the
/// target's metadata.
pub proof fn lemma_follow_live_link(path: Seq<char>, m: Meta, t: Meta)
    requires
        m.spec_is_symlink(),
        !t.spec_is_symlink(),
    ensures
        Cha::spec_new(path, m, Some(t)).spec_is_link(),
        !Cha::spec_new(path, m, Some(t)).spec_is_orphan(),
        Cha::spec_new(path, m, Some(t)) == (Cha {
            kind: Cha::spec_new(path, m, Some(t)).kind,
            ..Cha::spec_from_meta(t)
        }),
{
    lemma_new_kind(path, m, Some(t));
    lemma_kind_bits_has(t.spec_is_dir(), hidden_of(t, name_hidden(path)), true, false, false, system_of(t));
}

/// Following a link whose target could not be read gives LINK and ORPHAN,
/// and every field but the kind comes from the link's own metadata.
pub proof fn lemma_follow_broken_link(path: Seq<char>, m: Meta)
    requires
        m.spec_is_symlink(),
    ensures
        Cha::spec_new(path, m, None).spec_is_link(),
        Cha::spec_new(path, m, None).spec_is_orphan(),
        Cha::spec_new(path, m, None) == (Cha {
            kind: Cha::spec_new(path, m, None).kind,
            ..Cha::spec_from_meta(m)
        }),
{
    lemma_new_kind(path, m, None);
    lemma_kind_bits_has(m.spec_is_dir(), hidden_of(m, name_hidden(path)), true, true, false, system_of(m));
}

/// `hits` is reflexive and symmetric.
pub proof fn lemma_hits_reflexive_symmetric(a: Cha, b: Cha)
    ensures
        a.spec_hits(a),
        a.spec_hits(b) == b.spec_hits(a),
{
}

/// Records that differ only in device, owner, group or link count still hit.
pub proof fn lemma_hits_ignores_ids(a: Cha, dev: u64, uid: u32, gid: u32, nlink: u64)
    ensures
        a.spec_hits(Cha { dev, uid, gid, nlink, ..a }),
{
}

/// Records that differ in modification time, kind, length or birth time do
/// not hit.
pub proof fn lemma_hits_requires_same(a: Cha, b: Cha)
    requires
        a.mtime != b.mtime || a.kind != b.kind || a.len != b.len || a.btime != b.btime,
    ensures
        !a.spec_hits(b),
{
}

/// SYSTEM alone makes a record hidden.
pub proof fn lemma_system_is_hidden(c: Cha)
    requires
        c.kind.has(SYSTEM),
    ensures
        c.spec_is_hidden(),
{
}

/// On a POSIX system a record is hidden exactly when it has HIDDEN, which is
/// the name classifier's answer for the path.
pub proof fn lemma_posix_hidden_is_name(path: Seq<char>, m: Meta, target: Option<Meta>)
    requires
        m.native is Posix,
        target matches Some(t) ==> t.native is Posix,
    ensures
        Cha::spec_new_nofollow(path, m).spec_is_hidden() == name_hidden(path),
        Cha::spec_new_nofollow(path, m).spec_is_hidden() == Cha::spec_new_nofollow(path, m).kind.has(HIDDEN),
        Cha::spec_new(path, m, target).spec_is_hidden() == name_hidden(path),
        Cha::spec_new(path, m, target).spec_is_hidden() == Cha::spec_new(path, m, target).kind.has(HIDDEN),
{
    let r = resolved(m, target);
    lemma_nofollow_kind(path, m);
    lemma_kind_bits_has(m.spec_is_dir(), name_hidden(path), m.spec_is_symlink(), false, false, false);
    lemma_new_kind(path, m, target);
    lemma_kind_bits_has(
        r.spec_is_dir(), name_hidden(path), m.spec_is_symlink() || r.spec_is_symlink(), r.spec_is_symlink(), false, false,
    );
}

} // verus!
