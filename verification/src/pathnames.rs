//! The naming rules of the maintenance routines: the `.tmp` staging
//! name used while a backup is exported, the `-wal`/`-shm` sidecar
//! names a journaled database keeps beside its main file, the
//! alternate sidecar names reached by replacing a path's extension,
//! and the `.bak-<timestamp>` name of the safety copy taken before a
//! restore.

use vstd::prelude::*;
use crate::bytes::{copy_bytes, copy_prefix, concat_bytes};

verus! {

/// The staging suffix `.tmp`.
pub open spec fn tmp_suffix() -> Seq<u8> {
    seq![46u8, 116u8, 109u8, 112u8]
}

/// The write-ahead-log sidecar suffix `-wal`.
pub open spec fn wal_suffix() -> Seq<u8> {
    seq![45u8, 119u8, 97u8, 108u8]
}

/// The shared-memory sidecar suffix `-shm`.
pub open spec fn shm_suffix() -> Seq<u8> {
    seq![45u8, 115u8, 104u8, 109u8]
}

/// The infix `.bak-` that precedes the timestamp of a safety copy.
pub open spec fn bak_infix() -> Seq<u8> {
    seq![46u8, 98u8, 97u8, 107u8, 45u8]
}

/// The alternate write-ahead-log extension `db-wal`.
pub open spec fn db_wal_ext() -> Seq<u8> {
    seq![100u8, 98u8, 45u8, 119u8, 97u8, 108u8]
}

/// The alternate shared-memory extension `db-shm`.
pub open spec fn db_shm_ext() -> Seq<u8> {
    seq![100u8, 98u8, 45u8, 115u8, 104u8, 109u8]
}

/// The alternate write-ahead-log extension, as bytes to pass on.
pub fn db_wal_ext_bytes() -> (r: Vec<u8>)
    ensures
        r@ == db_wal_ext(),
{
    let mut r: Vec<u8> = Vec::new();
    r.push(100u8);
    r.push(98u8);
    r.push(45u8);
    r.push(119u8);
    r.push(97u8);
    r.push(108u8);
    assert(r@ =~= db_wal_ext());
    r
}

/// The alternate shared-memory extension, as bytes to pass on.
pub fn db_shm_ext_bytes() -> (r: Vec<u8>)
    ensures
        r@ == db_shm_ext(),
{
    let mut r: Vec<u8> = Vec::new();
    r.push(100u8);
    r.push(98u8);
    r.push(45u8);
    r.push(115u8);
    r.push(104u8);
    r.push(109u8);
    assert(r@ =~= db_shm_ext());
    r
}

/// The name of the safety copy of `db` taken at time `ts`:
/// `<db>.bak-<ts>`.
pub open spec fn bak_name(db: Seq<u8>, ts: Seq<u8>) -> Seq<u8> {
    db + bak_infix() + ts
}

/// The staging path of a backup destination: `<to>.tmp`.
pub fn tmp_path_of(to: &[u8]) -> (r: Vec<u8>)
    ensures
        r@ == to@ + tmp_suffix(),
{
    let mut r = copy_bytes(to);
    r.push(46u8);
    r.push(116u8);
    r.push(109u8);
    r.push(112u8);
    assert(r@ =~= to@ + tmp_suffix());
    r
}

/// The suffix-named write-ahead-log sidecar of a path: `<p>-wal`.
pub fn wal_path_of(p: &[u8]) -> (r: Vec<u8>)
    ensures
        r@ == p@ + wal_suffix(),
{
    let mut r = copy_bytes(p);
    r.push(45u8);
    r.push(119u8);
    r.push(97u8);
    r.push(108u8);
    assert(r@ =~= p@ + wal_suffix());
    r
}

/// The suffix-named shared-memory sidecar of a path: `<p>-shm`.
pub fn shm_path_of(p: &[u8]) -> (r: Vec<u8>)
    ensures
        r@ == p@ + shm_suffix(),
{
    let mut r = copy_bytes(p);
    r.push(45u8);
    r.push(115u8);
    r.push(104u8);
    r.push(109u8);
    assert(r@ =~= p@ + shm_suffix());
    r
}

/// The path of the safety copy of `db` for the timestamp `ts`.
pub fn bak_path_of(db: &[u8], ts: &[u8]) -> (r: Vec<u8>)
    ensures
        r@ == bak_name(db@, ts@),
{
    let mut r = copy_bytes(db);
    r.push(46u8);
    r.push(98u8);
    r.push(97u8);
    r.push(107u8);
    r.push(45u8);
    assert(r@ =~= db@ + bak_infix());
    let r2 = concat_bytes(r.as_slice(), ts);
    r2
}

/// The position of the last occurrence of `c` in `s` at an index of at
/// least `lo`, if there is one.
pub open spec fn rfind_from_spec(s: Seq<u8>, c: u8, lo: int) -> Option<int>
    decreases s.len(),
{
    if s.len() == 0 || s.len() <= lo {
        None
    } else if s.last() == c {
        Some(s.len() - 1)
    } else {
        rfind_from_spec(s.drop_last(), c, lo)
    }
}

/// The last occurrence of `c` in `s` at an index of at least `lo`.
pub fn rfind_from(s: &[u8], c: u8, lo: usize) -> (r: Option<usize>)
    ensures
        match r {
            Some(i) => lo <= i < s@.len() && rfind_from_spec(s@, c, lo as int) == Some(i as int),
            None => rfind_from_spec(s@, c, lo as int) is None,
        },
{
    let mut i: usize = s.len();
    assert(s@.subrange(0, s@.len() as int) =~= s@);
    while i > lo
        invariant
            i <= s@.len(),
            rfind_from_spec(s@, c, lo as int) == rfind_from_spec(s@.subrange(0, i as int), c, lo as int),
        decreases i,
    {
        if s[i - 1] == c {
            assert(s@.subrange(0, i as int).last() == c);
            return Some(i - 1);
        }
        assert(s@.subrange(0, i as int).drop_last() =~= s@.subrange(0, i - 1));
        i = i - 1;
    }
    assert(rfind_from_spec(s@.subrange(0, i as int), c, lo as int) is None);
    None
}

/// The path with its extension replaced by `ext`, under the usual
/// naming rule: the extension of a path is what follows the last dot
/// of its final component, provided that dot is not the component's
/// first byte; a path without an extension gets `.` and `ext`
/// appended.
pub open spec fn with_ext_spec(p: Seq<u8>, ext: Seq<u8>) -> Seq<u8> {
    let fns = file_name_start(p);
    match rfind_from_spec(p, 46u8, fns) {
        Some(d) => if d > fns {
            p.subrange(0, d + 1) + ext
        } else {
            p + seq![46u8] + ext
        },
        None => p + seq![46u8] + ext,
    }
}

/// The index where the final component of a path begins: just after
/// the last separator, or the start of the path if it has none.
pub open spec fn file_name_start(p: Seq<u8>) -> int {
    match rfind_from_spec(p, 47u8, 0) {
        Some(i) => i + 1,
        None => 0,
    }
}

/// The path `p` with its extension replaced by `ext`, as
/// `with_ext_spec` describes.
pub fn with_extension(p: &[u8], ext: &[u8]) -> (r: Vec<u8>)
    ensures
        r@ == with_ext_spec(p@, ext@),
{
    let n = p.len();
    let fns: usize = match rfind_from(p, 47u8, 0) {
        Some(i) => {
            assert(i < n);
            i + 1
        }
        None => 0,
    };
    let dot = rfind_from(p, 46u8, fns);
    match dot {
        Some(d) if d > fns => {
            assert(d < n);
            let pre = copy_prefix(p, d + 1);
            let r = concat_bytes(pre.as_slice(), ext);
            r
        }
        _ => {
            let mut base = copy_bytes(p);
            base.push(46u8);
            assert(base@ =~= p@ + seq![46u8]);
            let r = concat_bytes(base.as_slice(), ext);
            assert(r@ =~= p@ + seq![46u8] + ext@);
            r
        }
    }
}

/// The parent directory of a path: the bytes before its last
/// separator, the root for a path whose only separator leads it, and
/// nothing for a path without a separator.
pub open spec fn parent_dir_spec(p: Seq<u8>) -> Option<Seq<u8>> {
    match rfind_from_spec(p, 47u8, 0) {
        Some(i) => if i == 0 {
            Some(seq![47u8])
        } else {
            Some(p.subrange(0, i))
        },
        None => None,
    }
}

/// The parent directory of `p`, as `parent_dir_spec` describes.
pub fn parent_dir(p: &[u8]) -> (r: Option<Vec<u8>>)
    ensures
        match r {
            Some(d) => parent_dir_spec(p@) == Some(d@),
            None => parent_dir_spec(p@) is None,
        },
{
    match rfind_from(p, 47u8, 0) {
        Some(i) => {
            if i == 0 {
                let mut d: Vec<u8> = Vec::new();
                d.push(47u8);
                assert(d@ =~= seq![47u8]);
                Some(d)
            } else {
                Some(copy_prefix(p, i))
            }
        }
        None => None,
    }
}

} // verus!
