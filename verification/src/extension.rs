//! File extensions of archive member names.
//!
//! A member name carries extension `ext` when the last `.` of its final
//! path segment (the part after the last `/`) is followed exactly by
//! `ext`, and that `.` does not start the segment (a name such as
//! `.hidden` has no extension).  Matching is case-sensitive.
//!
//! A name that ends in `/` is a directory entry: its final segment is
//! empty, so it carries no extension and never counts toward resolution.
//! This is deliberately stricter than treating `shapes.shp/` as a
//! `.shp` candidate — a directory can fill no member role.

use vstd::prelude::*;

verus! {

/// Position i is the extension marker of `name`: the last `.` of the
/// final path segment, not at the segment's start.
pub open spec fn ext_marker_at(name: Seq<char>, i: int) -> bool {
    &&& 0 < i < name.len()
    &&& name[i] == '.'
    &&& name[i - 1] != '/'
    &&& forall|j: int| i < j < name.len() ==> name[j] != '.' && name[j] != '/'
}

/// The member name's file extension equals `ext`.
pub open spec fn has_extension(name: Seq<char>, ext: Seq<char>) -> bool {
    exists|i: int| #[trigger] ext_marker_at(name, i) && name.skip(i + 1) == ext
}

/// The extension marker, where one exists, is unique: it is the last `.`
/// of the name, so no position before or after it can also qualify.
proof fn lemma_marker_unique(name: Seq<char>, d: int)
    requires
        0 <= d < name.len(),
        name[d] == '.',
        forall|j: int| d < j < name.len() ==> name[j] != '.' && name[j] != '/',
    ensures
        forall|i: int| ext_marker_at(name, i) ==> i == d,
{
    assert forall|i: int| ext_marker_at(name, i) implies i == d by {
        if i < d {
            assert(name[d] != '.');
        } else if i > d {
            assert(name[i] != '.');
        }
    }
}

/// Whether `name`'s file extension equals `ext`, scanning the final path
/// segment from the end.
pub fn name_has_extension(name: &str, ext: &str) -> (r: bool)
    ensures
        r == has_extension(name@, ext@),
{
    let n = name.unicode_len();
    let mut i = n;
    while i > 0
        invariant
            n == name@.len(),
            0 <= i <= n,
            forall|j: int| i <= j < n ==> name@[j] != '.' && name@[j] != '/',
        decreases i,
    {
        let c = name.get_char(i - 1);
        if c == '.' {
            let d = i - 1;
            proof {
                lemma_marker_unique(name@, d as int);
            }
            if d == 0 {
                return false;
            }
            if name.get_char(d - 1) == '/' {
                return false;
            }
            let m = ext.unicode_len();
            if n - d - 1 != m {
                assert(name@.skip(d as int + 1).len() != ext@.len());
                return false;
            }
            let mut k: usize = 0;
            while k < m
                invariant
                    n == name@.len(),
                    m == ext@.len(),
                    0 < d < n,
                    n - d - 1 == m,
                    0 <= k <= m,
                    forall|t: int| 0 <= t < k ==> name@[d + 1 + t] == ext@[t],
                decreases m - k,
            {
                if name.get_char(d + 1 + k) != ext.get_char(k) {
                    assert(name@.skip(d as int + 1)[k as int] != ext@[k as int]);
                    return false;
                }
                k = k + 1;
            }
            assert(name@.skip(d as int + 1) =~= ext@);
            assert(ext_marker_at(name@, d as int));
            return true;
        }
        if c == '/' {
            assert forall|t: int| !(ext_marker_at(name@, t) && name@.skip(t + 1) == ext@) by {
                if ext_marker_at(name@, t) {
                    if t < i - 1 {
                        assert(name@[i - 1] != '/');
                    } else if t > i - 1 {
                        assert(name@[t] != '.');
                    }
                }
            }
            return false;
        }
        i = i - 1;
    }
    false
}

} // verus!
