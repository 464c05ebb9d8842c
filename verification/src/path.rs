//! Paths and other byte strings: joining, nesting, and searching.
//!
//! A path is the byte string that names it. Nothing is normalised: two spellings
//! of one place are two paths.

use vstd::prelude::*;
use vstd::string::*;

verus! {

/// The byte that separates the components of a path.
pub const SEP: u8 = 47;

/// The bytes of a text whose characters are all ASCII.
pub open spec fn text(s: Seq<char>) -> Seq<u8> {
    Seq::new(s.len(), |i: int| s[i] as u8)
}

/// Copies a text into a byte string, in its UTF-8 encoding: for an ASCII text,
/// one byte for each character.
pub fn ascii(s: &str) -> (bytes: Vec<u8>)
    ensures
        bytes@ == s.spec_bytes(),
        s.is_ascii() ==> bytes@ == text(s@),
{
    broadcast use is_ascii_spec_bytes;

    let bytes = s.as_bytes_vec();
    assert(s.is_ascii() ==> bytes@ =~= text(s@));
    bytes
}

/// `rel` seen from `base`: an absolute `rel` stands for itself; otherwise it is
/// appended, after a separator unless `base` is empty or already ends in one.
pub open spec fn joined(base: Seq<u8>, rel: Seq<u8>) -> Seq<u8> {
    if rel.len() > 0 && rel[0] == SEP {
        rel
    } else if base.len() == 0 || base.last() == SEP {
        base + rel
    } else {
        base + seq![SEP] + rel
    }
}

/// Joins `rel` onto `base`.
pub fn join(base: &Vec<u8>, rel: &Vec<u8>) -> (path: Vec<u8>)
    ensures
        path@ == joined(base@, rel@),
{
    if rel.len() > 0 && rel[0] == SEP {
        return rel.clone();
    }
    let mut path = base.clone();
    if base.len() > 0 && base[base.len() - 1] != SEP {
        path.push(SEP);
    }
    let mut i: usize = 0;
    while i < rel.len()
        invariant
            i <= rel.len(),
            path@ == (if base@.len() == 0 || base@.last() == SEP {
                base@
            } else {
                base@ + seq![SEP]
            }) + rel@.subrange(0, i as int),
        decreases rel.len() - i,
    {
        path.push(rel[i]);
        i += 1;
        assert(rel@.subrange(0, i as int) =~= rel@.subrange(0, i - 1).push(rel@[i - 1]));
    }
    assert(rel@.subrange(0, rel@.len() as int) =~= rel@);
    path
}

/// Tells whether two byte strings are the same.
pub fn same_bytes(a: &Vec<u8>, b: &Vec<u8>) -> (same: bool)
    ensures
        same == (a@ == b@),
{
    if a.len() != b.len() {
        return false;
    }
    let mut i: usize = 0;
    while i < a.len()
        invariant
            a.len() == b.len(),
            i <= a.len(),
            forall|k: int| 0 <= k < i ==> a@[k] == b@[k],
        decreases a.len() - i,
    {
        if a[i] != b[i] {
            return false;
        }
        i += 1;
    }
    assert(a@ =~= b@);
    true
}

/// Whether `path` is `root` itself or lies below it.
pub open spec fn within(path: Seq<u8>, root: Seq<u8>) -> bool {
    path == root || (root + seq![SEP]).is_prefix_of(path)
}

/// Two roots that both hold one path hold one another.
pub proof fn roots_of_one_path_nest(path: Seq<u8>, a: Seq<u8>, b: Seq<u8>)
    requires
        within(path, a),
        within(path, b),
    ensures
        within(a, b) || within(b, a),
{
    let a1 = a + seq![SEP];
    let b1 = b + seq![SEP];
    if path == a || path == b || a == b {
    } else if a.len() < b.len() {
        assert(a1 =~= b.subrange(0, a1.len() as int)) by {
            assert forall|i: int| 0 <= i < a1.len() implies a1[i] == b[i] by {
                assert(a1[i] == path[i]);
                assert(b1[i] == path[i]);
            }
        }
    } else if b.len() < a.len() {
        assert(b1 =~= a.subrange(0, b1.len() as int)) by {
            assert forall|i: int| 0 <= i < b1.len() implies b1[i] == a[i] by {
                assert(b1[i] == path[i]);
                assert(a1[i] == path[i]);
            }
        }
    } else {
        assert(a =~= b) by {
            assert forall|i: int| 0 <= i < a.len() implies a[i] == b[i] by {
                assert(a1[i] == path[i]);
                assert(b1[i] == path[i]);
            }
        }
    }
}

/// Tells whether `path` is `root` itself or lies below it.
pub fn is_within(path: &Vec<u8>, root: &Vec<u8>) -> (b: bool)
    ensures
        b == within(path@, root@),
{
    let n = root.len();
    if path.len() < n {
        assert(!within(path@, root@));
        return false;
    }
    let mut i: usize = 0;
    while i < n
        invariant
            n == root.len(),
            n <= path.len(),
            i <= n,
            path@.subrange(0, i as int) == root@.subrange(0, i as int),
        decreases n - i,
    {
        if path[i] != root[i] {
            assert(!within(path@, root@)) by {
                if (root@ + seq![SEP]).is_prefix_of(path@) {
                    assert((root@ + seq![SEP])[i as int] == path@[i as int]);
                }
            }
            return false;
        }
        i += 1;
        assert(path@.subrange(0, i as int) =~= path@.subrange(0, i - 1).push(path@[i - 1]));
        assert(root@.subrange(0, i as int) =~= root@.subrange(0, i - 1).push(root@[i - 1]));
    }
    assert(root@.subrange(0, n as int) =~= root@);
    if path.len() == n {
        assert(path@.subrange(0, n as int) =~= path@);
        return true;
    }
    let below = path[n] == SEP;
    proof {
        if below {
            assert((root@ + seq![SEP]) =~= path@.subrange(0, n + 1));
        } else {
            if (root@ + seq![SEP]).is_prefix_of(path@) {
                assert((root@ + seq![SEP])[n as int] == path@[n as int]);
            }
        }
    }
    below
}

/// Whether `needle` stands in `hay` at offset `at`.
pub open spec fn occurs_at(hay: Seq<u8>, needle: Seq<u8>, at: int) -> bool {
    0 <= at && at + needle.len() <= hay.len() && hay.subrange(at, at + needle.len()) == needle
}

/// Whether `needle` stands somewhere in `hay`. The empty string stands in
/// every string.
pub open spec fn contains(hay: Seq<u8>, needle: Seq<u8>) -> bool {
    exists|at: int| occurs_at(hay, needle, at)
}

/// Tells whether `needle` stands in `hay` at offset `at`.
fn matches_at(hay: &Vec<u8>, needle: &Vec<u8>, at: usize) -> (b: bool)
    requires
        at + needle.len() <= hay.len(),
    ensures
        b == occurs_at(hay@, needle@, at as int),
{
    let mut j: usize = 0;
    while j < needle.len()
        invariant
            j <= needle.len(),
            at + needle.len() <= hay.len(),
            hay@.subrange(at as int, at + j) == needle@.subrange(0, j as int),
        decreases needle.len() - j,
    {
        if hay[at + j] != needle[j] {
            assert(!occurs_at(hay@, needle@, at as int)) by {
                if occurs_at(hay@, needle@, at as int) {
                    let window = hay@.subrange(at as int, at + needle@.len());
                    assert(window[j as int] == needle@[j as int]);
                }
            }
            return false;
        }
        j += 1;
        assert(hay@.subrange(at as int, at + j) =~= hay@.subrange(at as int, at + j - 1).push(
            hay@[at + j - 1],
        ));
        assert(needle@.subrange(0, j as int) =~= needle@.subrange(0, j - 1).push(needle@[j - 1]));
    }
    assert(needle@.subrange(0, needle@.len() as int) =~= needle@);
    true
}

/// Searches `hay` for `needle`.
pub fn find(hay: &Vec<u8>, needle: &Vec<u8>) -> (found: bool)
    ensures
        found == contains(hay@, needle@),
{
    if needle.len() > hay.len() {
        return false;
    }
    let last = hay.len() - needle.len();
    let mut at: usize = 0;
    while at < last
        invariant
            last == hay.len() - needle.len(),
            at <= last,
            forall|k: int| 0 <= k < at ==> !occurs_at(hay@, needle@, k),
        decreases last - at,
    {
        if matches_at(hay, needle, at) {
            return true;
        }
        at += 1;
    }
    matches_at(hay, needle, last)
}

/// Whether some record holds `needle`.
pub open spec fn any_contains(records: Seq<Seq<u8>>, needle: Seq<u8>) -> bool {
    exists|k: int| 0 <= k < records.len() && contains(#[trigger] records[k], needle)
}

/// Searches every record for `needle`.
pub fn find_in_any(records: &Vec<Vec<u8>>, needle: &Vec<u8>) -> (found: bool)
    ensures
        found == any_contains(crate::proto::rows(records@), needle@),
{
    let ghost all = crate::proto::rows(records@);
    let mut k: usize = 0;
    while k < records.len()
        invariant
            k <= records.len(),
            all == crate::proto::rows(records@),
            forall|j: int| 0 <= j < k ==> !contains(#[trigger] all[j], needle@),
        decreases records.len() - k,
    {
        if find(&records[k], needle) {
            assert(all[k as int] == records@[k as int]@);
            return true;
        }
        assert(all[k as int] == records@[k as int]@);
        k += 1;
    }
    false
}

} // verus!
