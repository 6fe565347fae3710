//! Virtual-path arithmetic: segment boundaries, prefix tests and the
//! mount-ownership relation between a mount target and a user path.

use vstd::prelude::*;
use vstd::string::*;

verus! {

/// `i` is a segment boundary of `p`: the end of `p`, or the index of a `/`.
pub open spec fn boundary_at(p: Seq<char>, i: int) -> bool {
    i == p.len() || (0 <= i < p.len() && p[i] == '/')
}

/// `p` begins with a `/` separator.
pub open spec fn starts_with_slash(p: Seq<char>) -> bool {
    p.len() > 0 && p[0] == '/'
}

/// `target` owns `path`: `path` begins with `target`, and either nothing
/// follows, or a separator follows, or `target` itself ends in one (the
/// root mount `/` is the common case of the last arm).
pub open spec fn mount_matches(target: Seq<char>, path: Seq<char>) -> bool {
    &&& target.len() <= path.len()
    &&& target.is_prefix_of(path)
    &&& (target.len() == path.len() || path[target.len() as int] == '/' || (target.len() > 0
        && target[target.len() - 1] == '/'))
}

/// Index in `path` where the driver-relative suffix of a matching `target`
/// begins: right past the target, with the separating `/` consumed unless
/// the target itself ends in one or the target is the whole path.
pub open spec fn suffix_start(target: Seq<char>, path: Seq<char>) -> int {
    if target.len() == path.len() {
        target.len() as int
    } else if target.len() > 0 && target[target.len() - 1] == '/' {
        target.len() as int
    } else {
        target.len() + 1int
    }
}

/// The driver-relative suffix of `path` under its owning mount's `target`.
pub fn mount_suffix<'a>(target: &str, path: &'a str) -> (s: &'a str)
    requires
        mount_matches(target@, path@),
    ensures
        s@ == path@.subrange(suffix_start(target@, path@), path@.len() as int),
{
    let target_len: usize = target.unicode_len();
    let path_len: usize = path.unicode_len();
    let start: usize = if target_len == path_len {
        target_len
    } else if target_len > 0 && target.get_char(target_len - 1) == '/' {
        target_len
    } else {
        target_len + 1
    };
    path.substring_char(start, path_len)
}

/// Character count of `s`.
pub fn str_char_len(s: &str) -> (n: usize)
    ensures
        n == s@.len(),
{
    s.unicode_len()
}

/// Whether `p` is a prefix of `s`, character by character.
pub fn str_starts_with(s: &str, p: &str) -> (r: bool)
    ensures
        r == p@.is_prefix_of(s@),
{
    let n: usize = s.unicode_len();
    let m: usize = p.unicode_len();
    if m > n {
        return false;
    }
    let mut i: usize = 0;
    while i < m
        invariant
            n == s@.len(),
            m == p@.len(),
            m <= n,
            0 <= i <= m,
            forall|k: int| 0 <= k < i ==> s@[k] == p@[k],
        decreases m - i,
    {
        if s.get_char(i) != p.get_char(i) {
            proof {
                assert(!(p@ =~= s@.subrange(0, m as int)));
            }
            return false;
        }
        i = i + 1;
    }
    proof {
        assert(p@ =~= s@.subrange(0, m as int));
    }
    true
}

/// The rightmost segment boundary of `path` strictly below `below`:
/// the index of the last `/` before it, if any.
pub fn prev_boundary(path: &str, below: usize) -> (r: Option<usize>)
    requires
        below <= path@.len(),
    ensures
        match r {
            Some(i) => i < below && path@[i as int] == '/' && (forall|j: int|
                i < j < below ==> path@[j] != '/'),
            None => forall|j: int| 0 <= j < below ==> path@[j] != '/',
        },
{
    let mut i: usize = below;
    while i > 0
        invariant
            i <= below <= path@.len(),
            forall|j: int| i <= j < below ==> path@[j] != '/',
        decreases i,
    {
        i = i - 1;
        if path.get_char(i) == '/' {
            return Some(i);
        }
    }
    None
}

/// Whether `target` owns `path` (see `mount_matches`).
pub fn mount_matches_exec(target: &str, path: &str) -> (r: bool)
    ensures
        r == mount_matches(target@, path@),
{
    let m: usize = target.unicode_len();
    let n: usize = path.unicode_len();
    if m > n {
        return false;
    }
    if !str_starts_with(path, target) {
        return false;
    }
    if m == n {
        return true;
    }
    if path.get_char(m) == '/' {
        return true;
    }
    if m > 0 && target.get_char(m - 1) == '/' {
        return true;
    }
    false
}

} // verus!
