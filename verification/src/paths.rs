//! A character-level model of slash-separated paths, and the validated
//! parent / leaf extraction that staging a file requires.
//!
//! A path is a sequence of characters in which `'/'` separates components.
//! Repeated separators act as a single one, and separators at the very end
//! of a path are ignored, so `a//b/` has parent `a` and leaf `b`. A path
//! whose leaf would be `.` or `..` has no usable leaf name, because a file
//! cannot be created under either name.

use crate::errors::Error;
use vstd::prelude::*;

verus! {

/// The position just before the run of `'/'` characters that ends at
/// `from`: scanning backwards from `from`, skips separators.
pub open spec fn skip_seps_back(s: Seq<char>, from: int) -> int
    decreases from,
{
    if 0 < from <= s.len() && s[from - 1] == '/' {
        skip_seps_back(s, from - 1)
    } else {
        from
    }
}

/// The position just before the run of non-`'/'` characters that ends at
/// `from`: scanning backwards from `from`, skips one component.
pub open spec fn skip_component_back(s: Seq<char>, from: int) -> int
    decreases from,
{
    if 0 < from <= s.len() && s[from - 1] != '/' {
        skip_component_back(s, from - 1)
    } else {
        from
    }
}

/// The end of the path once trailing separators are ignored. Zero exactly
/// when the path is empty or consists of separators only (a bare root).
pub open spec fn path_end(s: Seq<char>) -> int {
    skip_seps_back(s, s.len() as int)
}

/// The start of the path's final component.
pub open spec fn leaf_start(s: Seq<char>) -> int {
    skip_component_back(s, path_end(s))
}

/// The end of the parent part: the final component and the separators
/// before it are ignored.
pub open spec fn parent_end(s: Seq<char>) -> int {
    skip_seps_back(s, leaf_start(s))
}

/// The parent of a path: `None` for the empty path or a bare root, the
/// empty sequence for a bare relative name, the root for a top-level path,
/// and otherwise everything before the final component.
pub open spec fn parent_of(s: Seq<char>) -> Option<Seq<char>> {
    if path_end(s) == 0 {
        None
    } else if leaf_start(s) == 0 {
        Some(Seq::empty())
    } else if parent_end(s) == 0 {
        Some(seq!['/'])
    } else {
        Some(s.subrange(0, parent_end(s)))
    }
}

/// Whether a path has a nonempty parent, the condition under which a file
/// can be staged for it.
pub open spec fn has_usable_parent(s: Seq<char>) -> bool {
    match parent_of(s) {
        Some(p) => p.len() > 0,
        None => false,
    }
}

/// The leaf (file) name of a path: its final component, unless the path is
/// empty or a bare root, or the final component is `.` or `..`.
pub open spec fn leaf_of(s: Seq<char>) -> Option<Seq<char>> {
    if path_end(s) == 0 {
        None
    } else {
        let l = s.subrange(leaf_start(s), path_end(s));
        if l == seq!['.'] || l == seq!['.', '.'] {
            None
        } else {
            Some(l)
        }
    }
}

/// `dir` and `name` joined with a single separator.
pub open spec fn joined(dir: Seq<char>, name: Seq<char>) -> Seq<char> {
    if dir.len() > 0 && dir[dir.len() - 1] == '/' {
        dir + name
    } else {
        dir + seq!['/'] + name
    }
}

/// What scanning separators backwards yields: a position no further than
/// `from`, not directly preceded by a separator, with only separators
/// between it and `from`.
pub proof fn lemma_skip_seps_back(s: Seq<char>, from: int)
    requires
        0 <= from <= s.len(),
    ensures
        0 <= skip_seps_back(s, from) <= from,
        skip_seps_back(s, from) > 0 ==> s[skip_seps_back(s, from) - 1] != '/',
        forall|i: int| skip_seps_back(s, from) <= i < from ==> s[i] == '/',
    decreases from,
{
    if 0 < from && s[from - 1] == '/' {
        lemma_skip_seps_back(s, from - 1);
    }
}

/// What scanning one component backwards yields: a position no further than
/// `from`, directly preceded by a separator if by anything, with no
/// separator between it and `from`.
pub proof fn lemma_skip_component_back(s: Seq<char>, from: int)
    requires
        0 <= from <= s.len(),
    ensures
        0 <= skip_component_back(s, from) <= from,
        skip_component_back(s, from) > 0 ==> s[skip_component_back(s, from) - 1] == '/',
        forall|i: int| skip_component_back(s, from) <= i < from ==> s[i] != '/',
    decreases from,
{
    if 0 < from && s[from - 1] != '/' {
        lemma_skip_component_back(s, from - 1);
    }
}

/// A nonempty parent of an absolute path is itself absolute.
pub proof fn lemma_parent_of_absolute(s: Seq<char>)
    requires
        s.len() > 0,
        s[0] == '/',
        has_usable_parent(s),
    ensures
        parent_of(s)->Some_0[0] == '/',
{
    lemma_skip_seps_back(s, s.len() as int);
    lemma_skip_component_back(s, path_end(s));
    lemma_skip_seps_back(s, leaf_start(s));
}

/// Scans separators backwards from `from`, executably.
fn scan_seps_back(path: &str, from: usize) -> (r: usize)
    requires
        from <= path@.len(),
    ensures
        r == skip_seps_back(path@, from as int),
        r <= from,
{
    let mut i: usize = from;
    while i > 0 && path.get_char(i - 1) == '/'
        invariant
            i <= from <= path@.len(),
            skip_seps_back(path@, from as int) == skip_seps_back(path@, i as int),
        decreases i,
    {
        i = i - 1;
    }
    i
}

/// Scans one component backwards from `from`, executably.
fn scan_component_back(path: &str, from: usize) -> (r: usize)
    requires
        from <= path@.len(),
    ensures
        r == skip_component_back(path@, from as int),
        r <= from,
{
    let mut i: usize = from;
    while i > 0 && path.get_char(i - 1) != '/'
        invariant
            i <= from <= path@.len(),
            skip_component_back(path@, from as int) == skip_component_back(path@, i as int),
        decreases i,
    {
        i = i - 1;
    }
    i
}

/// Returns the final path's parent directory, or fails with
/// `InvalidParentFinalPath` if the path has no parent segment or the parent
/// is the empty path (a bare filename with no directory component).
pub fn final_path_parent<'a>(final_path: &'a str) -> (r: Result<&'a str, Error>)
    ensures
        match r {
            Ok(p) => parent_of(final_path@) == Some(p@) && p@.len() > 0,
            Err(e) => e matches Error::InvalidParentFinalPath && !has_usable_parent(final_path@),
        },
{
    let n = final_path.unicode_len();
    let e = scan_seps_back(final_path, n);
    let k = scan_component_back(final_path, e);
    let m = scan_seps_back(final_path, k);
    proof {
        lemma_skip_seps_back(final_path@, n as int);
        lemma_skip_component_back(final_path@, e as int);
        lemma_skip_seps_back(final_path@, k as int);
    }
    if e == 0 || k == 0 {
        Err(Error::InvalidParentFinalPath)
    } else if m == 0 {
        let p = final_path.substring_char(0, 1);
        proof {
            assert(p@ =~= seq!['/']);
        }
        Ok(p)
    } else {
        Ok(final_path.substring_char(0, m))
    }
}

/// Returns the final path's leaf name, or fails with `InvalidFinalPath` if
/// the path has no extractable leaf name (it is empty or a bare root, or
/// its final component is `.` or `..`).
pub fn final_path_file_name<'a>(final_path: &'a str) -> (r: Result<&'a str, Error>)
    ensures
        match r {
            Ok(l) => {
                &&& leaf_of(final_path@) == Some(l@)
                &&& l@.len() > 0
                &&& !l@.contains('/')
            },
            Err(e) => e matches Error::InvalidFinalPath && leaf_of(final_path@) is None,
        },
{
    let n = final_path.unicode_len();
    let e = scan_seps_back(final_path, n);
    let k = scan_component_back(final_path, e);
    proof {
        lemma_skip_seps_back(final_path@, n as int);
        lemma_skip_component_back(final_path@, e as int);
    }
    if e == 0 {
        return Err(Error::InvalidFinalPath);
    }
    let ghost l = final_path@.subrange(k as int, e as int);
    if e - k == 1 && final_path.get_char(k) == '.' {
        proof {
            assert(l =~= seq!['.']);
        }
        return Err(Error::InvalidFinalPath);
    }
    if e - k == 2 && final_path.get_char(k) == '.' && final_path.get_char(k + 1) == '.' {
        proof {
            assert(l =~= seq!['.', '.']);
        }
        return Err(Error::InvalidFinalPath);
    }
    proof {
        if l == seq!['.'] {
            assert(l.len() == 1 && l[0] == '.');
        }
        if l == seq!['.', '.'] {
            assert(l.len() == 2 && l[0] == '.' && l[1] == '.');
        }
        assert(forall|i: int| 0 <= i < l.len() ==> l[i] != '/');
        assert(!l.contains('/'));
    }
    Ok(final_path.substring_char(k, e))
}

/// Joins a nonempty directory path and a name with a single separator.
pub(crate) fn join_under(dir: &str, name: &str) -> (r: String)
    requires
        dir@.len() > 0,
    ensures
        r@ == joined(dir@, name@),
{
    let dlen = dir.unicode_len();
    let mut r = dir.to_owned();
    if dir.get_char(dlen - 1) != '/' {
        proof {
            reveal_strlit("/");
        }
        r.append("/");
        proof {
            assert(r@ =~= dir@ + seq!['/']);
        }
    }
    r.append(name);
    proof {
        if dir@[dir@.len() - 1] == '/' {
            assert(r@ =~= dir@ + name@);
        } else {
            assert(r@ =~= dir@ + seq!['/'] + name@);
        }
    }
    r
}

} // verus!

