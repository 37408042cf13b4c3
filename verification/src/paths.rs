//! Minimal reasoning about `/`-separated path strings: the position of the
//! last separator, the directory part, and the final component. Paths are
//! taken as plain character strings; no filesystem is consulted.

use vstd::prelude::*;
use vstd::string::*;

verus! {

/// Index of the last `/` in `p`, or -1 when `p` has none.
pub open spec fn spec_last_slash(p: Seq<char>) -> int
    decreases p.len(),
{
    if p.len() == 0 {
        -1
    } else if p[p.len() - 1] == '/' {
        p.len() - 1
    } else {
        spec_last_slash(p.drop_last())
    }
}

/// The last-slash index lies inside the string, or is -1.
pub proof fn lemma_last_slash_bounds(p: Seq<char>)
    ensures
        -1 <= spec_last_slash(p) < p.len(),
    decreases p.len(),
{
    if p.len() > 0 && p[p.len() - 1] != '/' {
        lemma_last_slash_bounds(p.drop_last());
    }
}

/// The directory part of a path: everything before the last `/`, or nothing
/// when the path has no separator.
pub open spec fn spec_parent_dir(p: Seq<char>) -> Option<Seq<char>> {
    if spec_last_slash(p) >= 0 {
        Some(p.subrange(0, spec_last_slash(p)))
    } else {
        None
    }
}

/// The final component of a path: everything after the last `/`, or the
/// whole path when it has no separator.
pub open spec fn spec_base_name(p: Seq<char>) -> Seq<char> {
    p.subrange(spec_last_slash(p) + 1, p.len() as int)
}

/// Finds the index of the last `/` in `p`, if any.
pub fn last_slash(p: &str) -> (r: Option<usize>)
    ensures
        match r {
            Some(i) => spec_last_slash(p@) == i,
            None => spec_last_slash(p@) == -1,
        },
{
    let len = p.unicode_len();
    let mut i: usize = len;
    proof {
        assert(p@.subrange(0, len as int) =~= p@);
    }
    while i > 0
        invariant
            i <= len,
            len == p@.len(),
            spec_last_slash(p@) == spec_last_slash(p@.subrange(0, i as int)),
        decreases i,
    {
        i -= 1;
        let c = p.get_char(i);
        proof {
            assert(p@.subrange(0, i + 1)[i as int] == p@[i as int]);
        }
        if c == '/' {
            return Some(i);
        }
        proof {
            assert(p@.subrange(0, i + 1).drop_last() =~= p@.subrange(0, i as int));
        }
    }
    proof {
        assert(p@.subrange(0, 0) =~= Seq::<char>::empty());
    }
    None
}

/// The directory part of a path, as `spec_parent_dir` defines it.
pub fn parent_dir(p: &str) -> (r: Option<String>)
    ensures
        r.deep_view() == spec_parent_dir(p@),
{
    proof {
        lemma_last_slash_bounds(p@);
    }
    match last_slash(p) {
        Some(i) => Some(p.substring_char(0, i).to_owned()),
        None => None,
    }
}

/// The final component of a path, as `spec_base_name` defines it.
pub fn base_name(p: &str) -> (r: String)
    ensures
        r@ == spec_base_name(p@),
{
    proof {
        lemma_last_slash_bounds(p@);
    }
    let len = p.unicode_len();
    match last_slash(p) {
        Some(i) => p.substring_char(i + 1, len).to_owned(),
        None => {
            proof {
                assert(p@.subrange(0, len as int) =~= p@);
            }
            p.substring_char(0, len).to_owned()
        },
    }
}

} // verus!
