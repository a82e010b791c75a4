//! A character-level model of paths: the parent step of the ancestor
//! chain and the relative-path test.
//!
//! A path's parent is the path cut at its last separator: `/a/b` has
//! parent `/a`, `/a` has parent `/`, a bare relative component has the
//! empty parent, and the root and the empty path have none.

use vstd::prelude::*;

verus! {

/// The index of the last `/` in `p`, if any.
pub open spec fn last_slash(p: Seq<char>) -> Option<int>
    decreases p.len(),
{
    if p.len() == 0 {
        None
    } else if p.last() == '/' {
        Some(p.len() - 1)
    } else {
        last_slash(p.drop_last())
    }
}

/// A last slash lies inside the path and holds a `/`.
pub proof fn lemma_last_slash_bounds(p: Seq<char>)
    ensures
        last_slash(p) matches Some(i) ==> 0 <= i < p.len() && p[i] == '/',
    decreases p.len(),
{
    if p.len() > 0 && p.last() != '/' {
        lemma_last_slash_bounds(p.drop_last());
        match last_slash(p.drop_last()) {
            Some(i) => {
                assert(p.drop_last()[i] == p[i]);
            },
            None => {},
        }
    }
}

/// The parent of a path, if it has one.
pub open spec fn parent_spec(p: Seq<char>) -> Option<Seq<char>> {
    if p.len() == 0 {
        None
    } else {
        match last_slash(p) {
            None => Some(Seq::empty()),
            Some(i) => if i == 0 {
                if p.len() == 1 {
                    None
                } else {
                    Some(seq!['/'])
                }
            } else {
                Some(p.take(i))
            },
        }
    }
}

/// A parent is strictly shorter than its path, so the ancestor chain is
/// finite.
pub proof fn lemma_parent_shorter(p: Seq<char>)
    ensures
        parent_spec(p) matches Some(q) ==> q.len() < p.len(),
{
    lemma_last_slash_bounds(p);
}

/// The index of the last `/` in `p`, if any.
pub fn find_last_slash(p: &str) -> (r: Option<usize>)
    ensures
        r matches Some(i) ==> last_slash(p@) == Some(i as int),
        (r is None) <==> (last_slash(p@) is None),
{
    let len = p.unicode_len();
    let mut i: usize = len;
    proof {
        assert(p@.take(len as int) =~= p@);
    }
    while i > 0
        invariant
            i <= len,
            len == p@.len(),
            last_slash(p@) == last_slash(p@.take(i as int)),
        decreases i,
    {
        if p.get_char(i - 1) == '/' {
            proof {
                assert(p@.take(i as int).last() == p@[i - 1]);
            }
            return Some(i - 1);
        }
        proof {
            assert(p@.take(i as int).drop_last() =~= p@.take(i as int - 1));
        }
        i = i - 1;
    }
    None
}

/// The parent of `p` along the ancestor chain, if it has one.
pub fn parent_of(p: &str) -> (r: Option<&str>)
    ensures
        r matches Some(q) ==> parent_spec(p@) == Some(q@),
        (r is None) <==> (parent_spec(p@) is None),
{
    let len = p.unicode_len();
    if len == 0 {
        return None;
    }
    proof {
        lemma_last_slash_bounds(p@);
    }
    match find_last_slash(p) {
        None => {
            let q = p.substring_char(0, 0);
            proof {
                assert(q@ =~= Seq::<char>::empty());
            }
            Some(q)
        },
        Some(i) => {
            if i == 0 {
                if len == 1 {
                    None
                } else {
                    let q = p.substring_char(0, 1);
                    proof {
                        assert(q@ =~= seq!['/']);
                    }
                    Some(q)
                }
            } else {
                let q = p.substring_char(0, i);
                proof {
                    assert(q@ =~= p@.take(i as int));
                }
                Some(q)
            }
        },
    }
}

/// Paths that do not start at the filesystem root.
pub open spec fn relative_spec(p: Seq<char>) -> bool {
    p.len() == 0 || p[0] != '/'
}

/// Whether `p` is a relative path; such paths are unlikely to resolve as
/// intended inside a sandbox.
pub fn is_relative(p: &str) -> (b: bool)
    ensures
        b == relative_spec(p@),
{
    if p.unicode_len() == 0 {
        true
    } else {
        p.get_char(0) != '/'
    }
}

} // verus!
