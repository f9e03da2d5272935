//! Splitting text at a separator — file paths into their segments, queries
//! into their words.

use vstd::prelude::*;
use vstd::string::StrSliceExecFns;

use crate::text::push_char;

verus! {

/// The segments of `s` split at every `sep`. Splitting never yields an
/// empty list: text without separators is one segment, and each separator
/// ends one segment and starts the next.
pub open spec fn spec_split_on(s: Seq<char>, sep: char) -> Seq<Seq<char>>
    decreases s.len(),
{
    if s.len() == 0 {
        seq![Seq::<char>::empty()]
    } else if s.last() == sep {
        spec_split_on(s.drop_last(), sep).push(Seq::<char>::empty())
    } else {
        let rest = spec_split_on(s.drop_last(), sep);
        rest.update(rest.len() - 1, rest.last().push(s.last()))
    }
}

/// A path's segments: split at every `/`.
pub open spec fn spec_split_path(s: Seq<char>) -> Seq<Seq<char>> {
    spec_split_on(s, '/')
}

pub proof fn lemma_split_on_len(s: Seq<char>, sep: char)
    ensures
        spec_split_on(s, sep).len() >= 1,
    decreases s.len(),
{
    if s.len() == 0 {
    } else {
        lemma_split_on_len(s.drop_last(), sep);
    }
}

/// Splits text into its segments at `sep`.
pub fn split_on(s: &str, sep: char) -> (r: Vec<String>)
    ensures
        r.deep_view() == spec_split_on(s@, sep),
{
    let n = s.unicode_len();
    let mut segs: Vec<String> = Vec::new();
    let mut cur: String = String::new();
    let mut i: usize = 0;
    proof {
        assert(s@.subrange(0, 0) =~= Seq::<char>::empty());
        assert(segs.deep_view().push(cur@) =~= spec_split_on(s@.subrange(0, 0), sep));
    }
    while i < n
        invariant
            i <= n,
            n == s@.len(),
            segs.deep_view().push(cur@) == spec_split_on(s@.subrange(0, i as int), sep),
        decreases n - i,
    {
        let ghost pre = s@.subrange(0, i as int);
        let ghost segs0 = segs.deep_view();
        let ghost cur0 = cur@;
        let c = s.get_char(i);
        proof {
            assert(s@.subrange(0, i + 1 as int).drop_last() =~= pre);
            assert(s@.subrange(0, i + 1 as int).last() == c);
        }
        if c == sep {
            segs.push(cur);
            cur = String::new();
            proof {
                assert(segs.deep_view() =~= segs0.push(cur0));
                assert(segs.deep_view().push(cur@) =~= spec_split_on(
                    s@.subrange(0, i + 1 as int),
                    sep,
                ));
            }
        } else {
            push_char(&mut cur, c);
            proof {
                let rest = spec_split_on(pre, sep);
                assert(rest == segs0.push(cur0));
                assert(rest.last() == cur0);
                assert(segs.deep_view().push(cur@) =~= rest.update(
                    rest.len() - 1,
                    rest.last().push(c),
                ));
            }
        }
        i += 1;
    }
    segs.push(cur);
    proof {
        assert(s@.subrange(0, n as int) =~= s@);
        assert(segs.deep_view() =~= spec_split_on(s@, sep));
    }
    segs
}

/// Splits a path into its segments.
pub fn split_path(s: &str) -> (r: Vec<String>)
    ensures
        r.deep_view() == spec_split_path(s@),
{
    split_on(s, '/')
}

/// The segments of the directory a path lies in: everything up to the last
/// separator.
pub fn parent_segments(path: &str) -> (r: Vec<String>)
    ensures
        r.deep_view() == spec_split_path(path@).drop_last(),
{
    let mut v = split_path(path);
    proof {
        lemma_split_on_len(path@, '/');
        assert(v@.len() == v.deep_view().len());
    }
    v.pop();
    proof {
        assert(v.deep_view() =~= spec_split_path(path@).drop_last());
    }
    v
}

} // verus!
