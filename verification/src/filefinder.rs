//! The scan's decisions: which file names count as audio and which
//! directories the walk descends into. The walk itself — reading
//! directories and tags — happens in the surrounding binary, which fills
//! `found_paths` and `songs` with what it found.

use vstd::prelude::*;
use vstd::string::StrSliceExecFns;

use crate::song::Song;

verus! {

/// Does `s` end in `suffix`?
pub open spec fn spec_ends_with(s: Seq<char>, suffix: Seq<char>) -> bool {
    suffix.len() <= s.len() && s.skip(s.len() - suffix.len()) == suffix
}

/// Character-wise suffix test.
pub fn str_ends_with(s: &str, suffix: &str) -> (r: bool)
    ensures
        r == spec_ends_with(s@, suffix@),
{
    let n = s.unicode_len();
    let m = suffix.unicode_len();
    if m > n {
        return false;
    }
    let mut i: usize = 0;
    while i < m
        invariant
            i <= m <= n,
            n == s@.len(),
            m == suffix@.len(),
            forall|j: int| 0 <= j < i ==> s@[n - m + j] == suffix@[j],
        decreases m - i,
    {
        let a = s.get_char(n - m + i);
        let b = suffix.get_char(i);
        if a != b {
            proof {
                assert(s@.skip(n - m)[i as int] == s@[n - m + i]);
            }
            return false;
        }
        i += 1;
    }
    proof {
        assert(s@.skip(n - m) =~= suffix@);
    }
    true
}

/// The file-scanning state: which suffixes count as audio, where the walk
/// starts, how deep it goes, and what it found.
pub struct FileFinder {
    pub extensions: [String; 3],
    pub search_path: String,
    pub depth: u32,
    pub found_paths: Vec<String>,
    pub songs: Vec<Song>,
}

impl FileFinder {
    pub fn new(extensions: [String; 3], search_path: String, depth: Option<u32>) -> (r: Self)
        ensures
            r.extensions == extensions,
            r.search_path == search_path,
            r.depth == (match depth {
                Option::Some(d) => d,
                Option::None => 3u32,
            }),
            r.found_paths@.len() == 0,
            r.songs@.len() == 0,
    {
        FileFinder {
            extensions,
            found_paths: Vec::new(),
            search_path,
            depth: match depth {
                Some(d) => d,
                None => 3,
            },
            songs: Vec::new(),
        }
    }

    /// Does this file name end in one of the accepted audio extensions?
    pub fn matches_extension(&self, file_name: &str) -> (r: bool)
        ensures
            r == exists|k: int|
                0 <= k < self.extensions@.len() && spec_ends_with(
                    file_name@,
                    (#[trigger] self.extensions@[k])@,
                ),
    {
        let mut i: usize = 0;
        while i < 3
            invariant
                i <= 3,
                self.extensions@.len() == 3,
                forall|k: int| 0 <= k < i ==> !spec_ends_with(
                    file_name@,
                    (#[trigger] self.extensions@[k])@,
                ),
            decreases 3 - i,
        {
            if str_ends_with(file_name, self.extensions[i].as_str()) {
                return true;
            }
            i += 1;
        }
        false
    }

    /// Does the walk descend into this directory? Only while depth is left,
    /// and never into hidden directories.
    pub fn should_descend(file_name: &str, depth: u32) -> (r: bool)
        ensures
            r == (depth > 0 && !(file_name@.len() > 0 && file_name@[0] == '.')),
    {
        if depth == 0 {
            return false;
        }
        let n = file_name.unicode_len();
        if n > 0 {
            let c = file_name.get_char(0);
            if c == '.' {
                return false;
            }
        }
        true
    }
}

} // verus!
