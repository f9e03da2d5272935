//! The compute side of the remote catalog search: building the lucene
//! query string a recording search is sent with, and turning the fields a
//! result carries into a catalog song. The network calls themselves live
//! in the surrounding binary.

use vstd::prelude::*;
use vstd::string::{StrSliceExecFns, StringExecFns};

use crate::events::{push_decimal, spec_decimal};
use crate::paths::{spec_split_on, split_on};
use crate::song::{Song, SongType};
use crate::text::push_char;

verus! {

/// The non-empty entries of a segment list, in order.
pub open spec fn spec_nonempty(parts: Seq<Seq<char>>) -> Seq<Seq<char>>
    decreases parts.len(),
{
    if parts.len() == 0 {
        Seq::<Seq<char>>::empty()
    } else {
        let rest = spec_nonempty(parts.drop_last());
        if parts.last().len() > 0 {
            rest.push(parts.last())
        } else {
            rest
        }
    }
}

/// The words of a query: split at spaces, empty pieces dropped. Spaces are
/// the only whitespace the search pane can type.
pub open spec fn spec_tokens(s: Seq<char>) -> Seq<Seq<char>> {
    spec_nonempty(spec_split_on(s, ' '))
}

/// The words joined back together with single spaces.
pub open spec fn spec_join(parts: Seq<Seq<char>>) -> Seq<char>
    decreases parts.len(),
{
    if parts.len() == 0 {
        Seq::<char>::empty()
    } else if parts.len() == 1 {
        parts[0]
    } else {
        spec_join(parts.drop_last()) + seq![' '] + parts.last()
    }
}

/// The query's base clause: the whole input as a recording or as an artist.
pub open spec fn spec_base_query(input: Seq<char>) -> Seq<char> {
    "query=recording:\""@ + input + "\" OR artist:\""@ + input + "\""@
}

/// One split read as title-then-artist.
pub open spec fn spec_pair_fwd(l: Seq<char>, r: Seq<char>) -> Seq<char> {
    " OR (recording:\""@ + l + "\" AND artist:\""@ + r + "\")"@
}

/// One split read as artist-then-title.
pub open spec fn spec_pair_rev(l: Seq<char>, r: Seq<char>) -> Seq<char> {
    " OR (artist:\""@ + l + "\" AND recording:\""@ + r + "\")"@
}

/// The title/artist clauses for every split point up to `k`, read
/// title-first.
pub open spec fn spec_fwd_block(parts: Seq<Seq<char>>, k: int) -> Seq<char>
    decreases k,
{
    if k < 1 || k >= parts.len() {
        Seq::<char>::empty()
    } else {
        spec_fwd_block(parts, k - 1) + spec_pair_fwd(
            spec_join(parts.subrange(0, k)),
            spec_join(parts.subrange(k, parts.len() as int)),
        )
    }
}

/// The artist-first clauses for every split point up to `k`.
pub open spec fn spec_rev_block(parts: Seq<Seq<char>>, k: int) -> Seq<char>
    decreases k,
{
    if k < 1 || k >= parts.len() {
        Seq::<char>::empty()
    } else {
        spec_rev_block(parts, k - 1) + spec_pair_rev(
            spec_join(parts.subrange(0, k)),
            spec_join(parts.subrange(k, parts.len() as int)),
        )
    }
}

/// The whole search string: the base clause, every split of a multi-word
/// query read both ways, and the result limit — or nothing at all for a
/// query without words.
pub open spec fn spec_create_query(input: Seq<char>, max_results: u32) -> Seq<char> {
    let parts = spec_tokens(input);
    if parts.len() == 0 {
        Seq::<char>::empty()
    } else {
        let blocks = if parts.len() > 1 {
            spec_fwd_block(parts, parts.len() - 1) + spec_rev_block(parts, parts.len() - 1)
        } else {
            Seq::<char>::empty()
        };
        spec_base_query(input) + blocks + "&limit="@ + spec_decimal(max_results as int)
    }
}

/// The words of the typed query, in order.
fn tokens(input: &str) -> (r: Vec<String>)
    ensures
        r.deep_view() == spec_tokens(input@),
{
    let segs = split_on(input, ' ');
    let ghost sdv = segs.deep_view();
    let mut out: Vec<String> = Vec::new();
    let n = segs.len();
    let mut j: usize = 0;
    proof {
        assert(sdv.len() == segs@.len());
        assert(sdv.subrange(0, 0) =~= Seq::<Seq<char>>::empty());
        assert(out.deep_view() =~= spec_nonempty(sdv.subrange(0, 0)));
    }
    while j < n
        invariant
            j <= n,
            n == segs@.len(),
            sdv == segs.deep_view(),
            sdv.len() == n,
            out.deep_view() == spec_nonempty(sdv.subrange(0, j as int)),
        decreases n - j,
    {
        let ghost out0 = out.deep_view();
        proof {
            assert(sdv.subrange(0, j + 1 as int).drop_last() =~= sdv.subrange(0, j as int));
            assert(sdv.subrange(0, j + 1 as int).last() == sdv[j as int]);
            assert(sdv[j as int] == segs@[j as int]@);
        }
        if segs[j].as_str().unicode_len() > 0 {
            out.push(segs[j].clone());
            proof {
                assert(out.deep_view() =~= out0.push(sdv[j as int]));
            }
        }
        j += 1;
    }
    proof {
        assert(sdv.subrange(0, n as int) =~= sdv);
    }
    out
}

/// The words from `from` up to `to`, joined with single spaces.
fn join_range(parts: &Vec<String>, from: usize, to: usize) -> (r: String)
    requires
        from <= to <= parts@.len(),
    ensures
        r@ == spec_join(parts.deep_view().subrange(from as int, to as int)),
{
    let ghost pdv = parts.deep_view();
    let mut r = String::new();
    let mut j: usize = from;
    proof {
        assert(pdv.len() == parts@.len());
        assert(pdv.subrange(from as int, from as int) =~= Seq::<Seq<char>>::empty());
    }
    while j < to
        invariant
            from <= j <= to <= parts@.len(),
            pdv == parts.deep_view(),
            pdv.len() == parts@.len(),
            r@ == spec_join(pdv.subrange(from as int, j as int)),
        decreases to - j,
    {
        proof {
            assert(pdv.subrange(from as int, j + 1 as int).drop_last() =~= pdv.subrange(
                from as int,
                j as int,
            ));
            assert(pdv.subrange(from as int, j + 1 as int).last() == pdv[j as int]);
            assert(pdv[j as int] == parts@[j as int]@);
        }
        if j > from {
            push_char(&mut r, ' ');
        }
        r.append(parts[j].as_str());
        proof {
            if j == from {
                assert(pdv.subrange(from as int, j + 1 as int).len() == 1);
                assert(pdv.subrange(from as int, j + 1 as int)[0] == pdv[j as int]);
            }
        }
        j += 1;
    }
    r
}

/// Builds the recording search string for a typed query: the whole input
/// as title or artist, plus, for a multi-word query, every way of
/// splitting it into a title part and an artist part, read both ways,
/// capped at `max_results` results. A query without words yields the empty
/// string.
pub fn create_query(input: &str, max_results: u32) -> (r: String)
    ensures
        r@ == spec_create_query(input@, max_results),
{
    let parts = tokens(input);
    let ghost pdv = parts.deep_view();
    let n = parts.len();
    proof {
        assert(pdv.len() == parts@.len());
    }
    if n == 0 {
        return String::new();
    }
    let mut base = String::new();
    base.append("query=recording:\"");
    base.append(input);
    base.append("\" OR artist:\"");
    base.append(input);
    base.append("\"");
    proof {
        assert(base@ =~= spec_base_query(input@));
    }
    if n > 1 {
        let ghost with_base = base@;
        let mut i: usize = 1;
        while i < n
            invariant
                1 <= i <= n,
                n == parts@.len(),
                pdv == parts.deep_view(),
                pdv.len() == n,
                base@ == with_base + spec_fwd_block(pdv, i - 1),
            decreases n - i,
        {
            let left = join_range(&parts, 0, i);
            let right = join_range(&parts, i, n);
            base.append(" OR (recording:\"");
            base.append(left.as_str());
            base.append("\" AND artist:\"");
            base.append(right.as_str());
            base.append("\")");
            proof {
                assert(base@ =~= with_base + spec_fwd_block(pdv, i as int));
            }
            i += 1;
        }
        let ghost with_fwd = base@;
        let mut i: usize = 1;
        while i < n
            invariant
                1 <= i <= n,
                n == parts@.len(),
                pdv == parts.deep_view(),
                pdv.len() == n,
                base@ == with_fwd + spec_rev_block(pdv, i - 1),
            decreases n - i,
        {
            let left = join_range(&parts, 0, i);
            let right = join_range(&parts, i, n);
            base.append(" OR (artist:\"");
            base.append(left.as_str());
            base.append("\" AND recording:\"");
            base.append(right.as_str());
            base.append("\")");
            proof {
                assert(base@ =~= with_fwd + spec_rev_block(pdv, i as int));
            }
            i += 1;
        }
    }
    base.append("&limit=");
    push_decimal(&mut base, max_results as u64);
    proof {
        assert(base@ =~= spec_create_query(input@, max_results));
    }
    base
}

/// Builds a catalog song from the fields a remote recording carries; it
/// has no playable source yet. The catalog reports lengths in
/// milliseconds; a song stores seconds.
pub fn song_from_recording(
    title: String,
    artist: Option<String>,
    album: Option<String>,
    length_ms: Option<u32>,
) -> (r: Song)
    ensures
        r.title == title,
        r.artist == artist,
        r.album == album,
        r.total_time == (match length_ms {
            Option::Some(l) => l / 1000,
            Option::None => 0u32,
        }),
        r.song_type is OnlineWithoutUrl,
{
    Song {
        title,
        artist,
        album,
        total_time: match length_ms {
            Some(l) => l / 1000,
            None => 0,
        },
        song_type: SongType::OnlineWithoutUrl,
    }
}

} // verus!
