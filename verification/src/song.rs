//! A playable track: its metadata and where it comes from.

use vstd::prelude::*;

verus! {

/// Where a song's audio lives. A local file carries the path it was scanned
/// from; remote songs carry a URL once one is known, and a download adds a
/// local path beside the URL.
pub enum SongType {
    Local { path: String },
    OnlineDownloaded { url: String, path: String },
    Online { url: String },
    OnlineWithoutUrl,
}

/// One playable audio item. Immutable after creation; identity for
/// de-duplication in the flat library index is `(title, artist)`.
pub struct Song {
    pub title: String,
    pub artist: Option<String>,
    pub album: Option<String>,
    pub total_time: u32,
    pub song_type: SongType,
}

impl Song {
    pub fn is_local(&self) -> (r: bool)
        ensures
            r == self.song_type is Local,
    {
        matches!(self.song_type, SongType::Local { .. })
    }

    pub fn is_online_only(&self) -> (r: bool)
        ensures
            r == self.song_type is Online,
    {
        matches!(self.song_type, SongType::Online { .. })
    }

    pub fn is_online_downloaded(&self) -> (r: bool)
        ensures
            r == self.song_type is OnlineDownloaded,
    {
        matches!(self.song_type, SongType::OnlineDownloaded { .. })
    }
}

fn clone_opt_string(o: &Option<String>) -> (r: Option<String>)
    ensures
        r == *o,
{
    match o {
        Some(s) => Some(s.clone()),
        None => None,
    }
}

impl Clone for SongType {
    /// A clone is equal to the original, field for field.
    fn clone(&self) -> (r: Self)
        ensures
            r == *self,
    {
        match self {
            SongType::Local { path } => SongType::Local { path: path.clone() },
            SongType::OnlineDownloaded { url, path } => SongType::OnlineDownloaded {
                url: url.clone(),
                path: path.clone(),
            },
            SongType::Online { url } => SongType::Online { url: url.clone() },
            SongType::OnlineWithoutUrl => SongType::OnlineWithoutUrl,
        }
    }
}

impl Clone for Song {
    /// A clone is equal to the original, field for field.
    fn clone(&self) -> (r: Self)
        ensures
            r == *self,
    {
        Song {
            title: self.title.clone(),
            artist: clone_opt_string(&self.artist),
            album: clone_opt_string(&self.album),
            total_time: self.total_time,
            song_type: self.song_type.clone(),
        }
    }
}

/// Clones a whole song list; the result is element-for-element equal.
pub fn clone_songs(v: &Vec<Song>) -> (r: Vec<Song>)
    ensures
        r@ == v@,
{
    let mut r: Vec<Song> = Vec::new();
    let mut i: usize = 0;
    while i < v.len()
        invariant
            i <= v.len(),
            r@ =~= v@.subrange(0, i as int),
        decreases v.len() - i,
    {
        r.push(v[i].clone());
        assert(r@ =~= v@.subrange(0, i + 1 as int));
        i += 1;
    }
    assert(r@ =~= v@);
    r
}

} // verus!
