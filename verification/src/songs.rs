//! Sorting and filtering choices for the flat song catalog.

use std::collections::HashMap;

use vstd::prelude::*;

use crate::song::Song;

verus! {

/// The field a song listing is ordered by.
pub enum SortBy {
    Title,
    Artist,
    Album,
}

pub enum SortOrder {
    ASC,
    DESC,
}

/// A text filter over the song listing, against one field or all of them.
pub enum Filter {
    NoFilter,
    All(String),
    Title(String),
    Artist(String),
    Album(String),
}

/// A song catalog keyed by identity, with its display order and filter.
pub struct SongDisplay {
    pub songs: HashMap<String, Song>,
    pub sorted_by: SortBy,
    pub sort_order: SortOrder,
    pub filter: Filter,
}

} // verus!
