//! Resources of the book / series backend.

use vstd::prelude::*;

verus! {

#[derive(Debug)]
pub struct KomgaSeries {
    pub id: String,
    pub metadata: KomgaSeriesMetadata,
}

#[derive(Debug)]
pub struct KomgaSeriesMetadata {
    pub tags: Vec<String>,
}

#[derive(Debug)]
pub struct KomgaBook {
    pub id: String,
    pub series_id: String,
    pub metadata: KomgaBookMetadata,
}

#[derive(Debug)]
pub struct KomgaBookMetadata {
    pub tags: Vec<String>,
}

} // verus!
