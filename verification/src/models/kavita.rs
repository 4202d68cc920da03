//! Resources of the chapter / volume / series backend.

use vstd::prelude::*;

verus! {

#[derive(Debug)]
pub struct KavitaChapter {
    pub id: u32,
    pub volume_id: u32,
}

#[derive(Debug)]
pub struct KavitaVolume {
    pub id: u32,
    pub series_id: u32,
}

#[derive(Debug)]
pub struct KavitaSeriesMetadata {
    pub tags: Vec<KavitaTag>,
}

#[derive(Debug)]
pub struct KavitaTag {
    pub id: u32,
    pub title: String,
}

} // verus!
