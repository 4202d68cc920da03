//! The chapter / volume / series backend: where its resources are.

use vstd::prelude::*;
use crate::text::{decimal, decimal_string};

verus! {

/// The chapter / volume / series backend.
pub struct KavitaClient {
    pub base_uri: String,
}

impl KavitaClient {
    pub fn new(base_uri: String) -> (r: Self)
        ensures
            r.base_uri == base_uri,
    {
        Self { base_uri }
    }

    /// The address of a chapter.
    pub fn chapter_url(&self, chapter_id: u32) -> (r: String)
        ensures
            r@ == self.base_uri@ + "/api/series/chapter?chapterId="@ + decimal(chapter_id as nat),
    {
        let mut url = self.base_uri.clone();
        url.append("/api/series/chapter?chapterId=");
        url.append(decimal_string(chapter_id as usize).as_str());
        url
    }

    /// The address of a volume.
    pub fn volume_url(&self, volume_id: u32) -> (r: String)
        ensures
            r@ == self.base_uri@ + "/api/series/volume?volumeId="@ + decimal(volume_id as nat),
    {
        let mut url = self.base_uri.clone();
        url.append("/api/series/volume?volumeId=");
        url.append(decimal_string(volume_id as usize).as_str());
        url
    }

    /// The address of a series' metadata.
    pub fn series_metadata_url(&self, series_id: u32) -> (r: String)
        ensures
            r@ == self.base_uri@ + "/api/series/metadata?seriesId="@ + decimal(series_id as nat),
    {
        let mut url = self.base_uri.clone();
        url.append("/api/series/metadata?seriesId=");
        url.append(decimal_string(series_id as usize).as_str());
        url
    }
}

} // verus!
