//! Which routes the server offers under a configuration.

use vstd::prelude::*;
use crate::config::app_config::AppConfig;
use crate::text::{split_by, split_text, str_equal, strings_view};

verus! {

/// How long, in seconds, requests in flight are waited for once a forced
/// shutdown is signalled.
pub const FORCED_SHUTDOWN_SECS: u64 = 1;

/// The optional routes.
#[derive(Debug, Copy, Clone, PartialEq, Eq, Structural)]
pub struct Routes {
    /// The routes that watch metadata updates for tag changes.
    pub metadata_updates: bool,
    /// The routes that read and write the configuration.
    pub config_updates: bool,
}

/// The optional routes under `config`: metadata updates are watched where
/// an upscale tag is configured, and the configuration routes exist where
/// updates are allowed.
pub fn make_routes(config: &AppConfig) -> (r: Routes)
    ensures
        r.metadata_updates == config.upscale_tag is Some,
        r.config_updates == config.allow_config_updates,
{
    Routes {
        metadata_updates: config.upscale_tag.is_some(),
        config_updates: config.allow_config_updates,
    }
}

/// What a request is for.
#[derive(Debug, Copy, Clone, PartialEq, Eq, Structural)]
pub enum Route {
    /// A page of a book: `GET /api/v1/books/{id}/pages/{number}`.
    UpscaleKomga,
    /// A page of a chapter: `GET /api/reader/image`.
    UpscaleKavita,
    /// The realtime channel: `GET /hubs/messages`.
    Realtime,
    /// `PATCH /api/v1/series/{id}/metadata`, where metadata updates are watched.
    SeriesMetadataUpdate,
    /// `PATCH /api/v1/books/{id}/metadata`, where metadata updates are watched.
    BookMetadataUpdate,
    /// `GET /kurp/config`, where configuration updates are allowed.
    ConfigRead,
    /// `POST /kurp/config`, where configuration updates are allowed.
    ConfigWrite,
    /// Everything else is forwarded as it is.
    Proxy,
}

/// The segments of `/api/v1/{collection}/{id}/{leaf}` with an id that is not empty.
pub open spec fn is_item_path(segments: Seq<Seq<char>>, collection: Seq<char>, leaf: Seq<char>) -> bool {
    &&& segments.len() >= 6
    &&& segments[0].len() == 0
    &&& segments[1] == "api"@
    &&& segments[2] == "v1"@
    &&& segments[3] == collection
    &&& segments[4].len() > 0
    &&& segments[5] == leaf
}

/// The segments of a book page path: `/api/v1/books/{id}/pages/{number}`,
/// id and number not empty.
pub open spec fn is_page_path(segments: Seq<Seq<char>>) -> bool {
    &&& segments.len() == 7
    &&& is_item_path(segments, "books"@, "pages"@)
    &&& segments[6].len() > 0
}

/// The segments of a metadata path: `/api/v1/{collection}/{id}/metadata`.
pub open spec fn is_metadata_path(segments: Seq<Seq<char>>, collection: Seq<char>) -> bool {
    segments.len() == 6 && is_item_path(segments, collection, "metadata"@)
}

/// The segments of `/{first}/{second}`.
pub open spec fn is_pair_path(segments: Seq<Seq<char>>, first: Seq<char>, second: Seq<char>) -> bool {
    &&& segments.len() == 3
    &&& segments[0].len() == 0
    &&& segments[1] == first
    &&& segments[2] == second
}

/// The segments of `/api/reader/image`.
pub open spec fn is_reader_image_path(segments: Seq<Seq<char>>) -> bool {
    &&& segments.len() == 4
    &&& segments[0].len() == 0
    &&& segments[1] == "api"@
    &&& segments[2] == "reader"@
    &&& segments[3] == "image"@
}

/// What a request with this method and these path segments is for.
pub open spec fn route_of(method: Seq<char>, segments: Seq<Seq<char>>, routes: Routes) -> Route {
    if method == "GET"@ && is_page_path(segments) {
        Route::UpscaleKomga
    } else if method == "GET"@ && is_reader_image_path(segments) {
        Route::UpscaleKavita
    } else if method == "GET"@ && is_pair_path(segments, "hubs"@, "messages"@) {
        Route::Realtime
    } else if routes.metadata_updates && method == "PATCH"@ && is_metadata_path(segments, "series"@) {
        Route::SeriesMetadataUpdate
    } else if routes.metadata_updates && method == "PATCH"@ && is_metadata_path(segments, "books"@) {
        Route::BookMetadataUpdate
    } else if routes.config_updates && method == "GET"@ && is_pair_path(segments, "kurp"@, "config"@) {
        Route::ConfigRead
    } else if routes.config_updates && method == "POST"@ && is_pair_path(segments, "kurp"@, "config"@) {
        Route::ConfigWrite
    } else {
        Route::Proxy
    }
}

fn item_path(segments: &Vec<String>, collection: &str, leaf: &str) -> (r: bool)
    ensures
        r == is_item_path(strings_view(segments@), collection@, leaf@),
{
    if segments.len() < 6 {
        return false;
    }
    proof {
        let views = strings_view(segments@);
        assert(views[0] == segments@[0]@);
        assert(views[1] == segments@[1]@);
        assert(views[2] == segments@[2]@);
        assert(views[3] == segments@[3]@);
        assert(views[4] == segments@[4]@);
        assert(views[5] == segments@[5]@);
    }
    segments[0].as_str().unicode_len() == 0 && str_equal(segments[1].as_str(), "api") && str_equal(
        segments[2].as_str(),
        "v1",
    ) && str_equal(segments[3].as_str(), collection) && segments[4].as_str().unicode_len() > 0
        && str_equal(segments[5].as_str(), leaf)
}

fn pair_path(segments: &Vec<String>, first: &str, second: &str) -> (r: bool)
    ensures
        r == is_pair_path(strings_view(segments@), first@, second@),
{
    if segments.len() != 3 {
        return false;
    }
    proof {
        let views = strings_view(segments@);
        assert(views[0] == segments@[0]@);
        assert(views[1] == segments@[1]@);
        assert(views[2] == segments@[2]@);
    }
    segments[0].as_str().unicode_len() == 0 && str_equal(segments[1].as_str(), first) && str_equal(
        segments[2].as_str(),
        second,
    )
}

fn reader_image_path(segments: &Vec<String>) -> (r: bool)
    ensures
        r == is_reader_image_path(strings_view(segments@)),
{
    if segments.len() != 4 {
        return false;
    }
    proof {
        let views = strings_view(segments@);
        assert(views[0] == segments@[0]@);
        assert(views[1] == segments@[1]@);
        assert(views[2] == segments@[2]@);
        assert(views[3] == segments@[3]@);
    }
    segments[0].as_str().unicode_len() == 0 && str_equal(segments[1].as_str(), "api") && str_equal(
        segments[2].as_str(),
        "reader",
    ) && str_equal(segments[3].as_str(), "image")
}

fn page_path(segments: &Vec<String>) -> (r: bool)
    ensures
        r == is_page_path(strings_view(segments@)),
{
    if segments.len() != 7 {
        return false;
    }
    assert(strings_view(segments@)[6] == segments@[6]@);
    item_path(segments, "books", "pages") && segments[6].as_str().unicode_len() > 0
}

/// What a request with this method and these path segments is for.
pub fn route_of_segments(method: &str, segments: &Vec<String>, routes: Routes) -> (r: Route)
    ensures
        r == route_of(method@, strings_view(segments@), routes),
{
    let get = str_equal(method, "GET");
    let patch = str_equal(method, "PATCH");
    let post = str_equal(method, "POST");
    if get && page_path(segments) {
        Route::UpscaleKomga
    } else if get && reader_image_path(segments) {
        Route::UpscaleKavita
    } else if get && pair_path(segments, "hubs", "messages") {
        Route::Realtime
    } else if routes.metadata_updates && patch && segments.len() == 6 && item_path(
        segments,
        "series",
        "metadata",
    ) {
        Route::SeriesMetadataUpdate
    } else if routes.metadata_updates && patch && segments.len() == 6 && item_path(
        segments,
        "books",
        "metadata",
    ) {
        Route::BookMetadataUpdate
    } else if routes.config_updates && get && pair_path(segments, "kurp", "config") {
        Route::ConfigRead
    } else if routes.config_updates && post && pair_path(segments, "kurp", "config") {
        Route::ConfigWrite
    } else {
        Route::Proxy
    }
}

/// What a request is for, by its method and its path (without the query).
/// Only the routes that the configuration switches on are told apart from
/// plain forwarding.
pub fn route_for(method: &str, path: &str, routes: Routes) -> (r: Route)
    ensures
        r == route_of(method@, split_by(path@, "/"@), routes),
{
    proof {
        reveal_strlit("/");
    }
    let segments = split_text(path, "/");
    route_of_segments(method, &segments, routes)
}

} // verus!
