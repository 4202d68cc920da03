//! Metadata updates that pass through the proxy: an update that carries
//! tags makes every cached upscale decision stale.

use vstd::prelude::*;
use crate::cache::no_entries;
use crate::call_history::CallHistory;
use crate::tags_provider::UpscaleTagChecker;

verus! {

/// Whether a metadata update touches the tags: it does where it carries a
/// `tags` field that is not null, be the list empty or not.
pub fn carries_tags(tags: &Option<Vec<String>>) -> (r: bool)
    ensures
        r == tags is Some,
{
    tags.is_some()
}

/// After a metadata update was forwarded: where the update carried a `tags`
/// field that is not null, drops every cached decision and the whole call
/// history; otherwise leaves both alone.
pub fn check_tags_on_metadata_update(
    tags: &Option<Vec<String>>,
    upscale_tag_checker: &mut UpscaleTagChecker,
    upscale_call_history_cache: &mut CallHistory,
)
    ensures
        final(upscale_tag_checker).tag() == old(upscale_tag_checker).tag(),
        tags is Some ==> {
            &&& final(upscale_tag_checker).decisions() == no_entries()
            &&& final(upscale_call_history_cache).paths() == Set::<Seq<char>>::empty()
            &&& final(upscale_tag_checker).noted() is None
            &&& final(upscale_tag_checker).tag() is Some ==> forall|id: Seq<char>, now: u64|
                #[trigger] final(upscale_tag_checker).known(id, now) is None
        },
        tags is None ==> {
            &&& final(upscale_tag_checker).decisions() == old(upscale_tag_checker).decisions()
            &&& final(upscale_tag_checker).noted() == old(upscale_tag_checker).noted()
            &&& final(upscale_call_history_cache).paths() == old(upscale_call_history_cache).paths()
        },
{
    if carries_tags(tags) {
        upscale_tag_checker.invalidate_cache();
        upscale_call_history_cache.invalidate_all();
    }
}

/// After a series metadata update was forwarded.
pub fn check_tags_on_series_metadata_update(
    tags: &Option<Vec<String>>,
    upscale_tag_checker: &mut UpscaleTagChecker,
    upscale_call_history_cache: &mut CallHistory,
)
    ensures
        final(upscale_tag_checker).tag() == old(upscale_tag_checker).tag(),
        tags is Some ==> {
            &&& final(upscale_tag_checker).decisions() == no_entries()
            &&& final(upscale_call_history_cache).paths() == Set::<Seq<char>>::empty()
            &&& final(upscale_tag_checker).noted() is None
            &&& final(upscale_tag_checker).tag() is Some ==> forall|id: Seq<char>, now: u64|
                #[trigger] final(upscale_tag_checker).known(id, now) is None
        },
        tags is None ==> {
            &&& final(upscale_tag_checker).decisions() == old(upscale_tag_checker).decisions()
            &&& final(upscale_tag_checker).noted() == old(upscale_tag_checker).noted()
            &&& final(upscale_call_history_cache).paths() == old(upscale_call_history_cache).paths()
        },
{
    check_tags_on_metadata_update(tags, upscale_tag_checker, upscale_call_history_cache)
}

/// After a book metadata update was forwarded.
pub fn check_tags_on_book_metadata_update(
    tags: &Option<Vec<String>>,
    upscale_tag_checker: &mut UpscaleTagChecker,
    upscale_call_history_cache: &mut CallHistory,
)
    ensures
        final(upscale_tag_checker).tag() == old(upscale_tag_checker).tag(),
        tags is Some ==> {
            &&& final(upscale_tag_checker).decisions() == no_entries()
            &&& final(upscale_call_history_cache).paths() == Set::<Seq<char>>::empty()
            &&& final(upscale_tag_checker).noted() is None
            &&& final(upscale_tag_checker).tag() is Some ==> forall|id: Seq<char>, now: u64|
                #[trigger] final(upscale_tag_checker).known(id, now) is None
        },
        tags is None ==> {
            &&& final(upscale_tag_checker).decisions() == old(upscale_tag_checker).decisions()
            &&& final(upscale_tag_checker).noted() == old(upscale_tag_checker).noted()
            &&& final(upscale_call_history_cache).paths() == old(upscale_call_history_cache).paths()
        },
{
    check_tags_on_metadata_update(tags, upscale_tag_checker, upscale_call_history_cache)
}

} // verus!
