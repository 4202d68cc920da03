//! The tag check: whether a resource is to be upscaled, decided by the
//! tags the backend holds for it, with the decisions cached for a while.
//!
//! With no tag configured everything is upscaled. The backend is asked
//! outside this library; the checker says when it must be asked and what to
//! make of the answer.

use vstd::prelude::*;
use crate::cache::{
    cache_entries,
    cache_expiring,
    cache_get,
    cache_insert,
    cache_invalidate_all,
    no_entries,
};
use crate::models::kavita::{KavitaSeriesMetadata, KavitaTag};
use crate::models::komga::{KomgaBook, KomgaSeries};
use crate::text::{
    ascii_eq,
    decimal,
    decimal_string,
    eq_ignore_ascii_case,
    str_equal,
    strings_view,
};

verus! {

/// How long a cached decision is kept, in seconds.
pub const DECISION_TTL_SECS: u64 = 180;

/// One of `tags` is `tag`, letter case aside.
pub open spec fn has_tag(tags: Seq<Seq<char>>, tag: Seq<char>) -> bool {
    exists|i: int| 0 <= i < tags.len() && eq_ignore_ascii_case(#[trigger] tags[i], tag)
}

/// The titles of a list of tags, in order.
pub open spec fn titles(tags: Seq<KavitaTag>) -> Seq<Seq<char>> {
    tags.map_values(|t: KavitaTag| t.title@)
}

/// Whether one of `tags` is `tag`, letter case aside.
pub fn contains_tag(tags: &Vec<String>, tag: &str) -> (r: bool)
    ensures
        r == has_tag(strings_view(tags@), tag@),
{
    let mut i: usize = 0;
    while i < tags.len()
        invariant
            i <= tags.len(),
            forall|j: int| 0 <= j < i ==> !eq_ignore_ascii_case(#[trigger] strings_view(tags@)[j], tag@),
        decreases tags.len() - i,
    {
        if ascii_eq(tags[i].as_str(), tag) {
            assert(eq_ignore_ascii_case(strings_view(tags@)[i as int], tag@));
            return true;
        }
        i += 1;
    }
    false
}

/// Whether one of `tags` has the title `tag`, letter case aside.
pub fn contains_title(tags: &Vec<KavitaTag>, tag: &str) -> (r: bool)
    ensures
        r == has_tag(titles(tags@), tag@),
{
    let mut i: usize = 0;
    while i < tags.len()
        invariant
            i <= tags.len(),
            forall|j: int| 0 <= j < i ==> !eq_ignore_ascii_case(#[trigger] titles(tags@)[j], tag@),
        decreases tags.len() - i,
    {
        if ascii_eq(tags[i].title.as_str(), tag) {
            assert(eq_ignore_ascii_case(titles(tags@)[i as int], tag@));
            return true;
        }
        i += 1;
    }
    false
}

/// The decision made last, with the time it was made at.
struct Noted {
    id: String,
    decision: bool,
    at: u64,
}

/// A decision made at `noted_at` still counts at `now`: less than the time
/// to live has passed since. Times are seconds on a clock that does not go
/// back.
pub open spec fn fresh(noted_at: u64, now: u64) -> bool {
    noted_at <= now && now - noted_at < DECISION_TTL_SECS
}

/// The tag checker with its decisions. They are kept in a cache that lets
/// them expire, and that may turn a new one down or drop an old one; the
/// decision made last is kept beside it for as long as it is fresh, so that
/// the pages that follow a lookup are answered without another one.
pub struct UpscaleTagChecker {
    upscale_tag: Option<String>,
    cache: moka::sync::Cache<String, bool>,
    latest: Option<Noted>,
}

impl UpscaleTagChecker {
    /// The decisions that the cache holds, by resource id.
    pub closed spec fn decisions(&self) -> Map<Seq<char>, bool> {
        cache_entries(self.cache)
    }

    /// The decision made last: the resource, the decision and the time.
    pub closed spec fn noted(&self) -> Option<(Seq<char>, bool, u64)> {
        match self.latest {
            Some(noted) => Some((noted.id@, noted.decision, noted.at)),
            None => None,
        }
    }

    /// The tag that marks a resource for upscaling, if one is configured.
    pub closed spec fn tag(&self) -> Option<Seq<char>> {
        match self.upscale_tag {
            Some(tag) => Some(tag@),
            None => None,
        }
    }

    /// What the checker can say about `id` at the time `now` without asking
    /// the backend: `true` for everything where no tag is configured; else
    /// the decision made last, where it is for `id` and still fresh; else
    /// the cached decision, if there is one.
    pub open spec fn known(&self, id: Seq<char>, now: u64) -> Option<bool> {
        if self.tag() is None {
            Some(true)
        } else if self.noted() is Some && self.noted()->Some_0.0 == id && fresh(
            self.noted()->Some_0.2,
            now,
        ) {
            Some(self.noted()->Some_0.1)
        } else if self.decisions().dom().contains(id) {
            Some(self.decisions()[id])
        } else {
            None
        }
    }

    /// The decision that the tags `tags` give: upscale where no tag is
    /// configured, else exactly where the configured tag is among them.
    pub open spec fn decision_for(&self, tags: Seq<Seq<char>>) -> bool {
        match self.tag() {
            None => true,
            Some(tag) => has_tag(tags, tag),
        }
    }

    /// A checker for the configured tag, with no decision made.
    pub fn new(upscale_tag: Option<String>) -> (r: Self)
        ensures
            r.tag() == (match upscale_tag {
                Some(tag) => Some(tag@),
                None => None,
            }),
            r.decisions() == no_entries(),
            r.noted() is None,
    {
        Self { upscale_tag, cache: cache_expiring(DECISION_TTL_SECS), latest: None }
    }

    /// What is known of the resource `id` at the time `now`.
    fn lookup(&mut self, id: &str, now: u64) -> (r: Option<bool>)
        ensures
            r == old(self).known(id@, now),
            final(self).tag() == old(self).tag(),
            final(self).noted() == old(self).noted(),
            final(self).decisions().submap_of(old(self).decisions()),
            old(self).tag() is None ==> final(self).decisions() == old(self).decisions(),
    {
        if self.upscale_tag.is_none() {
            return Some(true);
        }
        match &self.latest {
            Some(noted) => {
                if str_equal(noted.id.as_str(), id) && noted.at <= now && now - noted.at
                    < DECISION_TTL_SECS {
                    return Some(noted.decision);
                }
            },
            None => {},
        }
        cache_get(&mut self.cache, id)
    }

    /// Keeps the decision `decision` for the resource `id`, made at `now`.
    fn keep(&mut self, id: String, decision: bool, now: u64)
        ensures
            final(self).tag() == old(self).tag(),
            final(self).noted() == Some((id@, decision, now)),
            final(self).decisions().submap_of(old(self).decisions().insert(id@, decision)),
    {
        cache_insert(&mut self.cache, id.clone(), decision);
        self.latest = Some(Noted { id, decision, at: now });
    }

    /// The decision for a book at the time `now`, where it can be given at
    /// once; `None` where the backend has to be asked first.
    pub fn komga_contains_upscale_tag(&mut self, book_id: &str, now: u64) -> (r: Option<bool>)
        ensures
            r == old(self).known(book_id@, now),
            final(self).tag() == old(self).tag(),
            final(self).noted() == old(self).noted(),
            final(self).decisions().submap_of(old(self).decisions()),
            old(self).tag() is None ==> final(self).decisions() == old(self).decisions(),
    {
        self.lookup(book_id, now)
    }

    /// The decision for a chapter at the time `now`, where it can be given
    /// at once; `None` where the backend has to be asked first.
    pub fn kavita_contains_upscale_tag(&mut self, chapter_id: u32, now: u64) -> (r: Option<bool>)
        ensures
            r == old(self).known(decimal(chapter_id as nat), now),
            final(self).tag() == old(self).tag(),
            final(self).noted() == old(self).noted(),
            final(self).decisions().submap_of(old(self).decisions()),
            old(self).tag() is None ==> final(self).decisions() == old(self).decisions(),
    {
        let key = decimal_string(chapter_id as usize);
        self.lookup(key.as_str(), now)
    }

    /// Decides for a book from what the backend returned for it and for its
    /// series, at the time `now`, and keeps the decision: the book is
    /// upscaled exactly if the configured tag is among the book's or the
    /// series' tags. For as long as the decision is fresh and no other is
    /// made, it is what the checker answers for the book.
    pub fn check_komga_tags(
        &mut self,
        book_id: &str,
        book: &KomgaBook,
        series: &KomgaSeries,
        now: u64,
    ) -> (r: bool)
        ensures
            r == old(self).decision_for(
                strings_view(book.metadata.tags@) + strings_view(series.metadata.tags@),
            ),
            final(self).tag() == old(self).tag(),
            final(self).noted() == Some((book_id@, r, now)),
            final(self).decisions().submap_of(old(self).decisions().insert(book_id@, r)),
            forall|later: u64| fresh(now, later) ==> #[trigger] final(self).known(book_id@, later) == Some(r),
    {
        let contains = match &self.upscale_tag {
            None => true,
            Some(upscale_tag) => {
                let in_book = contains_tag(&book.metadata.tags, upscale_tag.as_str());
                let in_series = contains_tag(&series.metadata.tags, upscale_tag.as_str());
                proof {
                    lemma_has_tag_concat(
                        strings_view(book.metadata.tags@),
                        strings_view(series.metadata.tags@),
                        upscale_tag@,
                    );
                }
                in_book || in_series
            },
        };
        self.keep(String::from_str(book_id), contains, now);
        contains
    }

    /// Decides for a chapter from the metadata the backend returned for its
    /// series, at the time `now`, and keeps the decision: the chapter is
    /// upscaled exactly if the configured tag is among the series' tags. For
    /// as long as the decision is fresh and no other is made, it is what the
    /// checker answers for the chapter.
    pub fn check_kavita_tags(
        &mut self,
        chapter_id: u32,
        series_metadata: &KavitaSeriesMetadata,
        now: u64,
    ) -> (r: bool)
        ensures
            r == old(self).decision_for(titles(series_metadata.tags@)),
            final(self).tag() == old(self).tag(),
            final(self).noted() == Some((decimal(chapter_id as nat), r, now)),
            final(self).decisions().submap_of(
                old(self).decisions().insert(decimal(chapter_id as nat), r),
            ),
            forall|later: u64|
                fresh(now, later) ==> #[trigger] final(self).known(
                    decimal(chapter_id as nat),
                    later,
                ) == Some(r),
    {
        let contains = match &self.upscale_tag {
            None => true,
            Some(upscale_tag) => contains_title(&series_metadata.tags, upscale_tag.as_str()),
        };
        self.keep(decimal_string(chapter_id as usize), contains, now);
        contains
    }

    /// Drops every decision. With a tag configured, the checker then has to
    /// ask the backend again for every resource.
    pub fn invalidate_cache(&mut self)
        ensures
            final(self).tag() == old(self).tag(),
            final(self).decisions() == no_entries(),
            final(self).noted() is None,
            final(self).tag() is Some ==> forall|id: Seq<char>, now: u64|
                #[trigger] final(self).known(id, now) is None,
    {
        cache_invalidate_all(&mut self.cache);
        self.latest = None;
    }
}

/// A decision is answered without the backend for as long as it is fresh:
/// a checker with a tag, whose last decision was `decision` for `id` at
/// `noted_at`, answers `decision` for `id` at every time `now` at which
/// that decision is fresh, whatever its cache holds.
pub proof fn lemma_fresh_decision_is_answered(
    checker: UpscaleTagChecker,
    id: Seq<char>,
    decision: bool,
    noted_at: u64,
    now: u64,
)
    requires
        checker.noted() == Some((id, decision, noted_at)),
        fresh(noted_at, now),
    ensures
        checker.tag() is Some ==> checker.known(id, now) == Some(decision),
        checker.tag() is None ==> checker.known(id, now) == Some(true),
{
}

/// A tag is among two lists put together exactly if it is among one of them.
pub proof fn lemma_has_tag_concat(a: Seq<Seq<char>>, b: Seq<Seq<char>>, tag: Seq<char>)
    ensures
        has_tag(a + b, tag) == (has_tag(a, tag) || has_tag(b, tag)),
{
    if has_tag(a, tag) {
        let i = choose|i: int| 0 <= i < a.len() && eq_ignore_ascii_case(#[trigger] a[i], tag);
        assert((a + b)[i] == a[i]);
    }
    if has_tag(b, tag) {
        let i = choose|i: int| 0 <= i < b.len() && eq_ignore_ascii_case(#[trigger] b[i], tag);
        assert((a + b)[a.len() + i] == b[i]);
    }
    if has_tag(a + b, tag) {
        let i = choose|i: int| 0 <= i < (a + b).len() && eq_ignore_ascii_case(#[trigger] (a + b)[i], tag);
        if i < a.len() {
            assert(a[i] == (a + b)[i]);
        } else {
            assert(b[i - a.len()] == (a + b)[i]);
        }
    }
}

/// The answers agree: where two lookups for the same resource saw the
/// same tags and both cached their decision, whatever the cache then holds
/// for the resource is that decision, so a later call that is answered from
/// the cache gives what the lookups gave.
pub proof fn lemma_decisions_converge(
    tags: Seq<Seq<char>>,
    tag: Seq<char>,
    id: Seq<char>,
    before: Map<Seq<char>, bool>,
    after_first: Map<Seq<char>, bool>,
    after_second: Map<Seq<char>, bool>,
)
    requires
        !before.dom().contains(id),
        after_first.submap_of(before.insert(id, has_tag(tags, tag))),
        after_second.submap_of(after_first.insert(id, has_tag(tags, tag))),
    ensures
        after_second.dom().contains(id) ==> after_second[id] == has_tag(tags, tag),
{
    if after_second.dom().contains(id) {
        assert(after_first.insert(id, has_tag(tags, tag)).dom().contains(id));
    }
}

} // verus!
