use kurp::handlers::komga::{
    carries_tags, check_tags_on_book_metadata_update, check_tags_on_metadata_update,
    check_tags_on_series_metadata_update,
};
use kurp::call_history::CallHistory;
use kurp::models::kavita::{KavitaSeriesMetadata, KavitaTag};
use kurp::models::komga::{KomgaBook, KomgaBookMetadata, KomgaSeries, KomgaSeriesMetadata};
use kurp::tags_provider::{contains_tag, contains_title, UpscaleTagChecker, DECISION_TTL_SECS};

fn book(tags: &[&str]) -> KomgaBook {
    KomgaBook {
        id: "b1".to_string(),
        series_id: "s1".to_string(),
        metadata: KomgaBookMetadata { tags: tags.iter().map(|t| t.to_string()).collect() },
    }
}

fn series(tags: &[&str]) -> KomgaSeries {
    KomgaSeries {
        id: "s1".to_string(),
        metadata: KomgaSeriesMetadata { tags: tags.iter().map(|t| t.to_string()).collect() },
    }
}

fn metadata(titles: &[&str]) -> KavitaSeriesMetadata {
    KavitaSeriesMetadata {
        tags: titles.iter().enumerate().map(|(i, t)| KavitaTag { id: i as u32, title: t.to_string() }).collect(),
    }
}

#[test]
fn decisions_live_three_minutes() {
    assert_eq!(DECISION_TTL_SECS, 180);
}

#[test]
fn tag_membership_ignores_ascii_case() {
    let tags = vec!["Action".to_string(), "UPSCALE".to_string()];
    assert!(contains_tag(&tags, "upscale"));
    assert!(contains_tag(&tags, "Upscale"));
    assert!(contains_tag(&tags, "action"));
    assert!(!contains_tag(&tags, "upscal"));
    assert!(!contains_tag(&tags, "upscaled"));
    assert!(!contains_tag(&Vec::new(), "upscale"));
}

#[test]
fn title_membership_ignores_ascii_case() {
    let m = metadata(&["Seinen", "upScale"]);
    assert!(contains_title(&m.tags, "UPSCALE"));
    assert!(!contains_title(&m.tags, "shounen"));
}

#[test]
fn without_a_tag_everything_is_upscaled() {
    let mut checker = UpscaleTagChecker::new(None);
    assert_eq!(checker.komga_contains_upscale_tag("any", 0), Some(true));
    assert_eq!(checker.kavita_contains_upscale_tag(17, 0), Some(true));
}

#[test]
fn with_a_tag_an_unknown_resource_needs_a_lookup() {
    let mut checker = UpscaleTagChecker::new(Some("upscale".to_string()));
    assert_eq!(checker.komga_contains_upscale_tag("b1", 0), None);
    assert_eq!(checker.kavita_contains_upscale_tag(17, 0), None);
}

#[test]
fn book_is_upscaled_when_book_or_series_carries_the_tag() {
    let mut checker = UpscaleTagChecker::new(Some("upscale".to_string()));
    assert!(checker.check_komga_tags("b1", &book(&["Upscale"]), &series(&[]), 0));
    assert!(checker.check_komga_tags("b2", &book(&["x"]), &series(&["y", "UPSCALE"]), 0));
    assert!(!checker.check_komga_tags("b3", &book(&["x"]), &series(&["y"]), 0));
    assert!(!checker.check_komga_tags("b4", &book(&[]), &series(&[]), 0));
}

#[test]
fn decision_is_cached_after_the_lookup() {
    let mut checker = UpscaleTagChecker::new(Some("upscale".to_string()));
    assert_eq!(checker.komga_contains_upscale_tag("b1", 0), None);
    let first = checker.check_komga_tags("b1", &book(&["upscale"]), &series(&[]), 0);
    let second = checker.check_komga_tags("b1", &book(&["upscale"]), &series(&[]), 0);
    assert_eq!(first, second);
    assert_eq!(checker.komga_contains_upscale_tag("b1", 0), Some(first));
    assert_eq!(checker.komga_contains_upscale_tag("b1", 0), Some(true));
    checker.check_komga_tags("b9", &book(&[]), &series(&[]), 0);
    assert_eq!(checker.komga_contains_upscale_tag("b9", 0), Some(false));
}

#[test]
fn chapter_decision_is_cached_by_its_number() {
    let mut checker = UpscaleTagChecker::new(Some("upscale".to_string()));
    assert!(checker.check_kavita_tags(4021, &metadata(&["Upscale"]), 0));
    assert!(!checker.check_kavita_tags(0, &metadata(&["other"]), 0));
    assert_eq!(checker.kavita_contains_upscale_tag(4021, 0), Some(true));
    assert_eq!(checker.kavita_contains_upscale_tag(0, 0), Some(false));
    assert_eq!(checker.kavita_contains_upscale_tag(402, 0), None);
    assert_eq!(checker.komga_contains_upscale_tag("4021", 0), Some(true));
}

#[test]
fn invalidation_empties_the_decision_cache() {
    let mut checker = UpscaleTagChecker::new(Some("upscale".to_string()));
    checker.check_komga_tags("b1", &book(&["upscale"]), &series(&[]), 0);
    checker.check_kavita_tags(5, &metadata(&["upscale"]), 0);
    checker.invalidate_cache();
    assert_eq!(checker.komga_contains_upscale_tag("b1", 0), None);
    assert_eq!(checker.kavita_contains_upscale_tag(5, 0), None);
}

#[test]
fn metadata_update_with_tags_clears_both_caches() {
    let mut checker = UpscaleTagChecker::new(Some("upscale".to_string()));
    let mut history = CallHistory::new(1000);
    checker.check_komga_tags("b1", &book(&["upscale"]), &series(&[]), 0);
    history.record("/api/v1/books/b1/pages/1".to_string());
    check_tags_on_series_metadata_update(&Some(vec!["x".to_string()]), &mut checker, &mut history);
    assert_eq!(checker.komga_contains_upscale_tag("b1", 0), None);
    assert!(!history.contains("/api/v1/books/b1/pages/1"));

    checker.check_komga_tags("b1", &book(&["upscale"]), &series(&[]), 0);
    history.record("/api/v1/books/b1/pages/1".to_string());
    check_tags_on_book_metadata_update(&Some(vec!["x".to_string()]), &mut checker, &mut history);
    assert_eq!(checker.komga_contains_upscale_tag("b1", 0), None);
    assert!(!history.contains("/api/v1/books/b1/pages/1"));
}

#[test]
fn metadata_update_without_tags_keeps_both_caches() {
    let mut checker = UpscaleTagChecker::new(Some("upscale".to_string()));
    let mut history = CallHistory::new(1000);
    checker.check_komga_tags("b1", &book(&["upscale"]), &series(&[]), 0);
    history.record("/api/v1/books/b1/pages/1".to_string());
    check_tags_on_metadata_update(&None, &mut checker, &mut history);
    check_tags_on_series_metadata_update(&None, &mut checker, &mut history);
    check_tags_on_book_metadata_update(&None, &mut checker, &mut history);
    assert_eq!(checker.komga_contains_upscale_tag("b1", 0), Some(true));
    assert!(history.contains("/api/v1/books/b1/pages/1"));
}

#[test]
fn without_a_tag_lookups_decide_for_upscaling() {
    let mut checker = UpscaleTagChecker::new(None);
    assert!(checker.check_komga_tags("b1", &book(&[]), &series(&[]), 0));
    assert!(checker.check_kavita_tags(3, &metadata(&[]), 0));
}

#[test]
fn update_touches_tags_when_the_field_is_not_null() {
    assert!(carries_tags(&Some(vec!["a".to_string()])));
    assert!(carries_tags(&Some(Vec::new())));
    assert!(!carries_tags(&None));
}

#[test]
fn update_with_an_empty_tag_list_clears_the_caches() {
    let mut checker = UpscaleTagChecker::new(Some("upscale".to_string()));
    let mut history = CallHistory::new(1000);
    history.record("/p".to_string());
    check_tags_on_book_metadata_update(&Some(Vec::new()), &mut checker, &mut history);
    assert!(!history.contains("/p"));
}

#[test]
fn last_decision_is_answered_while_it_is_fresh() {
    let mut checker = UpscaleTagChecker::new(Some("upscale".to_string()));
    assert!(checker.check_komga_tags("b1", &book(&["upscale"]), &series(&[]), 1000));
    for now in [1000u64, 1001, 1100, 1179] {
        assert_eq!(checker.komga_contains_upscale_tag("b1", now), Some(true), "{}", now);
    }
    assert_eq!(checker.komga_contains_upscale_tag("b2", 1001), None);
}

#[test]
fn last_decision_is_not_answered_from_before_it_was_made() {
    let mut checker = UpscaleTagChecker::new(Some("upscale".to_string()));
    assert!(!checker.check_kavita_tags(9, &metadata(&[]), 1000));
    assert_eq!(checker.kavita_contains_upscale_tag(9, 1000), Some(false));
    assert_eq!(checker.kavita_contains_upscale_tag(9, 999 + DECISION_TTL_SECS), Some(false));
}

#[test]
fn invalidation_drops_the_last_decision_too() {
    let mut checker = UpscaleTagChecker::new(Some("upscale".to_string()));
    checker.check_komga_tags("b1", &book(&["upscale"]), &series(&[]), 5);
    checker.invalidate_cache();
    assert_eq!(checker.komga_contains_upscale_tag("b1", 5), None);
    assert_eq!(checker.komga_contains_upscale_tag("b1", 6), None);
}

#[test]
fn newer_decision_replaces_the_older_one() {
    let mut checker = UpscaleTagChecker::new(Some("upscale".to_string()));
    assert!(checker.check_komga_tags("b1", &book(&["upscale"]), &series(&[]), 10));
    assert!(!checker.check_komga_tags("b1", &book(&[]), &series(&[]), 20));
    assert_eq!(checker.komga_contains_upscale_tag("b1", 21), Some(false));
}
