use populist_scrapers::embed_cleanup::{fetched_page_title, should_update_title, CheckResult, CleanupTally, OriginAction};

fn s(v: &str) -> Option<String> {
    Some(v.to_string())
}

#[test]
fn titles_update_only_when_the_page_has_a_different_one() {
    assert!(should_update_title(&s("New"), &s("Old")));
    assert!(should_update_title(&s("New"), &None));
    assert!(!should_update_title(&s("Same"), &s("Same")));
    assert!(!should_update_title(&None, &s("Old")));
}

#[test]
fn checks_are_counted_and_decided() {
    let mut t = CleanupTally::new();
    let a = t.record_check("https://a.org", &s("Old"), &Ok(CheckResult::Valid(s("New"))), false);
    assert!(matches!(a, OriginAction::UpdateTitle(Some(ref x)) if x == "New"));
    let a = t.record_check("https://b.org", &s("Same"), &Ok(CheckResult::Valid(s("Same"))), false);
    assert!(matches!(a, OriginAction::Keep));
    let a = t.record_check("https://c.org", &None, &Ok(CheckResult::NotFound), false);
    assert!(matches!(a, OriginAction::Delete));
    let a = t.record_check("https://d.org", &None, &Ok(CheckResult::EmbedNotPresent), false);
    assert!(matches!(a, OriginAction::Delete));
    let a = t.record_check("https://e.org", &None, &Err("timeout".to_string()), false);
    assert!(matches!(a, OriginAction::Keep));
    t.record_delete_failure();
    assert_eq!(t.valid_count, 2);
    assert_eq!(t.title_updated_count, 1);
    assert_eq!(t.not_found_count, 1);
    assert_eq!(t.invalid_count, 1);
    assert_eq!(t.error_count, 2);
    assert_eq!(t.not_found_urls, vec!["https://c.org"]);
    assert_eq!(t.deleted_urls, vec!["https://d.org"]);
    assert_eq!(t.total_to_delete(), Some(2));
}

#[test]
fn dry_runs_count_without_acting() {
    let mut t = CleanupTally::new();
    let a = t.record_check("https://a.org", &None, &Ok(CheckResult::Valid(s("T"))), true);
    assert!(matches!(a, OriginAction::Keep));
    let a = t.record_check("https://c.org", &None, &Ok(CheckResult::NotFound), true);
    assert!(matches!(a, OriginAction::Keep));
    assert_eq!(t.title_updated_count, 1);
    assert_eq!(t.not_found_count, 1);
    assert_eq!(t.total_to_delete(), Some(1));
}

#[test]
fn seeded_titles_come_from_the_title_element() {
    assert_eq!(fetched_page_title("<html><TITLE>  Jane Doe for Texas </TITLE></html>"), "Jane Doe for Texas");
    assert_eq!(fetched_page_title("<title>A</title><title>B</title>"), "A");
    assert_eq!(fetched_page_title("<p>no title</p>"), "");
    assert_eq!(fetched_page_title("<title>split\nlines</title>"), "");
}
