use populist_scrapers::tx_merge::{is_test_merge_row, merge_row, merge_rows, MergeAction, MergeStats};
use populist_scrapers::tx_results::StgTxResultRow;

fn row(office: &str, key: &str, votes: Option<i64>) -> StgTxResultRow {
    StgTxResultRow {
        office_name: Some(office.to_string()),
        office_key: None,
        candidate_name: Some("A".to_string()),
        candidate_key: None,
        precincts_reporting: Some(5),
        precincts_total: Some(10),
        votes_for_candidate: votes,
        total_votes: Some(300),
        total_voters: None,
        party: None,
        race_type: None,
        election_year: Some(2026),
        ref_key: key.to_string(),
        source_file: None,
    }
}

#[test]
fn test_merges_take_the_senate_race_only() {
    assert!(is_test_merge_row(&row("u. s. SENATOR", "k", None)));
    assert!(!is_test_merge_row(&row("U.S. Senator", "k", None)));
    let mut r = row("x", "k", None);
    r.office_name = None;
    assert!(!is_test_merge_row(&r));
}

#[test]
fn a_new_tally_counts_nothing() {
    let s = MergeStats::new(12);
    assert_eq!(s.staging_rows, 12);
    assert_eq!((s.matched, s.unmatched, s.race_candidates_updated, s.races_updated), (0, 0, 0, 0));
}

#[test]
fn matched_rows_update_and_unmatched_rows_are_recorded() {
    let mut s = MergeStats::new(2);
    let a = merge_row(&mut s, &row("Gov", "tx-1", Some(120)), true, false);
    match a {
        MergeAction::Update(u) => {
            assert_eq!(u.ref_key, "tx-1");
            assert_eq!(u.votes, Some(120));
            assert_eq!(u.total_votes, Some(300));
            assert_eq!(u.precincts_reporting, Some(5));
            assert_eq!(u.precincts_total, Some(10));
        }
        _ => panic!("expected an update"),
    }
    assert!(matches!(merge_row(&mut s, &row("Gov", "tx-2", None), false, false), MergeAction::RecordUnmatched));
    assert_eq!((s.matched, s.unmatched, s.race_candidates_updated, s.races_updated), (1, 1, 1, 1));
}

#[test]
fn dry_runs_count_but_update_nothing() {
    let rows = vec![row("Gov", "a", Some(1)), row("Gov", "b", Some(2)), row("Gov", "c", Some(3))];
    let (stats, actions) = merge_rows(&rows, &vec![true, false, true], true);
    assert_eq!(stats.staging_rows, 3);
    assert_eq!(stats.matched, 2);
    assert_eq!(stats.unmatched, 1);
    assert_eq!(stats.race_candidates_updated, 0);
    assert_eq!(stats.races_updated, 0);
    assert!(matches!(actions[0], MergeAction::Skip));
    assert!(matches!(actions[1], MergeAction::RecordUnmatched));
    let (stats, actions) = merge_rows(&rows, &vec![true, false, true], false);
    assert_eq!(stats.matched + stats.unmatched, stats.staging_rows);
    assert_eq!(stats.race_candidates_updated, 2);
    assert!(matches!(actions[2], MergeAction::Update(_)));
}

#[test]
fn votes_are_cut_to_32_bits() {
    let mut s = MergeStats::new(1);
    match merge_row(&mut s, &row("Gov", "k", Some(1i64 << 32 | 7)), true, false) {
        MergeAction::Update(u) => assert_eq!(u.votes, Some(7)),
        _ => panic!("expected an update"),
    }
}
