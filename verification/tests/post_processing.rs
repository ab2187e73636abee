use populist_scrapers::post_processing::{
    general_stage_cte_sql, post_processing_sql, post_processing_summary, runoff_base_cte,
    runoff_cte_dry_run_sql, runoff_cte_production_sql, ProcessingResult, PRIMARY_ELECTION_ID,
    STATE,
};

#[test]
fn the_base_cte_is_bound_to_the_primary_and_state() {
    let base = runoff_base_cte();
    assert!(base.contains(&format!("'{}'::uuid", PRIMARY_ELECTION_ID)));
    assert!(base.contains(&format!("'{}'", STATE)));
}

#[test]
fn dry_runs_write_to_staging_only() {
    let general = general_stage_cte_sql(true);
    assert!(general.contains("INSERT INTO ingest_staging.tx_general_races"));
    assert!(general.contains("UPDATE race r SET winner_ids = r.winner_ids WHERE false"));
    assert!(!general.contains("INSERT INTO race_candidates"));
    let sql = post_processing_sql(true);
    assert_eq!(sql, runoff_cte_dry_run_sql());
    assert!(sql.starts_with("WITH"));
    assert!(sql.contains(&runoff_base_cte()));
    assert!(sql.contains(&general));
}

#[test]
fn production_runs_write_races_and_candidates() {
    let general = general_stage_cte_sql(false);
    assert!(general.contains("INSERT INTO race (id, slug, title"));
    assert!(general.contains("INSERT INTO race_candidates (race_id, candidate_id)"));
    let sql = post_processing_sql(false);
    assert_eq!(sql, runoff_cte_production_sql());
    assert!(sql.contains(&general));
    assert_ne!(sql, post_processing_sql(true));
}

#[test]
fn summary_lists_counts_and_destination() {
    let r = ProcessingResult { n_runoff_races: 3, n_runoff_candidates: 6, n_general_races: 40, n_general_candidates: -1 };
    let lines = post_processing_summary(&r, false);
    assert_eq!(
        lines,
        vec![
            "--- Summary ---",
            "  Runoff races inserted:        3",
            "  Runoff race_candidates:       6",
            "  General races inserted:      40",
            "  General race_candidates:     -1",
            "  Destination:                 production (race, race_candidates)",
        ]
    );
}

#[test]
fn an_empty_run_says_so() {
    let r = ProcessingResult { n_runoff_races: 0, n_runoff_candidates: 0, n_general_races: 0, n_general_candidates: 0 };
    let lines = post_processing_summary(&r, true);
    assert_eq!(lines.len(), 7);
    assert_eq!(lines[5], "  Destination:                 staging");
    assert_eq!(lines[6], "  (No races found for state TX and primary election.)");
}
