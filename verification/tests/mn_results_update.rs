use populist_scrapers::mn_results_update::{
    ref_key_values_sql, results_table_name, source_tables_sql, update_results_sql,
    update_summary_outcome, RESULTS_ELECTION_ID,
};

#[test]
fn table_names_come_from_the_url_date_and_file_name() {
    assert_eq!(
        results_table_name("U.S. Senator Statewide", "https://electionresultsfiles.sos.mn.gov/20260811/ussenate.txt"),
        "p6t_state_mn.results_20260811_us_senator_statewide"
    );
    assert_eq!(
        results_table_name("Governor, Lt Governor", "https://x.org/2026/ab/file.txt"),
        "p6t_state_mn.results_unknown_governor_lt_governor"
    );
    assert_eq!(
        results_table_name("County Races", "https://x.org/1234567/123456789/20260811/c.txt"),
        "p6t_state_mn.results_20260811_county_races"
    );
}

#[test]
fn source_rows_union_the_staging_tables() {
    assert_eq!(
        source_tables_sql(&vec!["a.t1".to_string(), "a.t2".to_string()]),
        "SELECT * FROM a.t1 UNION ALL SELECT * FROM a.t2"
    );
    assert_eq!(source_tables_sql(&vec![]), "");
}

#[test]
fn value_rows_number_the_bind_placeholders() {
    assert_eq!(
        ref_key_values_sql(2),
        "($1::text, $2::text, $3::text, $4::integer), ($5::text, $6::text, $7::text, $8::integer)"
    );
    assert_eq!(ref_key_values_sql(0), "");
}

#[test]
fn update_statement_holds_its_parts() {
    let sql = update_results_sql("($1::text, $2::text, $3::text, $4::integer)", "SELECT * FROM a.t1");
    assert!(sql.contains("VALUES ($1::text, $2::text, $3::text, $4::integer)\n        ),"));
    assert!(sql.contains("source AS (\n            SELECT * FROM a.t1\n        ),"));
    assert!(sql.contains(&format!("AND race.election_id = '{}'::uuid", RESULTS_ELECTION_ID)));
    assert!(sql.trim_end().ends_with("FROM results;"));
}

#[test]
fn run_outcome_from_the_counts() {
    assert_eq!(
        update_summary_outcome(10, 10, None),
        Ok("Public schema successfully updated with results: 10/10 candidate rows matched".to_string())
    );
    assert_eq!(
        update_summary_outcome(10, 8, Some("Mayor | A; Mayor | B")),
        Err("Updated matched Minnesota results, but 2 of 10 candidate rows did not match: Mayor | A; Mayor | B".to_string())
    );
    assert_eq!(
        update_summary_outcome(3, 1, None),
        Err("Updated matched Minnesota results, but 2 of 3 candidate rows did not match: unknown".to_string())
    );
}
