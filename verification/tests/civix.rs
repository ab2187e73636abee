use populist_scrapers::civix::{
    normalize_choice, normalize_for_match, normalize_race, normalize_tab_text,
    parse_table_rows_to_result_rows, parse_votes, party_for_staging, results_csv_records,
    tab_labels_exec,
};

fn row(cells: &[&str]) -> Vec<String> {
    cells.iter().map(|c| c.to_string()).collect()
}

#[test]
fn tabs_are_scraped_in_order() {
    assert_eq!(
        tab_labels_exec(),
        vec!["Federal Offices", "Statewide Offices", "District Offices", "Statewide Propositions"]
    );
}

#[test]
fn vote_counts_drop_separators_and_default_to_zero() {
    assert_eq!(parse_votes(" 1,234,567 "), 1_234_567);
    assert_eq!(parse_votes("0"), 0);
    assert_eq!(parse_votes("n/a"), 0);
    assert_eq!(parse_votes(""), 0);
}

#[test]
fn choices_lose_the_incumbent_mark() {
    assert_eq!(normalize_choice("  Ted   Cruz (I) "), "Ted Cruz");
    assert_eq!(normalize_choice("Jane Doe"), "Jane Doe");
}

#[test]
fn races_lose_page_decorations() {
    assert_eq!(
        normalize_race("U.S. Senator STAR_RATE  Click for Contest Details "),
        "U.S. Senator"
    );
}

#[test]
fn texts_for_matching_fold_newlines() {
    assert_eq!(normalize_for_match("  2026 Republican\n Primary  Election "), "2026 Republican Primary Election");
    assert_eq!(normalize_tab_text(" Federal\nOffices "), "federal offices");
}

#[test]
fn parties_are_staged_as_codes() {
    assert_eq!(party_for_staging(" R "), "REP");
    assert_eq!(party_for_staging("D"), "DEM");
    assert_eq!(party_for_staging(" LIB "), "LIB");
}

#[test]
fn race_total_rows_give_the_total() {
    let rows = vec![
        row(&["U.S. Senator star_rate", "Ted Cruz (I)", "REP", "1,000", "2,500", " 55.5% "]),
        row(&["U.S. Senator", "John Doe", "REP", "10", "20"]),
        row(&["U.S. Senator", "x", "Race Total", "3,000", "100%"]),
    ];
    let results = parse_table_rows_to_result_rows(&rows);
    assert_eq!(results.len(), 2);
    let first = &results[0];
    assert_eq!(first.ref_key, "tx-primaries-2026-u-s-senator-ted-cruz");
    assert_eq!(first.race, "U.S. Senator");
    assert_eq!(first.choice, "Ted Cruz");
    assert_eq!(first.party, "REP");
    assert_eq!(first.early_votes, 1000);
    assert_eq!(first.votes_for_candidate, 2500);
    assert_eq!(first.total_votes, 3000);
    assert_eq!(first.vote_pct, "55.5%");
    assert_eq!(results[1].vote_pct, "");
    assert_eq!(results[1].total_votes, 3000);
}

#[test]
fn races_without_a_total_sum_their_candidates() {
    let rows = vec![
        row(&["Governor", "A", "DEM", "1", "40"]),
        row(&["Governor", "B", "DEM", "1", "60"]),
        row(&["Railroad Commissioner", "C", "DEM", "1", "7"]),
        row(&["Governor", "  ", "DEM", "1", "7"]),
        row(&["Governor", "short"]),
    ];
    let results = parse_table_rows_to_result_rows(&rows);
    assert_eq!(results.len(), 3);
    assert_eq!(results[0].total_votes, 100);
    assert_eq!(results[1].total_votes, 100);
    assert_eq!(results[2].total_votes, 7);
}

#[test]
fn a_zero_race_total_falls_back_to_the_sum() {
    let rows = vec![
        row(&["Governor", "A", "DEM", "1", "40"]),
        row(&["Governor", "x", "Race Total", "0", ""]),
    ];
    let results = parse_table_rows_to_result_rows(&rows);
    assert_eq!(results.len(), 1);
    assert_eq!(results[0].total_votes, 40);
}

#[test]
fn csv_records_have_a_header_and_one_row_per_result() {
    let rows = vec![row(&["Governor", "A", "DEM", "1", "40", "40%"])];
    let results = parse_table_rows_to_result_rows(&rows);
    let records = results_csv_records(&results);
    assert_eq!(
        records[0],
        vec!["ref_key", "Race", "Choice", "Party", "early_votes", "votes_for_candidate", "total_votes", "vote_pct"]
    );
    assert_eq!(
        records[1],
        vec!["tx-primaries-2026-governor-a", "Governor", "A", "DEM", "1", "40", "40", "40%"]
    );
    assert_eq!(records.len(), 2);
}
