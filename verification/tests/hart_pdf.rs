use populist_scrapers::hart_pdf::{
    detect_county_from_text, parse_hart_pdf, parse_hart_text, pdf_style_csv_records,
};

const SAMPLE: &str = "MATAGORDA COUNTY, TEXAS
PRIMARY ELECTION
Precincts Reporting
23 of 23 = 100.00%
Choice Party Ballot by Mail Early Voting Election Day Voting Total
Sheriff
Jane Doe REP 10 50.00% 20 40.00% 30 60.00% 60 50.00%
Jo ann Smith REP 10 50.00% 30 60.00% 20 40.00% 1,060 50.00%
Cast Votes: 20 100.00% 50 100.00% 50 100.00% 120 100.00%
Undervotes: 1 2 3 6
Proposition 1
FOR 5 50.00% 5 50.00% 5 50.00% 15 50.00%
AGAINST 5 50.00% 5 50.00% 5 50.00% 15 50.00%
";

#[test]
fn county_is_detected_from_the_heading() {
    assert_eq!(detect_county_from_text(SAMPLE), Some("Matagorda".to_string()));
    assert_eq!(
        detect_county_from_text("Cumulative Results\nSAN PATRICIO County, Texas\n"),
        Some("San patricio".to_string())
    );
    assert_eq!(detect_county_from_text("no county here"), None);
}

#[test]
fn hart_text_parses_races_candidates_and_summaries() {
    let result = parse_hart_text(SAMPLE, "");
    assert_eq!(result.county, "Matagorda");
    assert_eq!(
        result.col_order,
        vec!["Ballot by Mail", "Early Voting", "Election Day Voting", "Total"]
    );
    assert_eq!(result.row_count(), 6);
    let rows = result.rows();
    let jane = &rows[0];
    assert_eq!(jane.race, "Sheriff");
    assert_eq!(jane.choice, "Jane Doe");
    assert_eq!(jane.party, "REP");
    assert_eq!(jane.total_votes, "60");
    assert_eq!(jane.total_pct, "50.00%");
    assert_eq!(jane.column_pairs[1], ("20".to_string(), "40.00%".to_string()));
    assert_eq!(jane.precincts_counted, "23");
    assert_eq!(jane.precincts_total, "23");
    assert_eq!(jane.precincts_pct, "100.00%");
    let jo = &rows[1];
    assert_eq!(jo.choice, "Joann Smith");
    assert_eq!(jo.total_votes, "1060");
    assert_eq!(rows[2].choice, "Cast Votes");
    assert_eq!(rows[3].choice, "Undervotes");
    assert_eq!(rows[3].column_pairs[2], ("3".to_string(), String::new()));
    assert_eq!(rows[4].race, "Proposition 1");
    assert_eq!(rows[4].choice, "FOR");
    assert_eq!(rows[4].party, "");
    assert_eq!(rows[5].choice, "AGAINST");
}

#[test]
fn a_passed_county_wins_over_the_detected_one() {
    let result = parse_hart_text(SAMPLE, "Wharton");
    assert_eq!(result.county, "Wharton");
}

#[test]
fn party_comes_from_the_race_name_when_missing() {
    let text = "Choice Party Total\nCounty Chair - Democratic Party\nPat Lee 40 100.00%\n";
    let result = parse_hart_text(text, "Hays");
    assert_eq!(result.col_order, vec!["Total"]);
    let rows = result.rows();
    assert_eq!(rows.len(), 1);
    assert_eq!(rows[0].choice, "Pat Lee");
    assert_eq!(rows[0].party, "DEM");
    assert_eq!(rows[0].total_votes, "40");
}

#[test]
fn pdf_style_csv_has_summary_columns_per_method() {
    let result = parse_hart_text(SAMPLE, "");
    let records = pdf_style_csv_records(&result);
    let header = &records[0];
    assert_eq!(header.len(), 3 + 4 * 5 + 4);
    assert_eq!(&header[..8], &[
        "Race",
        "Choice",
        "Party",
        "Ballot by Mail",
        "Ballot by Mail Pct",
        "Ballot by Mail Cast Votes",
        "Ballot by Mail Undervotes",
        "Ballot by Mail Overvotes",
    ]);
    assert_eq!(header[header.len() - 1], "County");
    // the two summary rows are folded into the columns of the other rows
    assert_eq!(records.len(), 1 + 4);
    let jane = &records[1];
    assert_eq!(&jane[..8], &["Sheriff", "Jane Doe", "REP", "10", "50.00%", "20", "1", ", "]);
    assert_eq!(&jane[jane.len() - 4..], &["23", "23", "100.00%", "Matagorda"]);
    let for_row = &records[3];
    assert_eq!(&for_row[..8], &["Proposition 1", "FOR", "", "5", "50.00%", ", ", ", ", ", "]);
}

#[test]
fn unreadable_pdf_bytes_are_an_extraction_error() {
    let extracted = pdf_extract::extract_text_from_mem(b"this is not a pdf").map_err(|e| e.to_string());
    let msg = extracted.clone().err().expect("extraction error");
    let err = parse_hart_pdf(extracted, "Travis").err().expect("error");
    assert_eq!(err, format!("PDF text extraction failed: {}", msg));
}

#[test]
fn a_gap_after_mc_is_closed() {
    let text = "Choice Party Total\nSheriff\nJohn Mc Donald REP 40 100.00%\n";
    let result = parse_hart_text(text, "Hays");
    let rows = result.rows();
    assert_eq!(rows.len(), 1);
    assert_eq!(rows[0].choice, "John McDonald");
    assert_eq!(rows[0].party, "REP");
}

#[test]
fn extracted_text_is_parsed_as_hart_text() {
    let res = parse_hart_pdf(Ok(SAMPLE.to_string()), "").unwrap();
    assert_eq!(res.county, "Matagorda");
    assert_eq!(res.row_count(), 6);
    assert_eq!(
        parse_hart_pdf(Err("bad xref".to_string()), "Hays").err(),
        Some("PDF text extraction failed: bad xref".to_string())
    );
}
