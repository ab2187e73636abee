use populist_scrapers::county_results::{CountyOfficeRule, ParsedContestName, RuleSet};
use populist_scrapers::tx_results::{
    attr_parse_u64, clarity_staging_row, county_row_contest, hart_columns, hart_record_contest,
    hart_staging_row, normalize_candidate_name, other_csv_staging_rows, other_staging_row,
    parse_hart_csv_text, parse_party_from_election_name,
    parse_race_type_from_election_name, parse_tx_sos_elements, parse_year_from_election_date,
    ClarityCsvRow, OtherCsvRow, SosCandidate, SosElectionResult, SosRace,
};

fn s(v: &str) -> Option<String> {
    Some(v.to_string())
}

fn strings(cells: &[&str]) -> Vec<String> {
    cells.iter().map(|c| c.to_string()).collect()
}

fn parsed(office: &str, district: Option<&str>) -> ParsedContestName {
    ParsedContestName {
        office_name: office.to_string(),
        district: district.map(|d| d.to_string()),
        seat: None,
    }
}

#[test]
fn election_names_give_party_and_race_type() {
    assert_eq!(parse_party_from_election_name("2026 REPUBLICAN Primary"), s("republican"));
    assert_eq!(parse_party_from_election_name("2026 Democratic Primary"), s("democratic"));
    assert_eq!(parse_party_from_election_name("2026 General"), None);
    assert_eq!(parse_race_type_from_election_name("2026 Democratic PRIMARY"), s("primary"));
    assert_eq!(parse_race_type_from_election_name("2026 General"), None);
}

#[test]
fn election_dates_give_the_year() {
    assert_eq!(parse_year_from_election_date(Some(" 2026-03-03")), Some(2026));
    assert_eq!(parse_year_from_election_date(Some("26")), None);
    assert_eq!(parse_year_from_election_date(Some("March 3")), None);
    assert_eq!(parse_year_from_election_date(None), None);
}

#[test]
fn candidate_names_lose_the_incumbent_mark() {
    assert_eq!(normalize_candidate_name("  Greg Abbott (I) "), "Greg Abbott");
    assert_eq!(normalize_candidate_name("Jane Doe"), "Jane Doe");
}

#[test]
fn count_attributes_are_trimmed_numbers() {
    assert_eq!(attr_parse_u64(&s(" 42 ")), Some(42));
    assert_eq!(attr_parse_u64(&s("4,2")), None);
    assert_eq!(attr_parse_u64(&None), None);
}

fn candidate(name: &str, early: Option<&str>, day: Option<&str>) -> SosCandidate {
    SosCandidate {
        name: s(name),
        key: s("C1"),
        early_ballots_cast: early.map(|v| v.to_string()),
        ballots_cast: day.map(|v| v.to_string()),
        total_voters: s("1000"),
    }
}

#[test]
fn sos_rows_sum_early_and_day_votes_and_race_totals() {
    let elections = vec![SosElectionResult {
        election_name: s("2026 Republican Primary Election"),
        election_date: s("2026-03-03"),
        races: vec![SosRace {
            name: s(" Governor "),
            key: s("R1"),
            precincts_reported: s("10"),
            precincts_participating: s("12"),
            candidates: vec![
                candidate("Greg Abbott (I)", Some("100"), Some("50")),
                candidate("Don Huffines", None, Some("25")),
            ],
        }],
    }];
    let rows = parse_tx_sos_elements(&elections, "results.xml");
    assert_eq!(rows.len(), 2);
    let r = &rows[0];
    assert_eq!(r.office_name, s("Governor"));
    assert_eq!(r.office_key, s("R1"));
    assert_eq!(r.candidate_name, s("Greg Abbott"));
    assert_eq!(r.candidate_key, s("C1"));
    assert_eq!(r.precincts_reporting, Some(10));
    assert_eq!(r.precincts_total, Some(12));
    assert_eq!(r.votes_for_candidate, Some(150));
    assert_eq!(r.total_votes, Some(175));
    assert_eq!(r.total_voters, Some(1000));
    assert_eq!(r.party, s("republican"));
    assert_eq!(r.race_type, s("primary"));
    assert_eq!(r.election_year, Some(2026));
    assert_eq!(r.ref_key, "tx-primaries-2026-governor-greg-abbott");
    assert_eq!(r.source_file, s("results.xml"));
    assert_eq!(rows[1].votes_for_candidate, Some(25));
    assert_eq!(rows[1].total_votes, Some(175));
}

#[test]
fn county_contests_are_normalized_and_matched() {
    let (name, rule) = county_row_contest(RuleSet::Combined, Some(" REP - County Judge ")).unwrap();
    assert_eq!(name, "County Judge");
    assert_eq!(rule.populist_office_name, "County Judge");
    assert!(county_row_contest(RuleSet::Combined, Some("   ")).is_none());
    assert!(county_row_contest(RuleSet::Combined, None).is_none());
    assert!(county_row_contest(RuleSet::Combined, Some("President")).is_none());
}

#[test]
fn clarity_rows_take_the_percent_total() {
    let raw = ClarityCsvRow {
        contest_name: s("County Judge"),
        choice_name: s(" Lina Hidalgo "),
        party_name: s("DEM"),
        total_votes: Some(120),
        ballots_cast: Some(500),
        percent_of_votes: s("60.00%"),
        num_precinct_total: Some(10),
        num_precinct_rptg: Some(9),
        county: s("Harris"),
    };
    let row = clarity_staging_row(
        RuleSet::Combined,
        &raw,
        "County Judge",
        &parsed("County Judge", None),
        Some(200),
        "harris.csv",
        None,
    );
    assert_eq!(row.office_name, s("County Judge"));
    assert_eq!(row.candidate_name, s("Lina Hidalgo"));
    assert_eq!(row.votes_for_candidate, Some(120));
    assert_eq!(row.total_votes, Some(200));
    assert_eq!(row.precincts_reporting, Some(9));
    assert_eq!(row.precincts_total, Some(10));
    assert_eq!(row.party, s("DEM"));
    assert_eq!(row.election_year, Some(2026));
    assert_eq!(row.county, s("Harris"));
    assert_eq!(row.ref_key, "tx-primaries-2026-harris-county-judge-lina-hidalgo");
    assert_eq!(row.source_file, s("harris.csv"));
}

#[test]
fn other_rows_prefer_the_total_column() {
    let raw = OtherCsvRow {
        contest_name: s("County Treasurer"),
        choice_name: s("Pat Doe"),
        party_name: s("  "),
        votes_for_candidate: Some(30),
        total_votes: Some(90),
        ballots_cast: None,
        percent_of_votes: None,
        num_precinct_total: None,
        num_precinct_rptg: None,
        county: s("Travis"),
    };
    let row = other_staging_row(
        RuleSet::Other,
        &raw,
        "County Treasurer",
        &parsed("County Treasurer", None),
        Some(1),
        "travis.csv",
        Some(2024),
    );
    assert_eq!(row.total_votes, Some(90));
    assert_eq!(row.party, None);
    assert_eq!(row.election_year, Some(2024));
    assert_eq!(row.ref_key, "tx-primaries-2024-travis-county-treasurer-pat-doe");
    let raw = OtherCsvRow { total_votes: None, ..raw };
    let row = other_staging_row(
        RuleSet::Other,
        &raw,
        "County Treasurer",
        &parsed("County Treasurer", None),
        Some(75),
        "travis.csv",
        Some(2024),
    );
    assert_eq!(row.total_votes, Some(75));
}

#[test]
fn hart_columns_are_found_by_name() {
    let headers = strings(&["County", "Race", "Choice", "Party", "Total", "Total Cast Votes"]);
    let cols = hart_columns(&headers).unwrap();
    assert_eq!(cols.race, 1);
    assert_eq!(cols.choice, 2);
    assert_eq!(cols.total, Some(4));
    assert_eq!(cols.total_cast_votes, Some(5));
    assert_eq!(cols.precincts_counted, None);
    assert_eq!(cols.county, Some(0));
    assert_eq!(cols.party, Some(3));
}

#[test]
fn hart_columns_report_missing_race_and_choice() {
    assert_eq!(
        hart_columns(&strings(&["Choice"])).err(),
        Some("Hart CSV missing 'Race' column".to_string())
    );
    assert_eq!(
        hart_columns(&strings(&["Race", "Total"])).err(),
        Some("Hart CSV missing 'Choice' column".to_string())
    );
}

#[test]
fn hart_records_skip_summaries_and_unknown_offices() {
    let headers = strings(&["County", "Race", "Choice", "Party", "Total", "Total Cast Votes"]);
    let cols = hart_columns(&headers).unwrap();
    let rec = strings(&["Travis", "Sheriff", "Cast Votes", "", "100", "100"]);
    assert!(hart_record_contest(RuleSet::Hart, &rec, &cols).is_none());
    let rec = strings(&["Travis", "President", "A", "", "1", "2"]);
    assert!(hart_record_contest(RuleSet::Hart, &rec, &cols).is_none());
    let rec = strings(&["Travis", "Sheriff (R)", "Sally Hernandez", "REP", "1,234", "2,000"]);
    let (name, rule) = hart_record_contest(RuleSet::Hart, &rec, &cols).unwrap();
    assert_eq!(name, "Sheriff");
    assert_eq!(rule.populist_office_name, "Sheriff");
    let row = hart_staging_row(
        RuleSet::Hart,
        &rec,
        &cols,
        "Sheriff",
        &parsed("Sheriff", None),
        "travis.csv",
        None,
    );
    assert_eq!(row.candidate_name, s("Sally Hernandez"));
    assert_eq!(row.votes_for_candidate, Some(1234));
    assert_eq!(row.total_votes, Some(2000));
    assert_eq!(row.party, s("REP"));
    assert_eq!(row.county, s("Travis"));
    assert_eq!(row.ref_key, "tx-primaries-2026-travis-sheriff-sally-hernandez");
}

fn no_district(rule: &CountyOfficeRule, _name: &str) -> ParsedContestName {
    parsed(&rule.populist_office_name, None)
}

#[test]
fn hart_csv_text_gives_a_row_per_candidate_in_order() {
    let text = "County,Race,Choice,Party,Total,Total Cast Votes,Precincts Counted,Precincts Total\n\
Travis,Sheriff (R),Sally Hernandez,REP,\"1,234\",\"2,000\",10,12\n\
Travis,Sheriff (R),Cast Votes,,2000,2000,10,12\n\
Travis,President,A,,1,2,10,12\n\
Travis,,Nobody,,1,2,10,12\n\
Travis,Sheriff (R),Joe Smith,REP,766,\"2,000\",10,12\n";
    let rows = parse_hart_csv_text(RuleSet::Hart, text, "travis.csv", Some(2024), no_district).unwrap();
    assert_eq!(rows.len(), 2);
    assert_eq!(rows[0].office_name, s("Sheriff"));
    assert_eq!(rows[0].candidate_name, s("Sally Hernandez"));
    assert_eq!(rows[0].votes_for_candidate, Some(1234));
    assert_eq!(rows[0].total_votes, Some(2000));
    assert_eq!(rows[0].precincts_reporting, Some(10));
    assert_eq!(rows[0].precincts_total, Some(12));
    assert_eq!(rows[0].election_year, Some(2024));
    assert_eq!(rows[0].source_file, s("travis.csv"));
    assert_eq!(rows[0].ref_key, "tx-primaries-2024-travis-sheriff-sally-hernandez");
    assert_eq!(rows[1].candidate_name, s("Joe Smith"));
    assert_eq!(rows[1].votes_for_candidate, Some(766));
}

#[test]
fn hart_csv_text_reports_missing_columns_and_bad_csv() {
    assert_eq!(
        parse_hart_csv_text(RuleSet::Hart, "Choice,Total\nA,1\n", "x.csv", None, no_district).err(),
        Some("Hart CSV missing 'Race' column".to_string())
    );
    assert_eq!(
        parse_hart_csv_text(RuleSet::Hart, "Race,Total\nSheriff,1\n", "x.csv", None, no_district).err(),
        Some("Hart CSV missing 'Choice' column".to_string())
    );
    assert!(parse_hart_csv_text(RuleSet::Hart, "Race,Choice\nSheriff,A,extra\n", "x.csv", None, no_district).is_err());
}

fn other_row(contest: Option<&str>, choice: &str, votes: Option<i64>, total: Option<i64>) -> OtherCsvRow {
    OtherCsvRow {
        contest_name: contest.map(|c| c.to_string()),
        choice_name: s(choice),
        party_name: s("DEM"),
        votes_for_candidate: votes,
        total_votes: total,
        ballots_cast: None,
        percent_of_votes: None,
        num_precinct_total: Some(5),
        num_precinct_rptg: Some(4),
        county: s("Hays"),
    }
}

#[test]
fn other_csv_rows_keep_matched_contests_in_order() {
    let raws = vec![
        other_row(Some("Sheriff"), "Ann Lee", Some(30), Some(100)),
        other_row(Some("  "), "Nobody", Some(1), Some(2)),
        other_row(Some("President"), "X", Some(1), Some(2)),
        other_row(None, "Nobody", Some(1), Some(2)),
        other_row(Some("Sheriff"), "Bo Diaz", Some(70), None),
    ];
    let totals = vec![None, None, None, None, Some(100)];
    let rows = other_csv_staging_rows(RuleSet::Other, &raws, &totals, "hays.csv", None, no_district);
    assert_eq!(rows.len(), 2);
    assert_eq!(rows[0].candidate_name, s("Ann Lee"));
    assert_eq!(rows[0].total_votes, Some(100));
    assert_eq!(rows[0].precincts_reporting, Some(4));
    assert_eq!(rows[1].candidate_name, s("Bo Diaz"));
    assert_eq!(rows[1].votes_for_candidate, Some(70));
    assert_eq!(rows[1].total_votes, Some(100));
    assert_eq!(rows[1].office_name, s("Sheriff"));
    assert_eq!(rows[1].election_year, Some(2026));
}
