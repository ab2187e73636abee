use populist_scrapers::mn_ballot_measures::{
    ballot_measure_for_row, ballot_measure_slug, is_row_taken, parse_year_with,
    BallotMeasureEntry, MeasureScope, Scraper, YearError, ELECTION_TITLE,
};

fn entry(county_id: &str, fips: &str, district: &str, number: &str, title: &str) -> BallotMeasureEntry {
    BallotMeasureEntry {
        county_id: county_id.to_string(),
        fips_code: fips.to_string(),
        school_district_code: district.to_string(),
        ballot_question_number: number.to_string(),
        ballot_question_title: title.to_string(),
        ballot_question_body: "Shall the levy be renewed?".to_string(),
    }
}

#[test]
fn the_election_year_comes_from_the_title() {
    assert_eq!(Scraper::parse_election_year(ELECTION_TITLE).ok(), Some(2024));
    assert_eq!(Scraper::parse_election_year("The 1998 State General Election").ok(), Some(1998));
    assert!(matches!(
        Scraper::parse_election_year("2024 Primary"),
        Err(YearError::UnexpectedFormat)
    ));
    assert_eq!(Scraper {}.source_id(), "MN-SOS");
}

#[test]
fn year_errors_have_messages() {
    assert!(matches!(parse_year_with(r"(\d+) Election", "99999 Election"), Err(YearError::InvalidNumber)));
    assert!(matches!(parse_year_with(r"(x)?Election", "Election"), Err(YearError::MissingYear)));
    assert_eq!(YearError::UnexpectedFormat.message(), "Unexpected election title format");
    assert_eq!(YearError::MissingYear.message(), "Failure extracting election year from title");
    assert_eq!(YearError::InvalidNumber.message(), "invalid digit found in string");
}

#[test]
fn rows_without_data_are_not_taken() {
    assert!(is_row_taken(&entry("27", "no data", "no data", "1", "Levy")));
    assert!(!is_row_taken(&entry("27", "no data", "no data", "", "Levy")));
    assert!(!is_row_taken(&entry("27", "no data", "no data", "1", "no data")));
    assert!(!is_row_taken(&entry("27", "no data", "no data", "1", "")));
}

#[test]
fn measure_slugs_carry_year_number_and_county() {
    assert_eq!(ballot_measure_slug(2024, &entry("27", "", "", "CA-1", "T")), "mn-2024-ca-1-27");
    assert_eq!(ballot_measure_slug(2024, &entry("no data", "", "", "Q 2", "T")), "mn-2024-q-2");
}

#[test]
fn measure_scope_follows_the_codes() {
    let state = ballot_measure_for_row(2024, &entry("no data", "no data", "no data", "1", "Amendment"), None, None)
        .unwrap();
    assert!(matches!(state.election_scope, MeasureScope::State));
    assert_eq!(state.ballot_measure_code, "1 ");
    assert_eq!(state.slug, "mn-2024-1");
    let county = ballot_measure_for_row(
        2024,
        &entry("27", "no data", "no data", "2", "Levy"),
        Some("Hennepin".to_string()),
        Some("053".to_string()),
    )
    .unwrap();
    assert!(matches!(county.election_scope, MeasureScope::County));
    assert_eq!(county.ballot_measure_code, "2 Hennepin");
    assert_eq!(county.title, "Levy");
    assert_eq!(county.description, "Shall the levy be renewed?");
    let city = ballot_measure_for_row(
        2024,
        &entry("27", "43000", "no data", "3", "Charter"),
        Some("Hennepin".to_string()),
        Some("053".to_string()),
    )
    .unwrap();
    assert!(matches!(city.election_scope, MeasureScope::City));
    assert_eq!(city.municipality_fips.as_deref(), Some("43000"));
    let district = ballot_measure_for_row(
        2024,
        &entry("27", "no data", "0001", "4", "Bond"),
        Some("Hennepin".to_string()),
        Some("053".to_string()),
    )
    .unwrap();
    assert!(matches!(district.election_scope, MeasureScope::District));
    assert_eq!(district.school_district.as_deref(), Some("0001"));
    assert!(ballot_measure_for_row(2024, &entry("27", "", "", "", "x"), None, None).is_none());
}
