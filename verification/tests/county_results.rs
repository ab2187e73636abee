use populist_scrapers::county_results::{
    build_ref_key_for_county_race, county_office_rules, find_matching_county_office,
    normalize_contest_name, remove_substring_ignore_ascii_case, ParsedContestName, RuleSet,
};

fn parsed(office: &str, district: Option<&str>, seat: Option<&str>) -> ParsedContestName {
    ParsedContestName {
        office_name: office.to_string(),
        district: district.map(|d| d.to_string()),
        seat: seat.map(|s| s.to_string()),
    }
}

#[test]
fn rule_tables_differ_only_where_the_processors_did() {
    let combined = county_office_rules(RuleSet::Combined);
    let hart = county_office_rules(RuleSet::Hart);
    assert_eq!(combined.len(), hart.len());
    assert_eq!(combined[0].populist_office_name, "Judge - County Criminal Court of Appeals");
    let chair = combined.iter().find(|r| r.populist_office_name == "Precinct Chair").unwrap();
    assert!(chair.match_pattern.is_some());
    let chair = hart.iter().find(|r| r.populist_office_name == "Precinct Chair").unwrap();
    assert!(chair.match_pattern.is_none());
}

#[test]
fn first_matching_rule_wins() {
    let r = find_matching_county_office(RuleSet::Hart, "Judge, County Criminal Court of Appeals No. 1")
        .unwrap();
    assert_eq!(r.populist_office_name, "Judge - County Criminal Court of Appeals");
    let r = find_matching_county_office(RuleSet::Hart, "COUNTY JUDGE").unwrap();
    assert_eq!(r.populist_office_name, "County Judge");
    let r = find_matching_county_office(RuleSet::Hart, "County Commissioner, Precinct 2").unwrap();
    assert_eq!(r.populist_office_name, "County Commissioner");
}

#[test]
fn excluded_words_veto_a_rule() {
    assert!(find_matching_county_office(RuleSet::Hart, "Railroad Commissioner").is_none());
    let r = find_matching_county_office(RuleSet::Hart, "Criminal District Judge, 292nd Judicial District");
    assert!(r.is_none());
}

#[test]
fn precinct_chair_pattern_only_in_combined_rules() {
    let r = find_matching_county_office(RuleSet::Combined, "Precinct 12 Chair").unwrap();
    assert_eq!(r.populist_office_name, "Precinct Chair");
    assert!(find_matching_county_office(RuleSet::Hart, "Precinct 12 Chair").is_none());
}

#[test]
fn substrings_are_removed_ignoring_case() {
    assert_eq!(
        remove_substring_ignore_ascii_case("Judge UNEXPIRED TERM, 3rd unexpired term", "unexpired term"),
        "Judge , 3rd "
    );
    assert_eq!(remove_substring_ignore_ascii_case("abc", ""), "abc");
}

#[test]
fn contest_names_lose_instructions_and_party_markers() {
    assert_eq!(normalize_contest_name("  REP - County Judge (Vote for 1)"), "County Judge");
    assert_eq!(normalize_contest_name("Sheriff - Democratic Party"), "Sheriff");
    assert_eq!(normalize_contest_name("County Clerk (R)"), "County Clerk");
    assert_eq!(
        normalize_contest_name("District Judge, Unexpired Term - "),
        "District Judge,"
    );
    assert_eq!(
        normalize_contest_name("Proposition 1 - Vote for none or one"),
        "Proposition 1"
    );
}

#[test]
fn county_judge_key_puts_the_county_first() {
    let key = build_ref_key_for_county_race(
        RuleSet::Hart,
        "County Judge",
        &parsed("County Judge", None, None),
        Some(" Harris "),
        Some("Lina Hidalgo"),
        Some("DEM"),
        2026,
    );
    assert_eq!(key, "tx-primaries-2026-harris-county-judge-lina-hidalgo");
}

#[test]
fn justice_of_the_peace_key_has_precinct_and_place() {
    let key = build_ref_key_for_county_race(
        RuleSet::Hart,
        "Justice of the Peace",
        &parsed("Justice of the Peace", Some("1"), Some(" 2 ")),
        Some("Travis"),
        Some("Jane Roe"),
        None,
        2026,
    );
    assert_eq!(
        key,
        "tx-primaries-2026-travis-justice-of-the-peace-precinct-1-place-2-jane-roe"
    );
}

#[test]
fn precinct_chair_key_drops_leading_zeros() {
    let key = build_ref_key_for_county_race(
        RuleSet::Combined,
        "Precinct Chair",
        &parsed("Precinct Chair", Some("007"), None),
        Some("Dallas"),
        Some("A B"),
        Some("REP"),
        2026,
    );
    assert_eq!(key, "tx-primaries-2026-dallas-precinct-chair-for-pchr-7-rep-a-b");
    let key = build_ref_key_for_county_race(
        RuleSet::Combined,
        "Precinct Chair",
        &parsed("Precinct Chair", Some("000"), None),
        Some("Dallas"),
        Some("A B"),
        None,
        2026,
    );
    assert_eq!(key, "tx-primaries-2026-dallas-precinct-chair-for-pchr-0-a-b");
}

#[test]
fn criminal_district_judge_key_depends_on_the_county() {
    let p = parsed("Criminal District Judge", Some("3"), None);
    let tarrant =
        build_ref_key_for_county_race(RuleSet::Hart, "Criminal District Judge", &p, Some("Tarrant"), Some("X Y"), None, 2026);
    assert_eq!(tarrant, "tx-primaries-2026-criminal-district-judge-3-tarrant-county-x-y");
    let dallas =
        build_ref_key_for_county_race(RuleSet::Hart, "Criminal District Judge", &p, Some("Dallas"), Some("X Y"), None, 2026);
    assert_eq!(dallas, "tx-primaries-2026-criminal-district-judge-dallas-county-number-3-x-y");
}

#[test]
fn empty_parts_are_skipped_in_keys() {
    let key = build_ref_key_for_county_race(
        RuleSet::Other,
        "County Treasurer",
        &parsed("County Treasurer", Some("   "), None),
        None,
        Some("Pat Doe"),
        None,
        2026,
    );
    assert_eq!(key, "tx-primaries-2026-county-treasurer-pat-doe");
}
