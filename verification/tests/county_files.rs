use populist_scrapers::county_files::{
    add_county_column, clarity_file_suffix, county_from_filename,
    load_county_clarity_results_urls, sanitize_for_filename, zip_filename_for_url_county_party,
    unzip_entry_step, CountyClarityResultsUrl, UnzipStep,
};

#[test]
fn names_are_sanitized_for_files() {
    assert_eq!(sanitize_for_filename("  Fort Bend  "), "Fort_Bend");
    assert_eq!(sanitize_for_filename("St. Mary's"), "St__Mary_s");
    assert_eq!(sanitize_for_filename("__x__"), "x");
    assert_eq!(sanitize_for_filename("é"), "");
}

#[test]
fn sanitizing_twice_changes_nothing() {
    for s in ["  Fort Bend  ", "a/b\\c", "__x__", "", "Harris-County_2"] {
        let once = sanitize_for_filename(s);
        assert_eq!(sanitize_for_filename(&once), once);
    }
}

#[test]
fn zip_names_get_the_county_and_party_before_the_extension() {
    assert_eq!(
        zip_filename_for_url_county_party("https://x.com/a/summary.zip", "dallas", Some("dem")),
        "summary_dallas_dem.zip"
    );
    assert_eq!(
        zip_filename_for_url_county_party("https://x.com/a/summary.zip", "Fort Bend", None),
        "summary_Fort_Bend.zip"
    );
    assert_eq!(
        zip_filename_for_url_county_party("https://x.com/a/summary", "Harris", Some("  ")),
        "summary_Harris"
    );
    assert_eq!(
        zip_filename_for_url_county_party("https://x.com/a/summary.zip", "   ", Some("dem")),
        "summary.zip"
    );
}

#[test]
fn csv_suffix_is_county_and_party() {
    let row = CountyClarityResultsUrl {
        url: "https://x.com/summary.zip".to_string(),
        county_name: "Fort Bend".to_string(),
        party: Some("rep".to_string()),
    };
    assert_eq!(clarity_file_suffix(&row), "Fort_Bend_rep");
    let row = CountyClarityResultsUrl { party: None, ..row };
    assert_eq!(clarity_file_suffix(&row), "Fort_Bend");
}

#[test]
fn url_list_skips_blank_and_commented_rows() {
    let text = "url,county_name,party\n\
                https://x.com/summary.zip, Dallas ,dem\n\
                # https://x.com/old.zip,Foo,\n\
                ,Bar,\n\
                https://y.com/s.zip,Travis,\n";
    let rows = load_county_clarity_results_urls(text).expect("rows");
    assert_eq!(rows.len(), 2);
    assert_eq!(rows[0].url, "https://x.com/summary.zip");
    assert_eq!(rows[0].county_name, "Dallas");
    assert_eq!(rows[0].party.as_deref(), Some("dem"));
    assert_eq!(rows[1].county_name, "Travis");
    assert_eq!(rows[1].party, None);
}

#[test]
fn url_list_reader_errors_are_reported() {
    assert!(load_county_clarity_results_urls("url,county_name\na,b,c\n").is_err());
}

#[test]
fn county_column_is_appended() {
    let out = add_county_column("a,b\n1,2\n3,\"x,y\"\n", "Dallas").expect("csv");
    assert_eq!(
        String::from_utf8(out).unwrap(),
        "a,b,county\n1,2,Dallas\n3,\"x,y\",Dallas\n"
    );
    assert!(add_county_column("a,b\n1\n", "Dallas").is_err());
}

#[test]
fn hart_file_names_give_the_county() {
    assert_eq!(county_from_filename("cumulative_HARRIS_rep"), "Harris");
    assert_eq!(county_from_filename("cumulative_fort bend_dem"), "Fort bend");
    assert_eq!(county_from_filename("cumulative_travis"), "Travis");
    assert_eq!(county_from_filename("cumulative"), "");
}

#[test]
fn file_names_of_another_form_give_no_county() {
    assert_eq!(county_from_filename("hays_dem"), "");
    assert_eq!(county_from_filename("cumulative__dem"), "");
    assert_eq!(county_from_filename("Cumulative_hays_dem"), "");
    assert_eq!(county_from_filename(""), "");
}

fn extract(name: &str, is_dir: bool, suffix: Option<&str>) -> (String, Option<String>) {
    match unzip_entry_step(name, is_dir, suffix) {
        UnzipStep::Extract { name, rename_to } => (name, rename_to),
        _ => panic!("expected an extraction"),
    }
}

#[test]
fn zip_entries_are_skipped_extracted_or_renamed() {
    assert!(matches!(unzip_entry_step("data/", true, Some("dallas")), UnzipStep::Skip));
    assert!(matches!(unzip_entry_step("__MACOSX/._summary.csv", false, None), UnzipStep::Skip));
    assert_eq!(
        extract("results/summary.csv", false, Some("dallas dem")),
        ("summary.csv".to_string(), Some("summary_dallas_dem.csv".to_string()))
    );
    assert_eq!(
        extract("summary.CSV", false, Some("hays")),
        ("summary.CSV".to_string(), Some("summary_hays.csv".to_string()))
    );
    assert_eq!(extract("summary.csv", false, None), ("summary.csv".to_string(), None));
    assert_eq!(extract("summary.csv", false, Some("  ")), ("summary.csv".to_string(), None));
    assert_eq!(extract("readme.txt", false, Some("hays")), ("readme.txt".to_string(), None));
    assert_eq!(extract(".csv", false, Some("hays")), (".csv".to_string(), None));
    assert_eq!(extract("a/./b.csv", false, None), ("b.csv".to_string(), None));
    assert_eq!(extract("a/..", false, None), ("a/..".to_string(), None));
    match unzip_entry_step("data\\", true, None) {
        UnzipStep::CreateDir { name } => assert_eq!(name, "data\\"),
        _ => panic!("expected a directory"),
    }
}

#[test]
fn sanitized_names_are_file_name_safe() {
    for raw in ["  __Fort Bend!__ ", "St. Mary's", "_", "Hays", "  "] {
        let s = sanitize_for_filename(raw);
        assert!(s.chars().all(|c| c.is_ascii_alphanumeric() || c == '-' || c == '_'));
        assert!(!s.starts_with('_') && !s.ends_with('_'));
    }
}
