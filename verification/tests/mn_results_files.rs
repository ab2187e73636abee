use populist_scrapers::mn_results::{
    candidate_name_without_parentheticals, convert_results_file, convert_text_to_csv,
    get_create_table_query, normalized_result_identities, result_ref_key_candidates,
    results_csv_rows,
};

const RECORD: &str = "MN;27;Precinct 1;0101;U.S. Senator;;1;Amy K;;I;DFL;1;2;100;50.00;200";

#[test]
fn result_text_becomes_a_csv_with_the_header() {
    let text = format!("{}\nshort;row\n{}\n", RECORD, RECORD.replace("Amy K", "Royce W"));
    let csv = convert_text_to_csv("U.S. Senator Statewide", &text).expect("csv");
    let csv = String::from_utf8(csv).unwrap();
    let lines: Vec<&str> = csv.lines().collect();
    assert_eq!(lines.len(), 3);
    assert!(lines[0].starts_with("State,County ID,Precinct name,Office ID,Office name,District,"));
    assert!(lines[0].ends_with(",Total number of votes for Office in area"));
    assert_eq!(lines[1], "MN,27,Precinct 1,0101,U.S. Senator,,1,Amy K,,I,DFL,1,2,100,50.00,200");
    assert!(lines[2].contains("Royce W"));
}

#[test]
fn csv_rows_keep_only_sixteen_field_records() {
    let records = vec![
        Some(RECORD.split(';').map(|s| s.to_string()).collect::<Vec<_>>()),
        None,
        Some(vec!["a".to_string(); 15]),
    ];
    let rows = results_csv_rows("County Races", &records);
    assert_eq!(rows.len(), 2);
    assert_eq!(rows[0].len(), 16);
    assert_eq!(rows[1][7], "Amy K");
    let stats = results_csv_rows("Precinct Reporting Statistics", &vec![]);
    assert_eq!(stats, vec![vec![
        "State",
        "County ID",
        "Precinct ID",
        "Precinct Name",
        "Has Reported Statistics",
        "Number of Voters Registered",
        "Number of Voters that Registered on Election Day",
        "Number of Signatures on the Polling Place Roster",
        "Number of Regular Military and Overseas Absentee Ballots",
        "Number of Federal Only Absentee Ballots",
        "Number of President Only Absentee Ballots",
        "Total Number Voted",
    ]]);
}

#[test]
fn precinct_statistics_with_result_records_are_refused() {
    assert!(convert_results_file("Precinct Reporting Statistics", RECORD).is_none());
    let ok = convert_results_file("Precinct Reporting Statistics", "a;b;c\n").expect("checked");
    let csv = String::from_utf8(ok.expect("csv")).unwrap();
    assert_eq!(csv.lines().count(), 1);
    assert!(convert_results_file("County Races", RECORD).is_some());
}

#[test]
fn create_table_statement_lists_text_columns() {
    let sql = get_create_table_query("Precinct Reporting Statistics", "p6t_state_mn.results_x");
    assert!(sql.starts_with("CREATE TABLE p6t_state_mn.results_x (\n            state text, county_id text, precinct_id text,"));
    assert!(sql.ends_with("total_number_voted text\n        );"));
    let sql = get_create_table_query("County Races", "t");
    assert!(sql.contains("candidate_name text"));
    assert!(sql.contains("percentage_of_votes_for_candidate_out_of_total_votes_for_office text"));
}

#[test]
fn parentheticals_are_dropped_from_names() {
    assert_eq!(
        candidate_name_without_parentheticals("Ahmad R. (Raafat) Hassan"),
        Some("Ahmad R. Hassan".to_string())
    );
    assert_eq!(candidate_name_without_parentheticals("(Only)"), None);
    assert_eq!(candidate_name_without_parentheticals("Plain Name"), None);
    assert_eq!(
        candidate_name_without_parentheticals("A (b (c) d) E"),
        Some("A E".to_string())
    );
}

#[test]
fn generated_keys_are_distinct_and_start_with_the_name_as_given() {
    let keys = result_ref_key_candidates("e", "Governor", "Bill (Billy) E. Gates J.R.");
    assert_eq!(keys[0], "mn-sos-e-governor-bill-billy-e-gates-j-r");
    for i in 0..keys.len() {
        for j in (i + 1)..keys.len() {
            assert_ne!(keys[i], keys[j]);
        }
    }
    assert!(keys.contains(&"mn-sos-e-governor-bill-e-gates-jr".to_string()));
}

#[test]
fn ticket_identities_need_both_names() {
    assert!(normalized_result_identities(" Governor & Lt Governor ", "Amy Klobuchar").is_empty());
    assert_eq!(
        normalized_result_identities(" State Senator ", " Jen McEwen "),
        vec![("State Senator".to_string(), "Jen McEwen".to_string())]
    );
    assert!(normalized_result_identities("Mayor", " write-in ").is_empty());
}
