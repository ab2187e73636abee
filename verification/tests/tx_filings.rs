use populist_scrapers::tx_filings::{
    check_slug, is_incumbent, is_same_person_from_emails_and_addresses,
    municipal_office_identity_for_ref_key, municipal_ref_key, normalize_address_string,
    next_slug_step, numbered_slug, politician_ref_key_input, slug_for_attempt, process_tx_address,
    process_tx_race_candidate_ref_key, same_person_updates, should_ingest_municipal_filing_status,
    should_process_primary_filing, simple_name_split, strip_unexpired_term, trim_email,
    trimmed_nonempty, SlugCheck, SlugStep, TxCandidateFiling, TxMunicipalFiling, TxStagingAddress,
};

fn s(v: &str) -> Option<String> {
    Some(v.to_string())
}

fn filing() -> TxCandidateFiling {
    TxCandidateFiling {
        office_title: s("State Representative District 12"),
        office_type: None,
        candidate_name: s("Jane Q. Public"),
        county: None,
        email: s("  Jane@Example.com "),
        party: s("REP"),
        address_street: s("  100   Main St "),
        address_city: s("Austin"),
        address_state: None,
        occupation: None,
        incumbent: s(" yes "),
        status: s("In Primary"),
    }
}

fn muni() -> TxMunicipalFiling {
    TxMunicipalFiling {
        county: s("Travis"),
        municipality: s("Austin"),
        office_name: s("City Council"),
        district_type: None,
        district: s("3"),
        school_district: None,
        seat_label: None,
        seat: s("Place 2"),
        candidate_name: s("Jane Doe"),
        incumbent: None,
        is_special_election: Some(false),
        status: s("Active"),
        email: None,
        phone: None,
        campaign_website: None,
        place_fips: s("4805000"),
        state: s("TX"),
    }
}

fn addr(line_1: &str, city: &str) -> TxStagingAddress {
    TxStagingAddress {
        line_1: line_1.to_string(),
        city: city.to_string(),
        state: "TX".to_string(),
        country: "USA".to_string(),
    }
}

#[test]
fn primary_filing_status_is_trimmed_and_case_insensitive() {
    assert!(should_process_primary_filing(Some("  in PRIMARY ")));
    assert!(!should_process_primary_filing(Some("withdrawn")));
    assert!(!should_process_primary_filing(None));
}

#[test]
fn municipal_statuses_active_and_unopposed_are_taken() {
    assert!(should_ingest_municipal_filing_status(Some("Active")));
    assert!(should_ingest_municipal_filing_status(Some(" unopposed")));
    assert!(!should_ingest_municipal_filing_status(Some("Withdrawn")));
    assert!(!should_ingest_municipal_filing_status(None));
}

#[test]
fn unexpired_term_suffix_is_removed() {
    assert_eq!(
        strip_unexpired_term("Justice, 3rd Court of Appeals - Unexpired Term  "),
        "Justice, 3rd Court of Appeals"
    );
    assert_eq!(strip_unexpired_term("Railroad Commissioner "), "Railroad Commissioner");
    assert_eq!(strip_unexpired_term("short"), "short");
}

#[test]
fn address_parts_are_trimmed_and_collapsed() {
    assert_eq!(normalize_address_string("  100   Main\tSt  "), "100 Main St");
    assert_eq!(normalize_address_string("   "), "");
}

#[test]
fn filing_address_defaults_state_and_country() {
    let a = process_tx_address(&filing()).expect("address");
    assert_eq!(a.line_1, "100 Main St");
    assert_eq!(a.city, "Austin");
    assert_eq!(a.state, "TX");
    assert_eq!(a.country, "USA");
}

#[test]
fn filing_without_street_or_city_has_no_address() {
    let mut f = filing();
    f.address_street = s("   ");
    f.address_city = None;
    assert!(process_tx_address(&f).is_none());
}

#[test]
fn matching_emails_make_the_same_person() {
    let (same, eq) = is_same_person_from_emails_and_addresses(
        Some("jane@example.com"),
        None,
        Some("JANE@EXAMPLE.COM"),
        None,
    );
    assert!(same);
    assert!(eq);
}

#[test]
fn different_emails_fall_back_to_addresses() {
    let a = addr("100 Main St", "Austin");
    let b = addr(" 100 MAIN ST ", "austin");
    let (same, eq) =
        is_same_person_from_emails_and_addresses(Some("a@x.com"), Some(&a), Some("b@x.com"), Some(&b));
    assert!(same);
    assert!(!eq);
    let c = addr("200 Main St", "Austin");
    let (same, _) =
        is_same_person_from_emails_and_addresses(Some("a@x.com"), Some(&a), Some("b@x.com"), Some(&c));
    assert!(!same);
}

#[test]
fn same_person_check_is_symmetric_on_an_example() {
    let a = addr("1 Elm", "Waco");
    let forward = is_same_person_from_emails_and_addresses(None, Some(&a), Some("x@y.z"), None);
    let backward = is_same_person_from_emails_and_addresses(Some("x@y.z"), None, None, Some(&a));
    assert_eq!(forward, backward);
    assert_eq!(forward, (false, false));
}

#[test]
fn emails_are_trimmed_and_blank_ones_dropped() {
    assert_eq!(trim_email(Some("  a@b.c ")), Some("a@b.c".to_string()));
    assert_eq!(trim_email(Some("   ")), None);
    assert_eq!(trim_email(None), None);
    assert_eq!(trimmed_nonempty(&s(" x ")), Some("x".to_string()));
    assert_eq!(trimmed_nonempty(&s("")), None);
}

#[test]
fn numbered_slugs_append_the_counter() {
    assert_eq!(numbered_slug("jane-doe", 2), "jane-doe-2");
    assert_eq!(numbered_slug("jane-doe", 10), "jane-doe-10");
}

#[test]
fn same_person_updates_save_address_only_on_email_match() {
    let u = same_person_updates(true, false, true, Some(" new@x.com "));
    assert!(u.save_address);
    assert_eq!(u.new_email, Some("new@x.com".to_string()));
    let u = same_person_updates(false, false, true, Some(""));
    assert!(!u.save_address);
    assert_eq!(u.new_email, None);
    let u = same_person_updates(true, true, true, None);
    assert!(!u.save_address);
}

#[test]
fn slug_check_decides_free_same_or_next() {
    let a = addr("1 Elm", "Waco");
    assert!(matches!(check_slug(None, Some("x@y.z"), None), SlugCheck::Free));
    assert!(matches!(
        check_slug(Some((Some("X@Y.Z"), None)), Some("x@y.z"), None),
        SlugCheck::SamePerson { emails_equal: true }
    ));
    assert!(matches!(
        check_slug(Some((None, Some(&a))), None, Some(&a)),
        SlugCheck::SamePerson { emails_equal: false }
    ));
    assert!(matches!(
        check_slug(Some((Some("a@x.com"), None)), Some("b@x.com"), None),
        SlugCheck::TryNext
    ));
}

#[test]
fn race_candidate_ref_key_is_slugged() {
    assert_eq!(
        process_tx_race_candidate_ref_key(&filing()),
        "tx-primaries-2026-state-representative-district-12-jane-q-public"
    );
}

#[test]
fn politician_key_input_joins_and_trims() {
    let f = filing();
    assert_eq!(
        politician_ref_key_input(&f, "Jane Public"),
        "2026 State Representative District 12 Jane Public In Primary"
    );
    let mut g = filing();
    g.status = None;
    assert_eq!(
        politician_ref_key_input(&g, "Jane Public"),
        "2026 State Representative District 12 Jane Public"
    );
}

#[test]
fn incumbent_column_is_yes() {
    assert!(is_incumbent(Some(" Yes")));
    assert!(!is_incumbent(Some("NO")));
    assert!(!is_incumbent(None));
}

#[test]
fn municipal_identity_and_key() {
    let m = muni();
    assert_eq!(municipal_office_identity_for_ref_key(&m), "Austin|City Council|3|Place 2||4805000");
    assert_eq!(
        municipal_ref_key("tx-muni", &m, "Jane Doe"),
        "tx-muni-2026-austin-city-council-3-place-2-4805000-jane-doe"
    );
}

#[test]
fn names_split_into_first_middle_last() {
    assert_eq!(
        simple_name_split("  Mary  Ann Lou   Smith "),
        Some(("Mary".to_string(), Some("Ann Lou".to_string()), "Smith".to_string()))
    );
    assert_eq!(
        simple_name_split("Cher Bono"),
        Some(("Cher".to_string(), None, "Bono".to_string()))
    );
    assert_eq!(
        simple_name_split("Madonna"),
        Some(("Madonna".to_string(), None, "Madonna".to_string()))
    );
    assert_eq!(simple_name_split("   "), None);
}

#[test]
fn taken_slugs_are_retried_with_a_number_until_one_is_free() {
    assert_eq!(slug_for_attempt("jane-doe", 0), "jane-doe");
    assert_eq!(slug_for_attempt("jane-doe", 3), "jane-doe-3");
    match next_slug_step("jane-doe", 0, SlugCheck::TryNext) {
        SlugStep::Check { attempt, slug } => {
            assert_eq!(attempt, 1);
            assert_eq!(slug, "jane-doe-1");
        }
        _ => panic!("expected another attempt"),
    }
    match next_slug_step("jane-doe", 1, SlugCheck::TryNext) {
        SlugStep::Check { attempt, slug } => {
            assert_eq!(attempt, 2);
            assert_eq!(slug, "jane-doe-2");
        }
        _ => panic!("expected another attempt"),
    }
    match next_slug_step("jane-doe", 2, SlugCheck::Free) {
        SlugStep::Insert { slug } => assert_eq!(slug, "jane-doe-2"),
        _ => panic!("expected an insert"),
    }
    match next_slug_step("jane-doe", 1, SlugCheck::SamePerson { emails_equal: true }) {
        SlugStep::UpdateHolder { slug, emails_equal } => {
            assert_eq!(slug, "jane-doe-1");
            assert!(emails_equal);
        }
        _ => panic!("expected an update"),
    }
}
