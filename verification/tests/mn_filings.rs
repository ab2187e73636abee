use populist_scrapers::mn_filings::{
    contact_values_equal, is_governor_lt_governor_ticket, is_suppressed_residence_street,
    mn_politician_ref_key, process_mn_campaign_address, process_mn_residence_address,
    process_race_candidate, race_candidate_ref_key, running_mate_contact, split_ticket_names,
    CandidateFiling, TicketNameError,
};

fn s(v: &str) -> Option<String> {
    Some(v.to_string())
}

fn filing() -> CandidateFiling {
    CandidateFiling {
        office_title: s("Governor & Lt Governor"),
        office_id: s("0331"),
        office_code: None,
        candidate_name: s("Ann Smith and Bob Jones"),
        party_abbreviation: s("DFL"),
        campaign_phone: s("612-555-0100"),
        campaign_email: s("team@smith.org"),
        campaign_website: s("smith.org"),
        running_mate_website: s("smith.org"),
        running_mate_email: s(" TEAM@SMITH.ORG "),
        running_mate_phone: s("612-555-0199"),
        county_id: None,
        county_name: None,
        residence_street_address: s(" 12  Lake St "),
        residence_city: s("Duluth"),
        residence_state: None,
        residence_zip: s("55802"),
        campaign_address: None,
        campaign_city: s("St. Paul"),
        campaign_state: s("MN"),
        campaign_zip: None,
    }
}

#[test]
fn private_residence_streets_are_suppressed() {
    assert!(is_suppressed_residence_street(" not   required "));
    assert!(is_suppressed_residence_street("Private"));
    assert!(!is_suppressed_residence_street("12 Lake St"));
}

#[test]
fn residence_address_is_normalized_with_defaults() {
    let a = process_mn_residence_address(&filing()).expect("address");
    assert_eq!(a.line_1, "12 Lake St");
    assert_eq!(a.city, "Duluth");
    assert_eq!(a.state, "MN");
    assert_eq!(a.postal_code, "55802");
    assert_eq!(a.country, "USA");
}

#[test]
fn suppressed_residence_has_no_address() {
    let mut f = filing();
    f.residence_street_address = s("PRIVATE");
    assert!(process_mn_residence_address(&f).is_none());
}

#[test]
fn campaign_address_with_city_only() {
    let a = process_mn_campaign_address(&filing()).expect("address");
    assert_eq!(a.line_1, "");
    assert_eq!(a.city, "St. Paul");
    assert_eq!(a.postal_code, "");
    let mut f = filing();
    f.campaign_city = None;
    assert!(process_mn_campaign_address(&f).is_none());
}

#[test]
fn governor_tickets_are_recognized_after_trimming() {
    assert!(is_governor_lt_governor_ticket(&filing()));
    let mut f = filing();
    f.office_title = s("Governor");
    assert!(!is_governor_lt_governor_ticket(&f));
    f.office_title = None;
    assert!(!is_governor_lt_governor_ticket(&f));
}

#[test]
fn contact_values_compare_trimmed_and_case_blind() {
    assert!(contact_values_equal(Some(" A@B.C"), Some("a@b.c ")));
    assert!(!contact_values_equal(Some(" "), Some(" ")));
    assert!(!contact_values_equal(None, Some("x")));
}

#[test]
fn running_mate_contact_drops_repeats_of_the_campaign() {
    let f = filing();
    assert_eq!(running_mate_contact(&f.running_mate_email, &f.campaign_email), None);
    assert_eq!(
        running_mate_contact(&f.running_mate_phone, &f.campaign_phone),
        s("612-555-0199")
    );
    assert_eq!(running_mate_contact(&None, &f.campaign_phone), None);
}

#[test]
fn ticket_names_split_on_first_and() {
    let (g, l) = split_ticket_names(&filing()).ok().expect("names");
    assert_eq!(g, "Ann Smith");
    assert_eq!(l, "Bob Jones");
    let mut f = filing();
    f.candidate_name = s("Ann Smith and Bob Jones and Co");
    let (g, l) = split_ticket_names(&f).ok().expect("names");
    assert_eq!(g, "Ann Smith");
    assert_eq!(l, "Bob Jones and Co");
}

#[test]
fn ticket_name_errors() {
    let mut f = filing();
    f.candidate_name = None;
    assert!(matches!(split_ticket_names(&f), Err(TicketNameError::MissingName)));
    f.candidate_name = s("  and Bob Jones");
    assert!(matches!(split_ticket_names(&f), Err(TicketNameError::MissingGovernor)));
    f.candidate_name = s("Ann Smith");
    assert!(matches!(split_ticket_names(&f), Err(TicketNameError::MissingLtGovernor)));
    f.candidate_name = s("Ann Smith and   ");
    let e = split_ticket_names(&f).err().expect("error");
    assert_eq!(
        e.message(),
        "Governor & Lt Governor ticket missing lt governor name after ' and '"
    );
}

#[test]
fn race_candidate_keys_are_slugs() {
    assert_eq!(
        race_candidate_ref_key("minnesota-primaries-2026", "U.S. Senator", "Ahmad R. Hassan"),
        "mn-sos-minnesota-primaries-2026-u-s-senator-ahmad-r-hassan"
    );
    let mut f = filing();
    f.office_title = s("Governor");
    f.candidate_name = s("Ann Smith");
    assert_eq!(
        process_race_candidate(&f, "minnesota-primaries-2026"),
        "mn-sos-minnesota-primaries-2026-governor-ann-smith"
    );
}

#[test]
fn politician_keys_use_the_election_year() {
    assert_eq!(
        mn_politician_ref_key("State Senator District 7", "Jen McEwen"),
        "mn-sos-2026-state-senator-district-7-jen-mcewen"
    );
}
