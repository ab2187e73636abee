use populist_scrapers::mn_results::{
    decode_results_text, normalized_result_identities, result_ref_key_candidates,
};

const ELECTION_SLUG: &str = "minnesota-primaries-2026";

#[test]
fn decodes_windows_1252_candidate_names() {
    let encoded = b"Mar\xeda Isa P\xe9rez-Vega;Am\xe1da M\xe1rquez Simula;Catarina G\xf3mez;Wal\xe9 Elegbede";

    assert_eq!(
        decode_results_text(encoded),
        "María Isa Pérez-Vega;Amáda Márquez Simula;Catarina Gómez;Walé Elegbede"
    );
}

#[test]
fn result_keys_cover_current_sos_and_filing_name_differences() {
    let cases = [
        (
            "County Commissioner District 5",
            "María Isa Pérez-Vega",
            "mn-sos-minnesota-primaries-2026-county-commissioner-district-5-maria-isa-perez-vega",
        ),
        (
            "State Representative District 39B",
            "Amáda Márquez Simula",
            "mn-sos-minnesota-primaries-2026-state-representative-district-39b-amada-marquez-simula",
        ),
        (
            "Council Member (Inver Grove Heights) (Elect 2)",
            "Mary T'Kach",
            "mn-sos-minnesota-primaries-2026-council-member-inver-grove-heights-elect-2-mary-t-kach",
        ),
        (
            "State Representative District 29B",
            "Marion (O'Neill) Rarick",
            "mn-sos-minnesota-primaries-2026-state-representative-district-29b-marion-o-neill-rarick",
        ),
        (
            "Council Member (Burnsville) (Elect 2)",
            "Catarina \"Cati\" Gómez",
            "mn-sos-minnesota-primaries-2026-council-member-burnsville-elect-2-catarina-cati-gomez",
        ),
        (
            "County Auditor/Treasurer",
            "Amy Rosing",
            "mn-sos-minnesota-primaries-2026-county-auditor-treasurer-amy-rosing",
        ),
        (
            "U.S. Senator",
            "Ahmad R. (Raafat) Hassan",
            "mn-sos-minnesota-primaries-2026-u-s-senator-ahmad-r-hassan",
        ),
        (
            "County Auditor/Treasurer",
            "Kim Frederick",
            "mn-sos-minnesota-primaries-2026-county-auditor-treasurer-kim-frederick",
        ),
        (
            "County Auditor/Treasurer",
            "Zac Baer",
            "mn-sos-minnesota-primaries-2026-county-auditor-treasurer-zac-baer",
        ),
        (
            "Mayor (Rochester)",
            "Walé Elegbede",
            "mn-sos-minnesota-primaries-2026-mayor-rochester-wale-elegbede",
        ),
        (
            "County Auditor/Treasurer",
            "Nathan Martin",
            "mn-sos-minnesota-primaries-2026-county-auditor-treasurer-nathan-martin",
        ),
        (
            "County Commissioner District 2",
            "Danny O'Keefe",
            "mn-sos-minnesota-primaries-2026-county-commissioner-district-2-danny-o-keefe",
        ),
        (
            "County Auditor/Treasurer",
            "Darin O Halvorson",
            "mn-sos-minnesota-primaries-2026-county-auditor-treasurer-darin-o-halvorson",
        ),
        (
            "County Auditor/Treasurer",
            "Brent Benscoter",
            "mn-sos-minnesota-primaries-2026-county-auditor-treasurer-brent-benscoter",
        ),
    ];

    for (office_name, candidate_name, expected_ref_key) in cases {
        let candidates = result_ref_key_candidates(ELECTION_SLUG, office_name, candidate_name);
        assert!(
            candidates
                .iter()
                .any(|candidate| candidate == expected_ref_key),
            "No generated key matched {expected_ref_key}; generated {candidates:?}"
        );
    }

    let bill_gates_keys =
        result_ref_key_candidates(ELECTION_SLUG, "Governor", "Bill E Gates J.R.");
    assert!(bill_gates_keys
        .iter()
        .any(|key| key.ends_with("bill-e-gates-j-r")));
    assert!(bill_gates_keys
        .iter()
        .any(|key| key.ends_with("bill-e-gates-jr")));
}

#[test]
fn normalizes_governor_tickets_and_ignores_write_ins() {
    assert_eq!(
        normalized_result_identities(
            "Governor & Lt Governor",
            "Amy Klobuchar and Ben Schierer"
        ),
        vec![
            ("Governor".to_string(), "Amy Klobuchar".to_string()),
            (
                "Lieutenant Governor".to_string(),
                "Ben Schierer".to_string()
            )
        ]
    );
    assert!(normalized_result_identities("County Commissioner", "WRITE-IN").is_empty());
}
