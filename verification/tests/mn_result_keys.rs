use populist_scrapers::mn_result_keys::build_ref_key_candidates;

fn ids(pairs: &[(&str, &str)]) -> Vec<(String, String)> {
    pairs.iter().map(|(o, c)| (o.to_string(), c.to_string())).collect()
}

#[test]
fn identities_are_distinct_sorted_and_keyed_by_priority() {
    let src = ids(&[
        ("U.S. Senator", "Amy K"),
        ("Governor & Lt Governor", "Tim W and Peggy F"),
        ("U.S. Senator", " Amy K "),
        ("Mayor", "WRITE-IN"),
        ("State Senator", "Bill E Gates J.R."),
    ]);
    let rows = build_ref_key_candidates(&src, "e");
    let got: Vec<(String, String, String, i32)> = rows
        .iter()
        .map(|r| (r.office_name.clone(), r.candidate_name.clone(), r.ref_key.clone(), r.priority))
        .collect();
    let want = vec![
        ("Governor", "Tim W", "mn-sos-e-governor-tim-w", 0),
        ("Lieutenant Governor", "Peggy F", "mn-sos-e-lieutenant-governor-peggy-f", 0),
        ("State Senator", "Bill E Gates J.R.", "mn-sos-e-state-senator-bill-e-gates-j-r", 0),
        ("State Senator", "Bill E Gates J.R.", "mn-sos-e-state-senator-bill-e-gates-jr", 1),
        ("U.S. Senator", "Amy K", "mn-sos-e-u-s-senator-amy-k", 0),
    ];
    let want: Vec<(String, String, String, i32)> = want
        .into_iter()
        .map(|(o, c, k, p)| (o.to_string(), c.to_string(), k.to_string(), p))
        .collect();
    assert_eq!(got, want);
}

#[test]
fn identities_sort_by_code_point() {
    let rows = build_ref_key_candidates(&ids(&[("apple", "x"), ("Zebra", "y"), ("Zebra", "a")]), "e");
    let order: Vec<(&str, &str)> = rows.iter().map(|r| (r.office_name.as_str(), r.candidate_name.as_str())).collect();
    assert_eq!(order, vec![("Zebra", "a"), ("Zebra", "y"), ("apple", "x")]);
}

#[test]
fn no_identities_give_no_candidates() {
    assert!(build_ref_key_candidates(&ids(&[("Mayor", "write-in")]), "e").is_empty());
    assert!(build_ref_key_candidates(&vec![], "e").is_empty());
}
