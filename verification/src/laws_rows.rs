//! Properties of the results, key, site and same-person rules, each stated
//! over the inputs the rules read rather than over the rule's own steps.
use vstd::prelude::*;
use crate::civix::{candidate_rows, normalized_race, race_total_of, race_total_row, result_rows, votes_of};
use crate::congress::{primary_type, PrimaryType};
use crate::county_results::{county_ref_key, county_ref_texts, nonempty_trimmed, slug_part, slug_parts, RuleSet};
use crate::text::{contains, decimal, eq_ignore_case, join, lowercase, trim};
use crate::tx_filings::{same_person, TxAddressView};
use crate::web_scrape::{campaign_site, excluded_site};

verus! {

/// A table row is a "Race Total" row of `race`: five cells, the third
/// "Race Total" (trimmed, any ASCII case), the race text normalizing to the
/// non-empty `race`.
pub open spec fn is_race_total_row_for(row: Seq<Seq<char>>, race: Seq<char>) -> bool {
    &&& row.len() == 5
    &&& race.len() > 0
    &&& normalized_race(row[0]) == race
    &&& eq_ignore_case(trim(row[2]), "Race Total"@)
}

/// `j` is the last "Race Total" row of `race` among `rows`.
pub open spec fn is_last_total_row(rows: Seq<Seq<Seq<char>>>, race: Seq<char>, j: int) -> bool {
    &&& 0 <= j < rows.len()
    &&& is_race_total_row_for(rows[j], race)
    &&& forall|k: int| j < k < rows.len() ==> !is_race_total_row_for(#[trigger] rows[k], race)
}

proof fn lemma_total_row_matches(row: Seq<Seq<char>>, race: Seq<char>)
    ensures
        (race_total_row(row) matches Some((r, _)) && r == race) <==> is_race_total_row_for(row, race),
        is_race_total_row_for(row, race) ==> race_total_row(row) == Some((race, votes_of(row[3]))),
{
}

/// A race's "Race Total" comes from a "Race Total" row of that race, the
/// last one; a race without such a row has none.
pub proof fn law_race_total_from_own_race(rows: Seq<Seq<Seq<char>>>, race: Seq<char>)
    ensures
        race_total_of(rows, race) matches Some(t) ==> exists|j: int|
            #[trigger] is_last_total_row(rows, race, j) && votes_of(rows[j][3]) == t,
        race_total_of(rows, race) is None <==> forall|j: int|
            0 <= j < rows.len() ==> !is_race_total_row_for(#[trigger] rows[j], race),
    decreases rows.len(),
{
    if rows.len() > 0 {
        let init = rows.drop_last();
        law_race_total_from_own_race(init, race);
        lemma_total_row_matches(rows.last(), race);
        if is_race_total_row_for(rows.last(), race) {
            assert(is_last_total_row(rows, race, rows.len() - 1));
        } else {
            assert(race_total_of(rows, race) == race_total_of(init, race));
            if race_total_of(init, race) is Some {
                let j = choose|j: int| #[trigger] is_last_total_row(init, race, j) && votes_of(init[j][3])
                    == race_total_of(init, race)->0;
                assert forall|k: int| j < k < rows.len() implies !is_race_total_row_for(#[trigger] rows[k], race) by {
                    if k < rows.len() - 1 {
                        assert(rows[k] == init[k]);
                        assert(!is_race_total_row_for(init[k], race));
                    }
                }
                assert(rows[j] == init[j]);
                assert(is_last_total_row(rows, race, j));
            } else {
                assert forall|j: int| 0 <= j < rows.len() implies !is_race_total_row_for(#[trigger] rows[j], race) by {
                    if j < rows.len() - 1 {
                        assert(rows[j] == init[j]);
                    }
                }
            }
            if exists|j: int| 0 <= j < init.len() && #[trigger] is_race_total_row_for(init[j], race) {
                let j = choose|j: int| 0 <= j < init.len() && #[trigger] is_race_total_row_for(init[j], race);
                assert(rows[j] == init[j]);
                assert(is_race_total_row_for(rows[j], race));
            }
        }
    }
}

/// Adding a row that is not a "Race Total" row of `race` leaves that race's
/// total as it was.
pub proof fn law_race_total_other_row(rows: Seq<Seq<Seq<char>>>, row: Seq<Seq<char>>, race: Seq<char>)
    requires
        !is_race_total_row_for(row, race),
    ensures
        race_total_of(rows.push(row), race) == race_total_of(rows, race),
{
    lemma_total_row_matches(row, race);
    assert(rows.push(row).drop_last() =~= rows);
}

/// A result's total votes, where its race's last "Race Total" row gives a
/// number other than zero, is that number: the total of its own race.
pub proof fn law_result_total_is_own_race_total(rows: Seq<Seq<Seq<char>>>, i: int, j: int)
    requires
        0 <= i < result_rows(rows).len(),
        is_last_total_row(rows, result_rows(rows)[i].race, j),
        votes_of(rows[j][3]) != 0,
    ensures
        result_rows(rows)[i].total_votes == votes_of(rows[j][3]),
{
    let race = result_rows(rows)[i].race;
    assert(race == candidate_rows(rows)[i].race);
    law_race_total_from_own_race(rows, race);
    assert(race_total_of(rows, race) is Some) by {
        assert(is_race_total_row_for(rows[j], race));
    }
    let j0 = choose|j0: int| #[trigger] is_last_total_row(rows, race, j0) && votes_of(rows[j0][3])
        == race_total_of(rows, race)->0;
    if j0 < j {
        assert(!is_race_total_row_for(rows[j], race));
    } else if j < j0 {
        assert(!is_race_total_row_for(rows[j0], race));
    }
    assert(j0 == j);
}

/// The offices whose ref keys have a layout of their own.
pub open spec fn has_own_key_layout(office: Seq<char>) -> bool {
    ||| office == "Criminal District Judge"@
    ||| office == "Criminal District Attorney"@
    ||| office == "County Judge"@
    ||| office == "Sheriff & County Tax Assessor-Collector"@
    ||| office == "County Chair"@
    ||| office == "County & District Clerk"@
    ||| office == "Judge - County Civil Court at Law"@
    ||| office == "Judge - County Court at Law"@
    ||| office == "Judge - County Criminal Court of Appeals"@
    ||| office == "Judge - County Criminal Court at Law"@
    ||| office == "Judge - Probate Court"@
    ||| office == "Justice of the Peace"@
    ||| office == "Precinct Chair"@
    ||| office == "County School Trustee"@
}

proof fn lemma_slug_parts_push(texts: Seq<Seq<char>>, t: Seq<char>)
    ensures
        slug_parts(texts.push(t)) == slug_parts(texts) + slug_part(t),
{
    assert(texts.push(t).drop_last() =~= texts);
    assert(texts.push(t).last() == t);
}

proof fn lemma_slug_parts_four(a: Seq<char>, b: Seq<char>, c: Seq<char>, d: Seq<char>)
    ensures
        slug_parts(seq![a, b, c, d]) == slug_part(a) + slug_part(b) + slug_part(c) + slug_part(d),
        slug_parts(seq![a, b, d]) == slug_part(a) + slug_part(b) + slug_part(d),
{
    let e = Seq::<Seq<char>>::empty();
    lemma_slug_parts_push(e, a);
    lemma_slug_parts_push(e.push(a), b);
    lemma_slug_parts_push(e.push(a).push(b), c);
    lemma_slug_parts_push(e.push(a).push(b).push(c), d);
    lemma_slug_parts_push(e.push(a).push(b), d);
    assert(e.push(a) =~= seq![a]);
    assert(e.push(a).push(b) =~= seq![a, b]);
    assert(e.push(a).push(b).push(c) =~= seq![a, b, c]);
    assert(e.push(a).push(b).push(c).push(d) =~= seq![a, b, c, d]);
    assert(e.push(a).push(b).push(d) =~= seq![a, b, d]);
    assert(slug_parts(e) =~= e);
    assert(slug_parts(seq![a]) =~= slug_part(a));
}

/// For an office without a layout of its own, the ref key is
/// `tx-primaries-{year}-{county}-{office}[-precinct {district}]-{candidate}`
/// (each part slugged): the district, where given, is the precinct.
pub proof fn law_county_key_precinct_layout(
    set: RuleSet,
    office: Seq<char>,
    district: Option<Seq<char>>,
    seat: Option<Seq<char>>,
    county: Option<Seq<char>>,
    candidate: Option<Seq<char>>,
    party: Option<Seq<char>>,
    year: int,
)
    requires
        !has_own_key_layout(office),
    ensures
        ({
            let cty = trim(
                match county {
                    Some(c) => c,
                    None => seq![],
                },
            );
            let cand = trim(
                match candidate {
                    Some(c) => c,
                    None => seq![],
                },
            );
            let head = seq!["tx-primaries"@, decimal(year)];
            county_ref_key(set, office, district, seat, county, candidate, party, year) == match district {
                Some(d) => if trim(d).len() > 0 {
                    join(
                        head + slug_part(cty) + slug_part(office) + slug_part("precinct "@ + trim(d))
                            + slug_part(cand),
                        "-"@,
                    )
                } else {
                    join(head + slug_part(cty) + slug_part(office) + slug_part(cand), "-"@)
                },
                None => join(head + slug_part(cty) + slug_part(office) + slug_part(cand), "-"@),
            }
        }),
{
    let cty = trim(
        match county {
            Some(c) => c,
            None => seq![],
        },
    );
    let cand = trim(
        match candidate {
            Some(c) => c,
            None => seq![],
        },
    );
    let head = seq!["tx-primaries"@, decimal(year)];
    let texts = county_ref_texts(
        set,
        office,
        cty,
        lowercase(cty),
        nonempty_trimmed(district),
        nonempty_trimmed(seat),
        nonempty_trimmed(party),
        cand,
    );
    match nonempty_trimmed(district) {
        Some(d) => {
            assert(texts =~= seq![cty, office, "precinct "@ + d, cand]);
            lemma_slug_parts_four(cty, office, "precinct "@ + d, cand);
            assert(head + slug_parts(texts) =~= head + slug_part(cty) + slug_part(office) + slug_part(
                "precinct "@ + d,
            ) + slug_part(cand));
        },
        None => {
            assert(texts =~= seq![cty, office, cand]);
            lemma_slug_parts_four(cty, office, seq![], cand);
            assert(head + slug_parts(texts) =~= head + slug_part(cty) + slug_part(office) + slug_part(cand));
        },
    }
}

/// The trimmed text of an optional part, empty where it is missing.
pub open spec fn or_empty_trimmed(o: Option<Seq<char>>) -> Seq<char> {
    trim(
        match o {
            Some(c) => c,
            None => seq![],
        },
    )
}

/// A justice of the peace's ref key names the precinct and the place:
/// `tx-primaries-{year}-{county}-justice-of-the-peace-precinct-{district}-place-{seat}-{candidate}`
/// (each part slugged).
pub proof fn law_county_key_justice_of_the_peace(
    set: RuleSet,
    district: Seq<char>,
    seat: Seq<char>,
    county: Option<Seq<char>>,
    candidate: Option<Seq<char>>,
    party: Option<Seq<char>>,
    year: int,
)
    requires
        trim(district).len() > 0,
        trim(seat).len() > 0,
    ensures
        county_ref_key(set, "Justice of the Peace"@, Some(district), Some(seat), county, candidate, party, year)
            == join(
            seq!["tx-primaries"@, decimal(year)] + slug_part(or_empty_trimmed(county)) + slug_part(
                "Justice of the Peace"@,
            ) + slug_part("precinct "@ + trim(district)) + slug_part("place "@ + trim(seat)) + slug_part(
                or_empty_trimmed(candidate),
            ),
            "-"@,
        ),
{
    let cty = or_empty_trimmed(county);
    let cand = or_empty_trimmed(candidate);
    let office = "Justice of the Peace"@;
    let texts = county_ref_texts(
        set,
        office,
        cty,
        lowercase(cty),
        nonempty_trimmed(Some(district)),
        nonempty_trimmed(Some(seat)),
        nonempty_trimmed(party),
        cand,
    );
    let p = "precinct "@ + trim(district);
    let q = "place "@ + trim(seat);
    reveal_strlit("Justice of the Peace");
    reveal_strlit("Criminal District Judge");
    assert(office != "Criminal District Judge"@) by {
        assert(office[0] != "Criminal District Judge"@[0]);
    }
    reveal_strlit("Criminal District Attorney");
    assert(office != "Criminal District Attorney"@) by {
        assert(office[0] != "Criminal District Attorney"@[0]);
    }
    reveal_strlit("County Judge");
    assert(office != "County Judge"@) by {
        assert(office[0] != "County Judge"@[0]);
    }
    reveal_strlit("Sheriff & County Tax Assessor-Collector");
    assert(office != "Sheriff & County Tax Assessor-Collector"@) by {
        assert(office[0] != "Sheriff & County Tax Assessor-Collector"@[0]);
    }
    reveal_strlit("County Chair");
    assert(office != "County Chair"@) by {
        assert(office[0] != "County Chair"@[0]);
    }
    reveal_strlit("County & District Clerk");
    assert(office != "County & District Clerk"@) by {
        assert(office[0] != "County & District Clerk"@[0]);
    }
    reveal_strlit("Judge - County Civil Court at Law");
    assert(office != "Judge - County Civil Court at Law"@) by {
        assert(office[2] != "Judge - County Civil Court at Law"@[2]);
    }
    reveal_strlit("Judge - County Court at Law");
    assert(office != "Judge - County Court at Law"@) by {
        assert(office[2] != "Judge - County Court at Law"@[2]);
    }
    reveal_strlit("Judge - County Criminal Court of Appeals");
    assert(office != "Judge - County Criminal Court of Appeals"@) by {
        assert(office[2] != "Judge - County Criminal Court of Appeals"@[2]);
    }
    reveal_strlit("Judge - County Criminal Court at Law");
    assert(office != "Judge - County Criminal Court at Law"@) by {
        assert(office[2] != "Judge - County Criminal Court at Law"@[2]);
    }
    reveal_strlit("Judge - Probate Court");
    assert(office != "Judge - Probate Court"@) by {
        assert(office[2] != "Judge - Probate Court"@[2]);
    }
    assert(texts =~= seq![cty, office, p, q, cand]);
    let e = Seq::<Seq<char>>::empty();
    lemma_slug_parts_push(e, cty);
    lemma_slug_parts_push(e.push(cty), office);
    lemma_slug_parts_push(e.push(cty).push(office), p);
    lemma_slug_parts_push(e.push(cty).push(office).push(p), q);
    lemma_slug_parts_push(e.push(cty).push(office).push(p).push(q), cand);
    assert(e.push(cty).push(office).push(p).push(q).push(cand) =~= texts);
    assert(slug_parts(e) =~= e);
    assert(seq!["tx-primaries"@, decimal(year)] + slug_parts(texts) =~= seq!["tx-primaries"@, decimal(year)]
        + slug_part(cty) + slug_part(office) + slug_part(p) + slug_part(q) + slug_part(cand));
}

/// A county court at law judge's ref key numbers the court:
/// `tx-primaries-{year}-{county}-judge-county-court-at-law-no-{district}-{candidate}`
/// (each part slugged).
pub proof fn law_county_key_court_at_law(
    set: RuleSet,
    district: Seq<char>,
    seat: Option<Seq<char>>,
    county: Option<Seq<char>>,
    candidate: Option<Seq<char>>,
    party: Option<Seq<char>>,
    year: int,
)
    requires
        trim(district).len() > 0,
    ensures
        county_ref_key(set, "Judge - County Court at Law"@, Some(district), seat, county, candidate, party, year)
            == join(
            seq!["tx-primaries"@, decimal(year)] + slug_part(or_empty_trimmed(county)) + slug_part(
                "Judge - County Court at Law"@,
            ) + slug_part("no "@ + trim(district)) + slug_part(or_empty_trimmed(candidate)),
            "-"@,
        ),
{
    let cty = or_empty_trimmed(county);
    let cand = or_empty_trimmed(candidate);
    let office = "Judge - County Court at Law"@;
    let texts = county_ref_texts(
        set,
        office,
        cty,
        lowercase(cty),
        nonempty_trimmed(Some(district)),
        nonempty_trimmed(seat),
        nonempty_trimmed(party),
        cand,
    );
    let p = "no "@ + trim(district);
    reveal_strlit("Judge - County Court at Law");
    reveal_strlit("Criminal District Judge");
    reveal_strlit("Criminal District Attorney");
    reveal_strlit("County Judge");
    reveal_strlit("Sheriff & County Tax Assessor-Collector");
    reveal_strlit("County Chair");
    reveal_strlit("County & District Clerk");
    reveal_strlit("Judge - County Civil Court at Law");
    assert(office != "Criminal District Judge"@) by { assert(office[0] != "Criminal District Judge"@[0]); }
    assert(office != "Criminal District Attorney"@) by { assert(office[0] != "Criminal District Attorney"@[0]); }
    assert(office != "County Judge"@) by { assert(office[0] != "County Judge"@[0]); }
    assert(office != "Sheriff & County Tax Assessor-Collector"@) by {
        assert(office[0] != "Sheriff & County Tax Assessor-Collector"@[0]);
    }
    assert(office != "County Chair"@) by { assert(office[0] != "County Chair"@[0]); }
    assert(office != "County & District Clerk"@) by { assert(office[0] != "County & District Clerk"@[0]); }
    assert(office != "Judge - County Civil Court at Law"@) by {
        assert(office[16] != "Judge - County Civil Court at Law"@[16]);
    }
    assert(texts =~= seq![cty, office, p, cand]);
    lemma_slug_parts_four(cty, office, p, cand);
    assert(seq!["tx-primaries"@, decimal(year)] + slug_parts(texts) =~= seq!["tx-primaries"@, decimal(year)]
        + slug_part(cty) + slug_part(office) + slug_part(p) + slug_part(cand));
}

/// A URL on any of the social, Ballotpedia or congressional domains is
/// excluded from the campaign sites, and only such a URL is.
pub proof fn law_excluded_site_domains(url: Seq<char>)
    ensures
        ({
            let lower = lowercase(url);
            let on_listed_domain = {
                ||| contains(lower, "facebook.com"@)
                ||| contains(lower, "twitter.com"@)
                ||| contains(lower, "x.com"@)
                ||| contains(lower, "instagram.com"@)
                ||| contains(lower, "tiktok.com"@)
                ||| contains(lower, "youtube.com"@)
                ||| contains(lower, "linkedin.com"@)
                ||| contains(lower, "ballotpedia.org"@)
                ||| contains(lower, "house.gov"@)
                ||| contains(lower, "senate.gov"@)
            };
            &&& contains(lower, "facebook.com"@) ==> excluded_site(lower)
            &&& contains(lower, "twitter.com"@) ==> excluded_site(lower)
            &&& contains(lower, "x.com"@) ==> excluded_site(lower)
            &&& contains(lower, "instagram.com"@) ==> excluded_site(lower)
            &&& contains(lower, "tiktok.com"@) ==> excluded_site(lower)
            &&& contains(lower, "youtube.com"@) ==> excluded_site(lower)
            &&& contains(lower, "linkedin.com"@) ==> excluded_site(lower)
            &&& contains(lower, "ballotpedia.org"@) ==> excluded_site(lower)
            &&& contains(lower, "house.gov"@) ==> excluded_site(lower)
            &&& contains(lower, "senate.gov"@) ==> excluded_site(lower)
            &&& excluded_site(lower) ==> on_listed_domain
        }),
{
}

/// A campaign site is on none of the social, Ballotpedia or congressional
/// domains.
pub proof fn law_campaign_site_off_listed_domains(
    url: Seq<char>,
    title: Option<Seq<char>>,
    first_name: Option<Seq<char>>,
    last_name: Option<Seq<char>>,
    preferred_name: Option<Seq<char>>,
)
    requires
        campaign_site(url, title, first_name, last_name, preferred_name),
    ensures
        !contains(lowercase(url), "facebook.com"@),
        !contains(lowercase(url), "twitter.com"@),
        !contains(lowercase(url), "x.com"@),
        !contains(lowercase(url), "instagram.com"@),
        !contains(lowercase(url), "tiktok.com"@),
        !contains(lowercase(url), "youtube.com"@),
        !contains(lowercase(url), "linkedin.com"@),
        !contains(lowercase(url), "ballotpedia.org"@),
        !contains(lowercase(url), "house.gov"@),
        !contains(lowercase(url), "senate.gov"@),
{
}

/// The emails match when both are there and equal in any ASCII case; the
/// two are the same person when the emails match, or else when both
/// addresses are there and equal part by part (trimmed, any ASCII case),
/// whether one email, both or neither is there.
pub proof fn law_same_person_verdict(
    existing_email: Option<Seq<char>>,
    existing_address: Option<TxAddressView>,
    incoming_email: Option<Seq<char>>,
    incoming_address: Option<TxAddressView>,
)
    ensures
        ({
            let (same, emails_equal) = same_person(existing_email, existing_address, incoming_email, incoming_address);
            let addresses_equal = match (existing_address, incoming_address) {
                (Some(a), Some(b)) => {
                    &&& eq_ignore_case(trim(a.line_1), trim(b.line_1))
                    &&& eq_ignore_case(trim(a.city), trim(b.city))
                    &&& eq_ignore_case(trim(a.state), trim(b.state))
                    &&& eq_ignore_case(trim(a.country), trim(b.country))
                },
                _ => false,
            };
            &&& emails_equal == (match (existing_email, incoming_email) {
                (Some(x), Some(y)) => eq_ignore_case(x, y),
                _ => false,
            })
            &&& same == (emails_equal || addresses_equal)
        }),
{
}

/// One of the fifty two-letter state codes.
pub open spec fn is_state_code(code: Seq<char>) -> bool {
    ||| code == "AL"@
    ||| code == "AK"@
    ||| code == "AZ"@
    ||| code == "AR"@
    ||| code == "CA"@
    ||| code == "CO"@
    ||| code == "CT"@
    ||| code == "DE"@
    ||| code == "FL"@
    ||| code == "GA"@
    ||| code == "HI"@
    ||| code == "ID"@
    ||| code == "IL"@
    ||| code == "IN"@
    ||| code == "IA"@
    ||| code == "KS"@
    ||| code == "KY"@
    ||| code == "LA"@
    ||| code == "ME"@
    ||| code == "MD"@
    ||| code == "MA"@
    ||| code == "MI"@
    ||| code == "MN"@
    ||| code == "MS"@
    ||| code == "MO"@
    ||| code == "MT"@
    ||| code == "NE"@
    ||| code == "NV"@
    ||| code == "NH"@
    ||| code == "NJ"@
    ||| code == "NM"@
    ||| code == "NY"@
    ||| code == "NC"@
    ||| code == "ND"@
    ||| code == "OH"@
    ||| code == "OK"@
    ||| code == "OR"@
    ||| code == "PA"@
    ||| code == "RI"@
    ||| code == "SC"@
    ||| code == "SD"@
    ||| code == "TN"@
    ||| code == "TX"@
    ||| code == "UT"@
    ||| code == "VT"@
    ||| code == "VA"@
    ||| code == "WA"@
    ||| code == "WV"@
    ||| code == "WI"@
    ||| code == "WY"@
}

/// The states whose House races are decided otherwise than by one primary
/// per party: Alaska (top four), California, Nebraska and Washington (top
/// two) and Louisiana (no primary). Every other state has partisan
/// primaries; a code that is no state's has no primary type.
pub proof fn law_primary_types(code: Seq<char>)
    ensures
        primary_type(code) == Some(PrimaryType::TopFour) <==> code == "AK"@,
        primary_type(code) == Some(PrimaryType::TopTwo) <==> (code == "CA"@ || code == "NE"@ || code == "WA"@),
        primary_type(code) == Some(PrimaryType::NoPrimary) <==> code == "LA"@,
        primary_type(code) is Some <==> is_state_code(code),
{
    reveal_strlit("AL");
    reveal_strlit("AK");
    reveal_strlit("AZ");
    reveal_strlit("AR");
    reveal_strlit("CA");
    reveal_strlit("CO");
    reveal_strlit("CT");
    reveal_strlit("DE");
    reveal_strlit("FL");
    reveal_strlit("GA");
    reveal_strlit("HI");
    reveal_strlit("ID");
    reveal_strlit("IL");
    reveal_strlit("IN");
    reveal_strlit("IA");
    reveal_strlit("KS");
    reveal_strlit("KY");
    reveal_strlit("LA");
    reveal_strlit("ME");
    reveal_strlit("MD");
    reveal_strlit("MA");
    reveal_strlit("MI");
    reveal_strlit("MN");
    reveal_strlit("MS");
    reveal_strlit("MO");
    reveal_strlit("MT");
    reveal_strlit("NE");
    reveal_strlit("NV");
    reveal_strlit("NH");
    reveal_strlit("NJ");
    reveal_strlit("NM");
    reveal_strlit("NY");
    reveal_strlit("NC");
    reveal_strlit("ND");
    reveal_strlit("OH");
    reveal_strlit("OK");
    reveal_strlit("OR");
    reveal_strlit("PA");
    reveal_strlit("RI");
    reveal_strlit("SC");
    reveal_strlit("SD");
    reveal_strlit("TN");
    reveal_strlit("TX");
    reveal_strlit("UT");
    reveal_strlit("VT");
    reveal_strlit("VA");
    reveal_strlit("WA");
    reveal_strlit("WV");
    reveal_strlit("WI");
    reveal_strlit("WY");
    if code == "AK"@ {
        assert("AK"@[1] != "AL"@[1]);
    }
    if code == "CA"@ {
        assert("CA"@[0] != "AL"@[0]);
        assert("CA"@[0] != "AK"@[0]);
        assert("CA"@[0] != "AZ"@[0]);
        assert("CA"@[0] != "AR"@[0]);
    }
    if code == "NE"@ {
        assert("NE"@[0] != "AL"@[0]);
        assert("NE"@[0] != "AK"@[0]);
        assert("NE"@[0] != "AZ"@[0]);
        assert("NE"@[0] != "AR"@[0]);
        assert("NE"@[0] != "CA"@[0]);
        assert("NE"@[0] != "CO"@[0]);
        assert("NE"@[0] != "CT"@[0]);
        assert("NE"@[0] != "DE"@[0]);
        assert("NE"@[0] != "FL"@[0]);
        assert("NE"@[0] != "GA"@[0]);
        assert("NE"@[0] != "HI"@[0]);
        assert("NE"@[0] != "ID"@[0]);
        assert("NE"@[0] != "IL"@[0]);
        assert("NE"@[0] != "IN"@[0]);
        assert("NE"@[0] != "IA"@[0]);
        assert("NE"@[0] != "KS"@[0]);
        assert("NE"@[0] != "KY"@[0]);
        assert("NE"@[0] != "LA"@[0]);
        assert("NE"@[0] != "ME"@[0]);
        assert("NE"@[0] != "MD"@[0]);
        assert("NE"@[0] != "MA"@[0]);
        assert("NE"@[0] != "MI"@[0]);
        assert("NE"@[0] != "MN"@[0]);
        assert("NE"@[0] != "MS"@[0]);
        assert("NE"@[0] != "MO"@[0]);
        assert("NE"@[0] != "MT"@[0]);
    }
    if code == "WA"@ {
        assert("WA"@[0] != "AL"@[0]);
        assert("WA"@[0] != "AK"@[0]);
        assert("WA"@[0] != "AZ"@[0]);
        assert("WA"@[0] != "AR"@[0]);
        assert("WA"@[0] != "CA"@[0]);
        assert("WA"@[0] != "CO"@[0]);
        assert("WA"@[0] != "CT"@[0]);
        assert("WA"@[0] != "DE"@[0]);
        assert("WA"@[0] != "FL"@[0]);
        assert("WA"@[0] != "GA"@[0]);
        assert("WA"@[0] != "HI"@[0]);
        assert("WA"@[0] != "ID"@[0]);
        assert("WA"@[0] != "IL"@[0]);
        assert("WA"@[0] != "IN"@[0]);
        assert("WA"@[0] != "IA"@[0]);
        assert("WA"@[0] != "KS"@[0]);
        assert("WA"@[0] != "KY"@[0]);
        assert("WA"@[0] != "LA"@[0]);
        assert("WA"@[0] != "ME"@[0]);
        assert("WA"@[0] != "MD"@[0]);
        assert("WA"@[0] != "MA"@[0]);
        assert("WA"@[0] != "MI"@[0]);
        assert("WA"@[0] != "MN"@[0]);
        assert("WA"@[0] != "MS"@[0]);
        assert("WA"@[0] != "MO"@[0]);
        assert("WA"@[0] != "MT"@[0]);
        assert("WA"@[0] != "NE"@[0]);
        assert("WA"@[0] != "NV"@[0]);
        assert("WA"@[0] != "NH"@[0]);
        assert("WA"@[0] != "NJ"@[0]);
        assert("WA"@[0] != "NM"@[0]);
        assert("WA"@[0] != "NY"@[0]);
        assert("WA"@[0] != "NC"@[0]);
        assert("WA"@[0] != "ND"@[0]);
        assert("WA"@[0] != "OH"@[0]);
        assert("WA"@[0] != "OK"@[0]);
        assert("WA"@[0] != "OR"@[0]);
        assert("WA"@[0] != "PA"@[0]);
        assert("WA"@[0] != "RI"@[0]);
        assert("WA"@[0] != "SC"@[0]);
        assert("WA"@[0] != "SD"@[0]);
        assert("WA"@[0] != "TN"@[0]);
        assert("WA"@[0] != "TX"@[0]);
        assert("WA"@[0] != "UT"@[0]);
        assert("WA"@[0] != "VT"@[0]);
        assert("WA"@[0] != "VA"@[0]);
    }
    if code == "LA"@ {
        assert("LA"@[0] != "AL"@[0]);
        assert("LA"@[0] != "AK"@[0]);
        assert("LA"@[0] != "AZ"@[0]);
        assert("LA"@[0] != "AR"@[0]);
        assert("LA"@[0] != "CA"@[0]);
        assert("LA"@[0] != "CO"@[0]);
        assert("LA"@[0] != "CT"@[0]);
        assert("LA"@[0] != "DE"@[0]);
        assert("LA"@[0] != "FL"@[0]);
        assert("LA"@[0] != "GA"@[0]);
        assert("LA"@[0] != "HI"@[0]);
        assert("LA"@[0] != "ID"@[0]);
        assert("LA"@[0] != "IL"@[0]);
        assert("LA"@[0] != "IN"@[0]);
        assert("LA"@[0] != "IA"@[0]);
        assert("LA"@[0] != "KS"@[0]);
        assert("LA"@[0] != "KY"@[0]);
    }
}

} // verus!
