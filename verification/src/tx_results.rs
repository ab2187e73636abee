//! Texas results staging rows: the Secretary of State XML export and the
//! county Clarity, Hart and other CSV exports, each row mapped to the
//! staging shape with its ref key.
use vstd::prelude::*;
use crate::county_results::{
    build_ref_key_for_county_race, county_ref_key, find_matching_county_office, matching_rule,
    county_rules, normalize_contest_name, normalized_contest, CountyOfficeRule, ParsedContestName,
    RuleSet, RuleSpec,
};
use crate::csv_text::{csv_error_message, csv_table, read_csv_table};
use crate::html::cells_view;
use crate::slug::{politician_ref_key_chars, ref_key};
use crate::text::{
    chars_of, contains, contains_exec, decimal, i64_to_chars, lowercase, parse_i64, parse_i64_spec,
    parse_u64, parse_u64_spec, replace, replace_exec, slice_chars, string_of, to_lowercase, trim,
    trim_exec, remove_char, remove_char_exec, opt_view, opt_str_view, strings_view, clone_opt,
    opt_as_str,
};

verus! {

/// "republican" or "democratic" when the election name mentions that party
/// (in any case), republican first.
pub open spec fn party_from_election_name(name: Seq<char>) -> Option<Seq<char>> {
    if contains(lowercase(name), "republican"@) {
        Some("republican"@)
    } else if contains(lowercase(name), "democratic"@) {
        Some("democratic"@)
    } else {
        None
    }
}

/// The party of a primary, from the name of its election.
pub fn parse_party_from_election_name(name: &str) -> (r: Option<String>)
    ensures
        opt_view(r) == party_from_election_name(name@),
{
    let lower = to_lowercase(&chars_of(name));
    if contains_exec(&lower, &chars_of("republican")) {
        Some(String::from_str("republican"))
    } else if contains_exec(&lower, &chars_of("democratic")) {
        Some(String::from_str("democratic"))
    } else {
        None
    }
}

/// "primary" when the election name mentions a primary (in any case).
pub fn parse_race_type_from_election_name(name: &str) -> (r: Option<String>)
    ensures
        opt_view(r) == (if contains(lowercase(name@), "primary"@) {
            Some("primary"@)
        } else {
            None
        }),
{
    let lower = to_lowercase(&chars_of(name));
    if contains_exec(&lower, &chars_of("primary")) {
        Some(String::from_str("primary"))
    } else {
        None
    }
}

/// What `str::parse::<i32>` returns, with its error as `None`.
pub open spec fn parse_i32_spec(s: Seq<char>) -> Option<i32> {
    match parse_i64_spec(s) {
        Some(v) => if i32::MIN <= v <= i32::MAX {
            Some(v as i32)
        } else {
            None
        },
        None => None,
    }
}

pub fn parse_i32(s: &Vec<char>) -> (r: Option<i32>)
    ensures
        r == parse_i32_spec(s@),
{
    match parse_i64(s) {
        Some(v) => if -2147483648 <= v && v <= 2147483647 {
            Some(v as i32)
        } else {
            None
        },
        None => None,
    }
}

/// The year of an election date such as "2026-03-03": its first four
/// characters, read as an integer.
pub open spec fn year_from_election_date(date: Option<Seq<char>>) -> Option<i32> {
    match date {
        Some(d) => if trim(d).len() >= 4 {
            parse_i32_spec(trim(d).take(4))
        } else {
            None
        },
        None => None,
    }
}

/// The year of an election, from its date.
pub fn parse_year_from_election_date(date: Option<&str>) -> (r: Option<i32>)
    ensures
        r == year_from_election_date(opt_str_view(date)),
{
    match date {
        Some(d) => {
            let t = trim_exec(&chars_of(d));
            if t.len() >= 4 {
                let head = slice_chars(&t, 0, 4);
                assert(head@ == t@.take(4));
                parse_i32(&head)
            } else {
                None
            }
        },
        None => None,
    }
}

/// A candidate name from the XML export: trimmed, without the incumbent
/// marker "(I)", trimmed again.
pub open spec fn sos_candidate_name(raw: Seq<char>) -> Seq<char> {
    trim(replace(trim(raw), "(I)"@, seq![]))
}

/// Cleans a candidate name from the XML export (see `sos_candidate_name`).
pub fn normalize_candidate_name(raw: &str) -> (r: String)
    ensures
        r@ == sos_candidate_name(raw@),
{
    let t = trim_exec(&chars_of(raw));
    let pat = chars_of("(I)");
    proof {
        reveal_strlit("(I)");
    }
    let without = replace_exec(&t, &pat, &Vec::new());
    let out = trim_exec(&without);
    string_of(&out)
}

/// A count attribute: the trimmed text read as a `u64`.
pub open spec fn count_attr(a: Option<Seq<char>>) -> Option<u64> {
    match a {
        Some(s) => parse_u64_spec(trim(s)),
        None => None,
    }
}

pub fn attr_parse_u64(a: &Option<String>) -> (r: Option<u64>)
    ensures
        r == count_attr(opt_view(*a)),
{
    match a {
        Some(s) => parse_u64(&trim_exec(&chars_of(s.as_str()))),
        None => None,
    }
}


/// One row of `ingest_staging.stg_tx_results_sos`.
pub struct StgTxResultRow {
    pub office_name: Option<String>,
    pub office_key: Option<String>,
    pub candidate_name: Option<String>,
    pub candidate_key: Option<String>,
    pub precincts_reporting: Option<i64>,
    pub precincts_total: Option<i64>,
    pub votes_for_candidate: Option<i64>,
    pub total_votes: Option<i64>,
    pub total_voters: Option<i64>,
    pub party: Option<String>,
    pub race_type: Option<String>,
    pub election_year: Option<i32>,
    pub ref_key: String,
    pub source_file: Option<String>,
}

/// The values of a staging row, as sequences of characters.
pub ghost struct RowView {
    pub office_name: Option<Seq<char>>,
    pub office_key: Option<Seq<char>>,
    pub candidate_name: Option<Seq<char>>,
    pub candidate_key: Option<Seq<char>>,
    pub precincts_reporting: Option<i64>,
    pub precincts_total: Option<i64>,
    pub votes_for_candidate: Option<i64>,
    pub total_votes: Option<i64>,
    pub total_voters: Option<i64>,
    pub party: Option<Seq<char>>,
    pub race_type: Option<Seq<char>>,
    pub election_year: Option<i32>,
    pub ref_key: Seq<char>,
    pub source_file: Option<Seq<char>>,
}

impl StgTxResultRow {
    pub open spec fn view(&self) -> RowView {
        RowView {
            office_name: opt_view(self.office_name),
            office_key: opt_view(self.office_key),
            candidate_name: opt_view(self.candidate_name),
            candidate_key: opt_view(self.candidate_key),
            precincts_reporting: self.precincts_reporting,
            precincts_total: self.precincts_total,
            votes_for_candidate: self.votes_for_candidate,
            total_votes: self.total_votes,
            total_voters: self.total_voters,
            party: opt_view(self.party),
            race_type: opt_view(self.race_type),
            election_year: self.election_year,
            ref_key: self.ref_key@,
            source_file: opt_view(self.source_file),
        }
    }
}

/// A `Candidate` element of the XML export, with its attributes.
pub struct SosCandidate {
    pub name: Option<String>,
    pub key: Option<String>,
    pub early_ballots_cast: Option<String>,
    pub ballots_cast: Option<String>,
    pub total_voters: Option<String>,
}

/// A `Race` element, with its attributes and its `Candidate` children.
pub struct SosRace {
    pub name: Option<String>,
    pub key: Option<String>,
    pub precincts_reported: Option<String>,
    pub precincts_participating: Option<String>,
    pub candidates: Vec<SosCandidate>,
}

/// An `ElectionResult` element, with its attributes and its `Race` children.
pub struct SosElectionResult {
    pub election_name: Option<String>,
    pub election_date: Option<String>,
    pub races: Vec<SosRace>,
}

/// A candidate's votes: early plus election-day ballots, missing counts as 0.
pub open spec fn candidate_votes(c: SosCandidate) -> int {
    (match count_attr(opt_view(c.early_ballots_cast)) {
        Some(v) => v as int,
        None => 0,
    }) + (match count_attr(opt_view(c.ballots_cast)) {
        Some(v) => v as int,
        None => 0,
    })
}

pub open spec fn votes_sum(cs: Seq<SosCandidate>) -> int
    decreases cs.len(),
{
    if cs.len() == 0 {
        0
    } else {
        votes_sum(cs.drop_last()) + candidate_votes(cs.last())
    }
}

/// Every candidate's votes, and every race's total, fit in an `i64`.
pub open spec fn sos_votes_fit(elections: Seq<SosElectionResult>) -> bool {
    forall|i: int, j: int|
        0 <= i < elections.len() && 0 <= j < elections[i].races@.len() ==> {
            let cs = (#[trigger] elections[i].races@[j]).candidates@;
            &&& votes_sum(cs) <= i64::MAX
            &&& forall|k: int| 0 <= k < cs.len() ==> candidate_votes(#[trigger] cs[k]) <= i64::MAX
        }
}

/// The staging row of candidate `c` of race `r` of election `e`.
pub open spec fn sos_row(
    e: SosElectionResult,
    r: SosRace,
    c: SosCandidate,
    source_file: Seq<char>,
) -> RowView {
    let year = year_from_election_date(opt_view(e.election_date));
    let office = match opt_view(r.name) {
        Some(n) => Some(trim(n)),
        None => None,
    };
    let cand = match opt_view(c.name) {
        Some(n) => Some(sos_candidate_name(n)),
        None => None,
    };
    let ename = match opt_view(e.election_name) {
        Some(n) => n,
        None => seq![],
    };
    RowView {
        office_name: office,
        office_key: opt_view(r.key),
        candidate_name: cand,
        candidate_key: opt_view(c.key),
        precincts_reporting: match count_attr(opt_view(r.precincts_reported)) {
            Some(v) => Some(v as i64),
            None => None,
        },
        precincts_total: match count_attr(opt_view(r.precincts_participating)) {
            Some(v) => Some(v as i64),
            None => None,
        },
        votes_for_candidate: Some(candidate_votes(c) as i64),
        total_votes: Some(votes_sum(r.candidates@) as i64),
        total_voters: match count_attr(opt_view(c.total_voters)) {
            Some(v) => Some(v as i64),
            None => None,
        },
        party: party_from_election_name(ename),
        race_type: if contains(lowercase(ename), "primary"@) {
            Some("primary"@)
        } else {
            None
        },
        election_year: year,
        ref_key: ref_key(
            "tx-primaries"@,
            decimal(
                match year {
                    Some(y) => y as int,
                    None => 0,
                },
            ),
            match office {
                Some(o) => o,
                None => seq![],
            },
            cand,
        ),
        source_file: Some(source_file),
    }
}

/// The rows of the candidates `cs` of race `r`.
pub open spec fn sos_candidate_rows(
    e: SosElectionResult,
    r: SosRace,
    cs: Seq<SosCandidate>,
    source_file: Seq<char>,
) -> Seq<RowView>
    decreases cs.len(),
{
    if cs.len() == 0 {
        seq![]
    } else {
        sos_candidate_rows(e, r, cs.drop_last(), source_file).push(
            sos_row(e, r, cs.last(), source_file),
        )
    }
}

/// The rows of the races `rs` of election `e`.
pub open spec fn sos_race_rows(e: SosElectionResult, rs: Seq<SosRace>, source_file: Seq<char>) -> Seq<
    RowView,
>
    decreases rs.len(),
{
    if rs.len() == 0 {
        seq![]
    } else {
        sos_race_rows(e, rs.drop_last(), source_file) + sos_candidate_rows(
            e,
            rs.last(),
            rs.last().candidates@,
            source_file,
        )
    }
}

/// The rows of all the elections of an XML export, in document order.
pub open spec fn sos_rows(es: Seq<SosElectionResult>, source_file: Seq<char>) -> Seq<RowView>
    decreases es.len(),
{
    if es.len() == 0 {
        seq![]
    } else {
        sos_rows(es.drop_last(), source_file) + sos_race_rows(
            es.last(),
            es.last().races@,
            source_file,
        )
    }
}

pub open spec fn rows_view(v: Seq<StgTxResultRow>) -> Seq<RowView> {
    v.map_values(|r: StgTxResultRow| r@)
}

fn candidate_votes_exec(c: &SosCandidate) -> (r: u64)
    requires
        candidate_votes(*c) <= u64::MAX,
    ensures
        r == candidate_votes(*c),
{
    let early = match attr_parse_u64(&c.early_ballots_cast) {
        Some(v) => v,
        None => 0,
    };
    let day = match attr_parse_u64(&c.ballots_cast) {
        Some(v) => v,
        None => 0,
    };
    early + day
}

/// The staging rows of one race.
fn race_rows(
    e: &SosElectionResult,
    r: &SosRace,
    source_file: &str,
    out: &mut Vec<StgTxResultRow>,
)
    requires
        votes_sum(r.candidates@) <= i64::MAX,
        forall|k: int| 0 <= k < r.candidates@.len() ==> candidate_votes(#[trigger] r.candidates@[k]) <= i64::MAX,
    ensures
        rows_view(final(out)@) == rows_view(old(out)@) + sos_candidate_rows(*e, *r, r.candidates@, source_file@),
{
    let ghost before = rows_view(out@);
    let cs = &r.candidates;
    let mut total: i64 = 0;
    let mut k: usize = 0;
    assert(cs@.take(0) == Seq::<SosCandidate>::empty());
    while k < cs.len()
        invariant
            k <= cs.len(),
            cs == &r.candidates,
            votes_sum(r.candidates@) <= i64::MAX,
            forall|j: int| 0 <= j < r.candidates@.len() ==> candidate_votes(#[trigger] r.candidates@[j]) <= i64::MAX,
            total == votes_sum(cs@.take(k as int)),
        decreases cs.len() - k,
    {
        proof {
            assert(cs@.take(k + 1).drop_last() == cs@.take(k as int));
            lemma_votes_sum_prefix(cs@, k + 1);
            assert(candidate_votes(cs@[k as int]) <= i64::MAX);
        }
        let v = candidate_votes_exec(&cs[k]);
        total = total + (v as i64);
        k = k + 1;
    }
    assert(cs@.take(cs.len() as int) == cs@);
    let year = parse_year_from_election_date(opt_as_str(&e.election_date));
    let ename: &str = match &e.election_name {
        Some(n) => n.as_str(),
        None => "",
    };
    proof {
        reveal_strlit("");
    }
    let ghost en = match opt_view(e.election_name) {
        Some(n) => n,
        None => seq![],
    };
    assert(ename@ == en);
    let party = parse_party_from_election_name(ename);
    assert(opt_view(party) == party_from_election_name(en));
    let race_type = parse_race_type_from_election_name(ename);
    let office: Option<String> = match &r.name {
        Some(n) => Some(string_of(&trim_exec(&chars_of(n.as_str())))),
        None => None,
    };
    let precincts_reporting = match attr_parse_u64(&r.precincts_reported) {
        Some(v) => Some(#[verifier::truncate] (v as i64)),
        None => None,
    };
    let precincts_total = match attr_parse_u64(&r.precincts_participating) {
        Some(v) => Some(#[verifier::truncate] (v as i64)),
        None => None,
    };
    let source = chars_of("tx-primaries");
    let year_chars = i64_to_chars(match year {
        Some(y) => y as i64,
        None => 0,
    });
    let office_chars = match &office {
        Some(o) => chars_of(o.as_str()),
        None => Vec::new(),
    };
    let mut i: usize = 0;
    while i < cs.len()
        invariant
            i <= cs.len(),
            cs == &r.candidates,
            total == votes_sum(cs@),
            forall|j: int| 0 <= j < r.candidates@.len() ==> candidate_votes(#[trigger] r.candidates@[j]) <= i64::MAX,
            year == year_from_election_date(opt_view(e.election_date)),
            opt_view(party) == party_from_election_name(match opt_view(e.election_name) {
                Some(n) => n,
                None => seq![],
            }),
            opt_view(race_type) == (if contains(lowercase(match opt_view(e.election_name) {
                Some(n) => n,
                None => seq![],
            }), "primary"@) {
                Some("primary"@)
            } else {
                None
            }),
            opt_view(office) == (match opt_view(r.name) {
                Some(n) => Some(trim(n)),
                None => None,
            }),
            precincts_reporting == (match count_attr(opt_view(r.precincts_reported)) {
                Some(v) => Some(#[verifier::truncate] (v as i64)),
                None => None,
            }),
            precincts_total == (match count_attr(opt_view(r.precincts_participating)) {
                Some(v) => Some(#[verifier::truncate] (v as i64)),
                None => None,
            }),
            source@ == "tx-primaries"@,
            year_chars@ == decimal(match year {
                Some(y) => y as int,
                None => 0,
            }),
            office_chars@ == (match opt_view(office) {
                Some(o) => o,
                None => seq![],
            }),
            rows_view(out@) == before + sos_candidate_rows(*e, *r, cs@.take(i as int), source_file@),
        decreases cs.len() - i,
    {
        let c = &cs[i];
        let cand: Option<String> = match &c.name {
            Some(n) => Some(normalize_candidate_name(n.as_str())),
            None => None,
        };
        let cand_chars: Option<Vec<char>> = match &cand {
            Some(n) => Some(chars_of(n.as_str())),
            None => None,
        };
        let key = politician_ref_key_chars(&source, &year_chars, &office_chars, match &cand_chars {
            Some(v) => Some(v),
            None => None,
        });
        let total_voters = match attr_parse_u64(&c.total_voters) {
            Some(v) => Some(#[verifier::truncate] (v as i64)),
            None => None,
        };
        let v = candidate_votes_exec(c);
        let row = StgTxResultRow {
            office_name: clone_opt(&office),
            office_key: clone_opt(&r.key),
            candidate_name: cand,
            candidate_key: clone_opt(&c.key),
            precincts_reporting,
            precincts_total,
            votes_for_candidate: Some(v as i64),
            total_votes: Some(total),
            total_voters,
            party: clone_opt(&party),
            race_type: clone_opt(&race_type),
            election_year: year,
            ref_key: string_of(&key),
            source_file: Some(String::from_str(source_file)),
        };
        proof {
            assert(cs@.take(i + 1).drop_last() == cs@.take(i as int));
            assert(cs@.take(i + 1).last() == *c);
            assert(row@ == sos_row(*e, *r, *c, source_file@));
        }
        let ghost prev = out@;
        out.push(row);
        proof {
            assert(rows_view(out@) =~= rows_view(prev).push(row@));
        }
        i = i + 1;
    }
    assert(cs@.take(cs.len() as int) == cs@);
}

pub(crate) proof fn lemma_votes_sum_prefix(cs: Seq<SosCandidate>, k: int)
    requires
        0 <= k <= cs.len(),
        forall|j: int| 0 <= j < cs.len() ==> candidate_votes(#[trigger] cs[j]) >= 0,
    ensures
        votes_sum(cs.take(k)) <= votes_sum(cs),
        votes_sum(cs.take(k)) >= 0,
    decreases cs.len() - k,
{
    if k < cs.len() {
        let t = cs.drop_last();
        assert forall|j: int| 0 <= j < t.len() implies candidate_votes(#[trigger] t[j]) >= 0 by {
            assert(t[j] == cs[j]);
        }
        lemma_votes_sum_prefix(t, k);
        assert(t.take(k) == cs.take(k));
        assert(candidate_votes(cs[cs.len() - 1]) >= 0);
    } else {
        assert(cs.take(k) == cs);
        lemma_votes_sum_nonneg(cs);
    }
}

proof fn lemma_votes_sum_nonneg(cs: Seq<SosCandidate>)
    requires
        forall|j: int| 0 <= j < cs.len() ==> candidate_votes(#[trigger] cs[j]) >= 0,
    ensures
        votes_sum(cs) >= 0,
    decreases cs.len(),
{
    if cs.len() > 0 {
        let t = cs.drop_last();
        assert forall|j: int| 0 <= j < t.len() implies candidate_votes(#[trigger] t[j]) >= 0 by {
            assert(t[j] == cs[j]);
        }
        lemma_votes_sum_nonneg(t);
        assert(candidate_votes(cs[cs.len() - 1]) >= 0);
    }
}


/// The staging rows of an XML export: one per `Candidate` of each `Race`
/// of each `ElectionResult`, in document order. Party and race type come
/// from the election name, the year from its date; a candidate's votes are
/// early plus election-day ballots and the race total is their sum.
pub fn parse_tx_sos_elements(elections: &Vec<SosElectionResult>, source_file: &str) -> (r: Vec<
    StgTxResultRow,
>)
    requires
        sos_votes_fit(elections@),
    ensures
        rows_view(r@) == sos_rows(elections@, source_file@),
{
    let mut out: Vec<StgTxResultRow> = Vec::new();
    let mut i: usize = 0;
    assert(elections@.take(0) == Seq::<SosElectionResult>::empty());
    assert(rows_view(out@) =~= seq![]);
    while i < elections.len()
        invariant
            i <= elections.len(),
            sos_votes_fit(elections@),
            rows_view(out@) == sos_rows(elections@.take(i as int), source_file@),
        decreases elections.len() - i,
    {
        let e = &elections[i];
        let ghost before = rows_view(out@);
        let mut j: usize = 0;
        assert(e.races@.take(0) == Seq::<SosRace>::empty());
        assert(before + seq![] == before);
        while j < e.races.len()
            invariant
                j <= e.races.len(),
                e == &elections@[i as int],
                i < elections.len(),
                sos_votes_fit(elections@),
                rows_view(out@) == before + sos_race_rows(*e, e.races@.take(j as int), source_file@),
            decreases e.races.len() - j,
        {
            let ghost mid = rows_view(out@);
            proof {
                assert(e.races@[j as int] == elections@[i as int].races@[j as int]);
            }
            race_rows(e, &e.races[j], source_file, &mut out);
            proof {
                assert(e.races@.take(j + 1).drop_last() == e.races@.take(j as int));
                assert(e.races@.take(j + 1).last() == e.races@[j as int]);
            }
            j = j + 1;
        }
        proof {
            assert(e.races@.take(e.races.len() as int) == e.races@);
            assert(elections@.take(i + 1).drop_last() == elections@.take(i as int));
            assert(elections@.take(i + 1).last() == *e);
        }
        i = i + 1;
    }
    assert(elections@.take(elections.len() as int) == elections@);
    out
}


/// One row of the county results staging tables
/// (`stg_tx_results_clarity`, `_hart`, `_other`).
pub struct StgTxHartResultRow {
    pub office_name: Option<String>,
    pub office_key: Option<String>,
    pub candidate_name: Option<String>,
    pub candidate_key: Option<String>,
    pub precincts_reporting: Option<i64>,
    pub precincts_total: Option<i64>,
    pub votes_for_candidate: Option<i64>,
    pub total_votes: Option<i64>,
    pub total_voters: Option<i64>,
    pub party: Option<String>,
    pub race_type: Option<String>,
    pub election_year: Option<i32>,
    pub ref_key: String,
    pub source_file: Option<String>,
    pub county: Option<String>,
}

/// One row of `ingest_staging.stg_tx_results_clarity`.
pub struct StgTxClarityResultRow {
    pub office_name: Option<String>,
    pub office_key: Option<String>,
    pub candidate_name: Option<String>,
    pub candidate_key: Option<String>,
    pub precincts_reporting: Option<i64>,
    pub precincts_total: Option<i64>,
    pub votes_for_candidate: Option<i64>,
    pub total_votes: Option<i64>,
    pub total_voters: Option<i64>,
    pub party: Option<String>,
    pub race_type: Option<String>,
    pub election_year: Option<i32>,
    pub ref_key: String,
    pub source_file: Option<String>,
    pub county: Option<String>,
}

/// One row of `ingest_staging.stg_tx_results_other`.
pub struct StgTxOtherResultRow {
    pub office_name: Option<String>,
    pub office_key: Option<String>,
    pub candidate_name: Option<String>,
    pub candidate_key: Option<String>,
    pub precincts_reporting: Option<i64>,
    pub precincts_total: Option<i64>,
    pub votes_for_candidate: Option<i64>,
    pub total_votes: Option<i64>,
    pub total_voters: Option<i64>,
    pub party: Option<String>,
    pub race_type: Option<String>,
    pub election_year: Option<i32>,
    pub ref_key: String,
    pub source_file: Option<String>,
    pub county: Option<String>,
}

pub ghost struct CountyRowView {
    pub row: RowView,
    pub county: Option<Seq<char>>,
}

impl StgTxHartResultRow {
    pub open spec fn view(&self) -> CountyRowView {
        CountyRowView {
            row: RowView {
                office_name: opt_view(self.office_name),
                office_key: opt_view(self.office_key),
                candidate_name: opt_view(self.candidate_name),
                candidate_key: opt_view(self.candidate_key),
                precincts_reporting: self.precincts_reporting,
                precincts_total: self.precincts_total,
                votes_for_candidate: self.votes_for_candidate,
                total_votes: self.total_votes,
                total_voters: self.total_voters,
                party: opt_view(self.party),
                race_type: opt_view(self.race_type),
                election_year: self.election_year,
                ref_key: self.ref_key@,
                source_file: opt_view(self.source_file),
            },
            county: opt_view(self.county),
        }
    }
}

impl StgTxClarityResultRow {
    pub open spec fn view(&self) -> CountyRowView {
        CountyRowView {
            row: RowView {
                office_name: opt_view(self.office_name),
                office_key: opt_view(self.office_key),
                candidate_name: opt_view(self.candidate_name),
                candidate_key: opt_view(self.candidate_key),
                precincts_reporting: self.precincts_reporting,
                precincts_total: self.precincts_total,
                votes_for_candidate: self.votes_for_candidate,
                total_votes: self.total_votes,
                total_voters: self.total_voters,
                party: opt_view(self.party),
                race_type: opt_view(self.race_type),
                election_year: self.election_year,
                ref_key: self.ref_key@,
                source_file: opt_view(self.source_file),
            },
            county: opt_view(self.county),
        }
    }
}

impl StgTxOtherResultRow {
    pub open spec fn view(&self) -> CountyRowView {
        CountyRowView {
            row: RowView {
                office_name: opt_view(self.office_name),
                office_key: opt_view(self.office_key),
                candidate_name: opt_view(self.candidate_name),
                candidate_key: opt_view(self.candidate_key),
                precincts_reporting: self.precincts_reporting,
                precincts_total: self.precincts_total,
                votes_for_candidate: self.votes_for_candidate,
                total_votes: self.total_votes,
                total_voters: self.total_voters,
                party: opt_view(self.party),
                race_type: opt_view(self.race_type),
                election_year: self.election_year,
                ref_key: self.ref_key@,
                source_file: opt_view(self.source_file),
            },
            county: opt_view(self.county),
        }
    }
}

fn as_clarity_row(r: StgTxHartResultRow) -> (c: StgTxClarityResultRow)
    ensures
        c@ == r@,
{
    StgTxClarityResultRow {
        office_name: r.office_name,
        office_key: r.office_key,
        candidate_name: r.candidate_name,
        candidate_key: r.candidate_key,
        precincts_reporting: r.precincts_reporting,
        precincts_total: r.precincts_total,
        votes_for_candidate: r.votes_for_candidate,
        total_votes: r.total_votes,
        total_voters: r.total_voters,
        party: r.party,
        race_type: r.race_type,
        election_year: r.election_year,
        ref_key: r.ref_key,
        source_file: r.source_file,
        county: r.county,
    }
}

fn as_other_row(r: StgTxHartResultRow) -> (c: StgTxOtherResultRow)
    ensures
        c@ == r@,
{
    StgTxOtherResultRow {
        office_name: r.office_name,
        office_key: r.office_key,
        candidate_name: r.candidate_name,
        candidate_key: r.candidate_key,
        precincts_reporting: r.precincts_reporting,
        precincts_total: r.precincts_total,
        votes_for_candidate: r.votes_for_candidate,
        total_votes: r.total_votes,
        total_voters: r.total_voters,
        party: r.party,
        race_type: r.race_type,
        election_year: r.election_year,
        ref_key: r.ref_key,
        source_file: r.source_file,
        county: r.county,
    }
}

/// The year used for ref keys when the caller gives none.
pub const DEFAULT_ELECTION_YEAR: i32 = 2026;

/// The text, when its trimmed form is not empty (the text itself is kept).
pub open spec fn nonblank(o: Option<Seq<char>>) -> Option<Seq<char>> {
    match o {
        Some(s) => if trim(s).len() > 0 {
            Some(s)
        } else {
            None
        },
        None => None,
    }
}

/// The trimmed text, when not empty.
pub open spec fn trimmed_nonempty(o: Option<Seq<char>>) -> Option<Seq<char>> {
    match o {
        Some(s) => if trim(s).len() > 0 {
            Some(trim(s))
        } else {
            None
        },
        None => None,
    }
}

fn nonblank_exec(o: &Option<String>) -> (r: Option<String>)
    ensures
        opt_view(r) == nonblank(opt_view(*o)),
{
    match o {
        Some(s) => {
            let t = trim_exec(&chars_of(s.as_str()));
            if t.len() > 0 {
                Some(s.clone())
            } else {
                None
            }
        },
        None => None,
    }
}

fn trimmed_nonempty_exec(o: Option<&str>) -> (r: Option<String>)
    ensures
        opt_view(r) == trimmed_nonempty(opt_str_view(o)),
{
    match o {
        Some(s) => {
            let t = trim_exec(&chars_of(s));
            if t.len() > 0 {
                Some(string_of(&t))
            } else {
                None
            }
        },
        None => None,
    }
}

/// The normalized contest name of a county CSV row and the office rule it
/// matches, or `None` when the row is skipped (blank contest, no rule).
pub open spec fn county_row_contest_spec(set: RuleSet, contest_name: Option<Seq<char>>) -> Option<
    (Seq<char>, RuleSpec),
> {
    let raw = trim(
        match contest_name {
            Some(c) => c,
            None => seq![],
        },
    );
    if raw.len() == 0 {
        None
    } else {
        match matching_rule(set, normalized_contest(raw)) {
            Some(i) => Some((normalized_contest(raw), county_rules(set)[i])),
            None => None,
        }
    }
}

/// The contest of a county CSV row: its normalized name and office rule.
pub fn county_row_contest(set: RuleSet, contest_name: Option<&str>) -> (r: Option<
    (String, CountyOfficeRule),
>)
    ensures
        match r {
            Some((n, rule)) => county_row_contest_spec(set, opt_str_view(contest_name)) == Some(
                (n@, rule@),
            ),
            None => county_row_contest_spec(set, opt_str_view(contest_name)) is None,
        },
{
    let raw = match contest_name {
        Some(c) => trim_exec(&chars_of(c)),
        None => Vec::new(),
    };
    if raw.len() == 0 {
        return None;
    }
    let raw_s = string_of(&raw);
    let normalized = normalize_contest_name(raw_s.as_str());
    match find_matching_county_office(set, normalized.as_str()) {
        Some(rule) => Some((normalized, rule)),
        None => None,
    }
}

/// A Clarity CSV row (columns "contest name", "choice name", "party name",
/// "total votes", "ballots cast", "percent of votes", "num Precinct total",
/// "num Precinct rptg", "county").
pub struct ClarityCsvRow {
    pub contest_name: Option<String>,
    pub choice_name: Option<String>,
    pub party_name: Option<String>,
    pub total_votes: Option<i64>,
    pub ballots_cast: Option<i64>,
    pub percent_of_votes: Option<String>,
    pub num_precinct_total: Option<i64>,
    pub num_precinct_rptg: Option<i64>,
    pub county: Option<String>,
}

/// The staging row of a county CSV row whose contest matched the office
/// `office_name`, with candidate votes `votes` and race total `total`.
pub open spec fn county_csv_row(
    set: RuleSet,
    office_name: Seq<char>,
    district: Option<Seq<char>>,
    seat: Option<Seq<char>>,
    choice_name: Option<Seq<char>>,
    party_name: Option<Seq<char>>,
    county: Option<Seq<char>>,
    votes: Option<i64>,
    total: Option<i64>,
    precincts_rptg: Option<i64>,
    precincts_total: Option<i64>,
    source_file: Seq<char>,
    year: i32,
) -> CountyRowView {
    let candidate = trimmed_nonempty(choice_name);
    CountyRowView {
        row: RowView {
            office_name: Some(office_name),
            office_key: None,
            candidate_name: candidate,
            candidate_key: None,
            precincts_reporting: precincts_rptg,
            precincts_total: precincts_total,
            votes_for_candidate: votes,
            total_votes: total,
            total_voters: None,
            party: nonblank(party_name),
            race_type: None,
            election_year: Some(year),
            ref_key: county_ref_key(
                set,
                office_name,
                district,
                seat,
                nonblank(county),
                candidate,
                party_name,
                year as int,
            ),
            source_file: Some(source_file),
        },
        county: nonblank(county),
    }
}

fn county_csv_row_exec(
    set: RuleSet,
    office_name: &str,
    parsed: &ParsedContestName,
    choice_name: &Option<String>,
    party_name: &Option<String>,
    county: &Option<String>,
    votes: Option<i64>,
    total: Option<i64>,
    precincts_rptg: Option<i64>,
    precincts_total: Option<i64>,
    source_file: &str,
    year: i32,
) -> (r: StgTxHartResultRow)
    ensures
        r@ == county_csv_row(
            set,
            office_name@,
            opt_view(parsed.district),
            opt_view(parsed.seat),
            opt_view(*choice_name),
            opt_view(*party_name),
            opt_view(*county),
            votes,
            total,
            precincts_rptg,
            precincts_total,
            source_file@,
            year,
        ),
{
    let county_name = nonblank_exec(county);
    let candidate = trimmed_nonempty_exec(opt_as_str(choice_name));
    let key = build_ref_key_for_county_race(
        set,
        office_name,
        parsed,
        opt_as_str(&county_name),
        opt_as_str(&candidate),
        opt_as_str(party_name),
        year,
    );
    StgTxHartResultRow {
        office_name: Some(String::from_str(office_name)),
        office_key: None,
        candidate_name: candidate,
        candidate_key: None,
        precincts_reporting: precincts_rptg,
        precincts_total: precincts_total,
        votes_for_candidate: votes,
        total_votes: total,
        total_voters: None,
        party: nonblank_exec(party_name),
        race_type: None,
        election_year: Some(year),
        ref_key: key,
        source_file: Some(String::from_str(source_file)),
        county: county_name,
    }
}

/// The staging row of a Clarity CSV row whose contest matched the office
/// `office_name` and parsed as `parsed`. The candidate's votes are the
/// "total votes" column; the race total is `total_from_percent`, what
/// those votes and the "percent of votes" column give.
pub fn clarity_staging_row(
    set: RuleSet,
    raw: &ClarityCsvRow,
    office_name: &str,
    parsed: &ParsedContestName,
    total_from_percent: Option<i64>,
    source_file: &str,
    election_year: Option<i32>,
) -> (r: StgTxClarityResultRow)
    ensures
        r@ == county_csv_row(
            set,
            office_name@,
            opt_view(parsed.district),
            opt_view(parsed.seat),
            opt_view(raw.choice_name),
            opt_view(raw.party_name),
            opt_view(raw.county),
            raw.total_votes,
            total_from_percent,
            raw.num_precinct_rptg,
            raw.num_precinct_total,
            source_file@,
            match election_year {
                Some(y) => y,
                None => DEFAULT_ELECTION_YEAR,
            },
        ),
{
    let year = match election_year {
        Some(y) => y,
        None => DEFAULT_ELECTION_YEAR,
    };
    as_clarity_row(county_csv_row_exec(
        set,
        office_name,
        parsed,
        &raw.choice_name,
        &raw.party_name,
        &raw.county,
        raw.total_votes,
        total_from_percent,
        raw.num_precinct_rptg,
        raw.num_precinct_total,
        source_file,
        year,
    ))
}

/// An "other" county CSV row: the Clarity columns plus "votes for candidate".
pub struct OtherCsvRow {
    pub contest_name: Option<String>,
    pub choice_name: Option<String>,
    pub party_name: Option<String>,
    pub votes_for_candidate: Option<i64>,
    pub total_votes: Option<i64>,
    pub ballots_cast: Option<i64>,
    pub percent_of_votes: Option<String>,
    pub num_precinct_total: Option<i64>,
    pub num_precinct_rptg: Option<i64>,
    pub county: Option<String>,
}

/// The staging row of an "other" county CSV row: the race total is the
/// "total votes" column, or else `total_from_percent` (what the candidate's
/// votes and "percent of votes" give).
pub fn other_staging_row(
    set: RuleSet,
    raw: &OtherCsvRow,
    office_name: &str,
    parsed: &ParsedContestName,
    total_from_percent: Option<i64>,
    source_file: &str,
    election_year: Option<i32>,
) -> (r: StgTxOtherResultRow)
    ensures
        r@ == county_csv_row(
            set,
            office_name@,
            opt_view(parsed.district),
            opt_view(parsed.seat),
            opt_view(raw.choice_name),
            opt_view(raw.party_name),
            opt_view(raw.county),
            raw.votes_for_candidate,
            match raw.total_votes {
                Some(t) => Some(t),
                None => total_from_percent,
            },
            raw.num_precinct_rptg,
            raw.num_precinct_total,
            source_file@,
            match election_year {
                Some(y) => y,
                None => DEFAULT_ELECTION_YEAR,
            },
        ),
{
    let year = match election_year {
        Some(y) => y,
        None => DEFAULT_ELECTION_YEAR,
    };
    let total = match raw.total_votes {
        Some(t) => Some(t),
        None => total_from_percent,
    };
    as_other_row(county_csv_row_exec(
        set,
        office_name,
        parsed,
        &raw.choice_name,
        &raw.party_name,
        &raw.county,
        raw.votes_for_candidate,
        total,
        raw.num_precinct_rptg,
        raw.num_precinct_total,
        source_file,
        year,
    ))
}


/// The position of the last header that, trimmed, is `name`.
pub open spec fn header_index(headers: Seq<Seq<char>>, name: Seq<char>) -> Option<int>
    decreases headers.len(),
{
    if headers.len() == 0 {
        None
    } else if trim(headers.last()) == name {
        Some(headers.len() - 1)
    } else {
        header_index(headers.drop_last(), name)
    }
}

/// Where the columns of a Hart CSV are.
pub struct HartColumns {
    pub race: usize,
    pub choice: usize,
    pub total: Option<usize>,
    pub total_cast_votes: Option<usize>,
    pub precincts_counted: Option<usize>,
    pub precincts_total: Option<usize>,
    pub county: Option<usize>,
    pub party: Option<usize>,
}

pub open spec fn opt_usize(o: Option<usize>) -> Option<int> {
    match o {
        Some(i) => Some(i as int),
        None => None,
    }
}

fn header_index_exec(headers: &Vec<String>, name: &str) -> (r: Option<usize>)
    ensures
        opt_usize(r) == header_index(strings_view(headers@), name@),
{
    let ghost hv = strings_view(headers@);
    let target = chars_of(name);
    let mut j: usize = headers.len();
    assert(hv.take(headers.len() as int) == hv);
    while j > 0
        invariant
            j <= headers.len(),
            hv == strings_view(headers@),
            target@ == name@,
            header_index(hv, name@) == header_index(hv.take(j as int), name@),
        decreases j,
    {
        let h = trim_exec(&chars_of(headers[j - 1].as_str()));
        proof {
            assert(hv.take(j as int).last() == headers@[j - 1]@);
            assert(hv.take(j as int).drop_last() == hv.take(j - 1));
        }
        if crate::text::chars_eq(&h, &target) {
            return Some(j - 1);
        }
        j = j - 1;
    }
    None
}

/// Finds the Hart CSV columns by header name; "Race" and "Choice" are required.
pub fn hart_columns(headers: &Vec<String>) -> (r: Result<HartColumns, String>)
    ensures
        ({
            let hv = strings_view(headers@);
            match r {
                Ok(c) => header_index(hv, "Race"@) == Some(c.race as int) && header_index(hv, "Choice"@)
                    == Some(c.choice as int) && opt_usize(c.total) == header_index(hv, "Total"@)
                    && opt_usize(c.total_cast_votes) == header_index(hv, "Total Cast Votes"@)
                    && opt_usize(c.precincts_counted) == header_index(hv, "Precincts Counted"@)
                    && opt_usize(c.precincts_total) == header_index(hv, "Precincts Total"@)
                    && opt_usize(c.county) == header_index(hv, "County"@) && opt_usize(c.party)
                    == header_index(hv, "Party"@),
                Err(e) => if header_index(hv, "Race"@) is None {
                    e@ == "Hart CSV missing 'Race' column"@
                } else {
                    header_index(hv, "Choice"@) is None && e@ == "Hart CSV missing 'Choice' column"@
                },
            }
        }),
{
    let race = match header_index_exec(headers, "Race") {
        Some(i) => i,
        None => return Err(String::from_str("Hart CSV missing 'Race' column")),
    };
    let choice = match header_index_exec(headers, "Choice") {
        Some(i) => i,
        None => return Err(String::from_str("Hart CSV missing 'Choice' column")),
    };
    Ok(HartColumns {
        race,
        choice,
        total: header_index_exec(headers, "Total"),
        total_cast_votes: header_index_exec(headers, "Total Cast Votes"),
        precincts_counted: header_index_exec(headers, "Precincts Counted"),
        precincts_total: header_index_exec(headers, "Precincts Total"),
        county: header_index_exec(headers, "County"),
        party: header_index_exec(headers, "Party"),
    })
}

/// The field at `idx` of a record, if the column exists and the record has it.
pub open spec fn rec_field(record: Seq<Seq<char>>, idx: Option<int>) -> Option<Seq<char>> {
    match idx {
        Some(i) => if 0 <= i < record.len() {
            Some(record[i])
        } else {
            None
        },
        None => None,
    }
}

/// The trimmed field, or empty when missing.
pub open spec fn text_field(record: Seq<Seq<char>>, idx: Option<int>) -> Seq<char> {
    match rec_field(record, idx) {
        Some(s) => trim(s),
        None => seq![],
    }
}

/// A count field: trimmed, thousands separators removed, read as `i64`.
pub open spec fn count_field(record: Seq<Seq<char>>, idx: Option<int>) -> Option<i64> {
    match rec_field(record, idx) {
        Some(s) => parse_i64_spec(remove_char(trim(s), ',')),
        None => None,
    }
}

fn rec_field_exec(record: &Vec<String>, idx: Option<usize>) -> (r: Option<&str>)
    ensures
        opt_str_view(r) == rec_field(strings_view(record@), opt_usize(idx)),
{
    match idx {
        Some(i) => if i < record.len() {
            Some(record[i].as_str())
        } else {
            None
        },
        None => None,
    }
}

fn text_field_exec(record: &Vec<String>, idx: Option<usize>) -> (r: Vec<char>)
    ensures
        r@ == text_field(strings_view(record@), opt_usize(idx)),
{
    match rec_field_exec(record, idx) {
        Some(s) => trim_exec(&chars_of(s)),
        None => Vec::new(),
    }
}

fn count_field_exec(record: &Vec<String>, idx: Option<usize>) -> (r: Option<i64>)
    ensures
        r == count_field(strings_view(record@), opt_usize(idx)),
{
    match rec_field_exec(record, idx) {
        Some(s) => {
            let t = trim_exec(&chars_of(s));
            let d = remove_char_exec(&t, ',');
            parse_i64(&d)
        },
        None => None,
    }
}

/// The summary lines of a Hart export, which are not candidates.
pub open spec fn is_summary_choice(c: Seq<char>) -> bool {
    c == "Cast Votes"@ || c == "Undervotes"@ || c == "Overvotes"@
}

/// The contest of a Hart CSV record, or `None` when the record is skipped:
/// blank race, blank or summary choice, or no office rule.
pub open spec fn hart_contest_spec(set: RuleSet, record: Seq<Seq<char>>, race: int, choice: int) -> Option<
    (Seq<char>, RuleSpec),
> {
    let race_raw = text_field(record, Some(race));
    let choice_raw = text_field(record, Some(choice));
    if race_raw.len() == 0 || choice_raw.len() == 0 || is_summary_choice(choice_raw) {
        None
    } else {
        match matching_rule(set, normalized_contest(race_raw)) {
            Some(i) => Some((normalized_contest(race_raw), county_rules(set)[i])),
            None => None,
        }
    }
}

/// The contest of a Hart CSV record: its normalized race name and office rule.
pub fn hart_record_contest(set: RuleSet, record: &Vec<String>, cols: &HartColumns) -> (r: Option<
    (String, CountyOfficeRule),
>)
    ensures
        match r {
            Some((n, rule)) => hart_contest_spec(
                set,
                strings_view(record@),
                cols.race as int,
                cols.choice as int,
            ) == Some((n@, rule@)),
            None => hart_contest_spec(
                set,
                strings_view(record@),
                cols.race as int,
                cols.choice as int,
            ) is None,
        },
{
    let race_raw = text_field_exec(record, Some(cols.race));
    if race_raw.len() == 0 {
        return None;
    }
    let choice_raw = text_field_exec(record, Some(cols.choice));
    if choice_raw.len() == 0 || crate::text::chars_eq(&choice_raw, &chars_of("Cast Votes"))
        || crate::text::chars_eq(&choice_raw, &chars_of("Undervotes")) || crate::text::chars_eq(
        &choice_raw,
        &chars_of("Overvotes"),
    ) {
        return None;
    }
    let normalized = normalize_contest_name(string_of(&race_raw).as_str());
    match find_matching_county_office(set, normalized.as_str()) {
        Some(rule) => Some((normalized, rule)),
        None => None,
    }
}

fn nonempty_string(v: Vec<char>) -> (r: Option<String>)
    ensures
        opt_view(r) == (if v@.len() > 0 {
            Some(v@)
        } else {
            None::<Seq<char>>
        }),
{
    if v.len() > 0 {
        Some(string_of(&v))
    } else {
        None
    }
}

/// The staging row of a Hart CSV record whose race matched `office_name`
/// and parsed as `parsed`: the choice is the candidate, county and party
/// are trimmed, and the counts come from the "Total", "Total Cast Votes",
/// "Precincts Counted" and "Precincts Total" columns.
pub fn hart_staging_row(
    set: RuleSet,
    record: &Vec<String>,
    cols: &HartColumns,
    office_name: &str,
    parsed: &ParsedContestName,
    source_file: &str,
    election_year: Option<i32>,
) -> (r: StgTxHartResultRow)
    requires
        text_field(strings_view(record@), Some(cols.choice as int)).len() > 0,
    ensures
        ({
            let rv = strings_view(record@);
            let county = text_field(rv, opt_usize(cols.county));
            let party = text_field(rv, opt_usize(cols.party));
            r@ == county_csv_row(
                set,
                office_name@,
                opt_view(parsed.district),
                opt_view(parsed.seat),
                Some(text_field(rv, Some(cols.choice as int))),
                if party.len() > 0 {
                    Some(party)
                } else {
                    None
                },
                if county.len() > 0 {
                    Some(county)
                } else {
                    None
                },
                count_field(rv, opt_usize(cols.total)),
                count_field(rv, opt_usize(cols.total_cast_votes)),
                count_field(rv, opt_usize(cols.precincts_counted)),
                count_field(rv, opt_usize(cols.precincts_total)),
                source_file@,
                match election_year {
                    Some(y) => y,
                    None => DEFAULT_ELECTION_YEAR,
                },
            )
        }),
{
    let year = match election_year {
        Some(y) => y,
        None => DEFAULT_ELECTION_YEAR,
    };
    let choice = text_field_exec(record, Some(cols.choice));
    let county = nonempty_string(text_field_exec(record, cols.county));
    let party = nonempty_string(text_field_exec(record, cols.party));
    proof {
        crate::text::lemma_trim_idempotent(choice@);
    }
    county_csv_row_exec(
        set,
        office_name,
        parsed,
        &Some(string_of(&choice)),
        &party,
        &county,
        count_field_exec(record, cols.total),
        count_field_exec(record, cols.total_cast_votes),
        count_field_exec(record, cols.precincts_counted),
        count_field_exec(record, cols.precincts_total),
        source_file,
        year,
    )
}


/// What a Hart CSV's header row is missing: "Race" first, then "Choice".
pub open spec fn hart_header_error(h: Seq<Seq<char>>) -> Option<Seq<char>> {
    if header_index(h, "Race"@) is None {
        Some("Hart CSV missing 'Race' column"@)
    } else if header_index(h, "Choice"@) is None {
        Some("Hart CSV missing 'Choice' column"@)
    } else {
        None
    }
}

/// The positions of the records of a Hart CSV that give a staging row:
/// those with a contest (see [`hart_contest_spec`]), in order.
pub open spec fn hart_kept(set: RuleSet, recs: Seq<Seq<Seq<char>>>, race: int, choice: int) -> Seq<
    int,
>
    decreases recs.len(),
{
    if recs.len() == 0 {
        seq![]
    } else {
        let p = hart_kept(set, recs.drop_last(), race, choice);
        if hart_contest_spec(set, recs.last(), race, choice) is Some {
            p.push(recs.len() - 1)
        } else {
            p
        }
    }
}

/// The staging row of a Hart CSV record under the header row `h`, its
/// contest being the office `office_name` with `district` and `seat`.
pub open spec fn hart_record_row(
    set: RuleSet,
    h: Seq<Seq<char>>,
    record: Seq<Seq<char>>,
    office_name: Seq<char>,
    district: Option<Seq<char>>,
    seat: Option<Seq<char>>,
    source_file: Seq<char>,
    year: i32,
) -> CountyRowView {
    let county = text_field(record, header_index(h, "County"@));
    let party = text_field(record, header_index(h, "Party"@));
    county_csv_row(
        set,
        office_name,
        district,
        seat,
        Some(text_field(record, header_index(h, "Choice"@))),
        if party.len() > 0 {
            Some(party)
        } else {
            None
        },
        if county.len() > 0 {
            Some(county)
        } else {
            None
        },
        count_field(record, header_index(h, "Total"@)),
        count_field(record, header_index(h, "Total Cast Votes"@)),
        count_field(record, header_index(h, "Precincts Counted"@)),
        count_field(record, header_index(h, "Precincts Total"@)),
        source_file,
        year,
    )
}

/// `row` is the staging row of a Hart CSV record with a contest, the
/// contest parsed by `parse_contest` (called with the office rule and the
/// normalized race name).
pub open spec fn hart_row_of<F: Fn(&CountyOfficeRule, &str) -> ParsedContestName>(
    set: RuleSet,
    h: Seq<Seq<char>>,
    record: Seq<Seq<char>>,
    race: int,
    choice: int,
    row: CountyRowView,
    parse_contest: F,
    source_file: Seq<char>,
    year: i32,
) -> bool {
    match hart_contest_spec(set, record, race, choice) {
        Some((name, rule)) => exists|x: CountyOfficeRule, n: &str, p: ParsedContestName|
            #![trigger parse_contest.ensures((&x, n), p)]
            x@ == rule && n@ == name && parse_contest.ensures((&x, n), p) && row == hart_record_row(
                set,
                h,
                record,
                rule.name,
                opt_view(p.district),
                opt_view(p.seat),
                source_file,
                year,
            ),
        None => false,
    }
}

/// The staging rows of a Hart CSV's text: one for each record whose race
/// matches an office rule and whose choice is neither blank nor a summary
/// line, in order; the contest of each is parsed by `parse_contest`. The
/// error is the CSV reader's message, or the missing column's.
pub fn parse_hart_csv_text<F: Fn(&CountyOfficeRule, &str) -> ParsedContestName>(
    set: RuleSet,
    content: &str,
    source_file: &str,
    election_year: Option<i32>,
    parse_contest: F,
) -> (r: Result<Vec<StgTxHartResultRow>, String>)
    requires
        forall|rule: &CountyOfficeRule, name: &str| #[trigger] parse_contest.requires((rule, name)),
    ensures
        match r {
            Ok(rows) => match csv_table(content@) {
                Some((h, recs)) => match (header_index(h, "Race"@), header_index(h, "Choice"@)) {
                    (Some(race), Some(choice)) => {
                        let kept = hart_kept(set, recs, race, choice);
                        &&& rows@.len() == kept.len()
                        &&& forall|i: int|
                            0 <= i < rows@.len() ==> hart_row_of(
                                set,
                                h,
                                recs[kept[i]],
                                race,
                                choice,
                                #[trigger] rows@[i]@,
                                parse_contest,
                                source_file@,
                                match election_year {
                                    Some(y) => y,
                                    None => DEFAULT_ELECTION_YEAR,
                                },
                            )
                    },
                    _ => false,
                },
                None => false,
            },
            Err(e) => match csv_table(content@) {
                Some((h, _)) => hart_header_error(h) == Some(e@),
                None => true,
            },
        },
{
    let (headers, records) = match read_csv_table(content) {
        Ok(t) => t,
        Err(e) => return Err(csv_error_message(&e)),
    };
    let ghost hv = strings_view(headers@);
    let ghost recs = cells_view(records@);
    let cols = match hart_columns(&headers) {
        Ok(c) => c,
        Err(e) => return Err(e),
    };
    let ghost race = cols.race as int;
    let ghost choice = cols.choice as int;
    let ghost year = match election_year {
        Some(y) => y,
        None => DEFAULT_ELECTION_YEAR,
    };
    let mut rows: Vec<StgTxHartResultRow> = Vec::new();
    let mut k: usize = 0;
    assert(recs.take(0) =~= Seq::<Seq<Seq<char>>>::empty());
    while k < records.len()
        invariant
            k <= records.len(),
            recs == cells_view(records@),
            hv == strings_view(headers@),
            csv_table(content@) == Some((hv, recs)),
            header_index(hv, "Race"@) == Some(race),
            header_index(hv, "Choice"@) == Some(choice),
            race == cols.race,
            choice == cols.choice,
            opt_usize(cols.total) == header_index(hv, "Total"@),
            opt_usize(cols.total_cast_votes) == header_index(hv, "Total Cast Votes"@),
            opt_usize(cols.precincts_counted) == header_index(hv, "Precincts Counted"@),
            opt_usize(cols.precincts_total) == header_index(hv, "Precincts Total"@),
            opt_usize(cols.county) == header_index(hv, "County"@),
            opt_usize(cols.party) == header_index(hv, "Party"@),
            year == match election_year {
                Some(y) => y,
                None => DEFAULT_ELECTION_YEAR,
            },
            forall|rule: &CountyOfficeRule, name: &str| #[trigger] parse_contest.requires((rule, name)),
            rows@.len() == hart_kept(set, recs.take(k as int), race, choice).len(),
            forall|i: int|
                0 <= i < rows@.len() ==> hart_row_of(
                    set,
                    hv,
                    recs[hart_kept(set, recs.take(k as int), race, choice)[i]],
                    race,
                    choice,
                    #[trigger] rows@[i]@,
                    parse_contest,
                    source_file@,
                    year,
                ),
            forall|i: int|
                0 <= i < hart_kept(set, recs.take(k as int), race, choice).len() ==> 0
                    <= #[trigger] hart_kept(set, recs.take(k as int), race, choice)[i] < k,
        decreases records.len() - k,
    {
        let ghost old_kept = hart_kept(set, recs.take(k as int), race, choice);
        proof {
            assert(recs.take(k + 1).drop_last() =~= recs.take(k as int));
            assert(recs.take(k + 1).last() == recs[k as int]);
            assert(recs[k as int] == strings_view(records@[k as int]@));
        }
        let record = &records[k];
        match hart_record_contest(set, record, &cols) {
            Some((normalized, rule)) => {
                let ns: &str = normalized.as_str();
                let parsed = parse_contest(&rule, ns);
                let row = hart_staging_row(
                    set,
                    record,
                    &cols,
                    rule.populist_office_name.as_str(),
                    &parsed,
                    source_file,
                    election_year,
                );
                proof {
                    let rv = strings_view(record@);
                    assert(hart_contest_spec(set, rv, race, choice) == Some((ns@, rule@)));
                    assert(row@ == hart_record_row(
                        set,
                        hv,
                        rv,
                        rule@.name,
                        opt_view(parsed.district),
                        opt_view(parsed.seat),
                        source_file@,
                        year,
                    ));
                    assert(parse_contest.ensures((&rule, ns), parsed));
                    assert(hart_row_of(set, hv, rv, race, choice, row@, parse_contest, source_file@, year));
                }
                rows.push(row);
                proof {
                    let new_kept = hart_kept(set, recs.take(k + 1), race, choice);
                    assert(new_kept == old_kept.push(k as int));
                    assert forall|i: int| 0 <= i < rows@.len() implies hart_row_of(
                        set,
                        hv,
                        recs[new_kept[i]],
                        race,
                        choice,
                        #[trigger] rows@[i]@,
                        parse_contest,
                        source_file@,
                        year,
                    ) by {
                        if i < rows@.len() - 1 {
                            assert(new_kept[i] == old_kept[i]);
                        }
                    }
                }
            },
            None => {
                proof {
                    assert(hart_kept(set, recs.take(k + 1), race, choice) == old_kept);
                }
            },
        }
        k = k + 1;
    }
    proof {
        assert(recs.take(records.len() as int) =~= recs);
    }
    Ok(rows)
}

/// `row` is the staging row of an "other" county CSV row with a contest,
/// the contest parsed by `parse_contest`.
pub open spec fn other_row_of<F: Fn(&CountyOfficeRule, &str) -> ParsedContestName>(
    set: RuleSet,
    raw: OtherCsvRow,
    total_from_percent: Option<i64>,
    row: CountyRowView,
    parse_contest: F,
    source_file: Seq<char>,
    year: i32,
) -> bool {
    match county_row_contest_spec(set, opt_view(raw.contest_name)) {
        Some((name, rule)) => exists|x: CountyOfficeRule, n: &str, p: ParsedContestName|
            #![trigger parse_contest.ensures((&x, n), p)]
            x@ == rule && n@ == name && parse_contest.ensures((&x, n), p) && row == county_csv_row(
                set,
                rule.name,
                opt_view(p.district),
                opt_view(p.seat),
                opt_view(raw.choice_name),
                opt_view(raw.party_name),
                opt_view(raw.county),
                raw.votes_for_candidate,
                match raw.total_votes {
                    Some(t) => Some(t),
                    None => total_from_percent,
                },
                raw.num_precinct_rptg,
                raw.num_precinct_total,
                source_file,
                year,
            ),
        None => false,
    }
}

/// The positions of the "other" county CSV rows with a contest, in order.
pub open spec fn other_kept(set: RuleSet, raws: Seq<OtherCsvRow>) -> Seq<int>
    decreases raws.len(),
{
    if raws.len() == 0 {
        seq![]
    } else {
        let p = other_kept(set, raws.drop_last());
        if county_row_contest_spec(set, opt_view(raws.last().contest_name)) is Some {
            p.push(raws.len() - 1)
        } else {
            p
        }
    }
}

/// The staging rows of the rows of an "other" county CSV: one for each row
/// whose contest name matches an office rule, in order, the contest parsed
/// by `parse_contest`. `totals_from_percent[i]` is the race total that row
/// `i`'s votes and "percent of votes" give, used where it has no "total
/// votes".
pub fn other_csv_staging_rows<F: Fn(&CountyOfficeRule, &str) -> ParsedContestName>(
    set: RuleSet,
    raws: &Vec<OtherCsvRow>,
    totals_from_percent: &Vec<Option<i64>>,
    source_file: &str,
    election_year: Option<i32>,
    parse_contest: F,
) -> (r: Vec<StgTxOtherResultRow>)
    requires
        totals_from_percent.len() == raws.len(),
        forall|rule: &CountyOfficeRule, name: &str| #[trigger] parse_contest.requires((rule, name)),
    ensures
        ({
            let kept = other_kept(set, raws@);
            &&& r@.len() == kept.len()
            &&& forall|i: int|
                0 <= i < r@.len() ==> other_row_of(
                    set,
                    raws@[kept[i]],
                    totals_from_percent@[kept[i]],
                    #[trigger] r@[i]@,
                    parse_contest,
                    source_file@,
                    match election_year {
                        Some(y) => y,
                        None => DEFAULT_ELECTION_YEAR,
                    },
                )
        }),
{
    let ghost year = match election_year {
        Some(y) => y,
        None => DEFAULT_ELECTION_YEAR,
    };
    let mut rows: Vec<StgTxOtherResultRow> = Vec::new();
    let mut k: usize = 0;
    assert(raws@.take(0) =~= Seq::<OtherCsvRow>::empty());
    while k < raws.len()
        invariant
            k <= raws.len(),
            totals_from_percent.len() == raws.len(),
            year == match election_year {
                Some(y) => y,
                None => DEFAULT_ELECTION_YEAR,
            },
            forall|rule: &CountyOfficeRule, name: &str| #[trigger] parse_contest.requires((rule, name)),
            rows@.len() == other_kept(set, raws@.take(k as int)).len(),
            forall|i: int|
                0 <= i < rows@.len() ==> other_row_of(
                    set,
                    raws@[other_kept(set, raws@.take(k as int))[i]],
                    totals_from_percent@[other_kept(set, raws@.take(k as int))[i]],
                    #[trigger] rows@[i]@,
                    parse_contest,
                    source_file@,
                    year,
                ),
            forall|i: int|
                0 <= i < other_kept(set, raws@.take(k as int)).len() ==> 0
                    <= #[trigger] other_kept(set, raws@.take(k as int))[i] < k,
        decreases raws.len() - k,
    {
        let ghost old_kept = other_kept(set, raws@.take(k as int));
        proof {
            assert(raws@.take(k + 1).drop_last() =~= raws@.take(k as int));
            assert(raws@.take(k + 1).last() == raws@[k as int]);
        }
        let raw = &raws[k];
        match county_row_contest(set, opt_as_str(&raw.contest_name)) {
            Some((normalized, rule)) => {
                let ns: &str = normalized.as_str();
                let parsed = parse_contest(&rule, ns);
                let row = other_staging_row(
                    set,
                    raw,
                    rule.populist_office_name.as_str(),
                    &parsed,
                    totals_from_percent[k],
                    source_file,
                    election_year,
                );
                proof {
                    assert(parse_contest.ensures((&rule, ns), parsed));
                    assert(other_row_of(
                        set,
                        *raw,
                        totals_from_percent@[k as int],
                        row@,
                        parse_contest,
                        source_file@,
                        year,
                    ));
                }
                rows.push(row);
                proof {
                    let new_kept = other_kept(set, raws@.take(k + 1));
                    assert(new_kept == old_kept.push(k as int));
                    assert forall|i: int| 0 <= i < rows@.len() implies other_row_of(
                        set,
                        raws@[new_kept[i]],
                        totals_from_percent@[new_kept[i]],
                        #[trigger] rows@[i]@,
                        parse_contest,
                        source_file@,
                        year,
                    ) by {
                        if i < rows@.len() - 1 {
                            assert(new_kept[i] == old_kept[i]);
                        }
                    }
                }
            },
            None => {
                proof {
                    assert(other_kept(set, raws@.take(k + 1)) == old_kept);
                }
            },
        }
        k = k + 1;
    }
    proof {
        assert(raws@.take(raws.len() as int) =~= raws@);
    }
    rows
}

} // verus!
