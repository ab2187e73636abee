//! Texas SOS Civix results pages: the text normalizations used on the
//! scraped page, and the result rows made of the scraped table rows (with
//! each race's total votes: its "Race Total" row, or the sum of its
//! candidates' votes).
use vstd::prelude::*;
use crate::pattern::{regex_replace_all, replace_all};
use crate::slug::{politician_ref_key_chars, ref_key};
use crate::text::{
    chars_eq, chars_of, collapse_ws, collapse_ws_exec, concat, decimal, eq_ignore_ascii_case,
    eq_ignore_case, i64_to_chars, lowercase, nat_digits, parse_u64, parse_u64_spec, remove_char,
    remove_char_exec, replace, replace_exec, string_of, strings_view, to_lowercase, trim, trim_exec,
    u64_digits,
};

verus! {

/// The Civix races page.
pub const CIVIX_RACES_URL: &'static str = "https://goelect.txelections.civixapps.com/ivis-enr-ui/races";

/// The election option of the Republican primary.
pub const ELECTION_REPUBLICAN_PRIMARY: &'static str = "2026 Republican Primary Election";

/// The election option of the Democratic primary.
pub const ELECTION_DEMOCRATIC_PRIMARY: &'static str = "2026 Democratic Primary Election";

/// The text of the election dropdown before an election is chosen.
pub const DROPDOWN_IDENTIFIER_FIRST: &'static str = "Select Election";

/// The source file recorded for the scraped rows.
pub const CIVIX_SOURCE_FILE: &'static str = "SOS Civix website scrape";

/// Directory of the scraped results, under the scrapers crate.
pub const TX_SOS_DATA_DIR: &'static str = "data/tx/sos";

/// The CSV the scraped results are written to.
pub const OUTPUT_CSV: &'static str = "sos-results-fed-rep.csv";

/// Removed from race texts (any case).
pub const RE_NORMALIZE_RACE_STAR: &'static str = r"(?i)star_rate";

/// Removed from race texts (any case).
pub const RE_NORMALIZE_RACE_CLICK: &'static str = r"(?i)click for contest details";

/// The tabs scraped, in order.
pub open spec fn tab_labels() -> Seq<Seq<char>> {
    seq!["Federal Offices"@, "Statewide Offices"@, "District Offices"@, "Statewide Propositions"@]
}

/// The tabs scraped, in order.
pub fn tab_labels_exec() -> (r: Vec<String>)
    ensures
        strings_view(r@) == tab_labels(),
{
    let v = vec![
        String::from_str("Federal Offices"),
        String::from_str("Statewide Offices"),
        String::from_str("District Offices"),
        String::from_str("Statewide Propositions"),
    ];
    assert(strings_view(v@) =~= tab_labels());
    v
}

/// A vote count: thousands separators removed, trimmed, parsed; 0 where
/// it does not parse.
pub open spec fn votes_of(s: Seq<char>) -> u64 {
    match parse_u64_spec(trim(remove_char(s, ','))) {
        Some(v) => v,
        None => 0,
    }
}

/// A vote count of a table cell.
pub fn parse_votes(s: &str) -> (r: u64)
    ensures
        r == votes_of(s@),
{
    match parse_u64(&trim_exec(&remove_char_exec(&chars_of(s), ','))) {
        Some(v) => v,
        None => 0,
    }
}

/// A candidate's name without the incumbent mark "(I)", with single spaces.
pub open spec fn normalized_choice(s: Seq<char>) -> Seq<char> {
    trim(collapse_ws(replace(s, "(I)"@, seq![])))
}

/// A candidate's name without the incumbent mark and with single spaces.
pub fn normalize_choice(s: &str) -> (r: String)
    ensures
        r@ == normalized_choice(s@),
{
    let mark = chars_of("(I)");
    proof {
        reveal_strlit("(I)");
    }
    let t = replace_exec(&chars_of(s), &mark, &Vec::new());
    string_of(trim_exec(&collapse_ws_exec(&t)).as_slice())
}

/// A race's text without the page's "star_rate" and "click for contest
/// details" (any case), with single spaces.
pub open spec fn normalized_race(s: Seq<char>) -> Seq<char> {
    trim(collapse_ws(regex_replace_all(RE_NORMALIZE_RACE_CLICK@, regex_replace_all(RE_NORMALIZE_RACE_STAR@, s, ""@), ""@)))
}

/// A race's text, cleaned of the page's decorations.
pub fn normalize_race(s: &str) -> (r: String)
    ensures
        r@ == normalized_race(s@),
{
    let a = replace_all(RE_NORMALIZE_RACE_STAR, chars_of(s).as_slice(), "");
    let b = replace_all(RE_NORMALIZE_RACE_CLICK, a.as_slice(), "");
    string_of(trim_exec(&collapse_ws_exec(&b)).as_slice())
}

/// A text trimmed, its newlines made spaces, with single spaces.
pub open spec fn normalized_for_match(s: Seq<char>) -> Seq<char> {
    collapse_ws(replace(trim(s), "\n"@, " "@))
}

/// A text as it is compared with the page's option texts.
pub fn normalize_for_match(s: &str) -> (r: String)
    ensures
        r@ == normalized_for_match(s@),
{
    proof {
        reveal_strlit("\n");
    }
    let t = replace_exec(&trim_exec(&chars_of(s)), &chars_of("\n"), &chars_of(" "));
    string_of(collapse_ws_exec(&t).as_slice())
}

/// A tab's text as it is compared with the labels: normalized and lowercased.
pub fn normalize_tab_text(s: &str) -> (r: String)
    ensures
        r@ == lowercase(normalized_for_match(s@)),
{
    let n = normalize_for_match(s);
    string_of(to_lowercase(chars_of(n.as_str()).as_slice()).as_slice())
}

/// A party as staged: "R" is "REP", "D" is "DEM", anything else trimmed.
pub open spec fn staged_party(p: Seq<char>) -> Seq<char> {
    if trim(p) == "R"@ {
        "REP"@
    } else if trim(p) == "D"@ {
        "DEM"@
    } else {
        trim(p)
    }
}

/// The party of a scraped row as staged.
pub fn party_for_staging(party: &str) -> (r: String)
    ensures
        r@ == staged_party(party@),
{
    let t = trim_exec(&chars_of(party));
    if chars_eq(&t, &chars_of("R")) {
        String::from_str("REP")
    } else if chars_eq(&t, &chars_of("D")) {
        String::from_str("DEM")
    } else {
        string_of(t.as_slice())
    }
}

/// One scraped result.
pub struct ResultRow {
    pub ref_key: String,
    pub race: String,
    pub choice: String,
    pub party: String,
    pub early_votes: u64,
    pub votes_for_candidate: u64,
    pub total_votes: u64,
    pub vote_pct: String,
}

pub ghost struct ResultView {
    pub ref_key: Seq<char>,
    pub race: Seq<char>,
    pub choice: Seq<char>,
    pub party: Seq<char>,
    pub early_votes: u64,
    pub votes_for_candidate: u64,
    pub total_votes: u64,
    pub vote_pct: Seq<char>,
}

impl ResultRow {
    pub open spec fn view(&self) -> ResultView {
        ResultView {
            ref_key: self.ref_key@,
            race: self.race@,
            choice: self.choice@,
            party: self.party@,
            early_votes: self.early_votes,
            votes_for_candidate: self.votes_for_candidate,
            total_votes: self.total_votes,
            vote_pct: self.vote_pct@,
        }
    }
}

/// A table row (race text, then the cells) that gives a race's total: five
/// cells whose third is "Race Total" (trimmed, any ASCII case).
pub open spec fn race_total_row(row: Seq<Seq<char>>) -> Option<(Seq<char>, u64)> {
    if row.len() <= 2 || normalized_race(row[0]).len() == 0 {
        None
    } else if row.len() == 5 && eq_ignore_case(trim(row[2]), "Race Total"@) {
        Some((normalized_race(row[0]), votes_of(row[3])))
    } else {
        None
    }
}

/// A table row that gives a candidate's result (with no total yet): at
/// least five cells, a race and a candidate.
pub open spec fn candidate_row(row: Seq<Seq<char>>) -> Option<ResultView> {
    if row.len() <= 2 || normalized_race(row[0]).len() == 0 || race_total_row(row) is Some || row.len() < 5
        || normalized_choice(row[1]).len() == 0 {
        None
    } else {
        let race = normalized_race(row[0]);
        let choice = normalized_choice(row[1]);
        Some(
            ResultView {
                ref_key: ref_key("tx-primaries"@, decimal(2026), race, Some(choice)),
                race,
                choice,
                party: trim(row[2]),
                early_votes: votes_of(row[3]),
                votes_for_candidate: votes_of(row[4]),
                total_votes: 0,
                vote_pct: if row.len() > 5 {
                    trim(row[5])
                } else {
                    seq![]
                },
            },
        )
    }
}

/// The candidates' results of the rows, in order.
pub open spec fn candidate_rows(rows: Seq<Seq<Seq<char>>>) -> Seq<ResultView>
    decreases rows.len(),
{
    if rows.len() == 0 {
        seq![]
    } else {
        match candidate_row(rows.last()) {
            Some(r) => candidate_rows(rows.drop_last()).push(r),
            None => candidate_rows(rows.drop_last()),
        }
    }
}

/// The total that the last "Race Total" row of `race` gives.
pub open spec fn race_total_of(rows: Seq<Seq<Seq<char>>>, race: Seq<char>) -> Option<u64>
    decreases rows.len(),
{
    if rows.len() == 0 {
        None
    } else {
        match race_total_row(rows.last()) {
            Some((r, t)) => if r == race {
                Some(t)
            } else {
                race_total_of(rows.drop_last(), race)
            },
            None => race_total_of(rows.drop_last(), race),
        }
    }
}

/// The sum of the candidates' votes in `race`.
pub open spec fn race_votes(results: Seq<ResultView>, race: Seq<char>) -> int
    decreases results.len(),
{
    if results.len() == 0 {
        0
    } else {
        race_votes(results.drop_last(), race) + if results.last().race == race {
            results.last().votes_for_candidate as int
        } else {
            0
        }
    }
}

/// A race's total votes: its "Race Total", or where it has none (or it is
/// zero) the sum of its candidates' votes.
pub open spec fn race_total_votes(rows: Seq<Seq<Seq<char>>>, race: Seq<char>) -> int {
    match race_total_of(rows, race) {
        Some(t) => if t != 0 {
            t as int
        } else {
            race_votes(candidate_rows(rows), race)
        },
        None => race_votes(candidate_rows(rows), race),
    }
}

/// The rows' results with each race's total votes.
pub open spec fn result_rows(rows: Seq<Seq<Seq<char>>>) -> Seq<ResultView> {
    candidate_rows(rows).map_values(
        |r: ResultView| ResultView { total_votes: race_total_votes(rows, r.race) as u64, ..r },
    )
}

/// Each race whose total is a sum has a sum that fits in 64 bits.
pub open spec fn sums_fit(rows: Seq<Seq<Seq<char>>>) -> bool {
    forall|i: int|
        0 <= i < candidate_rows(rows).len() ==> race_total_votes(rows, #[trigger] candidate_rows(rows)[i].race)
            <= u64::MAX
}

fn race_total_row_exec(row: &Vec<String>) -> (r: Option<(String, u64)>)
    ensures
        match r {
            Some((race, t)) => race_total_row(strings_view(row@)) == Some((race@, t)),
            None => race_total_row(strings_view(row@)) is None,
        },
{
    let ghost rv = strings_view(row@);
    if row.len() <= 2 {
        return None;
    }
    assert(rv[0] == row@[0]@);
    let race = normalize_race(row[0].as_str());
    if chars_of(race.as_str()).len() == 0 {
        return None;
    }
    if row.len() == 5 {
        assert(rv[2] == row@[2]@);
        assert(rv[3] == row@[3]@);
        if eq_ignore_ascii_case(&trim_exec(&chars_of(row[2].as_str())), &chars_of("Race Total")) {
            return Some((race, parse_votes(row[3].as_str())));
        }
    }
    None
}

fn candidate_row_exec(row: &Vec<String>) -> (r: Option<ResultRow>)
    ensures
        match r {
            Some(x) => candidate_row(strings_view(row@)) == Some(x@),
            None => candidate_row(strings_view(row@)) is None,
        },
{
    let ghost rv = strings_view(row@);
    if row.len() <= 2 {
        return None;
    }
    if race_total_row_exec(row).is_some() {
        return None;
    }
    assert(rv[0] == row@[0]@);
    let race = normalize_race(row[0].as_str());
    if chars_of(race.as_str()).len() == 0 || row.len() < 5 {
        return None;
    }
    assert(rv[1] == row@[1]@);
    let choice = normalize_choice(row[1].as_str());
    if chars_of(choice.as_str()).len() == 0 {
        return None;
    }
    assert(rv[2] == row@[2]@);
    assert(rv[3] == row@[3]@);
    assert(rv[4] == row@[4]@);
    let vote_pct = if row.len() > 5 {
        assert(rv[5] == row@[5]@);
        string_of(trim_exec(&chars_of(row[5].as_str())).as_slice())
    } else {
        String::new()
    };
    let c = chars_of(choice.as_str());
    let key = politician_ref_key_chars(&chars_of("tx-primaries"), &i64_to_chars(2026), &chars_of(race.as_str()), Some(&c));
    Some(ResultRow {
        ref_key: string_of(key.as_slice()),
        race,
        choice,
        party: string_of(trim_exec(&chars_of(row[2].as_str())).as_slice()),
        early_votes: parse_votes(row[3].as_str()),
        votes_for_candidate: parse_votes(row[4].as_str()),
        total_votes: 0,
        vote_pct,
    })
}

fn string_eq(a: &String, b: &String) -> (r: bool)
    ensures
        r == (a@ == b@),
{
    chars_eq(&chars_of(a.as_str()), &chars_of(b.as_str()))
}

pub open spec fn table_view(rows: Seq<Vec<String>>) -> Seq<Seq<Seq<char>>> {
    rows.map_values(|r: Vec<String>| strings_view(r@))
}

pub open spec fn results_view(rows: Seq<ResultRow>) -> Seq<ResultView> {
    rows.map_values(|r: ResultRow| r@)
}

fn race_total_exec(rows: &Vec<Vec<String>>, race: &String) -> (r: Option<u64>)
    ensures
        r == race_total_of(table_view(rows@), race@),
{
    let ghost tv = table_view(rows@);
    let mut k: usize = rows.len();
    assert(tv.take(k as int) =~= tv);
    while k > 0
        invariant
            k <= rows.len(),
            tv == table_view(rows@),
            race_total_of(tv.take(k as int), race@) == race_total_of(tv, race@),
        decreases k,
    {
        assert(tv.take(k as int).drop_last() =~= tv.take(k - 1));
        assert(tv.take(k as int).last() == strings_view(rows@[k - 1]@));
        match race_total_row_exec(&rows[k - 1]) {
            Some((r, t)) => {
                if string_eq(&r, race) {
                    return Some(t);
                }
            },
            None => {},
        }
        k = k - 1;
    }
    None
}

proof fn lemma_race_votes_le(results: Seq<ResultView>, race: Seq<char>, k: int)
    requires
        0 <= k <= results.len(),
    ensures
        0 <= race_votes(results.take(k), race) <= race_votes(results, race),
    decreases results.len(),
{
    if k < results.len() {
        assert(results.drop_last().take(k) =~= results.take(k));
        lemma_race_votes_le(results.drop_last(), race, k);
    } else {
        assert(results.take(k) =~= results);
        lemma_race_votes_nonneg(results, race);
    }
}

proof fn lemma_race_votes_nonneg(results: Seq<ResultView>, race: Seq<char>)
    ensures
        race_votes(results, race) >= 0,
    decreases results.len(),
{
    if results.len() > 0 {
        lemma_race_votes_nonneg(results.drop_last(), race);
    }
}

fn race_votes_exec(results: &Vec<ResultRow>, race: &String) -> (r: u64)
    requires
        race_votes(results_view(results@), race@) <= u64::MAX,
    ensures
        r == race_votes(results_view(results@), race@),
{
    let ghost rv = results_view(results@);
    let mut sum: u64 = 0;
    let mut k: usize = 0;
    assert(rv.take(0) =~= Seq::<ResultView>::empty());
    while k < results.len()
        invariant
            k <= results.len(),
            rv == results_view(results@),
            race_votes(rv, race@) <= u64::MAX,
            sum == race_votes(rv.take(k as int), race@),
        decreases results.len() - k,
    {
        assert(rv.take(k + 1).drop_last() =~= rv.take(k as int));
        assert(rv.take(k + 1).last() == results@[k as int]@);
        proof {
            lemma_race_votes_le(rv, race@, k + 1);
        }
        if string_eq(&results[k].race, race) {
            sum = sum + results[k].votes_for_candidate;
        }
        k = k + 1;
    }
    assert(rv.take(results.len() as int) =~= rv);
    sum
}

/// The result rows of the scraped table rows (each: the race text, then
/// the row's cells): one per candidate row, with its race's total votes
/// (the race's "Race Total", or the sum of its candidates' votes).
pub fn parse_table_rows_to_result_rows(table_rows: &Vec<Vec<String>>) -> (r: Vec<ResultRow>)
    requires
        sums_fit(table_view(table_rows@)),
    ensures
        results_view(r@) == result_rows(table_view(table_rows@)),
{
    let ghost tv = table_view(table_rows@);
    let mut cands: Vec<ResultRow> = Vec::new();
    let mut k: usize = 0;
    assert(tv.take(0) =~= Seq::<Seq<Seq<char>>>::empty());
    assert(results_view(cands@) =~= Seq::<ResultView>::empty());
    while k < table_rows.len()
        invariant
            k <= table_rows.len(),
            tv == table_view(table_rows@),
            results_view(cands@) == candidate_rows(tv.take(k as int)),
        decreases table_rows.len() - k,
    {
        assert(tv.take(k + 1).drop_last() =~= tv.take(k as int));
        assert(tv.take(k + 1).last() == strings_view(table_rows@[k as int]@));
        match candidate_row_exec(&table_rows[k]) {
            Some(row) => {
                let ghost before = cands@;
                cands.push(row);
                proof {
                    assert(results_view(cands@) =~= results_view(before).push(row@));
                }
            },
            None => {},
        }
        k = k + 1;
    }
    assert(tv.take(table_rows.len() as int) =~= tv);
    let ghost cv = results_view(cands@);
    let mut out: Vec<ResultRow> = Vec::new();
    let mut i: usize = 0;
    while i < cands.len()
        invariant
            i <= cands.len(),
            tv == table_view(table_rows@),
            cv == results_view(cands@),
            cv == candidate_rows(tv),
            sums_fit(tv),
            results_view(out@) == result_rows(tv).take(i as int),
        decreases cands.len() - i,
    {
        let c = &cands[i];
        assert(cv[i as int] == c@);
        assert(race_total_votes(tv, cv[i as int].race) <= u64::MAX);
        let total = match race_total_exec(table_rows, &c.race) {
            Some(t) => if t != 0 {
                t
            } else {
                race_votes_exec(&cands, &c.race)
            },
            None => race_votes_exec(&cands, &c.race),
        };
        let row = ResultRow {
            ref_key: c.ref_key.clone(),
            race: c.race.clone(),
            choice: c.choice.clone(),
            party: c.party.clone(),
            early_votes: c.early_votes,
            votes_for_candidate: c.votes_for_candidate,
            total_votes: total,
            vote_pct: c.vote_pct.clone(),
        };
        let ghost before = out@;
        out.push(row);
        proof {
            assert(results_view(out@) =~= results_view(before).push(row@));
            assert(result_rows(tv).take(i + 1) =~= result_rows(tv).take(i as int).push(result_rows(tv)[i as int]));
        }
        i = i + 1;
    }
    assert(result_rows(tv).take(cands.len() as int) =~= result_rows(tv));
    out
}

/// The header of the results CSV.
pub open spec fn results_csv_header() -> Seq<Seq<char>> {
    seq!["ref_key"@, "Race"@, "Choice"@, "Party"@, "early_votes"@, "votes_for_candidate"@, "total_votes"@, "vote_pct"@]
}

/// The CSV record of a result.
pub open spec fn result_record(r: ResultView) -> Seq<Seq<char>> {
    seq![
        r.ref_key,
        r.race,
        r.choice,
        r.party,
        nat_digits(r.early_votes as nat),
        nat_digits(r.votes_for_candidate as nat),
        nat_digits(r.total_votes as nat),
        r.vote_pct,
    ]
}

/// The records of the results CSV: the header, then one per result.
pub fn results_csv_records(rows: &Vec<ResultRow>) -> (r: Vec<Vec<String>>)
    ensures
        table_view(r@) == seq![results_csv_header()] + results_view(rows@).map_values(|x: ResultView| result_record(x)),
{
    let mut out: Vec<Vec<String>> = Vec::new();
    let header = vec![
        String::from_str("ref_key"),
        String::from_str("Race"),
        String::from_str("Choice"),
        String::from_str("Party"),
        String::from_str("early_votes"),
        String::from_str("votes_for_candidate"),
        String::from_str("total_votes"),
        String::from_str("vote_pct"),
    ];
    assert(strings_view(header@) =~= results_csv_header());
    out.push(header);
    let ghost rv = results_view(rows@);
    let mut k: usize = 0;
    while k < rows.len()
        invariant
            k <= rows.len(),
            rv == results_view(rows@),
            table_view(out@) == seq![results_csv_header()] + rv.take(k as int).map_values(|x: ResultView| result_record(x)),
        decreases rows.len() - k,
    {
        let r = &rows[k];
        let rec = vec![
            r.ref_key.clone(),
            r.race.clone(),
            r.choice.clone(),
            r.party.clone(),
            string_of(u64_digits(r.early_votes).as_slice()),
            string_of(u64_digits(r.votes_for_candidate).as_slice()),
            string_of(u64_digits(r.total_votes).as_slice()),
            r.vote_pct.clone(),
        ];
        assert(rv[k as int] == r@);
        assert(strings_view(rec@) =~= result_record(r@));
        let ghost before = out@;
        out.push(rec);
        proof {
            assert(table_view(out@) =~= table_view(before).push(strings_view(rec@)));
            assert(rv.take(k + 1).map_values(|x: ResultView| result_record(x)) =~= rv.take(k as int).map_values(
                |x: ResultView| result_record(x),
            ).push(result_record(rv[k as int])));
        }
        k = k + 1;
    }
    assert(rv.take(rows.len() as int) =~= rv);
    out
}

} // verus!
