//! Hart/CIRA "Cumulative Results" PDFs of Texas counties. The text that
//! `pdf_extract` gives is read line by line into races, choices, parties and
//! per-column (votes, percent) pairs; the columns are named by the header line.
use vstd::prelude::*;
use crate::pattern::{
    captures, captures_all, find, find_all, groups_view, is_match, regex_captures,
    regex_captures_all, regex_find, regex_find_all, regex_is_match, regex_replace_all, replace_all,
};
use crate::text::{
    char_lowercase, char_to_lowercase, char_to_uppercase, char_uppercase, chars_eq, chars_of,
    chars_view, concat, contains, contains_exec, eq_ignore_ascii_case, eq_ignore_case,
    first_index, first_index_exec, lines, lines_exec, lowercase, occurs_at, occurs_at_exec,
    remove_char, remove_char_exec, slice_chars, starts_with_digit, string_of, strings_of,
    strings_view, to_lowercase, trim,
    trim_end_char, trim_end_char_exec, trim_exec, words, words_exec,
};

verus! {

/// One (votes, percent) pair.
pub const VOTE_PAIR_RE: &'static str = r"([\d,]+)\s*([\d.]+%?)";

/// One number per column, for summary lines without percents.
pub const VOTE_VALUE_RE: &'static str = r"([\d,]+(?:\.\d*)?)";

/// A space between a letter and a following lowercase letter ("Jo ann").
pub const NAME_GAP_RE: &'static str = r"([A-Za-z]) ([a-z])";

/// A space after a "Mc" prefix, before the capital that follows it
/// ("Mc Donald").
pub const MC_GAP_RE: &'static str = r"\bMc ([A-Z])";

/// The (votes, percent) pair of each match of [`VOTE_PAIR_RE`] in `caps`.
pub open spec fn vote_pairs_of(caps: Seq<Seq<Option<Seq<char>>>>) -> Seq<(Seq<char>, Seq<char>)>
    decreases caps.len(),
{
    if caps.len() == 0 {
        seq![]
    } else {
        let p = vote_pairs_of(caps.drop_last());
        match (opt_group(caps.last(), 1), opt_group(caps.last(), 2)) {
            (Some(v), Some(q)) => p.push((v, q)),
            _ => p,
        }
    }
}

/// Capture group `i`, when it took part in the match.
pub open spec fn opt_group(g: Seq<Option<Seq<char>>>, i: int) -> Option<Seq<char>> {
    if 0 <= i < g.len() {
        g[i]
    } else {
        None
    }
}

/// Capture group `i`, or the empty string.
pub open spec fn group_or_empty(g: Seq<Option<Seq<char>>>, i: int) -> Seq<char> {
    match opt_group(g, i) {
        Some(t) => t,
        None => seq![],
    }
}

/// The (votes, percent) pairs of a line tail, left to right.
pub open spec fn vote_pairs(tail: Seq<char>) -> Seq<(Seq<char>, Seq<char>)> {
    vote_pairs_of(regex_captures_all(VOTE_PAIR_RE@, tail))
}

pub open spec fn pairs_view(p: Seq<(Vec<char>, Vec<char>)>) -> Seq<(Seq<char>, Seq<char>)> {
    p.map_values(|x: (Vec<char>, Vec<char>)| (x.0@, x.1@))
}

pub open spec fn string_pairs_view(p: Seq<(String, String)>) -> Seq<(Seq<char>, Seq<char>)> {
    p.map_values(|x: (String, String)| (x.0@, x.1@))
}

fn group_exec(g: &Vec<Option<Vec<char>>>, i: usize) -> (r: Option<Vec<char>>)
    ensures
        match r {
            Some(t) => opt_group(groups_view(g@), i as int) == Some(t@),
            None => opt_group(groups_view(g@), i as int) is None,
        },
{
    if i < g.len() {
        match &g[i] {
            Some(t) => Some(t.clone()),
            None => None,
        }
    } else {
        None
    }
}

fn group_or_empty_exec(g: &Vec<Option<Vec<char>>>, i: usize) -> (r: Vec<char>)
    ensures
        r@ == group_or_empty(groups_view(g@), i as int),
{
    match group_exec(g, i) {
        Some(t) => t,
        None => Vec::new(),
    }
}

/// Every (votes, percent) pair in a line tail, left to right.
fn parse_vote_pairs(tail: &Vec<char>) -> (r: Vec<(Vec<char>, Vec<char>)>)
    ensures
        pairs_view(r@) == vote_pairs(tail@),
{
    let caps = captures_all(VOTE_PAIR_RE, tail.as_slice());
    let ghost cv = caps@.map_values(|g: Vec<Option<Vec<char>>>| groups_view(g@));
    let mut out: Vec<(Vec<char>, Vec<char>)> = Vec::new();
    let mut i: usize = 0;
    assert(cv.take(0) == Seq::<Seq<Option<Seq<char>>>>::empty());
    assert(pairs_view(out@) == Seq::<(Seq<char>, Seq<char>)>::empty());
    while i < caps.len()
        invariant
            i <= caps.len(),
            cv == caps@.map_values(|g: Vec<Option<Vec<char>>>| groups_view(g@)),
            pairs_view(out@) == vote_pairs_of(cv.take(i as int)),
        decreases caps.len() - i,
    {
        proof {
            assert(cv.take(i + 1).drop_last() == cv.take(i as int));
            assert(cv.take(i + 1).last() == groups_view(caps@[i as int]@));
        }
        let v = group_exec(&caps[i], 1);
        let q = group_exec(&caps[i], 2);
        match (v, q) {
            (Some(v), Some(q)) => {
                out.push((v, q));
                proof {
                    assert(pairs_view(out@) == vote_pairs_of(cv.take(i + 1)));
                }
            },
            _ => {},
        }
        i = i + 1;
    }
    assert(cv.take(caps.len() as int) == cv);
    out
}

/// Every number in a line tail, left to right (one per column).
fn parse_vote_values_single(tail: &Vec<char>) -> (r: Vec<Vec<char>>)
    ensures
        chars_view(r@) == regex_find_all(VOTE_VALUE_RE@, tail@),
{
    find_all(VOTE_VALUE_RE, tail.as_slice())
}

/// A name with the gaps that PDF text extraction leaves inside a name
/// closed, then trimmed: the space between a letter and a following
/// lowercase letter ("Jo ann" becomes "Joann"), and the space after a "Mc"
/// prefix ("Mc Donald" becomes "McDonald").
pub open spec fn cleaned_name(name: Seq<char>) -> Seq<char> {
    trim(regex_replace_all(MC_GAP_RE@, regex_replace_all(NAME_GAP_RE@, name, "$1$2"@), "Mc$1"@))
}

fn clean_name(name: &Vec<char>) -> (r: Vec<char>)
    ensures
        r@ == cleaned_name(name@),
{
    let t = replace_all(NAME_GAP_RE, name.as_slice(), "$1$2");
    let t = replace_all(MC_GAP_RE, t.as_slice(), "Mc$1");
    trim_exec(&t)
}

/// One parsed choice of a race.
pub struct ParsedRow {
    pub race: String,
    pub choice: String,
    pub party: String,
    pub total_votes: String,
    pub total_pct: String,
    /// The (votes, percent) pair of each output column, in column order.
    pub column_pairs: Vec<(String, String)>,
    pub precincts_counted: String,
    pub precincts_total: String,
    pub precincts_pct: String,
}

pub ghost struct ParsedRowView {
    pub race: Seq<char>,
    pub choice: Seq<char>,
    pub party: Seq<char>,
    pub total_votes: Seq<char>,
    pub total_pct: Seq<char>,
    pub column_pairs: Seq<(Seq<char>, Seq<char>)>,
    pub precincts_counted: Seq<char>,
    pub precincts_total: Seq<char>,
    pub precincts_pct: Seq<char>,
}

impl ParsedRow {
    pub open spec fn view(&self) -> ParsedRowView {
        ParsedRowView {
            race: self.race@,
            choice: self.choice@,
            party: self.party@,
            total_votes: self.total_votes@,
            total_pct: self.total_pct@,
            column_pairs: string_pairs_view(self.column_pairs@),
            precincts_counted: self.precincts_counted@,
            precincts_total: self.precincts_total@,
            precincts_pct: self.precincts_pct@,
        }
    }
}

/// The first position of `x` in `s`.
pub open spec fn position_of(s: Seq<Seq<char>>, x: Seq<char>) -> Option<int>
    decreases s.len(),
{
    if s.len() == 0 {
        None
    } else {
        match position_of(s.drop_last(), x) {
            Some(i) => Some(i),
            None => if s.last() == x {
                Some(s.len() - 1)
            } else {
                None
            },
        }
    }
}

/// The pair of output column `i`: the PDF column that `col_indices` gives
/// for it (or `i` itself), with the thousands separators taken out of the
/// votes; two empty strings when the line has no such column.
pub open spec fn column_pair(
    col_indices: Seq<int>,
    pairs: Seq<(Seq<char>, Seq<char>)>,
    i: int,
) -> (Seq<char>, Seq<char>) {
    let idx = if i < col_indices.len() {
        col_indices[i]
    } else {
        i
    };
    if 0 <= idx < pairs.len() {
        (remove_char(pairs[idx].0, ','), pairs[idx].1)
    } else {
        (seq![], seq![])
    }
}

/// The party of a row: the given one, or else REP / DEM when the race name
/// names the Republican or Democratic party.
pub open spec fn row_party(race: Seq<char>, party: Seq<char>) -> Seq<char> {
    if party.len() == 0 {
        if contains(lowercase(race), "republican party"@) {
            "REP"@
        } else if contains(lowercase(race), "democratic party"@) {
            "DEM"@
        } else {
            seq![]
        }
    } else {
        party
    }
}

/// The row of one choice line.
pub open spec fn make_row_spec(
    race: Seq<char>,
    col_order: Seq<Seq<char>>,
    col_indices: Seq<int>,
    choice: Seq<char>,
    party: Seq<char>,
    pairs: Seq<(Seq<char>, Seq<char>)>,
    precincts_counted: Seq<char>,
    precincts_total: Seq<char>,
    precincts_pct: Seq<char>,
) -> ParsedRowView {
    let cp = Seq::new(col_order.len(), |i: int| column_pair(col_indices, pairs, i));
    let tot = match position_of(col_order, "Total"@) {
        Some(i) => cp[i],
        None => (seq![], seq![]),
    };
    ParsedRowView {
        race,
        choice,
        party: row_party(race, party),
        total_votes: tot.0,
        total_pct: tot.1,
        column_pairs: cp,
        precincts_counted,
        precincts_total,
        precincts_pct,
    }
}

proof fn lemma_position_of(s: Seq<Seq<char>>, x: Seq<char>, i: int)
    requires
        0 <= i < s.len(),
        s[i] == x,
        forall|k: int| 0 <= k < i ==> s[k] != x,
    ensures
        position_of(s, x) == Some(i),
    decreases s.len(),
{
    if i < s.len() - 1 {
        assert(s.drop_last()[i] == x);
        lemma_position_of(s.drop_last(), x, i);
    } else {
        lemma_position_none(s.drop_last(), x);
    }
}

proof fn lemma_position_none(s: Seq<Seq<char>>, x: Seq<char>)
    requires
        forall|k: int| 0 <= k < s.len() ==> s[k] != x,
    ensures
        position_of(s, x) is None,
    decreases s.len(),
{
    if s.len() > 0 {
        assert(s.last() == s[s.len() - 1]);
        lemma_position_none(s.drop_last(), x);
    }
}

fn position_of_exec(s: &Vec<Vec<char>>, x: &Vec<char>) -> (r: Option<usize>)
    ensures
        match r {
            Some(i) => position_of(chars_view(s@), x@) == Some(i as int) && i < s.len(),
            None => position_of(chars_view(s@), x@) is None,
        },
{
    let ghost sv = chars_view(s@);
    let mut i: usize = 0;
    while i < s.len()
        invariant
            i <= s.len(),
            sv == chars_view(s@),
            forall|k: int| 0 <= k < i ==> sv[k] != x@,
        decreases s.len() - i,
    {
        if chars_eq(&s[i], x) {
            proof {
                lemma_position_of(sv, x@, i as int);
            }
            return Some(i);
        }
        i = i + 1;
    }
    proof {
        lemma_position_none(sv, x@);
    }
    None
}

fn row_party_exec(race: &Vec<char>, party: &Vec<char>) -> (r: Vec<char>)
    ensures
        r@ == row_party(race@, party@),
{
    if party.len() == 0 {
        let lower = to_lowercase(race.as_slice());
        if contains_exec(&lower, &chars_of("republican party")) {
            chars_of("REP")
        } else if contains_exec(&lower, &chars_of("democratic party")) {
            chars_of("DEM")
        } else {
            Vec::new()
        }
    } else {
        party.clone()
    }
}

fn make_row(
    race: &Vec<char>,
    col_order: &Vec<Vec<char>>,
    col_indices: &Vec<usize>,
    choice: &Vec<char>,
    party: &Vec<char>,
    pairs: &Vec<(Vec<char>, Vec<char>)>,
    precincts_counted: &Vec<char>,
    precincts_total: &Vec<char>,
    precincts_pct: &Vec<char>,
) -> (r: ParsedRow)
    ensures
        r@ == make_row_spec(
            race@,
            chars_view(col_order@),
            col_indices@.map_values(|i: usize| i as int),
            choice@,
            party@,
            pairs_view(pairs@),
            precincts_counted@,
            precincts_total@,
            precincts_pct@,
        ),
{
    let ghost ix = col_indices@.map_values(|i: usize| i as int);
    let ghost pv = pairs_view(pairs@);
    let ghost cp = Seq::new(col_order@.len(), |i: int| column_pair(ix, pv, i));
    let mut column_pairs: Vec<(String, String)> = Vec::new();
    let mut i: usize = 0;
    while i < col_order.len()
        invariant
            i <= col_order.len(),
            ix == col_indices@.map_values(|i: usize| i as int),
            pv == pairs_view(pairs@),
            cp == Seq::new(col_order@.len(), |i: int| column_pair(ix, pv, i)),
            string_pairs_view(column_pairs@) == cp.take(i as int),
        decreases col_order.len() - i,
    {
        let idx = if i < col_indices.len() {
            col_indices[i]
        } else {
            i
        };
        let pair = if idx < pairs.len() {
            (string_of(remove_char_exec(&pairs[idx].0, ',').as_slice()), string_of(pairs[idx].1.as_slice()))
        } else {
            (String::new(), String::new())
        };
        proof {
            if i < col_indices.len() {
                assert(ix[i as int] == idx as int);
            }
            if idx < pairs.len() {
                assert(pv[idx as int] == (pairs@[idx as int].0@, pairs@[idx as int].1@));
            }
            assert((pair.0@, pair.1@) == cp[i as int]);
        }
        let ghost before = column_pairs@;
        column_pairs.push(pair);
        proof {
            assert(column_pairs@ == before.push(pair));
            assert(string_pairs_view(column_pairs@) =~= string_pairs_view(before).push(cp[i as int]));
            assert(cp.take(i + 1) =~= cp.take(i as int).push(cp[i as int]));
        }
        i = i + 1;
    }
    assert(cp.take(col_order.len() as int) == cp);
    let total = chars_of("Total");
    let (tot_v, tot_p) = match position_of_exec(col_order, &total) {
        Some(k) => (column_pairs[k].0.clone(), column_pairs[k].1.clone()),
        None => (String::new(), String::new()),
    };
    let party_text = row_party_exec(race, party);
    ParsedRow {
        race: string_of(race.as_slice()),
        choice: string_of(choice.as_slice()),
        party: string_of(party_text.as_slice()),
        total_votes: tot_v,
        total_pct: tot_p,
        column_pairs,
        precincts_counted: string_of(precincts_counted.as_slice()),
        precincts_total: string_of(precincts_total.as_slice()),
        precincts_pct: string_of(precincts_pct.as_slice()),
    }
}


/// The smaller of two optional positions.
pub open spec fn min_opt(a: Option<int>, b: Option<int>) -> Option<int> {
    match (a, b) {
        (Some(x), Some(y)) => Some(if x <= y { x } else { y }),
        (Some(x), None) => Some(x),
        (None, y) => y,
    }
}

/// Where the "Ballot by Mail" column begins in a lowercased header: the
/// leftmost of its phrases' first occurrences.
pub open spec fn ballot_by_mail_pos(h: Seq<char>) -> Option<int> {
    min_opt(
        min_opt(first_index(h, "ballot by mail"@), first_index(h, "absentee voting"@)),
        first_index(h, "absentee"@),
    )
}

/// What begins at position `k` of a lowercased header: a named column
/// (`Some(Some(name))`), a column that is skipped (`Some(None)`: each
/// occurrence of "limited" or "provisional"), or nothing.
pub open spec fn column_entry_at(h: Seq<char>, k: int) -> Option<Option<Seq<char>>> {
    if ballot_by_mail_pos(h) == Some(k) {
        Some(Some("Ballot by Mail"@))
    } else if first_index(h, "election day"@) == Some(k) {
        Some(Some("Election Day Voting"@))
    } else if first_index(h, "early voting"@) == Some(k) {
        Some(Some("Early Voting"@))
    } else if first_index(h, "total"@) == Some(k) {
        Some(Some("Total"@))
    } else if occurs_at(h, "limited"@, k) || occurs_at(h, "provisional"@, k) {
        Some(None)
    } else {
        None
    }
}

/// The named columns that begin before position `k`, in header order, the
/// index of each among all columns (skipped ones included), and the number
/// of columns so far.
pub open spec fn column_scan(h: Seq<char>, k: nat) -> (Seq<Seq<char>>, Seq<int>, int)
    decreases k,
{
    if k == 0 {
        (seq![], seq![], 0)
    } else {
        let (order, indices, n) = column_scan(h, (k - 1) as nat);
        match column_entry_at(h, k - 1) {
            Some(Some(name)) => (order.push(name), indices.push(n), n + 1),
            Some(None) => (order, indices, n + 1),
            None => (order, indices, n),
        }
    }
}

/// The output columns of a header line's rest ("Ballot by Mail", "Early
/// Voting", "Election Day Voting", "Total", matched without regard to case,
/// in the order they appear) and the PDF column index of each.
pub open spec fn column_order(header_rest: Seq<char>) -> (Seq<Seq<char>>, Seq<int>) {
    let h = lowercase(header_rest);
    let r = column_scan(h, h.len());
    (r.0, r.1)
}

pub open spec fn opt_int(o: Option<usize>) -> Option<int> {
    match o {
        Some(i) => Some(i as int),
        None => None,
    }
}

pub open spec fn indices_view(v: Seq<usize>) -> Seq<int> {
    v.map_values(|i: usize| i as int)
}

fn first_pos(h: &Vec<char>, phrase: &str) -> (r: Option<usize>)
    ensures
        opt_int(r) == first_index(h@, phrase@),
{
    let p = chars_of(phrase);
    first_index_exec(h, &p)
}

fn min_opt_exec(a: Option<usize>, b: Option<usize>) -> (r: Option<usize>)
    ensures
        opt_int(r) == min_opt(opt_int(a), opt_int(b)),
{
    match (a, b) {
        (Some(x), Some(y)) => Some(if x <= y { x } else { y }),
        (Some(x), None) => Some(x),
        (None, y) => y,
    }
}

fn same_pos(a: Option<usize>, k: usize) -> (r: bool)
    ensures
        r == (opt_int(a) == Some(k as int)),
{
    match a {
        Some(x) => x == k,
        None => false,
    }
}

/// The output columns of a header line's rest and their PDF column indices.
fn parse_column_order(header_rest: &Vec<char>) -> (r: (Vec<Vec<char>>, Vec<usize>))
    ensures
        (chars_view(r.0@), indices_view(r.1@)) == column_order(header_rest@),
{
    let h = to_lowercase(header_rest.as_slice());
    let bm = min_opt_exec(
        min_opt_exec(first_pos(&h, "ballot by mail"), first_pos(&h, "absentee voting")),
        first_pos(&h, "absentee"),
    );
    let ed = first_pos(&h, "election day");
    let ev = first_pos(&h, "early voting");
    let tot = first_pos(&h, "total");
    let limited = chars_of("limited");
    let provisional = chars_of("provisional");
    let mut order: Vec<Vec<char>> = Vec::new();
    let mut indices: Vec<usize> = Vec::new();
    let mut n: usize = 0;
    let mut k: usize = 0;
    assert(chars_view(order@) == Seq::<Seq<char>>::empty());
    assert(indices_view(indices@) == Seq::<int>::empty());
    while k < h.len()
        invariant
            k <= h.len(),
            n <= k,
            opt_int(bm) == ballot_by_mail_pos(h@),
            opt_int(ed) == first_index(h@, "election day"@),
            opt_int(ev) == first_index(h@, "early voting"@),
            opt_int(tot) == first_index(h@, "total"@),
            limited@ == "limited"@,
            provisional@ == "provisional"@,
            (chars_view(order@), indices_view(indices@), n as int) == column_scan(h@, k as nat),
        decreases h.len() - k,
    {
        let ghost before = (order@, indices@);
        let entry: Option<Option<Vec<char>>> = if same_pos(bm, k) {
            Some(Some(chars_of("Ballot by Mail")))
        } else if same_pos(ed, k) {
            Some(Some(chars_of("Election Day Voting")))
        } else if same_pos(ev, k) {
            Some(Some(chars_of("Early Voting")))
        } else if same_pos(tot, k) {
            Some(Some(chars_of("Total")))
        } else if occurs_at_exec(&h, &limited, k) || occurs_at_exec(&h, &provisional, k) {
            Some(None)
        } else {
            None
        };
        match entry {
            Some(Some(name)) => {
                order.push(name);
                indices.push(n);
                n = n + 1;
                proof {
                    assert(chars_view(order@) =~= chars_view(before.0).push(name@));
                    assert(indices_view(indices@) =~= indices_view(before.1).push((n - 1) as int));
                }
            },
            Some(None) => {
                n = n + 1;
            },
            None => {},
        }
        k = k + 1;
    }
    (order, indices)
}


/// "<name> COUNTY, TEXAS", in any case.
pub const COUNTY_TEXAS_RE: &'static str = r"(?i)COUNTY,\s+TEXAS";

/// Words that begin a two-word county name ("San Patricio", "La Salle").
pub open spec fn is_multi_word_prefix(w: Seq<char>) -> bool {
    ||| eq_ignore_case(w, "SAN"@)
    ||| eq_ignore_case(w, "EL"@)
    ||| eq_ignore_case(w, "DE"@)
    ||| eq_ignore_case(w, "LA"@)
    ||| eq_ignore_case(w, "VAN"@)
}

/// The first character uppercased, every other one lowercased (each by the
/// `char` case mappings).
pub open spec fn title_case(s: Seq<char>) -> Seq<char>
    decreases s.len(),
{
    if s.len() == 0 {
        seq![]
    } else if s.len() == 1 {
        char_uppercase(s[0])
    } else {
        title_case(s.drop_last()) + char_lowercase(s.last())
    }
}

/// The county named on a line "... <Name> COUNTY, TEXAS": the last word
/// before the match, or the last two when the first of them is a
/// multi-word prefix, in title case.
pub open spec fn county_of_line(line: Seq<char>) -> Option<Seq<char>> {
    match regex_find(COUNTY_TEXAS_RE@, line) {
        Some((a, _)) => {
            let w = words(trim(line.subrange(0, a)));
            if w.len() == 0 {
                None
            } else if w.len() >= 2 && is_multi_word_prefix(w[w.len() - 2]) {
                Some(title_case(w[w.len() - 2] + " "@ + w.last()))
            } else {
                Some(title_case(w.last()))
            }
        },
        None => None,
    }
}

/// The county of the first of `ls` that names one.
pub open spec fn county_in_lines(ls: Seq<Seq<char>>) -> Option<Seq<char>>
    decreases ls.len(),
{
    if ls.len() == 0 {
        None
    } else {
        match county_in_lines(ls.drop_last()) {
            Some(c) => Some(c),
            None => county_of_line(ls.last()),
        }
    }
}

/// The county that the first ten lines of a results text name.
pub open spec fn detected_county(text: Seq<char>) -> Option<Seq<char>> {
    let ls = lines(text);
    county_in_lines(
        if ls.len() <= 10 {
            ls
        } else {
            ls.take(10)
        },
    )
}

pub(crate) fn title_case_exec(s: &Vec<char>) -> (r: Vec<char>)
    ensures
        r@ == title_case(s@),
{
    let mut out: Vec<char> = Vec::new();
    let mut i: usize = 0;
    assert(s@.take(0) == Seq::<char>::empty());
    while i < s.len()
        invariant
            i <= s.len(),
            out@ == title_case(s@.take(i as int)),
        decreases s.len() - i,
    {
        proof {
            assert(s@.take(i + 1).drop_last() == s@.take(i as int));
            assert(s@.take(i + 1).last() == s@[i as int]);
            if i == 0 {
                assert(s@.take(1)[0] == s@[0]);
            }
        }
        let part = if i == 0 {
            char_to_uppercase(s[i])
        } else {
            char_to_lowercase(s[i])
        };
        out = concat(&out, &part);
        i = i + 1;
    }
    assert(s@.take(s.len() as int) == s@);
    out
}

fn is_multi_word_prefix_exec(w: &Vec<char>) -> (r: bool)
    ensures
        r == is_multi_word_prefix(w@),
{
    eq_ignore_ascii_case(w, &chars_of("SAN")) || eq_ignore_ascii_case(w, &chars_of("EL"))
        || eq_ignore_ascii_case(w, &chars_of("DE")) || eq_ignore_ascii_case(w, &chars_of("LA"))
        || eq_ignore_ascii_case(w, &chars_of("VAN"))
}

fn county_of_line_exec(line: &Vec<char>) -> (r: Option<Vec<char>>)
    ensures
        match r {
            Some(c) => county_of_line(line@) == Some(c@),
            None => county_of_line(line@) is None,
        },
{
    match find(COUNTY_TEXAS_RE, line.as_slice()) {
        Some((a, _)) => {
            let before = trim_exec(&slice_chars(line, 0, a));
            let w = words_exec(&before);
            let n = w.len();
            if n == 0 {
                None
            } else if n >= 2 && is_multi_word_prefix_exec(&w[n - 2]) {
                let two = concat(&concat(&w[n - 2], &chars_of(" ")), &w[n - 1]);
                Some(title_case_exec(&two))
            } else {
                Some(title_case_exec(&w[n - 1]))
            }
        },
        None => None,
    }
}

/// The county that the first ten lines of a results text name, e.g.
/// "Matagorda" for a line "MATAGORDA COUNTY, TEXAS".
pub fn detect_county_from_text(text: &str) -> (r: Option<String>)
    ensures
        match r {
            Some(c) => detected_county(text@) == Some(c@),
            None => detected_county(text@) is None,
        },
{
    let tc = chars_of(text);
    let ls = lines_exec(&tc);
    let ghost lv = chars_view(ls@);
    assert(lv == lines(text@));
    let ghost first = if lv.len() <= 10 { lv } else { lv.take(10) };
    let n: usize = if ls.len() <= 10 { ls.len() } else { 10 };
    let mut i: usize = 0;
    assert(first.take(0) == Seq::<Seq<char>>::empty());
    while i < n
        invariant
            i <= n,
            n == first.len(),
            n <= ls.len(),
            lv == chars_view(ls@),
            lv == lines(text@),
            first == (if lv.len() <= 10 { lv } else { lv.take(10) }),
            county_in_lines(first.take(i as int)) is None,
        decreases n - i,
    {
        proof {
            assert(first.take(i + 1).drop_last() == first.take(i as int));
            assert(first.take(i + 1).last() == ls@[i as int]@);
        }
        match county_of_line_exec(&ls[i]) {
            Some(c) => {
                proof {
                    assert(first[i as int] == lv[i as int]);
                    assert(lv[i as int] == ls@[i as int]@);
                    lemma_county_found(first, i as int);
                    assert(detected_county(text@) == county_in_lines(first));
                }
                return Some(string_of(c.as_slice()));
            },
            None => {},
        }
        i = i + 1;
    }
    assert(first.take(n as int) == first);
    None
}

proof fn lemma_county_found(ls: Seq<Seq<char>>, i: int)
    requires
        0 <= i < ls.len(),
        county_in_lines(ls.take(i)) is None,
        county_of_line(ls[i]) is Some,
    ensures
        county_in_lines(ls) == county_of_line(ls[i]),
    decreases ls.len(),
{
    if i < ls.len() - 1 {
        assert(ls.drop_last().take(i) == ls.take(i));
        assert(ls.drop_last()[i] == ls[i]);
        lemma_county_found(ls.drop_last(), i);
    } else {
        assert(ls.drop_last() == ls.take(i));
    }
}

pub const NON_RACE_TITLE_LINE_RE: &'static str = r"^(Choice\s|Cumulative Results|Run Time|Run Date|Registered Voters|Precincts Reporting|Precincts Counted|Unofficial|Official|Page \d+|\d+ of \d+|\d+/\d+/\d+|\*\*\*|PRIMARY ELECTION|GENERAL ELECTION|CONSTITUTIONAL AMENDMENT|NOVEMBER|MARCH|JOINT PRIMARY|Counted\s+Total\s+Percent|Voters|Ballots\s+Registered)";

pub const PROPOSITION_CHOICE_DETECT_RE: &'static str = r"^(FOR|AGAINST|Yes|No)\b\s+.+[\d,]+";

pub const PROPOSITION_CHOICE_PARSE_RE: &'static str = r"^(FOR|AGAINST|Yes|No)\b\s+(.+)$";

pub const SUMMARY_RE: &'static str = r"^(Cast Votes:|Undervotes:|Overvotes:|Rejected write-in votes:|Unresolved write-in votes:)\s+";

pub const SUMMARY_PREFIX_RE: &'static str = r"^(Cast Votes:|Undervotes:|Overvotes:|Rejected write-in votes:|Unresolved write-in votes:)\s+(.+)$";

pub const CANDIDATE_WITH_PARTY_RE: &'static str = r"^(.+?)\s+(REP|DEM|LIB|GRN|IND|NPA|\(W\))\s+.+[\d,]+\s+[\d.]+%";

pub const CANDIDATE_WITH_PARTY_PREFIX_RE: &'static str = r"^(.+?)\s+(REP|DEM|LIB|GRN|IND|NPA|\(W\))\s+(.+)$";

pub const CANDIDATE_NO_PARTY_RE: &'static str = r"^.+\s+[\d,]+\s+[\d.]+%\s*$";

pub const PER_RACE_PRECINCTS_RE: &'static str = r"^(\d+)\s+(\d+)\s+([\d.]+%)\s+([\d,]+)\s+([\d,]+)\s+([\d.]+%)";

pub const ENDS_NUM_PCT_RE: &'static str = r"\d+\s+[\d.]+%\s*$";

/// Whether a (trimmed) line is a race title: not empty, not boilerplate,
/// not a choice, summary or precincts line, not starting with a digit and
/// not ending in a number and a percent.
pub open spec fn looks_like_race(line: Seq<char>) -> bool {
    &&& line.len() > 0
    &&& !regex_is_match(NON_RACE_TITLE_LINE_RE@, line)
    &&& !regex_is_match(PROPOSITION_CHOICE_DETECT_RE@, line)
    &&& !regex_is_match(SUMMARY_RE@, line)
    &&& !regex_is_match(CANDIDATE_WITH_PARTY_RE@, line)
    &&& !regex_is_match(PER_RACE_PRECINCTS_RE@, line)
    &&& !starts_with_digit(line)
    &&& !regex_is_match(ENDS_NUM_PCT_RE@, line)
}

fn looks_like_race_exec(line: &Vec<char>) -> (r: bool)
    ensures
        r == looks_like_race(line@),
{
    let l = line.as_slice();
    if line.len() == 0 || is_match(NON_RACE_TITLE_LINE_RE, l) {
        return false;
    }
    if is_match(PROPOSITION_CHOICE_DETECT_RE, l) || is_match(SUMMARY_RE, l) {
        return false;
    }
    if is_match(CANDIDATE_WITH_PARTY_RE, l) || is_match(PER_RACE_PRECINCTS_RE, l) {
        return false;
    }
    if '0' <= line[0] && line[0] <= '9' {
        return false;
    }
    !is_match(ENDS_NUM_PCT_RE, l)
}


pub const REGISTERED_VOTERS_LABEL_RE: &'static str = r"^Registered Voters\s*$";

pub const PRECINCTS_REPORTING_LABEL_RE: &'static str = r"^Precincts Reporting\s*$";

/// Document-wide "X of Y = Z%".
pub const PRECINCTS_REPORTING_RE: &'static str = r"^(\d+)\s+of\s+(\d+)\s*=\s*([\d.]+%)";

pub const PER_RACE_HEADER_RE: &'static str = r"^Precincts\s+Voters\s*$";

pub const COUNTED_TOTAL_RE: &'static str = r"^Counted\s+Total\s+Percent";

pub const HEADER_RE: &'static str = r"^Choice\s+Party\s+(.+)";

/// Where the reading of a results text stands after some of its lines.
pub ghost struct HartState {
    pub rows: Seq<ParsedRowView>,
    pub current_race: Option<Seq<char>>,
    pub col_order: Seq<Seq<char>>,
    pub col_indices: Seq<int>,
    pub doc_counted: Seq<char>,
    pub doc_total: Seq<char>,
    pub doc_pct: Seq<char>,
    pub race_counted: Seq<char>,
    pub race_total: Seq<char>,
    pub race_pct: Seq<char>,
    /// A "Precincts Reporting" label was the last thing seen.
    pub saw_label: bool,
    /// A per-race "Precincts Voters" header was the last thing seen.
    pub saw_per_race: bool,
}

/// The precincts of the current race, or of the document where the race
/// has none.
pub open spec fn precincts_for(race_value: Seq<char>, doc_value: Seq<char>) -> Seq<char> {
    if race_value.len() == 0 {
        doc_value
    } else {
        race_value
    }
}

/// Values only, each with an empty percent.
pub open spec fn value_pairs(vals: Seq<Seq<char>>) -> Seq<(Seq<char>, Seq<char>)> {
    vals.map_values(|v: Seq<char>| (v, Seq::<char>::empty()))
}

/// The row that a line of the current race `race` gives, if any: a
/// proposition choice, a summary line, a candidate with a party, or a
/// candidate without one (the name is what precedes the first vote pair).
pub open spec fn choice_row(st: HartState, race: Seq<char>, line: Seq<char>) -> Option<ParsedRowView> {
    let pc = precincts_for(st.race_counted, st.doc_counted);
    let pt = precincts_for(st.race_total, st.doc_total);
    let pp = precincts_for(st.race_pct, st.doc_pct);
    let order = st.col_order;
    let idx = st.col_indices;
    match regex_captures(PROPOSITION_CHOICE_PARSE_RE@, line) {
        Some(g) => Some(
            make_row_spec(race, order, idx, group_or_empty(g, 1), seq![], vote_pairs(group_or_empty(g, 2)), pc, pt, pp),
        ),
        None => match regex_captures(SUMMARY_PREFIX_RE@, line) {
            Some(g) => {
                let choice = trim_end_char(group_or_empty(g, 1), ':');
                let tail = group_or_empty(g, 2);
                if choice == "Undervotes"@ || choice == "Overvotes"@ {
                    let pairs = value_pairs(regex_find_all(VOTE_VALUE_RE@, tail));
                    if pairs.len() == order.len() {
                        Some(make_row_spec(race, order, Seq::new(order.len(), |i: int| i), choice, seq![], pairs, pc, pt, pp))
                    } else {
                        Some(make_row_spec(race, order, idx, choice, seq![], pairs, pc, pt, pp))
                    }
                } else {
                    Some(make_row_spec(race, order, idx, choice, seq![], vote_pairs(tail), pc, pt, pp))
                }
            },
            None => match regex_captures(CANDIDATE_WITH_PARTY_PREFIX_RE@, line) {
                Some(g) => Some(
                    make_row_spec(
                        race,
                        order,
                        idx,
                        cleaned_name(group_or_empty(g, 1)),
                        group_or_empty(g, 2),
                        vote_pairs(group_or_empty(g, 3)),
                        pc,
                        pt,
                        pp,
                    ),
                ),
                None => if regex_is_match(CANDIDATE_NO_PARTY_RE@, line) {
                    match regex_find(VOTE_PAIR_RE@, line) {
                        Some((a, _)) => Some(
                            make_row_spec(
                                race,
                                order,
                                idx,
                                cleaned_name(trim(line.subrange(0, a))),
                                seq![],
                                vote_pairs(line.subrange(a, line.len() as int)),
                                pc,
                                pt,
                                pp,
                            ),
                        ),
                        None => None,
                    }
                } else {
                    None
                },
            },
        },
    }
}

/// A line that is no precincts line: a column header, a race title, or a
/// choice of the current race.
pub open spec fn content_step(st: HartState, line: Seq<char>) -> HartState {
    match regex_captures(HEADER_RE@, line) {
        Some(g) => {
            let (order, indices) = column_order(group_or_empty(g, 1));
            if order.len() > 0 {
                HartState { col_order: order, col_indices: indices, ..st }
            } else {
                st
            }
        },
        None => if looks_like_race(line) {
            HartState {
                current_race: Some(line),
                race_counted: seq![],
                race_total: seq![],
                race_pct: seq![],
                ..st
            }
        } else {
            match st.current_race {
                Some(race) => match choice_row(st, race, line) {
                    Some(r) => HartState { rows: st.rows.push(r), ..st },
                    None => st,
                },
                None => st,
            }
        },
    }
}

/// A line after the document-wide precincts handling: a per-race precincts
/// header, the per-race precincts line that follows it, or content.
pub open spec fn per_race_step(st: HartState, line: Seq<char>) -> HartState {
    if regex_is_match(PER_RACE_HEADER_RE@, line) {
        HartState { saw_per_race: true, ..st }
    } else if st.saw_per_race {
        if regex_is_match(COUNTED_TOTAL_RE@, line) {
            st
        } else {
            let st2 = HartState { saw_per_race: false, ..st };
            match regex_captures(PER_RACE_PRECINCTS_RE@, line) {
                Some(g) => HartState {
                    race_counted: group_or_empty(g, 1),
                    race_total: group_or_empty(g, 2),
                    race_pct: group_or_empty(g, 3),
                    ..st2
                },
                None => content_step(st2, line),
            }
        }
    } else {
        content_step(st, line)
    }
}

/// What one line of the text does to the reading.
pub open spec fn hart_step(st: HartState, raw: Seq<char>) -> HartState {
    let line = trim(raw);
    if line.len() == 0 {
        st
    } else if regex_is_match(REGISTERED_VOTERS_LABEL_RE@, line) {
        HartState { saw_label: false, ..st }
    } else if regex_is_match(PRECINCTS_REPORTING_LABEL_RE@, line) {
        HartState { saw_label: true, ..st }
    } else if st.saw_label {
        match regex_captures(PRECINCTS_REPORTING_RE@, line) {
            Some(g) => HartState {
                saw_label: false,
                doc_counted: group_or_empty(g, 1),
                doc_total: group_or_empty(g, 2),
                doc_pct: group_or_empty(g, 3),
                race_counted: seq![],
                race_total: seq![],
                race_pct: seq![],
                ..st
            },
            None => if words(line).len() <= 3 && !starts_with_digit(line) {
                st
            } else {
                per_race_step(HartState { saw_label: false, ..st }, line)
            },
        }
    } else {
        per_race_step(st, line)
    }
}

/// The reading after the lines `ls`, from `init`.
pub open spec fn hart_scan(ls: Seq<Seq<char>>, init: HartState) -> HartState
    decreases ls.len(),
{
    if ls.len() == 0 {
        init
    } else {
        hart_step(hart_scan(ls.drop_last(), init), ls.last())
    }
}

/// The document-wide precincts of a first pass: the first "X of Y = Z%"
/// line that follows a "Precincts Reporting" label (and no "Registered
/// Voters" label, nor a longer line or one that starts with a digit).
pub open spec fn prescan_step(
    s: (bool, Option<(Seq<char>, Seq<char>, Seq<char>)>),
    raw: Seq<char>,
) -> (bool, Option<(Seq<char>, Seq<char>, Seq<char>)>) {
    let line = trim(raw);
    if s.1 is Some || line.len() == 0 {
        s
    } else if regex_is_match(REGISTERED_VOTERS_LABEL_RE@, line) {
        (false, None)
    } else if regex_is_match(PRECINCTS_REPORTING_LABEL_RE@, line) {
        (true, None)
    } else if s.0 {
        match regex_captures(PRECINCTS_REPORTING_RE@, line) {
            Some(g) => (true, Some((group_or_empty(g, 1), group_or_empty(g, 2), group_or_empty(g, 3)))),
            None => if words(line).len() > 3 || starts_with_digit(line) {
                (false, None)
            } else {
                s
            },
        }
    } else {
        s
    }
}

pub open spec fn prescan(ls: Seq<Seq<char>>) -> (bool, Option<(Seq<char>, Seq<char>, Seq<char>)>)
    decreases ls.len(),
{
    if ls.len() == 0 {
        (false, None)
    } else {
        prescan_step(prescan(ls.drop_last()), ls.last())
    }
}

/// The columns assumed until a header line names others.
pub open spec fn default_col_order() -> Seq<Seq<char>> {
    seq!["Ballot by Mail"@, "Early Voting"@, "Election Day Voting"@, "Total"@]
}

/// The reading before the first line.
pub open spec fn initial_state(ls: Seq<Seq<char>>) -> HartState {
    let (c, t, p) = match prescan(ls).1 {
        Some(v) => v,
        None => (seq![], seq![], seq![]),
    };
    HartState {
        rows: seq![],
        current_race: None,
        col_order: default_col_order(),
        col_indices: seq![0int, 1, 2, 3],
        doc_counted: c,
        doc_total: t,
        doc_pct: p,
        race_counted: seq![],
        race_total: seq![],
        race_pct: seq![],
        saw_label: false,
        saw_per_race: false,
    }
}

/// A parsed results PDF: its column order, its rows and its county.
pub struct HartPdfResult {
    pub col_order: Vec<String>,
    rows: Vec<ParsedRow>,
    pub county: String,
}

pub ghost struct HartPdfView {
    pub col_order: Seq<Seq<char>>,
    pub rows: Seq<ParsedRowView>,
    pub county: Seq<char>,
}

pub open spec fn rows_view(rows: Seq<ParsedRow>) -> Seq<ParsedRowView> {
    rows.map_values(|r: ParsedRow| r@)
}

impl HartPdfResult {
    pub closed spec fn view(&self) -> HartPdfView {
        HartPdfView {
            col_order: strings_view(self.col_order@),
            rows: rows_view(self.rows@),
            county: self.county@,
        }
    }

    /// Number of parsed rows (choices) in this result.
    pub fn row_count(&self) -> (r: usize)
        ensures
            r == self@.rows.len(),
    {
        self.rows.len()
    }

    /// The parsed rows, in the order of the text.
    pub fn rows(&self) -> (r: &Vec<ParsedRow>)
        ensures
            rows_view(r@) == self@.rows,
    {
        &self.rows
    }
}

/// What the text of a results PDF parses to; the county is `county_name`,
/// or where that is empty the one the text names (or empty).
pub open spec fn parse_hart_text_spec(text: Seq<char>, county_name: Seq<char>) -> HartPdfView {
    let ls = lines(text);
    let st = hart_scan(ls, initial_state(ls));
    HartPdfView {
        col_order: st.col_order,
        rows: st.rows,
        county: if county_name.len() == 0 {
            match detected_county(text) {
                Some(c) => c,
                None => seq![],
            }
        } else {
            county_name
        },
    }
}


struct HartScan {
    rows: Vec<ParsedRow>,
    current_race: Option<Vec<char>>,
    col_order: Vec<Vec<char>>,
    col_indices: Vec<usize>,
    doc_counted: Vec<char>,
    doc_total: Vec<char>,
    doc_pct: Vec<char>,
    race_counted: Vec<char>,
    race_total: Vec<char>,
    race_pct: Vec<char>,
    saw_label: bool,
    saw_per_race: bool,
}

pub open spec fn opt_chars_view(o: Option<Vec<char>>) -> Option<Seq<char>> {
    match o {
        Some(v) => Some(v@),
        None => None,
    }
}

pub open spec fn opt_row_view(o: Option<ParsedRow>) -> Option<ParsedRowView> {
    match o {
        Some(r) => Some(r@),
        None => None,
    }
}

impl HartScan {
    spec fn view(&self) -> HartState {
        HartState {
            rows: rows_view(self.rows@),
            current_race: opt_chars_view(self.current_race),
            col_order: chars_view(self.col_order@),
            col_indices: indices_view(self.col_indices@),
            doc_counted: self.doc_counted@,
            doc_total: self.doc_total@,
            doc_pct: self.doc_pct@,
            race_counted: self.race_counted@,
            race_total: self.race_total@,
            race_pct: self.race_pct@,
            saw_label: self.saw_label,
            saw_per_race: self.saw_per_race,
        }
    }
}

fn identity_indices(n: usize) -> (r: Vec<usize>)
    ensures
        indices_view(r@) == Seq::new(n as nat, |i: int| i),
{
    let mut v: Vec<usize> = Vec::new();
    let mut k: usize = 0;
    while k < n
        invariant
            k <= n,
            indices_view(v@) == Seq::new(k as nat, |i: int| i),
        decreases n - k,
    {
        let ghost before = v@;
        v.push(k);
        proof {
            assert(indices_view(v@) =~= indices_view(before).push(k as int));
            assert(indices_view(v@) =~= Seq::new((k + 1) as nat, |i: int| i));
        }
        k = k + 1;
    }
    v
}

fn value_pairs_exec(vals: Vec<Vec<char>>) -> (r: Vec<(Vec<char>, Vec<char>)>)
    ensures
        pairs_view(r@) == value_pairs(chars_view(vals@)),
{
    let mut out: Vec<(Vec<char>, Vec<char>)> = Vec::new();
    let mut k: usize = 0;
    while k < vals.len()
        invariant
            k <= vals.len(),
            pairs_view(out@) == value_pairs(chars_view(vals@)).take(k as int),
        decreases vals.len() - k,
    {
        let ghost before = out@;
        let v = vals[k].clone();
        let e: Vec<char> = Vec::new();
        assert(v@ == vals@[k as int]@);
        out.push((v, e));
        proof {
            assert(out@ == before.push((v, e)));
            assert(pairs_view(out@) =~= pairs_view(before).push((v@, e@)));
            assert(pairs_view(out@) =~= value_pairs(chars_view(vals@)).take(k + 1));
        }
        k = k + 1;
    }
    assert(value_pairs(chars_view(vals@)).take(vals.len() as int) =~= value_pairs(chars_view(vals@)));
    out
}

fn precincts_for_exec(race_value: &Vec<char>, doc_value: &Vec<char>) -> (r: Vec<char>)
    ensures
        r@ == precincts_for(race_value@, doc_value@),
{
    if race_value.len() == 0 {
        doc_value.clone()
    } else {
        race_value.clone()
    }
}

fn choice_row_exec(st: &HartScan, race: &Vec<char>, line: &Vec<char>) -> (r: Option<ParsedRow>)
    ensures
        opt_row_view(r) == choice_row(st@, race@, line@),
{
    let pc = precincts_for_exec(&st.race_counted, &st.doc_counted);
    let pt = precincts_for_exec(&st.race_total, &st.doc_total);
    let pp = precincts_for_exec(&st.race_pct, &st.doc_pct);
    let l = line.as_slice();
    let empty: Vec<char> = Vec::new();
    if let Some(g) = captures(PROPOSITION_CHOICE_PARSE_RE, l) {
        let choice = group_or_empty_exec(&g, 1);
        let tail = group_or_empty_exec(&g, 2);
        let pairs = parse_vote_pairs(&tail);
        return Some(make_row(race, &st.col_order, &st.col_indices, &choice, &empty, &pairs, &pc, &pt, &pp));
    }
    if let Some(g) = captures(SUMMARY_PREFIX_RE, l) {
        let choice = trim_end_char_exec(&group_or_empty_exec(&g, 1), ':');
        let tail = group_or_empty_exec(&g, 2);
        if chars_eq(&choice, &chars_of("Undervotes")) || chars_eq(&choice, &chars_of("Overvotes")) {
            let values = parse_vote_values_single(&tail);
            let pairs = value_pairs_exec(values);
            if pairs.len() == st.col_order.len() {
                let one_to_one = identity_indices(st.col_order.len());
                return Some(make_row(race, &st.col_order, &one_to_one, &choice, &empty, &pairs, &pc, &pt, &pp));
            } else {
                return Some(make_row(race, &st.col_order, &st.col_indices, &choice, &empty, &pairs, &pc, &pt, &pp));
            }
        } else {
            let pairs = parse_vote_pairs(&tail);
            return Some(make_row(race, &st.col_order, &st.col_indices, &choice, &empty, &pairs, &pc, &pt, &pp));
        }
    }
    if let Some(g) = captures(CANDIDATE_WITH_PARTY_PREFIX_RE, l) {
        let name = clean_name(&group_or_empty_exec(&g, 1));
        let party = group_or_empty_exec(&g, 2);
        let tail = group_or_empty_exec(&g, 3);
        let pairs = parse_vote_pairs(&tail);
        return Some(make_row(race, &st.col_order, &st.col_indices, &name, &party, &pairs, &pc, &pt, &pp));
    }
    if is_match(CANDIDATE_NO_PARTY_RE, l) {
        if let Some((a, _)) = find(VOTE_PAIR_RE, l) {
            let name = clean_name(&trim_exec(&slice_chars(line, 0, a)));
            let tail = slice_chars(line, a, line.len());
            let pairs = parse_vote_pairs(&tail);
            return Some(make_row(race, &st.col_order, &st.col_indices, &name, &empty, &pairs, &pc, &pt, &pp));
        }
    }
    None
}


fn content_step_exec(st: &mut HartScan, line: &Vec<char>)
    ensures
        final(st)@ == content_step(old(st)@, line@),
{
    if let Some(g) = captures(HEADER_RE, line.as_slice()) {
        let rest = group_or_empty_exec(&g, 1);
        let (order, indices) = parse_column_order(&rest);
        if order.len() > 0 {
            st.col_order = order;
            st.col_indices = indices;
        }
        return;
    }
    if looks_like_race_exec(line) {
        st.current_race = Some(line.clone());
        st.race_counted = Vec::new();
        st.race_total = Vec::new();
        st.race_pct = Vec::new();
        return;
    }
    let race = match &st.current_race {
        Some(r) => r.clone(),
        None => return,
    };
    match choice_row_exec(st, &race, line) {
        Some(row) => {
            st.rows.push(row);
            proof {
                assert(rows_view(st.rows@) =~= rows_view(old(st).rows@).push(row@));
            }
        },
        None => {},
    }
}

fn per_race_step_exec(st: &mut HartScan, line: &Vec<char>)
    ensures
        final(st)@ == per_race_step(old(st)@, line@),
{
    let l = line.as_slice();
    if is_match(PER_RACE_HEADER_RE, l) {
        st.saw_per_race = true;
        return;
    }
    if st.saw_per_race {
        if is_match(COUNTED_TOTAL_RE, l) {
            return;
        }
        st.saw_per_race = false;
        if let Some(g) = captures(PER_RACE_PRECINCTS_RE, l) {
            st.race_counted = group_or_empty_exec(&g, 1);
            st.race_total = group_or_empty_exec(&g, 2);
            st.race_pct = group_or_empty_exec(&g, 3);
            return;
        }
    }
    content_step_exec(st, line);
}

fn hart_step_exec(st: &mut HartScan, raw: &Vec<char>)
    ensures
        final(st)@ == hart_step(old(st)@, raw@),
{
    let line = trim_exec(raw);
    if line.len() == 0 {
        return;
    }
    let l = line.as_slice();
    if is_match(REGISTERED_VOTERS_LABEL_RE, l) {
        st.saw_label = false;
        return;
    }
    if is_match(PRECINCTS_REPORTING_LABEL_RE, l) {
        st.saw_label = true;
        return;
    }
    if st.saw_label {
        if let Some(g) = captures(PRECINCTS_REPORTING_RE, l) {
            st.saw_label = false;
            st.doc_counted = group_or_empty_exec(&g, 1);
            st.doc_total = group_or_empty_exec(&g, 2);
            st.doc_pct = group_or_empty_exec(&g, 3);
            st.race_counted = Vec::new();
            st.race_total = Vec::new();
            st.race_pct = Vec::new();
            return;
        }
        if words_exec(&line).len() <= 3 && !('0' <= line[0] && line[0] <= '9') {
            return;
        }
        st.saw_label = false;
    }
    per_race_step_exec(st, &line);
}

proof fn lemma_prescan_stays(ls: Seq<Seq<char>>, i: int)
    requires
        0 <= i <= ls.len(),
        prescan(ls.take(i)).1 is Some,
    ensures
        prescan(ls) == prescan(ls.take(i)),
    decreases ls.len(),
{
    if i == ls.len() {
        assert(ls.take(i) == ls);
    } else {
        assert(ls.drop_last().take(i) == ls.take(i));
        lemma_prescan_stays(ls.drop_last(), i);
    }
}

/// The first pass: the document-wide precincts, if the text gives them.
fn prescan_exec(ls: &Vec<Vec<char>>) -> (r: Option<(Vec<char>, Vec<char>, Vec<char>)>)
    ensures
        match r {
            Some((c, t, p)) => prescan(chars_view(ls@)).1 == Some((c@, t@, p@)),
            None => prescan(chars_view(ls@)).1 is None,
        },
{
    let ghost lv = chars_view(ls@);
    let mut saw: bool = false;
    let mut i: usize = 0;
    assert(lv.take(0) == Seq::<Seq<char>>::empty());
    while i < ls.len()
        invariant
            i <= ls.len(),
            lv == chars_view(ls@),
            prescan(lv.take(i as int)) == (saw, None::<(Seq<char>, Seq<char>, Seq<char>)>),
        decreases ls.len() - i,
    {
        proof {
            assert(lv.take(i + 1).drop_last() == lv.take(i as int));
            assert(lv.take(i + 1).last() == ls@[i as int]@);
        }
        let line = trim_exec(&ls[i]);
        if line.len() > 0 {
            let l = line.as_slice();
            if is_match(REGISTERED_VOTERS_LABEL_RE, l) {
                saw = false;
            } else if is_match(PRECINCTS_REPORTING_LABEL_RE, l) {
                saw = true;
            } else if saw {
                if let Some(g) = captures(PRECINCTS_REPORTING_RE, l) {
                    let c = group_or_empty_exec(&g, 1);
                    let t = group_or_empty_exec(&g, 2);
                    let p = group_or_empty_exec(&g, 3);
                    proof {
                        lemma_prescan_stays(lv, i + 1);
                    }
                    return Some((c, t, p));
                }
                if words_exec(&line).len() > 3 || ('0' <= line[0] && line[0] <= '9') {
                    saw = false;
                }
            }
        }
        i = i + 1;
    }
    assert(lv.take(ls.len() as int) == lv);
    None
}

/// Reads the text of a Hart/CIRA results PDF: column order, one row per
/// choice line of each race (with the race's or the document's precincts),
/// and the county (`county_name`, or where that is empty the one the text
/// names).
pub fn parse_hart_text(text: &str, county_name: &str) -> (r: HartPdfResult)
    ensures
        r@ == parse_hart_text_spec(text@, county_name@),
{
    let tc = chars_of(text);
    let ls = lines_exec(&tc);
    let ghost lv = chars_view(ls@);
    assert(lv == lines(text@));
    let (c, t, p) = match prescan_exec(&ls) {
        Some(v) => v,
        None => (Vec::new(), Vec::new(), Vec::new()),
    };
    let mut col_order: Vec<Vec<char>> = Vec::new();
    col_order.push(chars_of("Ballot by Mail"));
    col_order.push(chars_of("Early Voting"));
    col_order.push(chars_of("Election Day Voting"));
    col_order.push(chars_of("Total"));
    let mut col_indices: Vec<usize> = Vec::new();
    col_indices.push(0);
    col_indices.push(1);
    col_indices.push(2);
    col_indices.push(3);
    let mut st = HartScan {
        rows: Vec::new(),
        current_race: None,
        col_order,
        col_indices,
        doc_counted: c,
        doc_total: t,
        doc_pct: p,
        race_counted: Vec::new(),
        race_total: Vec::new(),
        race_pct: Vec::new(),
        saw_label: false,
        saw_per_race: false,
    };
    let ghost init = initial_state(lv);
    proof {
        assert(chars_view(st.col_order@) =~= default_col_order());
        assert(indices_view(st.col_indices@) =~= seq![0int, 1, 2, 3]);
        assert(rows_view(st.rows@) =~= Seq::<ParsedRowView>::empty());
        assert(st@ == init);
        assert(lv.take(0) == Seq::<Seq<char>>::empty());
    }
    let mut i: usize = 0;
    while i < ls.len()
        invariant
            i <= ls.len(),
            lv == chars_view(ls@),
            st@ == hart_scan(lv.take(i as int), init),
        decreases ls.len() - i,
    {
        proof {
            assert(lv.take(i + 1).drop_last() == lv.take(i as int));
            assert(lv.take(i + 1).last() == ls@[i as int]@);
        }
        hart_step_exec(&mut st, &ls[i]);
        i = i + 1;
    }
    assert(lv.take(ls.len() as int) == lv);
    let county = if chars_of(county_name).len() == 0 {
        match detect_county_from_text(text) {
            Some(c) => c,
            None => String::new(),
        }
    } else {
        String::from_str(county_name)
    };
    let order = strings_of(&st.col_order);
    let r = HartPdfResult { col_order: order, rows: st.rows, county };
    assert(r@.col_order == st@.col_order);
    assert(r@.rows == st@.rows);
    r
}


/// The message of a failed text extraction: a fixed prefix, then the
/// extractor's own message.
pub open spec fn extraction_failed_message(msg: Seq<char>) -> Seq<char> {
    "PDF text extraction failed: "@ + msg
}

/// Parses a Hart/CIRA results PDF from what text extraction gave for it:
/// its text as [`parse_hart_text`] reads it, or the extraction error's
/// message behind "PDF text extraction failed: ".
pub fn parse_hart_pdf(extracted: Result<String, String>, county_name: &str) -> (r: Result<HartPdfResult, String>)
    ensures
        match extracted {
            Ok(t) => r matches Ok(res) && res@ == parse_hart_text_spec(t@, county_name@),
            Err(m) => r matches Err(e) && e@ == extraction_failed_message(m@),
        },
{
    match extracted {
        Ok(text) => Ok(parse_hart_text(text.as_str(), county_name)),
        Err(m) => {
            let full = concat(&chars_of("PDF text extraction failed: "), &chars_of(m.as_str()));
            Err(string_of(full.as_slice()))
        },
    }
}


/// The summary choices whose votes get a column of their own per voting
/// method in the CSV.
pub open spec fn is_summary_name(c: Seq<char>) -> bool {
    c == "Cast Votes"@ || c == "Undervotes"@ || c == "Overvotes"@
}

/// The column pairs of the last row of `race` whose choice is `name`.
pub open spec fn summary_pairs(rows: Seq<ParsedRowView>, race: Seq<char>, name: Seq<char>) -> Option<
    Seq<(Seq<char>, Seq<char>)>,
>
    decreases rows.len(),
{
    if rows.len() == 0 {
        None
    } else if rows.last().race == race && rows.last().choice == name {
        Some(rows.last().column_pairs)
    } else {
        summary_pairs(rows.drop_last(), race, name)
    }
}

/// The votes of summary `name` in column `i` of `race`, or ", " where there
/// are none.
pub open spec fn summary_value(rows: Seq<ParsedRowView>, race: Seq<char>, name: Seq<char>, i: int) -> Seq<char> {
    match summary_pairs(rows, race, name) {
        Some(ps) => if 0 <= i < ps.len() {
            ps[i].0
        } else {
            ", "@
        },
        None => ", "@,
    }
}

/// The strings of `ss`, one after another.
pub open spec fn concat_all(ss: Seq<Seq<Seq<char>>>) -> Seq<Seq<char>>
    decreases ss.len(),
{
    if ss.len() == 0 {
        seq![]
    } else {
        concat_all(ss.drop_last()) + ss.last()
    }
}

/// The five header cells of an output column.
pub open spec fn column_header(c: Seq<char>) -> Seq<Seq<char>> {
    seq![c, c + " Pct"@, c + " Cast Votes"@, c + " Undervotes"@, c + " Overvotes"@]
}

/// The header of the CSV: race, choice and party; five cells per column;
/// the precincts and the county.
pub open spec fn pdf_style_header(col_order: Seq<Seq<char>>) -> Seq<Seq<char>> {
    seq!["Race"@, "Choice"@, "Party"@] + concat_all(col_order.map_values(|c: Seq<char>| column_header(c)))
        + seq!["Precincts Counted"@, "Precincts Total"@, "Precincts Pct"@, "County"@]
}

/// The five cells of column `i` of a row: votes, percent, and the race's
/// summary votes in that column.
pub open spec fn column_cells(rows: Seq<ParsedRowView>, row: ParsedRowView, i: int) -> Seq<Seq<char>> {
    seq![
        row.column_pairs[i].0,
        row.column_pairs[i].1,
        summary_value(rows, row.race, "Cast Votes"@, i),
        summary_value(rows, row.race, "Undervotes"@, i),
        summary_value(rows, row.race, "Overvotes"@, i),
    ]
}

/// The CSV record of a row.
pub open spec fn row_record(rows: Seq<ParsedRowView>, row: ParsedRowView, county: Seq<char>) -> Seq<Seq<char>> {
    seq![row.race, row.choice, row.party] + concat_all(
        Seq::new(row.column_pairs.len(), |i: int| column_cells(rows, row, i)),
    ) + seq![row.precincts_counted, row.precincts_total, row.precincts_pct, county]
}

/// The records of the rows of `prefix` that are no summary rows.
pub open spec fn data_records(prefix: Seq<ParsedRowView>, rows: Seq<ParsedRowView>, county: Seq<char>) -> Seq<
    Seq<Seq<char>>,
>
    decreases prefix.len(),
{
    if prefix.len() == 0 {
        seq![]
    } else if is_summary_name(prefix.last().choice) {
        data_records(prefix.drop_last(), rows, county)
    } else {
        data_records(prefix.drop_last(), rows, county).push(row_record(rows, prefix.last(), county))
    }
}

/// The CSV of a parsed PDF: the header, then one record per row that is no
/// summary row.
pub open spec fn pdf_style_csv(v: HartPdfView) -> Seq<Seq<Seq<char>>> {
    seq![pdf_style_header(v.col_order)] + data_records(v.rows, v.rows, v.county)
}

pub open spec fn records_view(r: Seq<Vec<String>>) -> Seq<Seq<Seq<char>>> {
    r.map_values(|rec: Vec<String>| strings_view(rec@))
}

fn is_summary_name_exec(c: &String) -> (r: bool)
    ensures
        r == is_summary_name(c@),
{
    let cv = chars_of(c.as_str());
    chars_eq(&cv, &chars_of("Cast Votes")) || chars_eq(&cv, &chars_of("Undervotes")) || chars_eq(
        &cv,
        &chars_of("Overvotes"),
    )
}

fn string_eq(a: &String, b: &String) -> (r: bool)
    ensures
        r == (a@ == b@),
{
    chars_eq(&chars_of(a.as_str()), &chars_of(b.as_str()))
}

fn summary_value_exec(rows: &Vec<ParsedRow>, race: &String, name: &str, i: usize) -> (r: String)
    ensures
        r@ == summary_value(rows_view(rows@), race@, name@, i as int),
{
    let ghost rv = rows_view(rows@);
    let name_s = String::from_str(name);
    let mut k: usize = rows.len();
    assert(rv.take(k as int) == rv);
    while k > 0
        invariant
            k <= rows.len(),
            rv == rows_view(rows@),
            name_s@ == name@,
            summary_pairs(rv.take(k as int), race@, name@) == summary_pairs(rv, race@, name@),
        decreases k,
    {
        let row = &rows[k - 1];
        proof {
            assert(rv.take(k as int).last() == row@);
            assert(rv.take(k as int).drop_last() == rv.take(k - 1));
        }
        if string_eq(&row.race, race) && string_eq(&row.choice, &name_s) {
            if i < row.column_pairs.len() {
                proof {
                    assert(string_pairs_view(row.column_pairs@)[i as int].0 == row.column_pairs@[i as int].0@);
                }
                return row.column_pairs[i].0.clone();
            } else {
                return String::from_str(", ");
            }
        }
        k = k - 1;
    }
    String::from_str(", ")
}

fn push_all(out: &mut Vec<String>, items: Vec<String>)
    ensures
        strings_view(final(out)@) == strings_view(old(out)@) + strings_view(items@),
{
    let mut k: usize = 0;
    while k < items.len()
        invariant
            k <= items.len(),
            strings_view(out@) == strings_view(old(out)@) + strings_view(items@).take(k as int),
        decreases items.len() - k,
    {
        let ghost before = out@;
        let x = items[k].clone();
        out.push(x);
        proof {
            assert(strings_view(out@) =~= strings_view(before).push(x@));
            assert(strings_view(items@).take(k + 1) =~= strings_view(items@).take(k as int).push(items@[k as int]@));
        }
        k = k + 1;
    }
    assert(strings_view(items@).take(items.len() as int) =~= strings_view(items@));
}

fn suffixed(c: &String, suffix: &str) -> (r: String)
    ensures
        r@ == c@ + suffix@,
{
    string_of(concat(&chars_of(c.as_str()), &chars_of(suffix)).as_slice())
}

fn pdf_style_header_exec(col_order: &Vec<String>) -> (r: Vec<String>)
    ensures
        strings_view(r@) == pdf_style_header(strings_view(col_order@)),
{
    let ghost cols = strings_view(col_order@).map_values(|c: Seq<char>| column_header(c));
    let mut out: Vec<String> = Vec::new();
    out.push(String::from_str("Race"));
    out.push(String::from_str("Choice"));
    out.push(String::from_str("Party"));
    let mut k: usize = 0;
    proof {
        assert(strings_view(out@) =~= seq!["Race"@, "Choice"@, "Party"@]);
        assert(cols.take(0) =~= Seq::<Seq<Seq<char>>>::empty());
    }
    while k < col_order.len()
        invariant
            k <= col_order.len(),
            cols == strings_view(col_order@).map_values(|c: Seq<char>| column_header(c)),
            strings_view(out@) == seq!["Race"@, "Choice"@, "Party"@] + concat_all(cols.take(k as int)),
        decreases col_order.len() - k,
    {
        let c = &col_order[k];
        let mut cells: Vec<String> = Vec::new();
        cells.push(c.clone());
        cells.push(suffixed(c, " Pct"));
        cells.push(suffixed(c, " Cast Votes"));
        cells.push(suffixed(c, " Undervotes"));
        cells.push(suffixed(c, " Overvotes"));
        proof {
            assert(strings_view(cells@) =~= column_header(c@));
            assert(cols.take(k + 1).drop_last() =~= cols.take(k as int));
            assert(cols.take(k + 1).last() == column_header(c@));
        }
        push_all(&mut out, cells);
        proof {
            assert(strings_view(out@) =~= seq!["Race"@, "Choice"@, "Party"@] + concat_all(cols.take(k + 1)));
        }
        k = k + 1;
    }
    assert(cols.take(col_order.len() as int) =~= cols);
    let mut tail: Vec<String> = Vec::new();
    tail.push(String::from_str("Precincts Counted"));
    tail.push(String::from_str("Precincts Total"));
    tail.push(String::from_str("Precincts Pct"));
    tail.push(String::from_str("County"));
    assert(strings_view(tail@) =~= seq!["Precincts Counted"@, "Precincts Total"@, "Precincts Pct"@, "County"@]);
    push_all(&mut out, tail);
    assert(strings_view(out@) =~= pdf_style_header(strings_view(col_order@)));
    out
}

fn row_record_exec(rows: &Vec<ParsedRow>, row: &ParsedRow, county: &String) -> (r: Vec<String>)
    ensures
        strings_view(r@) == row_record(rows_view(rows@), row@, county@),
{
    let ghost rv = rows_view(rows@);
    let ghost cells = Seq::new(row@.column_pairs.len(), |i: int| column_cells(rv, row@, i));
    let mut out: Vec<String> = Vec::new();
    out.push(row.race.clone());
    out.push(row.choice.clone());
    out.push(row.party.clone());
    proof {
        assert(strings_view(out@) =~= seq![row@.race, row@.choice, row@.party]);
        assert(cells.take(0) =~= Seq::<Seq<Seq<char>>>::empty());
    }
    let mut i: usize = 0;
    while i < row.column_pairs.len()
        invariant
            i <= row.column_pairs.len(),
            rv == rows_view(rows@),
            row@.column_pairs.len() == row.column_pairs@.len(),
            cells == Seq::new(row@.column_pairs.len(), |i: int| column_cells(rv, row@, i)),
            strings_view(out@) == seq![row@.race, row@.choice, row@.party] + concat_all(cells.take(i as int)),
        decreases row.column_pairs.len() - i,
    {
        let mut c: Vec<String> = Vec::new();
        c.push(row.column_pairs[i].0.clone());
        c.push(row.column_pairs[i].1.clone());
        c.push(summary_value_exec(rows, &row.race, "Cast Votes", i));
        c.push(summary_value_exec(rows, &row.race, "Undervotes", i));
        c.push(summary_value_exec(rows, &row.race, "Overvotes", i));
        proof {
            assert(row@.column_pairs[i as int] == (row.column_pairs@[i as int].0@, row.column_pairs@[i as int].1@));
            assert(strings_view(c@) =~= column_cells(rv, row@, i as int));
            assert(cells.take(i + 1).drop_last() =~= cells.take(i as int));
            assert(cells.take(i + 1).last() == cells[i as int]);
        }
        push_all(&mut out, c);
        proof {
            assert(strings_view(out@) =~= seq![row@.race, row@.choice, row@.party] + concat_all(cells.take(i + 1)));
        }
        i = i + 1;
    }
    assert(cells.take(row.column_pairs.len() as int) =~= cells);
    let mut tail: Vec<String> = Vec::new();
    tail.push(row.precincts_counted.clone());
    tail.push(row.precincts_total.clone());
    tail.push(row.precincts_pct.clone());
    tail.push(county.clone());
    assert(strings_view(tail@) =~= seq![row@.precincts_counted, row@.precincts_total, row@.precincts_pct, county@]);
    push_all(&mut out, tail);
    assert(strings_view(out@) =~= row_record(rv, row@, county@));
    out
}

/// The records of the PDF-style CSV of a parsed PDF, header first: per
/// output column its votes and percent, then the race's "Cast Votes",
/// "Undervotes" and "Overvotes" in that column; then precincts and county.
pub fn pdf_style_csv_records(result: &HartPdfResult) -> (r: Vec<Vec<String>>)
    ensures
        records_view(r@) == pdf_style_csv(result@),
{
    let ghost rv = rows_view(result.rows@);
    let mut out: Vec<Vec<String>> = Vec::new();
    out.push(pdf_style_header_exec(&result.col_order));
    let ghost head = seq![pdf_style_header(strings_view(result.col_order@))];
    assert(records_view(out@) =~= head);
    assert(rv.take(0) =~= Seq::<ParsedRowView>::empty());
    let mut k: usize = 0;
    while k < result.rows.len()
        invariant
            k <= result.rows.len(),
            rv == rows_view(result.rows@),
            head == seq![pdf_style_header(strings_view(result.col_order@))],
            records_view(out@) == head + data_records(rv.take(k as int), rv, result.county@),
        decreases result.rows.len() - k,
    {
        let row = &result.rows[k];
        proof {
            assert(rv.take(k + 1).drop_last() =~= rv.take(k as int));
            assert(rv.take(k + 1).last() == row@);
        }
        if !is_summary_name_exec(&row.choice) {
            let ghost before = out@;
            let rec = row_record_exec(&result.rows, row, &result.county);
            out.push(rec);
            proof {
                assert(records_view(out@) =~= records_view(before).push(strings_view(rec@)));
            }
        }
        k = k + 1;
    }
    assert(rv.take(result.rows.len() as int) =~= rv);
    out
}

} // verus!
