//! Minnesota Secretary of State result files: decoding, staging table
//! definitions, and the identities and ref keys by which result rows are
//! matched to race candidates.
use vstd::prelude::*;
use crate::slug::{politician_ref_key_chars, ref_key};
use crate::text::{
    chars_of, collapse_ws, collapse_ws_exec, concat, contains_chars, eq_ignore_ascii_case,
    eq_ignore_case, chars_eq, is_ws, join, join_exec, lowercase, remove_char, remove_char_exec,
    replace, replace_exec, split_once, split_once_exec, string_of, to_lowercase, trim, trim_exec,
    chars_view, strings_view,
};
use crate::csv_text::{csv_delimited_records, csv_written, read_delimited_records, records_view, write_csv};
use crate::html::cells_view;

verus! {

/// What windows-1252 maps a byte to (WHATWG index, as `encoding_rs` has it).
pub open spec fn cp1252_char(b: u8) -> char {
    if b < 0x80 || b >= 0xa0 {
        (b as u32) as char
    } else {
        let t: u32 = if b == 0x80 { 0x20ac }
        else if b == 0x82 { 0x201a }
        else if b == 0x83 { 0x0192 }
        else if b == 0x84 { 0x201e }
        else if b == 0x85 { 0x2026 }
        else if b == 0x86 { 0x2020 }
        else if b == 0x87 { 0x2021 }
        else if b == 0x88 { 0x02c6 }
        else if b == 0x89 { 0x2030 }
        else if b == 0x8a { 0x0160 }
        else if b == 0x8b { 0x2039 }
        else if b == 0x8c { 0x0152 }
        else if b == 0x8e { 0x017d }
        else if b == 0x91 { 0x2018 }
        else if b == 0x92 { 0x2019 }
        else if b == 0x93 { 0x201c }
        else if b == 0x94 { 0x201d }
        else if b == 0x95 { 0x2022 }
        else if b == 0x96 { 0x2013 }
        else if b == 0x97 { 0x2014 }
        else if b == 0x98 { 0x02dc }
        else if b == 0x99 { 0x2122 }
        else if b == 0x9a { 0x0161 }
        else if b == 0x9b { 0x203a }
        else if b == 0x9c { 0x0153 }
        else if b == 0x9e { 0x017e }
        else if b == 0x9f { 0x0178 }
        else { b as u32 };
        t as char
    }
}

/// The input begins with a byte order mark (UTF-8, UTF-16BE or UTF-16LE).
pub open spec fn has_bom(b: Seq<u8>) -> bool {
    ||| (b.len() >= 3 && b[0] == 0xef && b[1] == 0xbb && b[2] == 0xbf)
    ||| (b.len() >= 2 && b[0] == 0xfe && b[1] == 0xff)
    ||| (b.len() >= 2 && b[0] == 0xff && b[1] == 0xfe)
}

/// What `WINDOWS_1252.decode` returns for input that begins with a byte order
/// mark (it then decodes in the encoding the mark names).
pub uninterp spec fn bom_sniffed_text(b: Seq<u8>) -> Seq<char>;

/// Calls `encoding_rs::WINDOWS_1252.decode`. Its documentation and source:
/// without a byte order mark every byte decodes through the windows-1252
/// index; with one, the mark is dropped and the rest decoded as the mark says.
#[verifier::external_body]
fn decode_windows_1252(bytes: &[u8]) -> (r: Vec<char>)
    ensures
        !has_bom(bytes@) ==> r@ == bytes@.map_values(|b: u8| cp1252_char(b)),
        has_bom(bytes@) ==> r@ == bom_sniffed_text(bytes@),
{
    let (text, _, _) = encoding_rs::WINDOWS_1252.decode(bytes);
    text.chars().collect()
}

/// Decodes a Minnesota SoS result file, which is windows-1252 text.
pub fn decode_results_text(bytes: &[u8]) -> (r: String)
    ensures
        !has_bom(bytes@) ==> r@ == bytes@.map_values(|b: u8| cp1252_char(b)),
        has_bom(bytes@) ==> r@ == bom_sniffed_text(bytes@),
{
    let v = decode_windows_1252(bytes);
    string_of(&v)
}

/// The columns of a candidate result file.
pub open spec fn header_names() -> Seq<Seq<char>> {
    seq![
        "State"@,
        "County ID"@,
        "Precinct name"@,
        "Office ID"@,
        "Office name"@,
        "District"@,
        "Candidate order code"@,
        "Candidate name"@,
        "Suffix"@,
        "Incumbent code"@,
        "Party abbreviation"@,
        "Number of precincts reporting"@,
        "Total number of precincts voting for the office"@,
        "Votes for candidate"@,
        "Percentage of votes for candidate out of total votes for Office"@,
        "Total number of votes for Office in area"@,
    ]
}

/// The columns of the precinct reporting statistics file.
pub open spec fn precinct_stats_header_names() -> Seq<Seq<char>> {
    seq![
        "State"@,
        "County ID"@,
        "Precinct ID"@,
        "Precinct Name"@,
        "Has Reported Statistics"@,
        "Number of Voters Registered"@,
        "Number of Voters that Registered on Election Day"@,
        "Number of Signatures on the Polling Place Roster"@,
        "Number of Regular Military and Overseas Absentee Ballots"@,
        "Number of Federal Only Absentee Ballots"@,
        "Number of President Only Absentee Ballots"@,
        "Total Number Voted"@,
    ]
}

/// The columns of the file called `name`.
pub open spec fn headers_for(name: Seq<char>) -> Seq<Seq<char>> {
    if name == "Precinct Reporting Statistics"@ {
        precinct_stats_header_names()
    } else {
        header_names()
    }
}

fn header_names_exec() -> (r: Vec<Vec<char>>)
    ensures
        r@.map_values(|h: Vec<char>| h@) == header_names(),
{
    let mut r: Vec<Vec<char>> = Vec::new();
    r.push(chars_of("State"));
    r.push(chars_of("County ID"));
    r.push(chars_of("Precinct name"));
    r.push(chars_of("Office ID"));
    r.push(chars_of("Office name"));
    r.push(chars_of("District"));
    r.push(chars_of("Candidate order code"));
    r.push(chars_of("Candidate name"));
    r.push(chars_of("Suffix"));
    r.push(chars_of("Incumbent code"));
    r.push(chars_of("Party abbreviation"));
    r.push(chars_of("Number of precincts reporting"));
    r.push(chars_of("Total number of precincts voting for the office"));
    r.push(chars_of("Votes for candidate"));
    r.push(chars_of("Percentage of votes for candidate out of total votes for Office"));
    r.push(chars_of("Total number of votes for Office in area"));
    assert(r@.map_values(|h: Vec<char>| h@) =~= header_names());
    r
}

fn precinct_stats_header_names_exec() -> (r: Vec<Vec<char>>)
    ensures
        r@.map_values(|h: Vec<char>| h@) == precinct_stats_header_names(),
{
    let mut r: Vec<Vec<char>> = Vec::new();
    r.push(chars_of("State"));
    r.push(chars_of("County ID"));
    r.push(chars_of("Precinct ID"));
    r.push(chars_of("Precinct Name"));
    r.push(chars_of("Has Reported Statistics"));
    r.push(chars_of("Number of Voters Registered"));
    r.push(chars_of("Number of Voters that Registered on Election Day"));
    r.push(chars_of("Number of Signatures on the Polling Place Roster"));
    r.push(chars_of("Number of Regular Military and Overseas Absentee Ballots"));
    r.push(chars_of("Number of Federal Only Absentee Ballots"));
    r.push(chars_of("Number of President Only Absentee Ballots"));
    r.push(chars_of("Total Number Voted"));
    assert(r@.map_values(|h: Vec<char>| h@) =~= precinct_stats_header_names());
    r
}

/// The column definition `"{name with spaces as underscores, lowercased} text"`.
pub open spec fn column_definition(h: Seq<char>) -> Seq<char> {
    lowercase(replace(h, " "@, "_"@)) + " text"@
}

/// The `CREATE TABLE` statement for the staging table of the file `name`.
pub open spec fn create_table_sql(name: Seq<char>, table_name: Seq<char>) -> Seq<char> {
    "CREATE TABLE "@ + table_name + " (\n            "@ + join(
        headers_for(name).map_values(|h: Seq<char>| column_definition(h)),
        ", "@,
    ) + "\n        );"@
}

/// The SQL that creates the staging table for the result file `name`.
pub fn get_create_table_query(name: &str, table_name: &str) -> (r: String)
    ensures
        r@ == create_table_sql(name@, table_name@),
{
    let name_v = chars_of(name);
    let stats = chars_of("Precinct Reporting Statistics");
    let headers = if chars_eq(&name_v, &stats) {
        precinct_stats_header_names_exec()
    } else {
        header_names_exec()
    };
    let ghost hs = headers@.map_values(|h: Vec<char>| h@);
    assert(hs == headers_for(name@));
    let space = chars_of(" ");
    let underscore = chars_of("_");
    let text_suffix = chars_of(" text");
    let mut cols: Vec<Vec<char>> = Vec::new();
    let mut i: usize = 0;
    while i < headers.len()
        invariant
            i <= headers.len(),
            hs == headers@.map_values(|h: Vec<char>| h@),
            space@ == " "@,
            underscore@ == "_"@,
            text_suffix@ == " text"@,
            cols@.map_values(|c: Vec<char>| c@) == hs.take(i as int).map_values(
                |h: Seq<char>| column_definition(h),
            ),
        decreases headers.len() - i,
    {
        proof {
            reveal_strlit(" ");
        }
        let replaced = replace_exec(&headers[i], &space, &underscore);
        let lowered = to_lowercase(&replaced);
        let col = concat(&lowered, &text_suffix);
        cols.push(col);
        proof {
            assert(hs.take(i + 1).map_values(|h: Seq<char>| column_definition(h)) =~= hs.take(
                i as int,
            ).map_values(|h: Seq<char>| column_definition(h)).push(column_definition(hs[i as int])));
            assert(cols@.map_values(|c: Vec<char>| c@) =~= hs.take(i as int).map_values(
                |h: Seq<char>| column_definition(h),
            ).push(column_definition(hs[i as int])));
        }
        i = i + 1;
    }
    assert(hs.take(headers.len() as int) == hs);
    let sep = chars_of(", ");
    let body = join_exec(&cols, &sep);
    let out = chars_of("CREATE TABLE ");
    let out = concat(&out, &chars_of(table_name));
    let out = concat(&out, &chars_of(" (\n            "));
    let out = concat(&out, &body);
    let out = concat(&out, &chars_of("\n        );"));
    string_of(&out)
}


/// Scanning `s` left to right: the characters outside parentheses, the
/// nesting depth reached, and whether any `(` was seen. A `)` that closes
/// nothing is kept as an ordinary character.
pub open spec fn paren_scan(s: Seq<char>) -> (Seq<char>, nat, bool)
    decreases s.len(),
{
    if s.len() == 0 {
        (seq![], 0nat, false)
    } else {
        let (o, d, ch) = paren_scan(s.drop_last());
        let c = s.last();
        if c == '(' {
            (o, d + 1, true)
        } else if c == ')' && d > 0 {
            (o, (d - 1) as nat, ch)
        } else if d == 0 {
            (o.push(c), d, ch)
        } else {
            (o, d, ch)
        }
    }
}

/// The name with its parenthesized parts removed and whitespace collapsed,
/// when it had a parenthesis and something is left.
pub open spec fn without_parentheticals(s: Seq<char>) -> Option<Seq<char>> {
    let (o, _d, ch) = paren_scan(s);
    let w = collapse_ws(o);
    if ch && w.len() > 0 {
        Some(w)
    } else {
        None
    }
}

/// The candidate name without its parenthesized parts ("Ahmad R. (Raafat)
/// Hassan" gives "Ahmad R. Hassan"), or `None` when it has none or nothing
/// else.
pub fn candidate_name_without_parentheticals(candidate_name: &str) -> (r: Option<String>)
    ensures
        match r {
            Some(n) => without_parentheticals(candidate_name@) == Some(n@),
            None => without_parentheticals(candidate_name@) is None,
        },
{
    let s = chars_of(candidate_name);
    let mut depth: usize = 0;
    let mut changed = false;
    let mut out: Vec<char> = Vec::new();
    let mut i: usize = 0;
    assert(s@.take(0) == Seq::<char>::empty());
    while i < s.len()
        invariant
            i <= s.len(),
            s@ == candidate_name@,
            paren_scan(s@.take(i as int)) == (out@, depth as nat, changed),
            depth <= i,
        decreases s.len() - i,
    {
        let c = s[i];
        proof {
            assert(s@.take(i + 1).drop_last() == s@.take(i as int));
            assert(s@.take(i + 1).last() == c);
        }
        if c == '(' {
            depth = depth + 1;
            changed = true;
        } else if c == ')' && depth > 0 {
            depth = depth - 1;
        } else if depth == 0 {
            out.push(c);
        }
        i = i + 1;
    }
    assert(s@.take(s.len() as int) == s@);
    let w = collapse_ws_exec(&out);
    if changed && w.len() > 0 {
        Some(string_of(&w))
    } else {
        None
    }
}

/// `items` appended one by one to `acc`, each only when not already there.
pub open spec fn push_new(acc: Seq<Seq<char>>, items: Seq<Seq<char>>) -> Seq<Seq<char>>
    decreases items.len(),
{
    if items.len() == 0 {
        acc
    } else {
        let a = push_new(acc, items.drop_last());
        if a.contains(items.last()) {
            a
        } else {
            a.push(items.last())
        }
    }
}

/// For each of `items` in order, its form without periods appended to
/// `acc` when it differs from the item and is not already there.
pub open spec fn push_dotless(acc: Seq<Seq<char>>, items: Seq<Seq<char>>) -> Seq<Seq<char>>
    decreases items.len(),
{
    if items.len() == 0 {
        acc
    } else {
        let a = push_dotless(acc, items.drop_last());
        let n = items.last();
        let w = remove_char(n, '.');
        if w != n && !a.contains(w) {
            a.push(w)
        } else {
            a
        }
    }
}

/// The spellings of a result's candidate name tried against the filings:
/// the name as given, then without parenthesized parts, then each of those
/// without periods (J.R. and JR), without repeats.
pub open spec fn result_name_variants(candidate_name: Seq<char>) -> Seq<Seq<char>> {
    let first = seq![candidate_name];
    let with_plain = match without_parentheticals(candidate_name) {
        Some(c) => if first.contains(c) {
            first
        } else {
            first.push(c)
        },
        None => first,
    };
    push_dotless(with_plain, with_plain)
}

/// The ref keys a Minnesota result row may carry, most preferred first.
pub open spec fn result_ref_keys(
    election_slug: Seq<char>,
    office_name: Seq<char>,
    candidate_name: Seq<char>,
) -> Seq<Seq<char>> {
    push_new(
        seq![],
        result_name_variants(candidate_name).map_values(
            |n: Seq<char>| ref_key("mn-sos"@, election_slug, office_name, Some(n)),
        ),
    )
}

/// Appends `x` unless an equal vector is already in `v`.
fn push_if_new(v: &mut Vec<Vec<char>>, x: Vec<char>)
    ensures
        chars_view(final(v)@) == if chars_view(old(v)@).contains(x@) {
            chars_view(old(v)@)
        } else {
            chars_view(old(v)@).push(x@)
        },
{
    if !contains_chars(v, &x) {
        let ghost before = chars_view(v@);
        v.push(x);
        assert(chars_view(v@) =~= before.push(x@));
    }
}

/// The ref keys under which a Minnesota result row for `candidate_name` in
/// `office_name` may have been filed, most preferred first.
pub fn result_ref_key_candidates(
    election_slug: &str,
    office_name: &str,
    candidate_name: &str,
) -> (r: Vec<String>)
    ensures
        strings_view(r@) == result_ref_keys(election_slug@, office_name@, candidate_name@),
{
    let cand = chars_of(candidate_name);
    let mut names: Vec<Vec<char>> = Vec::new();
    names.push(cand);
    assert(chars_view(names@) =~= seq![candidate_name@]);
    match candidate_name_without_parentheticals(candidate_name) {
        Some(c) => {
            push_if_new(&mut names, chars_of(c.as_str()));
        },
        None => {},
    }
    let ghost with_plain = chars_view(names@);
    let snapshot = names.clone();
    assert(chars_view(snapshot@) == with_plain) by {
        assert(chars_view(snapshot@) =~= with_plain);
    }
    let mut i: usize = 0;
    assert(with_plain.take(0) == Seq::<Seq<char>>::empty());
    while i < snapshot.len()
        invariant
            i <= snapshot.len(),
            chars_view(snapshot@) == with_plain,
            chars_view(names@) == push_dotless(with_plain, with_plain.take(i as int)),
        decreases snapshot.len() - i,
    {
        let n = &snapshot[i];
        let w = remove_char_exec(n, '.');
        proof {
            assert(with_plain.take(i + 1).drop_last() == with_plain.take(i as int));
            assert(with_plain.take(i + 1).last() == n@);
        }
        if !chars_eq(&w, n) {
            push_if_new(&mut names, w);
        }
        i = i + 1;
    }
    assert(with_plain.take(snapshot.len() as int) == with_plain);
    let ghost variants = chars_view(names@);
    assert(variants == result_name_variants(candidate_name@));
    let ghost keys_spec = variants.map_values(
        |n: Seq<char>| ref_key("mn-sos"@, election_slug@, office_name@, Some(n)),
    );
    let source = chars_of("mn-sos");
    let election = chars_of(election_slug);
    let office = chars_of(office_name);
    let mut keys: Vec<Vec<char>> = Vec::new();
    let mut j: usize = 0;
    assert(keys_spec.take(0) == Seq::<Seq<char>>::empty());
    while j < names.len()
        invariant
            j <= names.len(),
            variants == chars_view(names@),
            source@ == "mn-sos"@,
            election@ == election_slug@,
            office@ == office_name@,
            keys_spec == variants.map_values(
                |n: Seq<char>| ref_key("mn-sos"@, election_slug@, office_name@, Some(n)),
            ),
            chars_view(keys@) == push_new(seq![], keys_spec.take(j as int)),
        decreases names.len() - j,
    {
        let k = politician_ref_key_chars(&source, &election, &office, Some(&names[j]));
        proof {
            assert(keys_spec.take(j + 1).drop_last() == keys_spec.take(j as int));
            assert(keys_spec.take(j + 1).last() == k@);
        }
        push_if_new(&mut keys, k);
        j = j + 1;
    }
    assert(keys_spec.take(names.len() as int) == keys_spec);
    let mut out: Vec<String> = Vec::new();
    let mut m: usize = 0;
    while m < keys.len()
        invariant
            m <= keys.len(),
            strings_view(out@) == chars_view(keys@).take(m as int),
        decreases keys.len() - m,
    {
        let st = string_of(&keys[m]);
        assert(st@ == chars_view(keys@)[m as int]);
        let ghost prev = out@;
        out.push(st);
        proof {
            assert(out@ == prev.push(st));
            assert(strings_view(out@) =~= strings_view(prev).push(st@));
            assert(chars_view(keys@).take(m + 1) =~= chars_view(keys@).take(m as int).push(st@));
        }
        m = m + 1;
    }
    assert(chars_view(keys@).take(keys.len() as int) == chars_view(keys@));
    out
}

/// The (office, candidate) identities a result row stands for: none for a
/// write-in line; the governor and the lieutenant governor, each on their
/// own, for a governor ticket ("A and B"); otherwise the row's own, trimmed.
pub open spec fn result_identities(office_name: Seq<char>, candidate_name: Seq<char>) -> Seq<
    (Seq<char>, Seq<char>),
> {
    if eq_ignore_case(trim(candidate_name), "WRITE-IN"@) {
        seq![]
    } else if trim(office_name) != "Governor & Lt Governor"@ {
        seq![(trim(office_name), trim(candidate_name))]
    } else {
        match split_once(candidate_name, " and "@) {
            Some((g, l)) => seq![("Governor"@, trim(g)), ("Lieutenant Governor"@, trim(l))],
            None => seq![],
        }
    }
}

pub open spec fn pairs_view(v: Seq<(String, String)>) -> Seq<(Seq<char>, Seq<char>)> {
    v.map_values(|p: (String, String)| (p.0@, p.1@))
}

/// The identities under which a result row is matched: see `result_identities`.
pub fn normalized_result_identities(office_name: &str, candidate_name: &str) -> (r: Vec<(String, String)>)
    ensures
        pairs_view(r@) == result_identities(office_name@, candidate_name@),
{
    let office = chars_of(office_name);
    let cand = chars_of(candidate_name);
    let cand_t = trim_exec(&cand);
    let office_t = trim_exec(&office);
    let mut out: Vec<(String, String)> = Vec::new();
    if eq_ignore_ascii_case(&cand_t, &chars_of("WRITE-IN")) {
        assert(pairs_view(out@) =~= seq![]);
        return out;
    }
    if !chars_eq(&office_t, &chars_of("Governor & Lt Governor")) {
        out.push((string_of(&office_t), string_of(&cand_t)));
        assert(pairs_view(out@) =~= seq![(trim(office_name@), trim(candidate_name@))]);
        return out;
    }
    match split_once_exec(&cand, &chars_of(" and ")) {
        Some((g, l)) => {
            let gt = trim_exec(&g);
            let lt = trim_exec(&l);
            out.push((String::from_str("Governor"), string_of(&gt)));
            out.push((String::from_str("Lieutenant Governor"), string_of(&lt)));
            assert(pairs_view(out@) =~= seq![("Governor"@, gt@), ("Lieutenant Governor"@, lt@)]);
            out
        },
        None => {
            assert(pairs_view(out@) =~= seq![]);
            out
        },
    }
}


/// The field delimiter of the result files.
pub const RESULTS_DELIMITER: u8 = 59;

/// The number of fields of a well-formed result record.
pub const RESULT_RECORD_FIELDS: usize = 16;

/// The records that are copied to the CSV: those the reader accepted and
/// that have exactly sixteen fields, in order.
pub open spec fn kept_result_records(recs: Seq<Option<Seq<Seq<char>>>>) -> Seq<Seq<Seq<char>>>
    decreases recs.len(),
{
    if recs.len() == 0 {
        seq![]
    } else {
        let rest = kept_result_records(recs.drop_last());
        match recs.last() {
            Some(f) => if f.len() == RESULT_RECORD_FIELDS { rest.push(f) } else { rest },
            None => rest,
        }
    }
}

/// The rows of the CSV made of a result file called `name`: its header
/// row, then the kept records.
pub open spec fn results_file_rows(name: Seq<char>, recs: Seq<Option<Seq<Seq<char>>>>) -> Seq<Seq<Seq<char>>> {
    seq![headers_for(name)] + kept_result_records(recs)
}

/// Whether writing the rows would put a sixteen-field record under the
/// twelve columns of the precinct statistics header.
pub open spec fn stats_header_mismatch(name: Seq<char>, recs: Seq<Option<Seq<Seq<char>>>>) -> bool {
    name == "Precinct Reporting Statistics"@ && kept_result_records(recs).len() > 0
}

fn strings_of_chars(v: &Vec<Vec<char>>) -> (r: Vec<String>)
    ensures
        strings_view(r@) == chars_view(v@),
{
    let mut r: Vec<String> = Vec::new();
    let mut i: usize = 0;
    while i < v.len()
        invariant
            i <= v.len(),
            strings_view(r@) == chars_view(v@).take(i as int),
        decreases v.len() - i,
    {
        r.push(string_of(&v[i]));
        proof {
            assert(chars_view(v@).take(i + 1) =~= chars_view(v@).take(i as int).push(v@[i as int]@));
            assert(strings_view(r@) =~= chars_view(v@).take(i as int).push(v@[i as int]@));
        }
        i = i + 1;
    }
    assert(chars_view(v@).take(v.len() as int) =~= chars_view(v@));
    r
}

fn copy_strings(v: &Vec<String>) -> (r: Vec<String>)
    ensures
        r@ == v@,
{
    let mut r: Vec<String> = Vec::new();
    let mut i: usize = 0;
    while i < v.len()
        invariant
            i <= v.len(),
            r@ == v@.take(i as int),
        decreases v.len() - i,
    {
        r.push(v[i].clone());
        proof {
            assert(v@.take(i + 1) =~= v@.take(i as int).push(v@[i as int]));
        }
        i = i + 1;
    }
    assert(v@.take(v.len() as int) =~= v@);
    r
}

/// The rows of the CSV for the result file `name` whose records (as the
/// reader gave them) are `records`: the file's header row, then every
/// accepted record of sixteen fields, in order.
pub fn results_csv_rows(name: &str, records: &Vec<Option<Vec<String>>>) -> (r: Vec<Vec<String>>)
    ensures
        cells_view(r@) == results_file_rows(name@, records_view(records@)),
{
    let name_v = chars_of(name);
    let stats = chars_of("Precinct Reporting Statistics");
    let headers = if chars_eq(&name_v, &stats) {
        precinct_stats_header_names_exec()
    } else {
        header_names_exec()
    };
    proof {
        assert(chars_view(headers@) =~= headers@.map_values(|h: Vec<char>| h@));
    }
    let mut rows: Vec<Vec<String>> = Vec::new();
    rows.push(strings_of_chars(&headers));
    let ghost recs = records_view(records@);
    let mut i: usize = 0;
    while i < records.len()
        invariant
            i <= records.len(),
            recs == records_view(records@),
            cells_view(rows@) == seq![headers_for(name@)] + kept_result_records(recs.take(i as int)),
        decreases records.len() - i,
    {
        proof {
            assert(recs.take(i + 1).drop_last() =~= recs.take(i as int));
        }
        match &records[i] {
            Some(fields) => {
                if fields.len() == RESULT_RECORD_FIELDS {
                    let ghost before = rows@;
                    rows.push(copy_strings(fields));
                    proof {
                        assert(cells_view(rows@) =~= cells_view(before).push(strings_view(fields@)));
                    }
                }
            },
            None => {},
        }
        i = i + 1;
    }
    assert(recs.take(records.len() as int) =~= recs);
    rows
}


/// The CSV (header row first) made of a semicolon-delimited result file
/// called `name`: records the reader rejects, and records that do not have
/// sixteen fields, are skipped. `Err` where the writer refuses the rows.
/// Writing sixteen-field records under the twelve-column precinct
/// statistics header panics in the writer loop, so that input is excluded.
pub fn convert_text_to_csv(name: &str, text: &str) -> (r: Result<Vec<u8>, String>)
    requires
        !stats_header_mismatch(name@, csv_delimited_records(text@, RESULTS_DELIMITER)),
    ensures
        match r {
            Ok(b) => csv_written(results_file_rows(name@, csv_delimited_records(text@, RESULTS_DELIMITER))) == Some(b@),
            Err(_) => csv_written(results_file_rows(name@, csv_delimited_records(text@, RESULTS_DELIMITER))) is None,
        },
{
    let records = read_delimited_records(text, RESULTS_DELIMITER);
    let rows = results_csv_rows(name, &records);
    match write_csv(&rows) {
        Some(b) => Ok(b),
        None => Err(String::from_str("the results CSV could not be written")),
    }
}

/// `convert_text_to_csv` where its precondition holds of the parsed file,
/// and `None` where sixteen-field records would go under the precinct
/// statistics header.
pub fn convert_results_file(name: &str, text: &str) -> (r: Option<Result<Vec<u8>, String>>)
    ensures
        r is None <==> stats_header_mismatch(name@, csv_delimited_records(text@, RESULTS_DELIMITER)),
        r matches Some(Ok(b)) ==> csv_written(results_file_rows(name@, csv_delimited_records(text@, RESULTS_DELIMITER))) == Some(b@),
        r matches Some(Err(_)) ==> csv_written(results_file_rows(name@, csv_delimited_records(text@, RESULTS_DELIMITER))) is None,
{
    let records = read_delimited_records(text, RESULTS_DELIMITER);
    let rows = results_csv_rows(name, &records);
    let is_stats = chars_eq(&chars_of(name), &chars_of("Precinct Reporting Statistics"));
    if is_stats && rows.len() > 1 {
        None
    } else {
        Some(convert_text_to_csv(name, text))
    }
}

} // verus!
