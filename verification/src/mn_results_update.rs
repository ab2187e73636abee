//! Loading Minnesota result files into the public schema: the staging table
//! a result file goes to, the SQL that matches the staged rows to race
//! candidates by their ref keys and updates votes and totals, and what a
//! run's summary counts say.
use vstd::prelude::*;
use crate::text::{
    chars_of, concat, join, join_exec, lowercase, nat_digits, remove_char, remove_char_exec,
    replace, replace_exec, string_of, strings_view, to_lowercase, u64_digits, i64_to_chars, decimal,
};

verus! {

/// The election whose race candidates the results are matched to.
pub const RESULTS_ELECTION_ID: &'static str = "5fa881d7-f8f3-4b90-9063-45236c85c77a";

/// The update statement up to the ref key candidate values.
pub const UPDATE_QUERY_HEAD: &'static str = r##"
        WITH ref_key_candidates (office_name, candidate_name, ref_key, priority) AS (
            VALUES "##;

/// The update statement between the candidate values and the source rows.
pub const UPDATE_QUERY_SOURCE: &'static str = r##"
        ),
        source AS (
            "##;

/// The update statement between the source rows and the election id.
pub const UPDATE_QUERY_ELECTION: &'static str = r##"
        ),
        source_normalized AS (
            SELECT
                office_name,
                county_id,
                office_id,
                candidate_name,
                votes_for_candidate,
                total_number_of_votes_for_office_in_area,
                number_of_precincts_reporting,
                total_number_of_precincts_voting_for_the_office
            FROM
                source
            WHERE
                TRIM(office_name) IS DISTINCT FROM 'Governor & Lt Governor'
                AND UPPER(TRIM(COALESCE(candidate_name, ''))) <> 'WRITE-IN'
            UNION ALL
            SELECT
                'Governor' AS office_name,
                county_id,
                office_id,
                TRIM(SPLIT_PART(candidate_name, ' and ', 1)) AS candidate_name,
                votes_for_candidate,
                total_number_of_votes_for_office_in_area,
                number_of_precincts_reporting,
                total_number_of_precincts_voting_for_the_office
            FROM
                source
            WHERE
                TRIM(office_name) = 'Governor & Lt Governor'
                AND TRIM(SPLIT_PART(COALESCE(candidate_name, ''), ' and ', 1)) <> ''
            UNION ALL
            SELECT
                'Lieutenant Governor' AS office_name,
                county_id,
                office_id,
                TRIM(SPLIT_PART(candidate_name, ' and ', 2)) AS candidate_name,
                votes_for_candidate,
                total_number_of_votes_for_office_in_area,
                number_of_precincts_reporting,
                total_number_of_precincts_voting_for_the_office
            FROM
                source
            WHERE
                TRIM(office_name) = 'Governor & Lt Governor'
                AND POSITION(' and ' IN COALESCE(candidate_name, '')) > 0
                AND TRIM(SPLIT_PART(candidate_name, ' and ', 2)) <> ''
        ),
        results AS (
            SELECT DISTINCT ON (office_name, candidate_name)
                office_name,
                source.county_id,
                source.office_id,
                candidate_name,
                votes_for_candidate,
                total_number_of_votes_for_office_in_area,
                number_of_precincts_reporting,
                total_number_of_precincts_voting_for_the_office,
                matched.ref_key,
                matched.race_id,
                r.title AS race_title,
                r.vote_type AS vote_type,
                matched.race_candidate_votes,
                r.total_votes AS race_total_votes,
                CASE WHEN office_name ILIKE '%first choice%' THEN
                    votes_for_candidate::int
                ELSE
                    NULL
                END AS first_choice_votes,
                CASE WHEN office_name ILIKE '%first choice%' THEN
                    total_number_of_votes_for_office_in_area::int
                ELSE
                    NULL
                END AS total_first_choice_votes
            FROM
                source_normalized AS source
            LEFT JOIN LATERAL (
                SELECT
                    rc.ref_key,
                    race.id AS race_id,
                    rc.votes AS race_candidate_votes
                FROM
                    ref_key_candidates keys
                JOIN race_candidates rc ON rc.ref_key = keys.ref_key
                JOIN race ON race.id = rc.race_id
                    AND race.election_id = '"##;

/// The rest of the update statement: matching, updates and the summary counts.
pub const UPDATE_QUERY_TAIL: &'static str = r##"'::uuid
                WHERE
                    keys.office_name = source.office_name
                    AND keys.candidate_name = source.candidate_name
                ORDER BY
                    keys.priority
                LIMIT 1
            ) matched ON TRUE
            LEFT JOIN race r ON r.id = matched.race_id
            ORDER BY
                office_name,
                candidate_name,
                CASE WHEN office_name LIKE '%First Choice%' THEN
                    1
                WHEN office_name LIKE '%Second Choice%' THEN
                    2
                WHEN office_name LIKE '%Third Choice%' THEN
                    3
                ELSE
                    4 -- You can add more conditions if needed
                END
        ),
        update_race_candidates AS (
            UPDATE
                race_candidates rc
            SET
                votes = COALESCE(first_choice_votes,
                    results.votes_for_candidate::integer)
            FROM
                results
            WHERE
                rc.ref_key = results.ref_key
                AND rc.race_id = results.race_id
            RETURNING
                *
        ),
        update_race AS (
            UPDATE
                race
            SET
                total_votes = COALESCE(total_first_choice_votes,
                    NULLIF(results.total_number_of_votes_for_office_in_area::integer,
                        0)),
                num_precincts_reporting = results.number_of_precincts_reporting::integer,
                total_precincts = results.total_number_of_precincts_voting_for_the_office::integer
            FROM
                results
            WHERE
                race.id = results.race_id
        )
        SELECT
            COUNT(*)::bigint AS result_rows,
            COUNT(race_id)::bigint AS matched_rows,
            STRING_AGG(
                CONCAT(office_name, ' | ', candidate_name),
                '; ' ORDER BY office_name, candidate_name
            ) FILTER (WHERE race_id IS NULL) AS unmatched_candidates
        FROM results;
    "##;

/// What `char::is_numeric` returns (the Unicode number categories).
pub uninterp spec fn numeric_char(c: char) -> bool;

/// Calls `char::is_numeric`; named by `numeric_char`.
#[verifier::external_body]
fn is_numeric(c: char) -> (r: bool)
    ensures
        r == numeric_char(c),
{
    c.is_numeric()
}

/// The number of bytes of `c` in UTF-8.
pub open spec fn utf8_len(c: char) -> int {
    if (c as u32) < 0x80 {
        1
    } else if (c as u32) < 0x800 {
        2
    } else if (c as u32) < 0x10000 {
        3
    } else {
        4
    }
}

/// The number of bytes of `s` in UTF-8 (what `str::len` returns).
pub open spec fn byte_len(s: Seq<char>) -> int
    decreases s.len(),
{
    if s.len() == 0 {
        0
    } else {
        byte_len(s.drop_last()) + utf8_len(s.last())
    }
}

/// The parts of `s` between the occurrences of `c` (what `str::split`
/// yields): one more part than there are occurrences.
pub open spec fn split_on(s: Seq<char>, c: char) -> Seq<Seq<char>>
    decreases s.len(),
{
    if s.len() == 0 {
        seq![seq![]]
    } else {
        let p = split_on(s.drop_last(), c);
        if s.last() == c {
            p.push(seq![])
        } else {
            p.update(p.len() - 1, p.last().push(s.last()))
        }
    }
}

proof fn lemma_split_on_nonempty(s: Seq<char>, c: char)
    ensures
        split_on(s, c).len() >= 1,
    decreases s.len(),
{
    if s.len() > 0 {
        lemma_split_on_nonempty(s.drop_last(), c);
    }
}

/// A date part of a results URL: eight bytes, every character numeric.
pub open spec fn is_date_segment(seg: Seq<char>) -> bool {
    byte_len(seg) == 8 && forall|i: int| 0 <= i < seg.len() ==> numeric_char(#[trigger] seg[i])
}

/// The first of `segs` that is a date part.
pub open spec fn first_date_segment(segs: Seq<Seq<char>>) -> Option<Seq<char>>
    decreases segs.len(),
{
    if segs.len() == 0 {
        None
    } else {
        match first_date_segment(segs.drop_last()) {
            Some(d) => Some(d),
            None => if is_date_segment(segs.last()) {
                Some(segs.last())
            } else {
                None
            },
        }
    }
}

/// The staging table of the result file `name` fetched from `url`:
/// `p6t_state_mn.results_{date}_{name}`, the date being the URL's first
/// `/`-separated part of eight numeric bytes ("unknown" where there is
/// none), the name without periods and commas, spaces made underscores,
/// lowercased.
pub open spec fn results_table(name: Seq<char>, url: Seq<char>) -> Seq<char> {
    let date = match first_date_segment(split_on(url, '/')) {
        Some(d) => d,
        None => "unknown"@,
    };
    "p6t_state_mn.results_"@ + date + "_"@ + lowercase(replace(remove_char(remove_char(name, '.'), ','), " "@, "_"@))
}

fn split_on_exec(s: &Vec<char>, c: char) -> (r: Vec<Vec<char>>)
    ensures
        r@.map_values(|p: Vec<char>| p@) == split_on(s@, c),
{
    let mut parts: Vec<Vec<char>> = Vec::new();
    let mut cur: Vec<char> = Vec::new();
    let mut i: usize = 0;
    while i < s.len()
        invariant
            i <= s.len(),
            parts@.map_values(|p: Vec<char>| p@).push(cur@) == split_on(s@.take(i as int), c),
        decreases s.len() - i,
    {
        let ghost prev_parts = parts@.map_values(|p: Vec<char>| p@);
        let ghost prev_cur = cur@;
        proof {
            assert(s@.take(i + 1).drop_last() =~= s@.take(i as int));
            assert(s@.take(i + 1).last() == s@[i as int]);
            lemma_split_on_nonempty(s@.take(i as int), c);
        }
        if s[i] == c {
            let done = cur;
            parts.push(done);
            cur = Vec::new();
            proof {
                assert(parts@.map_values(|p: Vec<char>| p@) =~= prev_parts.push(prev_cur));
                assert(parts@.map_values(|p: Vec<char>| p@).push(cur@) =~= prev_parts.push(prev_cur).push(seq![]));
            }
        } else {
            cur.push(s[i]);
            proof {
                let p = prev_parts.push(prev_cur);
                assert(parts@.map_values(|p: Vec<char>| p@).push(cur@) =~= p.update(p.len() - 1, p.last().push(s@[i as int])));
            }
        }
        i = i + 1;
    }
    assert(s@.take(s.len() as int) =~= s@);
    let ghost prev_parts = parts@.map_values(|p: Vec<char>| p@);
    let ghost prev_cur = cur@;
    parts.push(cur);
    assert(parts@.map_values(|p: Vec<char>| p@) =~= prev_parts.push(prev_cur));
    parts
}

pub(crate) fn utf8_len_exec(c: char) -> (r: u128)
    ensures
        r == utf8_len(c),
{
    if (c as u32) < 0x80 {
        1
    } else if (c as u32) < 0x800 {
        2
    } else if (c as u32) < 0x10000 {
        3
    } else {
        4
    }
}

fn is_date_segment_exec(seg: &Vec<char>) -> (r: bool)
    ensures
        r == is_date_segment(seg@),
{
    let mut bytes: u128 = 0;
    let mut all_numeric = true;
    let mut i: usize = 0;
    while i < seg.len()
        invariant
            i <= seg.len(),
            bytes == byte_len(seg@.take(i as int)),
            bytes <= 4 * i,
            all_numeric == (forall|k: int| 0 <= k < i ==> numeric_char(#[trigger] seg@[k])),
        decreases seg.len() - i,
    {
        proof {
            assert(seg@.take(i + 1).drop_last() =~= seg@.take(i as int));
            assert(seg@.take(i + 1).last() == seg@[i as int]);
        }
        bytes = bytes + utf8_len_exec(seg[i]);
        if !is_numeric(seg[i]) {
            all_numeric = false;
        }
        i = i + 1;
    }
    assert(seg@.take(seg.len() as int) =~= seg@);
    bytes == 8 && all_numeric
}

fn first_date_segment_exec(segs: &Vec<Vec<char>>) -> (r: Option<Vec<char>>)
    ensures
        match r {
            Some(d) => first_date_segment(segs@.map_values(|p: Vec<char>| p@)) == Some(d@),
            None => first_date_segment(segs@.map_values(|p: Vec<char>| p@)) is None,
        },
{
    let ghost sv = segs@.map_values(|p: Vec<char>| p@);
    let mut k: usize = 0;
    while k < segs.len()
        invariant
            k <= segs.len(),
            sv == segs@.map_values(|p: Vec<char>| p@),
            first_date_segment(sv.take(k as int)) is None,
        decreases segs.len() - k,
    {
        proof {
            assert(sv.take(k + 1).drop_last() =~= sv.take(k as int));
        }
        if is_date_segment_exec(&segs[k]) {
            proof {
                lemma_first_date_found(sv, k as int);
            }
            return Some(segs[k].clone());
        }
        k = k + 1;
    }
    assert(sv.take(segs.len() as int) =~= sv);
    None
}

/// The staging table that the result file `name` from `url` is loaded into.
pub fn results_table_name(name: &str, url: &str) -> (r: String)
    ensures
        r@ == results_table(name@, url@),
{
    let segs = split_on_exec(&chars_of(url), '/');
    let d = match first_date_segment_exec(&segs) {
        Some(d) => d,
        None => chars_of("unknown"),
    };
    let n = remove_char_exec(&remove_char_exec(&chars_of(name), '.'), ',');
    proof {
        reveal_strlit(" ");
    }
    let n = replace_exec(&n, &chars_of(" "), &chars_of("_"));
    let n = to_lowercase(n.as_slice());
    let t = concat(&concat(&concat(&chars_of("p6t_state_mn.results_"), &d), &chars_of("_")), &n);
    string_of(t.as_slice())
}

proof fn lemma_first_date_found(segs: Seq<Seq<char>>, k: int)
    requires
        0 <= k < segs.len(),
        first_date_segment(segs.take(k)) is None,
        is_date_segment(segs[k]),
    ensures
        first_date_segment(segs) == Some(segs[k]),
    decreases segs.len(),
{
    if k < segs.len() - 1 {
        assert(segs.drop_last().take(k) =~= segs.take(k));
        lemma_first_date_found(segs.drop_last(), k);
    } else {
        assert(segs.drop_last() =~= segs.take(k));
    }
}

/// The source rows of the update: each staging table selected whole, the
/// selections joined by `UNION ALL`.
pub open spec fn source_tables_text(tables: Seq<Seq<char>>) -> Seq<char> {
    join(tables.map_values(|t: Seq<char>| "SELECT * FROM "@ + t), " UNION ALL "@)
}

/// The source rows of the update, from the staging tables loaded.
pub fn source_tables_sql(table_names: &Vec<String>) -> (r: String)
    ensures
        r@ == source_tables_text(strings_view(table_names@)),
{
    let ghost tv = strings_view(table_names@);
    let mut parts: Vec<Vec<char>> = Vec::new();
    let mut i: usize = 0;
    while i < table_names.len()
        invariant
            i <= table_names.len(),
            tv == strings_view(table_names@),
            parts@.map_values(|p: Vec<char>| p@) == tv.take(i as int).map_values(|t: Seq<char>| "SELECT * FROM "@ + t),
        decreases table_names.len() - i,
    {
        let ghost before = parts@.map_values(|p: Vec<char>| p@);
        parts.push(concat(&chars_of("SELECT * FROM "), &chars_of(table_names[i].as_str())));
        proof {
            assert(parts@.map_values(|p: Vec<char>| p@) =~= before.push("SELECT * FROM "@ + tv[i as int]));
            assert(tv.take(i + 1).map_values(|t: Seq<char>| "SELECT * FROM "@ + t) =~= tv.take(i as int).map_values(
                |t: Seq<char>| "SELECT * FROM "@ + t,
            ).push("SELECT * FROM "@ + tv[i as int]));
        }
        i = i + 1;
    }
    assert(tv.take(table_names.len() as int) =~= tv);
    string_of(join_exec(&parts, &chars_of(" UNION ALL ")).as_slice())
}

/// The bind placeholders of candidate `i` (from 0): office, candidate and
/// ref key as text, priority as integer.
pub open spec fn value_placeholders(i: nat) -> Seq<char> {
    "($"@ + nat_digits(4 * i + 1) + "::text, $"@ + nat_digits(4 * i + 2) + "::text, $"@ + nat_digits(4 * i + 3)
        + "::text, $"@ + nat_digits(4 * i + 4) + "::integer)"@
}

/// The `VALUES` rows of `n` ref key candidates, joined by ", ".
pub open spec fn ref_key_values_text(n: nat) -> Seq<char> {
    join(Seq::new(n, |i: int| value_placeholders(i as nat)), ", "@)
}

/// The `VALUES` rows that `n` bound ref key candidates fill.
pub fn ref_key_values_sql(n: u64) -> (r: String)
    requires
        4 * n + 4 <= u64::MAX,
    ensures
        r@ == ref_key_values_text(n as nat),
{
    let ghost want = Seq::new(n as nat, |i: int| value_placeholders(i as nat));
    let mut parts: Vec<Vec<char>> = Vec::new();
    let mut i: u64 = 0;
    while i < n
        invariant
            i <= n,
            4 * n + 4 <= u64::MAX,
            want == Seq::new(n as nat, |i: int| value_placeholders(i as nat)),
            parts@.map_values(|p: Vec<char>| p@) == want.take(i as int),
        decreases n - i,
    {
        let first = i * 4 + 1;
        let mut t = concat(&chars_of("($"), &u64_digits(first));
        t = concat(&t, &chars_of("::text, $"));
        t = concat(&t, &u64_digits(first + 1));
        t = concat(&t, &chars_of("::text, $"));
        t = concat(&t, &u64_digits(first + 2));
        t = concat(&t, &chars_of("::text, $"));
        t = concat(&t, &u64_digits(first + 3));
        t = concat(&t, &chars_of("::integer)"));
        let ghost before = parts@.map_values(|p: Vec<char>| p@);
        parts.push(t);
        proof {
            assert(t@ == value_placeholders(i as nat));
            assert(parts@.map_values(|p: Vec<char>| p@) =~= before.push(want[i as int]));
            assert(want.take(i + 1) =~= want.take(i as int).push(want[i as int]));
        }
        i = i + 1;
    }
    assert(want.take(n as int) =~= want);
    string_of(join_exec(&parts, &chars_of(", ")).as_slice())
}

/// The statement that matches the staged result rows (of `source_tables`)
/// to race candidates through the bound ref key candidates (`values`),
/// updates their votes and their races' totals and precincts, and counts
/// the rows and the unmatched ones.
pub open spec fn update_results_text(values: Seq<char>, source_tables: Seq<char>) -> Seq<char> {
    UPDATE_QUERY_HEAD@ + values + UPDATE_QUERY_SOURCE@ + source_tables + UPDATE_QUERY_ELECTION@ + RESULTS_ELECTION_ID@
        + UPDATE_QUERY_TAIL@
}

/// The update statement for the given `VALUES` rows and source rows.
pub fn update_results_sql(values: &str, source_tables: &str) -> (r: String)
    ensures
        r@ == update_results_text(values@, source_tables@),
{
    let mut t = chars_of(UPDATE_QUERY_HEAD);
    t = concat(&t, &chars_of(values));
    t = concat(&t, &chars_of(UPDATE_QUERY_SOURCE));
    t = concat(&t, &chars_of(source_tables));
    t = concat(&t, &chars_of(UPDATE_QUERY_ELECTION));
    t = concat(&t, &chars_of(RESULTS_ELECTION_ID));
    t = concat(&t, &chars_of(UPDATE_QUERY_TAIL));
    string_of(t.as_slice())
}

/// What a run's counts say: an error naming the unmatched candidates (or
/// "unknown") when some rows did not match, else how many matched.
pub open spec fn update_outcome(result_rows: i64, matched_rows: i64, unmatched: Option<Seq<char>>) -> Result<Seq<char>, Seq<char>> {
    let unmatched_rows = result_rows - matched_rows;
    if unmatched_rows > 0 {
        Err(
            "Updated matched Minnesota results, but "@ + decimal(unmatched_rows) + " of "@ + decimal(result_rows as int)
                + " candidate rows did not match: "@ + match unmatched {
                Some(u) => u,
                None => "unknown"@,
            },
        )
    } else {
        Ok(
            "Public schema successfully updated with results: "@ + decimal(matched_rows as int) + "/"@ + decimal(
                result_rows as int,
            ) + " candidate rows matched"@,
        )
    }
}

/// The outcome of a run from its summary counts.
pub fn update_summary_outcome(result_rows: i64, matched_rows: i64, unmatched_candidates: Option<&str>) -> (r: Result<String, String>)
    requires
        i64::MIN <= result_rows - matched_rows <= i64::MAX,
    ensures
        match r {
            Ok(m) => update_outcome(result_rows, matched_rows, match unmatched_candidates {
                Some(u) => Some(u@),
                None => None,
            }) == Ok::<Seq<char>, Seq<char>>(m@),
            Err(m) => update_outcome(result_rows, matched_rows, match unmatched_candidates {
                Some(u) => Some(u@),
                None => None,
            }) == Err::<Seq<char>, Seq<char>>(m@),
        },
{
    let unmatched_rows = result_rows - matched_rows;
    if unmatched_rows > 0 {
        let list = match unmatched_candidates {
            Some(u) => chars_of(u),
            None => chars_of("unknown"),
        };
        let mut t = concat(&chars_of("Updated matched Minnesota results, but "), &i64_to_chars(unmatched_rows));
        t = concat(&t, &chars_of(" of "));
        t = concat(&t, &i64_to_chars(result_rows));
        t = concat(&t, &chars_of(" candidate rows did not match: "));
        t = concat(&t, &list);
        Err(string_of(t.as_slice()))
    } else {
        let mut t = concat(&chars_of("Public schema successfully updated with results: "), &i64_to_chars(matched_rows));
        t = concat(&t, &chars_of("/"));
        t = concat(&t, &i64_to_chars(result_rows));
        t = concat(&t, &chars_of(" candidate rows matched"));
        Ok(string_of(t.as_slice()))
    }
}

} // verus!
