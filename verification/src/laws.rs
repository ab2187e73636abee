//! Properties of the library that span its functions or hold of all their
//! inputs, each stated over the specifications the functions' contracts use.
use vstd::prelude::*;
use crate::civix::{race_total_of, result_rows};
use crate::hart_pdf::{
    ballot_by_mail_pos, column_entry_at, column_order, column_scan, data_records, is_summary_name,
    row_record, ParsedRowView,
};
use crate::co_candidates::{entries_of, entry_of, EntryView};
use crate::congress::{district_count, state_office_seeds};
use crate::text::{collapse_ws, first_index, is_ws, trim, trim_end, trim_end_char, trim_start};
use crate::tx_filings::normalized_address;
use crate::county_files::{filename_char, sanitized, trim_start_char};
use crate::mn_results::{push_new, result_name_variants, result_ref_keys};
use crate::slug::{is_slug_char, lemma_slug_core_shape, ref_key, slug_core, slug_text};
use crate::text::{contains, eq_ignore_case, lowercase};
use crate::tx_filings::{emails_match, same_person, TxAddressView};
use crate::web_scrape::{campaign_site, excluded_site};

verus! {

/// Whether an existing politician and an incoming one are the same person
/// (and whether their emails matched) does not depend on which of the two
/// is the existing one.
pub proof fn law_same_person_symmetric(
    existing_email: Option<Seq<char>>,
    existing_address: Option<TxAddressView>,
    incoming_email: Option<Seq<char>>,
    incoming_address: Option<TxAddressView>,
)
    ensures
        same_person(existing_email, existing_address, incoming_email, incoming_address) == same_person(
            incoming_email,
            incoming_address,
            existing_email,
            existing_address,
        ),
{
}

/// Two politicians whose emails match are the same person, whatever their
/// addresses.
pub proof fn law_matching_emails_same_person(
    existing_email: Option<Seq<char>>,
    existing_address: Option<TxAddressView>,
    incoming_email: Option<Seq<char>>,
    incoming_address: Option<TxAddressView>,
)
    requires
        emails_match(existing_email, incoming_email),
    ensures
        same_person(existing_email, existing_address, incoming_email, incoming_address) == (true, true),
{
}

/// A URL that the campaign site search does not fetch (a social network,
/// Ballotpedia, a House or Senate site) is never taken as a campaign site.
pub proof fn law_excluded_site_never_campaign(
    url: Seq<char>,
    title: Option<Seq<char>>,
    first_name: Option<Seq<char>>,
    last_name: Option<Seq<char>>,
    preferred_name: Option<Seq<char>>,
)
    requires
        excluded_site(lowercase(url)),
    ensures
        !campaign_site(url, title, first_name, last_name, preferred_name),
{
}

/// All results of one race carry the same total votes.
pub proof fn law_race_totals_agree(rows: Seq<Seq<Seq<char>>>, i: int, j: int)
    requires
        0 <= i < result_rows(rows).len(),
        0 <= j < result_rows(rows).len(),
        result_rows(rows)[i].race == result_rows(rows)[j].race,
    ensures
        result_rows(rows)[i].total_votes == result_rows(rows)[j].total_votes,
{
}

/// A race's "Race Total", when not zero, is the total votes of each of its
/// results.
pub proof fn law_race_total_used(rows: Seq<Seq<Seq<char>>>, i: int, t: u64)
    requires
        0 <= i < result_rows(rows).len(),
        race_total_of(rows, result_rows(rows)[i].race) == Some(t),
        t != 0,
    ensures
        result_rows(rows)[i].total_votes == t,
{
}

proof fn lemma_push_new_distinct(acc: Seq<Seq<char>>, items: Seq<Seq<char>>)
    requires
        acc.no_duplicates(),
    ensures
        push_new(acc, items).no_duplicates(),
        push_new(acc, items).len() >= acc.len(),
        forall|k: int| 0 <= k < acc.len() ==> push_new(acc, items)[k] == acc[k],
    decreases items.len(),
{
    if items.len() > 0 {
        lemma_push_new_distinct(acc, items.drop_last());
    }
}

/// The ref keys a Minnesota result is matched by are all different, and
/// the first is the key of the candidate's name as given.
pub proof fn law_result_keys_distinct_name_first(election_slug: Seq<char>, office_name: Seq<char>, candidate_name: Seq<char>)
    ensures
        result_ref_keys(election_slug, office_name, candidate_name).no_duplicates(),
        result_ref_keys(election_slug, office_name, candidate_name).len() >= 1,
        result_ref_keys(election_slug, office_name, candidate_name)[0] == ref_key(
            "mn-sos"@,
            election_slug,
            office_name,
            Some(candidate_name),
        ),
{
    let variants = result_name_variants(candidate_name);
    let keys = variants.map_values(|n: Seq<char>| ref_key("mn-sos"@, election_slug, office_name, Some(n)));
    lemma_variants_start(candidate_name);
    assert(keys.len() >= 1);
    assert(keys[0] == ref_key("mn-sos"@, election_slug, office_name, Some(candidate_name)));
    let first = seq![keys[0]];
    lemma_push_new_distinct(seq![], keys.take(1));
    assert(keys.take(1) =~= seq![keys[0]]);
    assert(push_new(seq![], keys.take(1)) =~= first) by {
        let t = keys.take(1);
        assert(t.drop_last() =~= Seq::<Seq<char>>::empty());
        assert(push_new(seq![], t.drop_last()) =~= Seq::<Seq<char>>::empty());
        assert(!Seq::<Seq<char>>::empty().contains(t.last()));
        assert(t.last() == keys[0]);
    }
    lemma_push_new_prefix(keys, 1);
    lemma_push_new_distinct(seq![], keys);
}

/// Appending more items keeps what was there.
proof fn lemma_push_new_prefix(items: Seq<Seq<char>>, k: int)
    requires
        0 <= k <= items.len(),
    ensures
        push_new(seq![], items).len() >= push_new(seq![], items.take(k)).len(),
        forall|m: int|
            0 <= m < push_new(seq![], items.take(k)).len() ==> push_new(seq![], items)[m] == push_new(
                seq![],
                items.take(k),
            )[m],
    decreases items.len() - k,
{
    if k < items.len() {
        lemma_push_new_prefix(items, k + 1);
        assert(items.take(k + 1).drop_last() =~= items.take(k));
    } else {
        assert(items.take(k) =~= items);
    }
}

/// The name variants of a result start with the name as given.
proof fn lemma_variants_start(candidate_name: Seq<char>)
    ensures
        result_name_variants(candidate_name).len() >= 1,
        result_name_variants(candidate_name)[0] == candidate_name,
{
    let first = seq![candidate_name];
    let with_plain = match crate::mn_results::without_parentheticals(candidate_name) {
        Some(c) => if first.contains(c) {
            first
        } else {
            first.push(c)
        },
        None => first,
    };
    assert(with_plain.len() >= 1 && with_plain[0] == candidate_name);
    lemma_push_dotless_keeps(with_plain, with_plain);
}

proof fn lemma_push_dotless_keeps(acc: Seq<Seq<char>>, items: Seq<Seq<char>>)
    ensures
        crate::mn_results::push_dotless(acc, items).len() >= acc.len(),
        forall|k: int| 0 <= k < acc.len() ==> crate::mn_results::push_dotless(acc, items)[k] == acc[k],
    decreases items.len(),
{
    if items.len() > 0 {
        lemma_push_dotless_keeps(acc, items.drop_last());
    }
}


/// Where the column named `name` begins in a lowercased header.
pub open spec fn column_pos(h: Seq<char>, name: Seq<char>) -> Option<int> {
    if name == "Ballot by Mail"@ {
        ballot_by_mail_pos(h)
    } else if name == "Election Day Voting"@ {
        first_index(h, "election day"@)
    } else if name == "Early Voting"@ {
        first_index(h, "early voting"@)
    } else if name == "Total"@ {
        first_index(h, "total"@)
    } else {
        None
    }
}

proof fn lemma_column_scan(h: Seq<char>, k: nat)
    ensures
        column_scan(h, k).0.len() == column_scan(h, k).1.len(),
        0 <= column_scan(h, k).2 <= k,
        forall|i: int|
            0 <= i < column_scan(h, k).0.len() ==> (column_pos(h, #[trigger] column_scan(h, k).0[i]) matches Some(
                p,
            ) && 0 <= p < k),
        forall|i: int, j: int|
            0 <= i < j < column_scan(h, k).0.len() ==> column_pos(h, #[trigger] column_scan(h, k).0[i])->0
                < column_pos(h, #[trigger] column_scan(h, k).0[j])->0,
        forall|i: int| 0 <= i < column_scan(h, k).1.len() ==> 0 <= #[trigger] column_scan(h, k).1[i] < column_scan(h, k).2,
        forall|i: int, j: int|
            0 <= i < j < column_scan(h, k).1.len() ==> #[trigger] column_scan(h, k).1[i] < #[trigger] column_scan(
                h,
                k,
            ).1[j],
    decreases k,
{
    if k > 0 {
        lemma_column_scan(h, (k - 1) as nat);
        reveal_strlit("Ballot by Mail");
        reveal_strlit("Election Day Voting");
        reveal_strlit("Early Voting");
        reveal_strlit("Total");
        let prev = column_scan(h, (k - 1) as nat);
        match column_entry_at(h, k - 1) {
            Some(Some(name)) => {
                assert("Ballot by Mail"@.len() == 14);
                assert("Election Day Voting"@.len() == 19);
                assert("Early Voting"@.len() == 12);
                assert("Total"@.len() == 5);
                assert(column_pos(h, name) == Some(k - 1));
                let cur = column_scan(h, k);
                assert(cur.0 == prev.0.push(name));
                assert(cur.1 == prev.1.push(prev.2));
                assert forall|i: int| 0 <= i < cur.0.len() implies (column_pos(h, #[trigger] cur.0[i]) matches Some(
                    p,
                ) && 0 <= p < k) by {
                    if i < prev.0.len() {
                        assert(cur.0[i] == prev.0[i]);
                    }
                }
                assert forall|i: int, j: int| 0 <= i < j < cur.0.len() implies column_pos(h, #[trigger] cur.0[i])->0
                    < column_pos(h, #[trigger] cur.0[j])->0 by {
                    assert(cur.0[i] == prev.0[i]);
                    if j < prev.0.len() {
                        assert(cur.0[j] == prev.0[j]);
                    }
                }
                assert forall|i: int| 0 <= i < cur.1.len() implies 0 <= #[trigger] cur.1[i] < cur.2 by {
                    if i < prev.1.len() {
                        assert(cur.1[i] == prev.1[i]);
                    }
                }
                assert forall|i: int, j: int| 0 <= i < j < cur.1.len() implies #[trigger] cur.1[i] < #[trigger] cur.1[j] by {
                    assert(cur.1[i] == prev.1[i]);
                    if j < prev.1.len() {
                        assert(cur.1[j] == prev.1[j]);
                    }
                }
            },
            _ => {},
        }
    }
}

/// The columns that a header line names appear once each, in header
/// order, and their PDF column indices increase.
pub proof fn law_column_order_distinct(header_rest: Seq<char>)
    ensures
        column_order(header_rest).0.no_duplicates(),
        column_order(header_rest).0.len() == column_order(header_rest).1.len(),
        forall|i: int, j: int|
            0 <= i < j < column_order(header_rest).1.len() ==> #[trigger] column_order(header_rest).1[i]
                < #[trigger] column_order(header_rest).1[j],
        forall|i: int| 0 <= i < column_order(header_rest).1.len() ==> 0 <= #[trigger] column_order(header_rest).1[i],
{
    let h = lowercase(header_rest);
    lemma_column_scan(h, h.len());
    let o = column_scan(h, h.len()).0;
    assert forall|i: int, j: int| 0 <= i < o.len() && 0 <= j < o.len() && i != j implies o[i] != o[j] by {
        if i < j {
            assert(column_pos(h, o[i])->0 < column_pos(h, o[j])->0);
        } else {
            assert(column_pos(h, o[j])->0 < column_pos(h, o[i])->0);
        }
    }
}


/// A character that a sanitized file name may hold.
pub open spec fn filename_safe(c: char) -> bool {
    ('a' <= c && c <= 'z') || ('A' <= c && c <= 'Z') || ('0' <= c && c <= '9') || c == '-' || c == '_'
}

proof fn lemma_trim_start_char_suffix(s: Seq<char>, c: char)
    ensures
        exists|k: int| 0 <= k <= s.len() && trim_start_char(s, c) == s.subrange(k, s.len() as int),
        trim_start_char(s, c).len() > 0 ==> trim_start_char(s, c)[0] != c,
    decreases s.len(),
{
    if s.len() > 0 && s[0] == c {
        lemma_trim_start_char_suffix(s.drop_first(), c);
        let k = choose|k: int| 0 <= k <= s.drop_first().len() && trim_start_char(s.drop_first(), c) == s.drop_first().subrange(k, s.drop_first().len() as int);
        assert(s.drop_first().subrange(k, s.drop_first().len() as int) =~= s.subrange(k + 1, s.len() as int));
    } else {
        assert(s.subrange(0, s.len() as int) =~= s);
    }
}

proof fn lemma_trim_end_char_prefix(s: Seq<char>, c: char)
    ensures
        exists|k: int| 0 <= k <= s.len() && trim_end_char(s, c) == s.subrange(0, k),
        trim_end_char(s, c).len() > 0 ==> trim_end_char(s, c).last() != c,
    decreases s.len(),
{
    if s.len() > 0 && s.last() == c {
        lemma_trim_end_char_prefix(s.drop_last(), c);
        let k = choose|k: int| 0 <= k <= s.drop_last().len() && trim_end_char(s.drop_last(), c) == s.drop_last().subrange(0, k);
        assert(s.drop_last().subrange(0, k) =~= s.subrange(0, k));
    } else {
        assert(s.subrange(0, s.len() as int) =~= s);
    }
}

proof fn lemma_trim_start_no_ws(s: Seq<char>)
    requires
        forall|i: int| 0 <= i < s.len() ==> !is_ws(#[trigger] s[i]),
    ensures
        trim_start(s) == s,
{
    if s.len() > 0 {
        assert(!is_ws(s[0]));
    }
}

proof fn lemma_trim_end_no_ws(s: Seq<char>)
    requires
        forall|i: int| 0 <= i < s.len() ==> !is_ws(#[trigger] s[i]),
    ensures
        trim_end(s) == s,
{
    if s.len() > 0 {
        assert(!is_ws(s[s.len() - 1]));
    }
}

/// A name made safe for a file name holds only file-name-safe characters
/// (ASCII letters, digits, `-` and `_`) and neither begins nor ends with `_`.
pub proof fn law_sanitized_shape(s: Seq<char>)
    ensures
        forall|i: int| 0 <= i < sanitized(s).len() ==> filename_safe(#[trigger] sanitized(s)[i]),
        sanitized(s).len() > 0 ==> sanitized(s)[0] != '_' && sanitized(s).last() != '_',
{
    let m = trim(s).map_values(|c: char| filename_char(c));
    assert forall|i: int| 0 <= i < m.len() implies filename_safe(#[trigger] m[i]) by {
        assert(m[i] == filename_char(trim(s)[i]));
    }
    let a = trim_start_char(m, '_');
    lemma_trim_start_char_suffix(m, '_');
    let ka = choose|k: int| 0 <= k <= m.len() && a == m.subrange(k, m.len() as int);
    assert forall|i: int| 0 <= i < a.len() implies filename_safe(#[trigger] a[i]) by {
        assert(a[i] == m[ka + i]);
    }
    let b = trim_end_char(a, '_');
    lemma_trim_end_char_prefix(a, '_');
    let kb = choose|k: int| 0 <= k <= a.len() && b == a.subrange(0, k);
    assert forall|i: int| 0 <= i < b.len() implies filename_safe(#[trigger] b[i]) by {
        assert(b[i] == a[i]);
    }
    if b.len() > 0 {
        assert(b[0] == a[0]);
        assert(a.len() > 0);
    }
}

/// Sanitizing a name made safe for a file name changes nothing.
pub proof fn law_sanitize_idempotent(s: Seq<char>)
    ensures
        sanitized(sanitized(s)) == sanitized(s),
{
    let t = sanitized(s);
    law_sanitized_shape(s);
    assert forall|i: int| 0 <= i < t.len() implies !is_ws(#[trigger] t[i]) by {
        assert(filename_safe(t[i]));
    }
    lemma_trim_start_no_ws(t);
    lemma_trim_end_no_ws(t);
    assert(trim(t) == t);
    assert(t.map_values(|c: char| filename_char(c)) =~= t) by {
        assert forall|i: int| 0 <= i < t.len() implies filename_char(t[i]) == t[i] by {
            assert(filename_safe(t[i]));
        }
    }
    assert(trim_start_char(t, '_') == t);
    assert(trim_end_char(t, '_') == t);
}


/// Words separated by single spaces: no whitespace but spaces, no space
/// first, no two spaces in a row (a space may end it).
pub open spec fn single_spaced(c: Seq<char>) -> bool {
    &&& forall|i: int| 0 <= i < c.len() && is_ws(#[trigger] c[i]) ==> c[i] == ' '
    &&& (c.len() > 0 ==> c[0] != ' ')
    &&& forall|i: int| 0 <= i < c.len() - 1 && #[trigger] c[i] == ' ' ==> c[i + 1] != ' '
}

proof fn lemma_collapse_shape(s: Seq<char>)
    ensures
        single_spaced(collapse_ws(s)),
        collapse_ws(s).len() > 0 ==> collapse_ws(s).last() != ' ',
    decreases s.len(),
{
    if s.len() > 0 {
        lemma_collapse_shape(s.drop_last());
        let p = collapse_ws(s.drop_last());
        let c = collapse_ws(s);
        if !is_ws(s.last()) {
            if s.len() >= 2 && !is_ws(s[s.len() - 2]) {
                assert(c == p.push(s.last()));
                assert forall|i: int| 0 <= i < c.len() - 1 && #[trigger] c[i] == ' ' implies c[i + 1] != ' ' by {
                    if i + 1 < p.len() {
                        assert(c[i] == p[i] && c[i + 1] == p[i + 1]);
                    }
                }
                assert forall|i: int| 0 <= i < c.len() && is_ws(#[trigger] c[i]) implies c[i] == ' ' by {
                    if i < p.len() {
                        assert(c[i] == p[i]);
                    }
                }
            } else if p.len() == 0 {
                assert(c == p.push(s.last()));
            } else {
                assert(c == p.push(' ').push(s.last()));
                assert forall|i: int| 0 <= i < c.len() - 1 && #[trigger] c[i] == ' ' implies c[i + 1] != ' ' by {
                    if i + 1 < p.len() {
                        assert(c[i] == p[i] && c[i + 1] == p[i + 1]);
                    } else if i + 1 == p.len() {
                        assert(c[i] == p.last());
                    }
                }
                assert forall|i: int| 0 <= i < c.len() && is_ws(#[trigger] c[i]) implies c[i] == ' ' by {
                    if i < p.len() {
                        assert(c[i] == p[i]);
                    }
                }
            }
        }
    }
}

proof fn lemma_collapse_of_single_spaced(c: Seq<char>)
    requires
        single_spaced(c),
    ensures
        collapse_ws(c) == (if c.len() > 0 && c.last() == ' ' { c.drop_last() } else { c }),
    decreases c.len(),
{
    if c.len() > 0 {
        let p = c.drop_last();
        assert(single_spaced(p)) by {
            assert forall|i: int| 0 <= i < p.len() - 1 && #[trigger] p[i] == ' ' implies p[i + 1] != ' ' by {
                assert(c[i] == p[i] && c[i + 1] == p[i + 1]);
            }
            assert forall|i: int| 0 <= i < p.len() && is_ws(#[trigger] p[i]) implies p[i] == ' ' by {
                assert(c[i] == p[i]);
            }
        }
        lemma_collapse_of_single_spaced(p);
        if c.len() >= 2 {
            assert(c[c.len() - 2] == p.last());
        }
        if is_ws(c.last()) {
            assert(c.last() == ' ');
            if p.len() > 0 {
                assert(p.last() != ' ');
                assert(!is_ws(p.last())) by {
                    assert(c[c.len() - 2] == p.last());
                }
            }
        } else if c.len() >= 2 && !is_ws(c[c.len() - 2]) {
            assert(p.last() != ' ');
            assert(collapse_ws(c) =~= c);
        } else if collapse_ws(p).len() == 0 {
            if p.len() > 0 {
                assert(p.last() == ' ');
                assert(p.len() >= 2);
                assert(p.drop_last().len() == 0);
            }
            assert(collapse_ws(c) =~= c);
        } else {
            assert(p.last() == ' ');
            assert(collapse_ws(c) =~= c);
        }
    }
}

/// Normalizing an address part that is already normalized changes nothing.
pub proof fn law_normalized_address_idempotent(s: Seq<char>)
    ensures
        normalized_address(normalized_address(s)) == normalized_address(s),
{
    let n = normalized_address(s);
    lemma_collapse_shape(trim(s));
    assert forall|i: int| 0 <= i < n.len() implies !is_ws(#[trigger] n[i]) || n[i] == ' ' by {}
    if n.len() > 0 {
        assert(!is_ws(n[0]));
        assert(!is_ws(n.last()));
    }
    assert(trim_start(n) == n);
    assert(trim_end(n) == n);
    lemma_collapse_of_single_spaced(n);
}


proof fn lemma_slug_core_no_double_dash(t: Seq<char>)
    ensures
        forall|i: int| 0 <= i < slug_core(t).len() - 1 && #[trigger] slug_core(t)[i] == '-' ==> slug_core(t)[i + 1] != '-',
    decreases t.len(),
{
    if t.len() > 0 {
        lemma_slug_core_no_double_dash(t.drop_last());
        lemma_slug_core_shape(t.drop_last());
        let p = slug_core(t.drop_last());
        let c = slug_core(t);
        assert forall|i: int| 0 <= i < c.len() - 1 && #[trigger] c[i] == '-' implies c[i + 1] != '-' by {
            if i + 1 < p.len() {
                assert(c[i] == p[i] && c[i + 1] == p[i + 1]);
            } else if i + 1 == p.len() {
                assert(c[i] == p.last());
                assert(is_slug_char(p.last()));
            }
        }
    }
}

/// Every slug (and so every ref key) is made of lowercase ASCII letters,
/// digits and single `-` between them: it neither starts nor ends with `-`.
pub proof fn law_slug_shape(t: Seq<char>)
    ensures
        forall|i: int| 0 <= i < slug_text(t).len() ==> is_slug_char(#[trigger] slug_text(t)[i]) || slug_text(t)[i] == '-',
        slug_text(t).len() > 0 ==> is_slug_char(slug_text(t)[0]) && is_slug_char(slug_text(t).last()),
        forall|i: int| 0 <= i < slug_text(t).len() - 1 && #[trigger] slug_text(t)[i] == '-' ==> slug_text(t)[i + 1] != '-',
{
    lemma_slug_core_shape(crate::text::lowercase(crate::slug::transliterated(t)));
    lemma_slug_core_no_double_dash(crate::text::lowercase(crate::slug::transliterated(t)));
}


/// The data records of a results PDF's CSV are those of its rows that are
/// no summary ("Cast Votes", "Undervotes", "Overvotes"), one each, in order:
/// no record's choice is a summary's.
pub proof fn law_csv_records_skip_summaries(prefix: Seq<ParsedRowView>, rows: Seq<ParsedRowView>, county: Seq<char>)
    ensures
        data_records(prefix, rows, county).len() <= prefix.len(),
        forall|k: int|
            0 <= k < data_records(prefix, rows, county).len() ==> !is_summary_name(
                #[trigger] data_records(prefix, rows, county)[k][1],
            ),
    decreases prefix.len(),
{
    if prefix.len() > 0 {
        law_csv_records_skip_summaries(prefix.drop_last(), rows, county);
        let prev = data_records(prefix.drop_last(), rows, county);
        let cur = data_records(prefix, rows, county);
        if !is_summary_name(prefix.last().choice) {
            let rec = row_record(rows, prefix.last(), county);
            assert(rec[1] == prefix.last().choice);
            assert forall|k: int| 0 <= k < cur.len() implies !is_summary_name(#[trigger] cur[k][1]) by {
                if k < prev.len() {
                    assert(cur[k] == prev[k]);
                }
            }
        }
    }
}

/// No candidate taken from the Colorado page runs for a presidential
/// office, and each keeps its row's position.
pub proof fn law_co_entries_not_presidential(rows: Seq<Seq<Seq<char>>>)
    ensures
        entries_of(rows) matches Ok(es) ==> forall|k: int|
            0 <= k < es.len() ==> !crate::text::starts_with(#[trigger] es[k].office, "President"@) && 0
                <= es[k].index < rows.len(),
    decreases rows.len(),
{
    if rows.len() > 0 {
        law_co_entries_not_presidential(rows.drop_last());
        match entries_of(rows.drop_last()) {
            Ok(prev) => match entry_of(rows.len() - 1, rows.last()) {
                Ok(Some(v)) => {
                    let es = prev.push(v);
                    assert(entries_of(rows) == Ok::<Seq<EntryView>, crate::co_candidates::PageError>(es));
                    assert forall|k: int| 0 <= k < es.len() implies !crate::text::starts_with(
                        #[trigger] es[k].office,
                        "President"@,
                    ) && 0 <= es[k].index < rows.len() by {
                        if k < prev.len() {
                            assert(es[k] == prev[k]);
                        }
                    }
                },
                _ => {},
            },
            Err(_) => {},
        }
    }
}

/// A state gets one House office per district (none when its name is not
/// in the table) and two Senate offices.
pub proof fn law_state_office_count(code: Seq<char>, state_name: Seq<char>)
    ensures
        state_office_seeds(code, state_name).len() == match district_count(state_name) {
            Some(n) => n as int,
            None => 0,
        } + 2,
{
}

} // verus!
