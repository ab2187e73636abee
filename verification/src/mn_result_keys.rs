//! The ref key candidates by which Minnesota result rows are matched to race
//! candidates: the distinct (office, candidate) identities of the result
//! rows, in the order of `(String, String)`, each with the ref keys it may
//! have been filed under and their priority (0 first).
use vstd::prelude::*;
use crate::mn_results::{
    normalized_result_identities, pairs_view, push_dotless, push_new, result_identities,
    result_name_variants, result_ref_key_candidates, result_ref_keys, without_parentheticals,
};
use crate::text::{chars_eq, chars_of, string_of};

verus! {

/// `a` sorts before `b` as `str` values do: at the first character where
/// they differ, by code point; a proper prefix first.
pub open spec fn text_lt(a: Seq<char>, b: Seq<char>) -> bool
    decreases a.len(),
{
    if a.len() == 0 {
        b.len() > 0
    } else if b.len() == 0 {
        false
    } else if a[0] != b[0] {
        a[0] < b[0]
    } else {
        text_lt(a.drop_first(), b.drop_first())
    }
}

/// `p` sorts before `q` as `(String, String)` values do: by office, then by
/// candidate.
pub open spec fn identity_lt(p: (Seq<char>, Seq<char>), q: (Seq<char>, Seq<char>)) -> bool {
    text_lt(p.0, q.0) || (p.0 == q.0 && text_lt(p.1, q.1))
}

/// Each identity sorts before every later one (so none occurs twice).
pub open spec fn sorted_distinct(s: Seq<(Seq<char>, Seq<char>)>) -> bool {
    forall|i: int, j: int| 0 <= i < j < s.len() ==> identity_lt(#[trigger] s[i], #[trigger] s[j])
}

/// `a` and `b` hold the same identities.
pub open spec fn same_members(a: Seq<(Seq<char>, Seq<char>)>, b: Seq<(Seq<char>, Seq<char>)>) -> bool {
    forall|y: (Seq<char>, Seq<char>)| a.contains(y) <==> b.contains(y)
}

proof fn lemma_text_lt_irreflexive(a: Seq<char>)
    ensures
        !text_lt(a, a),
    decreases a.len(),
{
    if a.len() > 0 {
        lemma_text_lt_irreflexive(a.drop_first());
    }
}

proof fn lemma_text_lt_transitive(a: Seq<char>, b: Seq<char>, c: Seq<char>)
    requires
        text_lt(a, b),
        text_lt(b, c),
    ensures
        text_lt(a, c),
    decreases a.len(),
{
    if a.len() > 0 && a[0] == b[0] && b[0] == c[0] {
        lemma_text_lt_transitive(a.drop_first(), b.drop_first(), c.drop_first());
    }
}

proof fn lemma_text_lt_total(a: Seq<char>, b: Seq<char>)
    requires
        a != b,
    ensures
        text_lt(a, b) || text_lt(b, a),
    decreases a.len(),
{
    if a.len() == 0 {
        if b.len() == 0 {
            assert(a =~= b);
        }
    } else if b.len() > 0 && a[0] == b[0] {
        if a.drop_first() == b.drop_first() {
            assert(a.drop_first().len() == a.len() - 1);
            assert(b.drop_first().len() == b.len() - 1);
            assert forall|i: int| 0 <= i < a.len() implies a[i] == b[i] by {
                if i > 0 {
                    assert(a[i] == a.drop_first()[i - 1]);
                    assert(b[i] == b.drop_first()[i - 1]);
                }
            }
            assert(a =~= b);
        }
        lemma_text_lt_total(a.drop_first(), b.drop_first());
    }
}

proof fn lemma_identity_lt_irreflexive(p: (Seq<char>, Seq<char>))
    ensures
        !identity_lt(p, p),
{
    lemma_text_lt_irreflexive(p.0);
    lemma_text_lt_irreflexive(p.1);
}

proof fn lemma_identity_lt_transitive(p: (Seq<char>, Seq<char>), q: (Seq<char>, Seq<char>), r: (Seq<char>, Seq<char>))
    requires
        identity_lt(p, q),
        identity_lt(q, r),
    ensures
        identity_lt(p, r),
{
    if text_lt(p.0, q.0) && text_lt(q.0, r.0) {
        lemma_text_lt_transitive(p.0, q.0, r.0);
    } else if p.0 == q.0 && q.0 == r.0 {
        lemma_text_lt_transitive(p.1, q.1, r.1);
    }
}

proof fn lemma_identity_lt_total(p: (Seq<char>, Seq<char>), q: (Seq<char>, Seq<char>))
    requires
        p != q,
    ensures
        identity_lt(p, q) || identity_lt(q, p),
{
    if p.0 != q.0 {
        lemma_text_lt_total(p.0, q.0);
    } else {
        assert(p.1 != q.1);
        lemma_text_lt_total(p.1, q.1);
    }
}

proof fn lemma_identity_lt_asymmetric(p: (Seq<char>, Seq<char>), q: (Seq<char>, Seq<char>))
    requires
        identity_lt(p, q),
    ensures
        !identity_lt(q, p),
{
    if identity_lt(q, p) {
        lemma_identity_lt_transitive(p, q, p);
        lemma_identity_lt_irreflexive(p);
    }
}

/// Two sequences of identities, each sorted without repeats, that hold the
/// same identities are equal: sorting the distinct identities of a list has
/// one result.
pub proof fn lemma_sorted_distinct_unique(a: Seq<(Seq<char>, Seq<char>)>, b: Seq<(Seq<char>, Seq<char>)>)
    requires
        sorted_distinct(a),
        sorted_distinct(b),
        same_members(a, b),
    ensures
        a == b,
    decreases a.len(),
{
    if a.len() == 0 {
        if b.len() > 0 {
            assert(b.contains(b[0]));
        }
        assert(a =~= b);
    } else {
        assert(a.contains(a[0]));
        let k = choose|k: int| 0 <= k < b.len() && b[k] == a[0];
        assert(b.contains(b[0]));
        let m = choose|m: int| 0 <= m < a.len() && a[m] == b[0];
        if k > 0 {
            assert(identity_lt(b[0], b[k]));
            if m > 0 {
                assert(identity_lt(a[0], a[m]));
                lemma_identity_lt_asymmetric(a[0], b[0]);
            } else {
                lemma_identity_lt_irreflexive(a[0]);
            }
        }
        assert(a[0] == b[0]);
        let ta = a.drop_first();
        let tb = b.drop_first();
        assert forall|y: (Seq<char>, Seq<char>)| ta.contains(y) <==> tb.contains(y) by {
            if ta.contains(y) {
                let i = choose|i: int| 0 <= i < ta.len() && ta[i] == y;
                assert(a[i + 1] == y);
                assert(identity_lt(a[0], a[i + 1]));
                lemma_identity_lt_irreflexive(a[0]);
                assert(a.contains(y));
                assert(b.contains(y));
                let j = choose|j: int| 0 <= j < b.len() && b[j] == y;
                assert(j != 0);
                assert(tb[j - 1] == y);
            }
            if tb.contains(y) {
                let i = choose|i: int| 0 <= i < tb.len() && tb[i] == y;
                assert(b[i + 1] == y);
                assert(identity_lt(b[0], b[i + 1]));
                lemma_identity_lt_irreflexive(b[0]);
                assert(b.contains(y));
                assert(a.contains(y));
                let j = choose|j: int| 0 <= j < a.len() && a[j] == y;
                assert(j != 0);
                assert(ta[j - 1] == y);
            }
        }
        assert forall|i: int, j: int| 0 <= i < j < ta.len() implies identity_lt(#[trigger] ta[i], #[trigger] ta[j]) by {
            assert(ta[i] == a[i + 1] && ta[j] == a[j + 1]);
        }
        assert forall|i: int, j: int| 0 <= i < j < tb.len() implies identity_lt(#[trigger] tb[i], #[trigger] tb[j]) by {
            assert(tb[i] == b[i + 1] && tb[j] == b[j + 1]);
        }
        lemma_sorted_distinct_unique(ta, tb);
        assert forall|i: int| 0 <= i < a.len() implies a[i] == b[i] by {
            if i > 0 {
                assert(a[i] == ta[i - 1]);
                assert(b[i] == tb[i - 1]);
            }
        }
        assert(a =~= b);
    }
}

proof fn lemma_insert_keeps_sorted(s: Seq<(Seq<char>, Seq<char>)>, p: int, x: (Seq<char>, Seq<char>))
    requires
        sorted_distinct(s),
        0 <= p <= s.len(),
        forall|i: int| 0 <= i < p ==> identity_lt(#[trigger] s[i], x),
        p < s.len() ==> identity_lt(x, s[p]),
    ensures
        sorted_distinct(s.insert(p, x)),
        forall|y: (Seq<char>, Seq<char>)| s.insert(p, x).contains(y) <==> (s.contains(y) || y == x),
{
    s.insert_ensures(p, x);
    let t = s.insert(p, x);
    assert forall|i: int, j: int| 0 <= i < j < t.len() implies identity_lt(#[trigger] t[i], #[trigger] t[j]) by {
        if j < p {
            assert(t[i] == s[i] && t[j] == s[j]);
        } else if j == p {
            assert(t[i] == s[i]);
        } else {
            assert(t[j] == s[j - 1]);
            if i < p {
                assert(t[i] == s[i]);
                if i < j - 1 {
                    assert(identity_lt(s[i], s[j - 1]));
                }
            } else if i == p {
                if j - 1 > p {
                    assert(identity_lt(s[p], s[j - 1]));
                    lemma_identity_lt_transitive(x, s[p], s[j - 1]);
                }
            } else {
                assert(t[i] == s[i - 1]);
            }
        }
    }
    assert forall|y: (Seq<char>, Seq<char>)| t.contains(y) <==> (s.contains(y) || y == x) by {
        if t.contains(y) {
            let i = choose|i: int| 0 <= i < t.len() && t[i] == y;
            if i < p {
                assert(s[i] == y);
            } else if i > p {
                assert(s[i - 1] == y);
            }
        }
        if s.contains(y) {
            let i = choose|i: int| 0 <= i < s.len() && s[i] == y;
            if i < p {
                assert(t[i] == y);
            } else {
                assert(t[i + 1] == y);
            }
        }
        if y == x {
            assert(t[p] == y);
        }
    }
}

/// The identities of a sequence of character pairs.
pub open spec fn id_view(v: Seq<(Vec<char>, Vec<char>)>) -> Seq<(Seq<char>, Seq<char>)> {
    v.map_values(|p: (Vec<char>, Vec<char>)| (p.0@, p.1@))
}

fn text_lt_exec(a: &Vec<char>, b: &Vec<char>) -> (r: bool)
    ensures
        r == text_lt(a@, b@),
{
    let mut i: usize = 0;
    assert(a@.skip(0) =~= a@);
    assert(b@.skip(0) =~= b@);
    while i < a.len() && i < b.len() && a[i] == b[i]
        invariant
            i <= a.len(),
            i <= b.len(),
            text_lt(a@.skip(i as int), b@.skip(i as int)) == text_lt(a@, b@),
        decreases a.len() - i,
    {
        assert(a@.skip(i as int).drop_first() =~= a@.skip(i + 1));
        assert(b@.skip(i as int).drop_first() =~= b@.skip(i + 1));
        i = i + 1;
    }
    if i == a.len() {
        i < b.len()
    } else if i == b.len() {
        false
    } else {
        assert(a@.skip(i as int)[0] == a@[i as int]);
        assert(b@.skip(i as int)[0] == b@[i as int]);
        a[i] < b[i]
    }
}

fn identity_lt_exec(a: &(Vec<char>, Vec<char>), b: &(Vec<char>, Vec<char>)) -> (r: bool)
    ensures
        r == identity_lt((a.0@, a.1@), (b.0@, b.1@)),
{
    text_lt_exec(&a.0, &b.0) || (chars_eq(&a.0, &b.0) && text_lt_exec(&a.1, &b.1))
}

/// Inserts `x` in its place in a sorted sequence without repeats, unless it
/// is already there.
fn insert_identity(v: &mut Vec<(Vec<char>, Vec<char>)>, x: (Vec<char>, Vec<char>))
    requires
        sorted_distinct(id_view(old(v)@)),
    ensures
        sorted_distinct(id_view(final(v)@)),
        forall|y: (Seq<char>, Seq<char>)|
            id_view(final(v)@).contains(y) <==> (id_view(old(v)@).contains(y) || y == (x.0@, x.1@)),
{
    let ghost s = id_view(v@);
    let ghost xv = (x.0@, x.1@);
    let mut p: usize = 0;
    while p < v.len() && identity_lt_exec(&v[p], &x)
        invariant
            p <= v.len(),
            s == id_view(v@),
            xv == (x.0@, x.1@),
            forall|i: int| 0 <= i < p ==> identity_lt(#[trigger] s[i], xv),
        decreases v.len() - p,
    {
        p = p + 1;
    }
    if p < v.len() && chars_eq(&v[p].0, &x.0) && chars_eq(&v[p].1, &x.1) {
        assert(s[p as int] == xv);
        assert(s.contains(xv));
        return;
    }
    proof {
        if p < s.len() {
            assert(s[p as int] != xv);
            lemma_identity_lt_total(s[p as int], xv);
        }
        lemma_insert_keeps_sorted(s, p as int, xv);
    }
    let ghost before = v@;
    v.insert(p, x);
    proof {
        before.insert_ensures(p as int, x);
        s.insert_ensures(p as int, xv);
        assert(id_view(v@) =~= s.insert(p as int, xv));
    }
}

/// The identities of `items`, sorted, each once.
fn sorted_distinct_identities(items: &Vec<(Vec<char>, Vec<char>)>) -> (r: Vec<(Vec<char>, Vec<char>)>)
    ensures
        sorted_distinct(id_view(r@)),
        same_members(id_view(r@), id_view(items@)),
{
    let ghost iv = id_view(items@);
    let mut out: Vec<(Vec<char>, Vec<char>)> = Vec::new();
    let mut k: usize = 0;
    while k < items.len()
        invariant
            k <= items.len(),
            iv == id_view(items@),
            sorted_distinct(id_view(out@)),
            same_members(id_view(out@), iv.take(k as int)),
        decreases items.len() - k,
    {
        let ghost before = id_view(out@);
        let x = (items[k].0.clone(), items[k].1.clone());
        insert_identity(&mut out, x);
        proof {
            let prev = iv.take(k as int);
            let next = iv.take(k + 1);
            assert(next =~= prev.push(iv[k as int]));
            assert forall|y: (Seq<char>, Seq<char>)| id_view(out@).contains(y) <==> next.contains(y) by {
                if next.contains(y) {
                    let i = choose|i: int| 0 <= i < next.len() && next[i] == y;
                    if i < k {
                        assert(prev[i] == y);
                    }
                }
                if prev.contains(y) {
                    let i = choose|i: int| 0 <= i < prev.len() && prev[i] == y;
                    assert(next[i] == y);
                }
                if y == iv[k as int] {
                    assert(next[k as int] == y);
                }
            }
        }
        k = k + 1;
    }
    assert(iv.take(items.len() as int) =~= iv);
    out
}

/// The identities of the source rows `(office, candidate)`, in row order:
/// those of each row by [`result_identities`].
pub open spec fn identity_list(src: Seq<(Seq<char>, Seq<char>)>) -> Seq<(Seq<char>, Seq<char>)>
    decreases src.len(),
{
    if src.len() == 0 {
        seq![]
    } else {
        identity_list(src.drop_last()) + result_identities(src.last().0, src.last().1)
    }
}

fn identity_list_exec(src: &Vec<(String, String)>) -> (r: Vec<(Vec<char>, Vec<char>)>)
    ensures
        id_view(r@) == identity_list(pairs_view(src@)),
{
    let ghost sv = pairs_view(src@);
    let mut out: Vec<(Vec<char>, Vec<char>)> = Vec::new();
    let mut i: usize = 0;
    while i < src.len()
        invariant
            i <= src.len(),
            sv == pairs_view(src@),
            id_view(out@) == identity_list(sv.take(i as int)),
        decreases src.len() - i,
    {
        let ids = normalized_result_identities(src[i].0.as_str(), src[i].1.as_str());
        let ghost start = id_view(out@);
        let ghost these = pairs_view(ids@);
        let mut j: usize = 0;
        while j < ids.len()
            invariant
                j <= ids.len(),
                these == pairs_view(ids@),
                id_view(out@) == start + these.take(j as int),
            decreases ids.len() - j,
        {
            let ghost before = id_view(out@);
            out.push((chars_of(ids[j].0.as_str()), chars_of(ids[j].1.as_str())));
            proof {
                assert(id_view(out@) =~= before.push(these[j as int]));
                assert(these.take(j + 1) =~= these.take(j as int).push(these[j as int]));
            }
            j = j + 1;
        }
        proof {
            assert(these.take(ids.len() as int) =~= these);
            assert(sv.take(i + 1).drop_last() =~= sv.take(i as int));
            assert(sv.take(i + 1).last() == sv[i as int]);
        }
        i = i + 1;
    }
    assert(sv.take(src.len() as int) =~= sv);
    out
}

/// The distinct identities of the source rows, sorted as `(String, String)`
/// values are.
pub open spec fn sorted_identities(src: Seq<(Seq<char>, Seq<char>)>) -> Seq<(Seq<char>, Seq<char>)> {
    choose|ids: Seq<(Seq<char>, Seq<char>)>| sorted_distinct(ids) && same_members(ids, identity_list(src))
}

/// A ref key that a result identity may have been filed under, with its
/// priority (0 is tried first).
pub struct RefKeyCandidate {
    pub office_name: String,
    pub candidate_name: String,
    pub ref_key: String,
    pub priority: i32,
}

pub ghost struct KeyCandidateView {
    pub office_name: Seq<char>,
    pub candidate_name: Seq<char>,
    pub ref_key: Seq<char>,
    pub priority: int,
}

impl RefKeyCandidate {
    pub open spec fn view(&self) -> KeyCandidateView {
        KeyCandidateView {
            office_name: self.office_name@,
            candidate_name: self.candidate_name@,
            ref_key: self.ref_key@,
            priority: self.priority as int,
        }
    }
}

pub open spec fn candidates_view(v: Seq<RefKeyCandidate>) -> Seq<KeyCandidateView> {
    v.map_values(|c: RefKeyCandidate| c@)
}

/// The candidates of one identity: each of its ref keys, in order, with its
/// position as priority.
pub open spec fn identity_key_rows(election_slug: Seq<char>, id: (Seq<char>, Seq<char>)) -> Seq<KeyCandidateView> {
    let keys = result_ref_keys(election_slug, id.0, id.1);
    Seq::new(
        keys.len(),
        |k: int| KeyCandidateView { office_name: id.0, candidate_name: id.1, ref_key: keys[k], priority: k },
    )
}

/// The candidates of the identities, identity by identity.
pub open spec fn key_rows(election_slug: Seq<char>, ids: Seq<(Seq<char>, Seq<char>)>) -> Seq<KeyCandidateView>
    decreases ids.len(),
{
    if ids.len() == 0 {
        seq![]
    } else {
        key_rows(election_slug, ids.drop_last()) + identity_key_rows(election_slug, ids.last())
    }
}

proof fn lemma_push_new_len(acc: Seq<Seq<char>>, items: Seq<Seq<char>>)
    ensures
        push_new(acc, items).len() <= acc.len() + items.len(),
    decreases items.len(),
{
    if items.len() > 0 {
        lemma_push_new_len(acc, items.drop_last());
    }
}

proof fn lemma_push_dotless_len(acc: Seq<Seq<char>>, items: Seq<Seq<char>>)
    ensures
        push_dotless(acc, items).len() <= acc.len() + items.len(),
    decreases items.len(),
{
    if items.len() > 0 {
        lemma_push_dotless_len(acc, items.drop_last());
    }
}

/// A result row has at most four ref keys: the name, without its
/// parenthesized parts, and each of those without periods.
pub proof fn lemma_result_ref_keys_len(election_slug: Seq<char>, office_name: Seq<char>, candidate_name: Seq<char>)
    ensures
        result_ref_keys(election_slug, office_name, candidate_name).len() <= 4,
{
    let first = seq![candidate_name];
    let with_plain = match without_parentheticals(candidate_name) {
        Some(c) => if first.contains(c) {
            first
        } else {
            first.push(c)
        },
        None => first,
    };
    assert(with_plain.len() <= 2);
    lemma_push_dotless_len(with_plain, with_plain);
    assert(result_name_variants(candidate_name) == push_dotless(with_plain, with_plain));
    let mapped = result_name_variants(candidate_name).map_values(
        |n: Seq<char>| crate::slug::ref_key("mn-sos"@, election_slug, office_name, Some(n)),
    );
    lemma_push_new_len(seq![], mapped);
}

/// The ref key candidates of the result rows `source_identities` (each an
/// office and a candidate name, as the result files give them) for the
/// election `election_slug`: for each distinct identity of the rows (see
/// [`result_identities`]), in sorted order, each of its ref keys with its
/// priority.
pub fn build_ref_key_candidates(source_identities: &Vec<(String, String)>, election_slug: &str) -> (r: Vec<RefKeyCandidate>)
    ensures
        candidates_view(r@) == key_rows(election_slug@, sorted_identities(pairs_view(source_identities@))),
{
    let flat = identity_list_exec(source_identities);
    let ids = sorted_distinct_identities(&flat);
    let ghost idv = id_view(ids@);
    proof {
        let src = pairs_view(source_identities@);
        assert(sorted_distinct(idv) && same_members(idv, identity_list(src)));
        let chosen = sorted_identities(src);
        assert forall|y: (Seq<char>, Seq<char>)| idv.contains(y) <==> chosen.contains(y) by {}
        lemma_sorted_distinct_unique(idv, chosen);
    }
    let mut out: Vec<RefKeyCandidate> = Vec::new();
    let mut i: usize = 0;
    while i < ids.len()
        invariant
            i <= ids.len(),
            idv == id_view(ids@),
            candidates_view(out@) == key_rows(election_slug@, idv.take(i as int)),
        decreases ids.len() - i,
    {
        let office = string_of(ids[i].0.as_slice());
        let cand = string_of(ids[i].1.as_slice());
        let keys = result_ref_key_candidates(election_slug, office.as_str(), cand.as_str());
        let ghost rows_i = identity_key_rows(election_slug@, idv[i as int]);
        let ghost start = candidates_view(out@);
        proof {
            lemma_result_ref_keys_len(election_slug@, office@, cand@);
        }
        let mut k: usize = 0;
        while k < keys.len()
            invariant
                k <= keys.len(),
                keys.len() <= 4,
                crate::text::strings_view(keys@) == result_ref_keys(election_slug@, office@, cand@),
                (office@, cand@) == idv[i as int],
                rows_i == identity_key_rows(election_slug@, idv[i as int]),
                candidates_view(out@) == start + rows_i.take(k as int),
            decreases keys.len() - k,
        {
            let ghost before = candidates_view(out@);
            out.push(
                RefKeyCandidate {
                    office_name: office.clone(),
                    candidate_name: cand.clone(),
                    ref_key: keys[k].clone(),
                    priority: k as i32,
                },
            );
            proof {
                assert(candidates_view(out@) =~= before.push(rows_i[k as int]));
                assert(rows_i.take(k + 1) =~= rows_i.take(k as int).push(rows_i[k as int]));
            }
            k = k + 1;
        }
        proof {
            assert(rows_i.take(keys.len() as int) =~= rows_i);
            assert(idv.take(i + 1).drop_last() =~= idv.take(i as int));
            assert(idv.take(i + 1).last() == idv[i as int]);
        }
        i = i + 1;
    }
    assert(idv.take(ids.len() as int) =~= idv);
    out
}


/// Every ref key candidate's priority is its position among the keys of
/// its identity, which is below 4.
pub proof fn law_candidate_priority_below_four(election_slug: Seq<char>, ids: Seq<(Seq<char>, Seq<char>)>)
    ensures
        forall|k: int|
            0 <= k < key_rows(election_slug, ids).len() ==> 0 <= #[trigger] key_rows(election_slug, ids)[k].priority < 4,
    decreases ids.len(),
{
    if ids.len() > 0 {
        law_candidate_priority_below_four(election_slug, ids.drop_last());
        let id = ids.last();
        lemma_result_ref_keys_len(election_slug, id.0, id.1);
        let prev = key_rows(election_slug, ids.drop_last());
        let these = identity_key_rows(election_slug, id);
        assert forall|k: int| 0 <= k < key_rows(election_slug, ids).len() implies 0 <= #[trigger] key_rows(
            election_slug,
            ids,
        )[k].priority < 4 by {
            if k < prev.len() {
                assert(key_rows(election_slug, ids)[k] == prev[k]);
            } else {
                assert(key_rows(election_slug, ids)[k] == these[k - prev.len()]);
            }
        }
    }
}

} // verus!
