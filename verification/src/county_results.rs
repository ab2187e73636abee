//! Texas county election results (Clarity, Hart and other county exports):
//! contest-name normalization, the office matching rules, and the ref keys
//! by which result rows are matched to race candidates.
use vstd::prelude::*;
use crate::pattern::{is_match, regex_is_match};
use crate::slug::{slug_text, slugify_chars};
use crate::text::{
    chars_eq, chars_of, concat, contains, contains_exec, eq_ignore_ascii_case, eq_ignore_case,
    lowercase, slice_chars, string_of, to_lowercase, trim, trim_end, trim_end_exec, trim_exec,
    trim_start, trim_start_exec, decimal, i64_to_chars, join, join_exec, chars_view, strings_view,
    opt_view, opt_str_view,
};

verus! {

/// Which processor's rules apply: the combined results processor (Clarity,
/// Hart and other CSVs), or the standalone Hart or other-county processors.
#[derive(Clone, Copy, PartialEq, Eq, Structural, Debug)]
pub enum RuleSet {
    Combined,
    Hart,
    Other,
}

/// A county office match rule: the Populist office name, the substrings
/// that select it, those that veto it, and an optional regular expression
/// that also selects it (all matched case-insensitively).
pub struct CountyOfficeRule {
    pub populist_office_name: String,
    pub match_substrings: Vec<String>,
    pub exclude_substrings: Vec<String>,
    pub match_pattern: Option<String>,
}

pub ghost struct RuleSpec {
    pub name: Seq<char>,
    pub matches: Seq<Seq<char>>,
    pub excludes: Seq<Seq<char>>,
    pub pattern: Option<Seq<char>>,
}

impl CountyOfficeRule {
    pub open spec fn view(&self) -> RuleSpec {
        RuleSpec {
            name: self.populist_office_name@,
            matches: strings_view(self.match_substrings@),
            excludes: strings_view(self.exclude_substrings@),
            pattern: match self.match_pattern {
                Some(p) => Some(p@),
                None => None,
            },
        }
    }
}

pub open spec fn rule(name: Seq<char>, matches: Seq<Seq<char>>, excludes: Seq<Seq<char>>) -> RuleSpec {
    RuleSpec { name, matches, excludes, pattern: None }
}

/// The office matching rules, in order (the first rule that applies wins).
pub open spec fn county_rules(set: RuleSet) -> Seq<RuleSpec> {
    let combined = set == RuleSet::Combined;
    seq![
        rule("Judge - County Criminal Court of Appeals"@, seq!["Judge, County Criminal Court of Appeals"@], seq![]),
        rule("Judge - County Criminal Court at Law"@, seq!["Judge, County Criminal Court"@], seq![]),
        rule(
            "Judge - County Court at Law"@,
            if combined {
                seq!["Judge, County Court at Law"@, "County Court-at-Law"@]
            } else {
                seq!["Judge, County Court at Law"@, "Judge, County Court-at-Law"@]
            },
            seq![],
        ),
        rule("Judge - Probate Court"@, seq!["Probate Court"@], seq![]),
        rule("Criminal District Judge"@, seq!["Criminal District Judge"@], seq!["Judicial District"@]),
        rule("Criminal District Attorney"@, seq!["Criminal District Attorney"@], seq![]),
        rule("County Judge"@, seq!["County Judge"@], seq![]),
        rule("Judge - County Civil Court at Law"@, seq!["Judge, County Civil Court at Law"@], seq![]),
        rule("County Attorney"@, seq!["County Attorney"@], seq![]),
        rule(
            "County & District Clerk"@,
            if combined {
                seq![
                    "County and District Clerk"@,
                    "District and County Clerk"@,
                    "County Clerk/District Clerk"@,
                    "District Clerk/County Clerk"@,
                ]
            } else {
                seq!["County and District Clerk"@, "District and County Clerk"@]
            },
            seq![],
        ),
        rule("District Clerk"@, seq!["District Clerk"@], seq![]),
        rule("County Clerk"@, seq!["County Clerk"@], seq![]),
        rule("Sheriff & County Tax Assessor-Collector"@, seq!["Sheriff and Tax Assessor-Collector"@], seq![]),
        rule("Sheriff"@, seq!["Sheriff"@], seq![]),
        rule("County Tax Assessor-Collector"@, seq!["Tax Assessor-Collector"@], seq![]),
        rule("County Treasurer"@, seq!["County Treasurer"@], seq![]),
        rule("County Surveyor"@, seq!["County Surveyor"@], seq![]),
        rule("County School Trustee"@, seq!["County School Trustee"@], seq![]),
        rule(
            "County Commissioner"@,
            seq!["County Commissioner"@, "Commissioner"@],
            seq!["Railroad"@, "Agriculture"@, "General Land Office"@],
        ),
        rule("Justice of the Peace"@, seq!["Justice of the Peace"@, "JOP"@], seq![]),
        rule("County Constable"@, seq!["Constable"@], seq![]),
        RuleSpec {
            name: "Precinct Chair"@,
            matches: seq!["Precinct Chair"@],
            excludes: seq![],
            pattern: if combined {
                Some("(?i)precinct\\s+[0-9]+\\s+chair"@)
            } else {
                None
            },
        },
        rule("County Chair"@, seq!["County Chair"@, "Party Chairman"@, "Party Chair"@], seq![]),
    ]
}

fn s0() -> (r: Vec<String>)
    ensures
        strings_view(r@) == Seq::<Seq<char>>::empty(),
{
    let r: Vec<String> = Vec::new();
    assert(strings_view(r@) =~= Seq::<Seq<char>>::empty());
    r
}

fn s1(a: &str) -> (r: Vec<String>)
    ensures
        strings_view(r@) == seq![a@],
{
    let mut r: Vec<String> = Vec::new();
    r.push(String::from_str(a));
    assert(strings_view(r@) =~= seq![a@]);
    r
}

fn s2(a: &str, b: &str) -> (r: Vec<String>)
    ensures
        strings_view(r@) == seq![a@, b@],
{
    let mut r: Vec<String> = Vec::new();
    r.push(String::from_str(a));
    r.push(String::from_str(b));
    assert(strings_view(r@) =~= seq![a@, b@]);
    r
}

fn s3(a: &str, b: &str, c: &str) -> (r: Vec<String>)
    ensures
        strings_view(r@) == seq![a@, b@, c@],
{
    let mut r: Vec<String> = Vec::new();
    r.push(String::from_str(a));
    r.push(String::from_str(b));
    r.push(String::from_str(c));
    assert(strings_view(r@) =~= seq![a@, b@, c@]);
    r
}

fn s4(a: &str, b: &str, c: &str, d: &str) -> (r: Vec<String>)
    ensures
        strings_view(r@) == seq![a@, b@, c@, d@],
{
    let mut r: Vec<String> = Vec::new();
    r.push(String::from_str(a));
    r.push(String::from_str(b));
    r.push(String::from_str(c));
    r.push(String::from_str(d));
    assert(strings_view(r@) =~= seq![a@, b@, c@, d@]);
    r
}

fn mk_rule(name: &str, matches: Vec<String>, excludes: Vec<String>) -> (r: CountyOfficeRule)
    ensures
        r@ == rule(name@, strings_view(matches@), strings_view(excludes@)),
{
    CountyOfficeRule {
        populist_office_name: String::from_str(name),
        match_substrings: matches,
        exclude_substrings: excludes,
        match_pattern: None,
    }
}

/// The office matching rules of `set`, in order.
pub fn county_office_rules(set: RuleSet) -> (r: Vec<CountyOfficeRule>)
    ensures
        r@.map_values(|x: CountyOfficeRule| x@) == county_rules(set),
{
    let combined = set == RuleSet::Combined;
    let mut r: Vec<CountyOfficeRule> = Vec::new();
    r.push(mk_rule("Judge - County Criminal Court of Appeals", s1("Judge, County Criminal Court of Appeals"), s0()));
    r.push(mk_rule("Judge - County Criminal Court at Law", s1("Judge, County Criminal Court"), s0()));
    if combined {
        r.push(mk_rule("Judge - County Court at Law", s2("Judge, County Court at Law", "County Court-at-Law"), s0()));
    } else {
        r.push(mk_rule("Judge - County Court at Law", s2("Judge, County Court at Law", "Judge, County Court-at-Law"), s0()));
    }
    r.push(mk_rule("Judge - Probate Court", s1("Probate Court"), s0()));
    r.push(mk_rule("Criminal District Judge", s1("Criminal District Judge"), s1("Judicial District")));
    r.push(mk_rule("Criminal District Attorney", s1("Criminal District Attorney"), s0()));
    r.push(mk_rule("County Judge", s1("County Judge"), s0()));
    r.push(mk_rule("Judge - County Civil Court at Law", s1("Judge, County Civil Court at Law"), s0()));
    r.push(mk_rule("County Attorney", s1("County Attorney"), s0()));
    if combined {
        r.push(mk_rule(
            "County & District Clerk",
            s4("County and District Clerk", "District and County Clerk", "County Clerk/District Clerk", "District Clerk/County Clerk"),
            s0(),
        ));
    } else {
        r.push(mk_rule("County & District Clerk", s2("County and District Clerk", "District and County Clerk"), s0()));
    }
    r.push(mk_rule("District Clerk", s1("District Clerk"), s0()));
    r.push(mk_rule("County Clerk", s1("County Clerk"), s0()));
    r.push(mk_rule("Sheriff & County Tax Assessor-Collector", s1("Sheriff and Tax Assessor-Collector"), s0()));
    r.push(mk_rule("Sheriff", s1("Sheriff"), s0()));
    r.push(mk_rule("County Tax Assessor-Collector", s1("Tax Assessor-Collector"), s0()));
    r.push(mk_rule("County Treasurer", s1("County Treasurer"), s0()));
    r.push(mk_rule("County Surveyor", s1("County Surveyor"), s0()));
    r.push(mk_rule("County School Trustee", s1("County School Trustee"), s0()));
    r.push(mk_rule(
        "County Commissioner",
        s2("County Commissioner", "Commissioner"),
        s3("Railroad", "Agriculture", "General Land Office"),
    ));
    r.push(mk_rule("Justice of the Peace", s2("Justice of the Peace", "JOP"), s0()));
    r.push(mk_rule("County Constable", s1("Constable"), s0()));
    let mut chair = mk_rule("Precinct Chair", s1("Precinct Chair"), s0());
    if combined {
        chair.match_pattern = Some(String::from_str("(?i)precinct\\s+[0-9]+\\s+chair"));
    }
    r.push(chair);
    r.push(mk_rule("County Chair", s3("County Chair", "Party Chairman", "Party Chair"), s0()));
    assert(r@.map_values(|x: CountyOfficeRule| x@) =~= county_rules(set));
    r
}


/// Some of `subs`, lowercased, occurs in `lower`.
pub open spec fn any_contained(lower: Seq<char>, subs: Seq<Seq<char>>) -> bool {
    exists|k: int| 0 <= k < subs.len() && contains(lower, lowercase(#[trigger] subs[k]))
}

/// Rule `r` selects the lowercased contest name `lower`.
pub open spec fn rule_applies(r: RuleSpec, lower: Seq<char>) -> bool {
    &&& (any_contained(lower, r.matches) || (r.pattern matches Some(p) && regex_is_match(p, lower)))
    &&& !any_contained(lower, r.excludes)
}

/// The index of the first of `rules`, from `i` on, that selects `lower`.
pub open spec fn first_rule_from(rules: Seq<RuleSpec>, lower: Seq<char>, i: int) -> Option<int>
    decreases rules.len() - i,
{
    if i < 0 || i >= rules.len() {
        None
    } else if rule_applies(rules[i], lower) {
        Some(i)
    } else {
        first_rule_from(rules, lower, i + 1)
    }
}

/// The index of the rule of `set` that a normalized contest name matches.
pub open spec fn matching_rule(set: RuleSet, normalized_contest_name: Seq<char>) -> Option<int> {
    first_rule_from(county_rules(set), lowercase(normalized_contest_name), 0)
}

fn any_contained_exec(lower: &Vec<char>, subs: &Vec<String>) -> (r: bool)
    ensures
        r == any_contained(lower@, strings_view(subs@)),
{
    let ghost sv = strings_view(subs@);
    let mut k: usize = 0;
    while k < subs.len()
        invariant
            k <= subs.len(),
            sv == strings_view(subs@),
            forall|j: int| 0 <= j < k ==> !contains(lower@, lowercase(#[trigger] sv[j])),
        decreases subs.len() - k,
    {
        let sub = chars_of(subs[k].as_str());
        let sub_lower = to_lowercase(&sub);
        assert(sv[k as int] == sub@);
        if contains_exec(lower, &sub_lower) {
            return true;
        }
        k = k + 1;
    }
    false
}

fn rule_applies_exec(r: &CountyOfficeRule, lower: &Vec<char>) -> (b: bool)
    ensures
        b == rule_applies(r@, lower@),
{
    let matched_substring = any_contained_exec(lower, &r.match_substrings);
    let matched_pattern = match &r.match_pattern {
        Some(p) => is_match(p.as_str(), lower),
        None => false,
    };
    if !matched_substring && !matched_pattern {
        return false;
    }
    !any_contained_exec(lower, &r.exclude_substrings)
}

proof fn lemma_first_rule_skip(rules: Seq<RuleSpec>, lower: Seq<char>, from: int, i: int)
    requires
        0 <= from <= i <= rules.len(),
        forall|j: int| from <= j < i ==> !rule_applies(#[trigger] rules[j], lower),
    ensures
        first_rule_from(rules, lower, from) == first_rule_from(rules, lower, i),
    decreases i - from,
{
    if from < i {
        lemma_first_rule_skip(rules, lower, from + 1, i);
    }
}

/// The rule of `set` that a normalized contest name matches: the first
/// whose substrings (or pattern) occur in it, case-insensitively, and whose
/// exclusions do not.
pub fn find_matching_county_office(set: RuleSet, normalized_contest_name: &str) -> (r: Option<CountyOfficeRule>)
    ensures
        match r {
            Some(x) => matching_rule(set, normalized_contest_name@) matches Some(i) && x@
                == county_rules(set)[i],
            None => matching_rule(set, normalized_contest_name@) is None,
        },
{
    let contest = chars_of(normalized_contest_name);
    let lower = to_lowercase(&contest);
    let mut rules = county_office_rules(set);
    let ghost rs = county_rules(set);
    let mut i: usize = 0;
    while i < rules.len()
        invariant
            i <= rules.len(),
            rules@.map_values(|x: CountyOfficeRule| x@) == rs,
            rs == county_rules(set),
            lower@ == lowercase(normalized_contest_name@),
            forall|j: int| 0 <= j < i ==> !rule_applies(#[trigger] rs[j], lower@),
        decreases rules.len() - i,
    {
        assert(rs[i as int] == rules@[i as int]@);
        if rule_applies_exec(&rules[i], &lower) {
            proof {
                lemma_first_rule_skip(rs, lower@, 0, i as int);
            }
            let x = rules.remove(i);
            return Some(x);
        }
        i = i + 1;
    }
    proof {
        lemma_first_rule_skip(rs, lower@, 0, i as int);
    }
    None
}


/// `p` occurs at `i` in `s`, ignoring ASCII case.
pub open spec fn occurs_ci_at(s: Seq<char>, p: Seq<char>, i: int) -> bool {
    0 <= i && i + p.len() <= s.len() && eq_ignore_case(s.subrange(i, i + p.len()), p)
}

/// `s` with every leftmost, non-overlapping occurrence of `p` removed,
/// ignoring ASCII case; `s` itself when `p` is empty.
pub open spec fn remove_ci(s: Seq<char>, p: Seq<char>) -> Seq<char>
    decreases s.len(),
{
    if s.len() == 0 {
        s
    } else if p.len() > 0 && occurs_ci_at(s, p, 0) {
        remove_ci(s.skip(p.len() as int), p)
    } else {
        seq![s[0]] + remove_ci(s.drop_first(), p)
    }
}

fn occurs_ci_at_exec(s: &Vec<char>, p: &Vec<char>, i: usize) -> (r: bool)
    ensures
        r == occurs_ci_at(s@, p@, i as int),
{
    if i > s.len() || p.len() > s.len() - i {
        return false;
    }
    let window = slice_chars(s, i, i + p.len());
    eq_ignore_ascii_case(&window, p)
}

/// `s` with every occurrence of `phrase` removed, ignoring ASCII case.
pub fn remove_substring_ignore_ascii_case(s: &str, phrase: &str) -> (r: String)
    ensures
        r@ == remove_ci(s@, phrase@),
{
    let sv = chars_of(s);
    let p = chars_of(phrase);
    let mut out: Vec<char> = Vec::new();
    let mut i: usize = 0;
    assert(sv@.skip(0) == sv@);
    while i < sv.len()
        invariant
            i <= sv.len(),
            sv@ == s@,
            p@ == phrase@,
            out@ + remove_ci(sv@.skip(i as int), p@) == remove_ci(s@, phrase@),
        decreases sv.len() - i,
    {
        let ghost rest = sv@.skip(i as int);
        if p.len() > 0 && occurs_ci_at_exec(&sv, &p, i) {
            proof {
                assert(rest.subrange(0, p@.len() as int) == sv@.subrange(i as int, i + p@.len()));
                assert(rest.skip(p@.len() as int) == sv@.skip(i + p@.len()));
            }
            i = i + p.len();
        } else {
            proof {
                if p@.len() <= rest.len() {
                    assert(rest.subrange(0, p@.len() as int) == sv@.subrange(i as int, i + p@.len()));
                }
                assert(rest.drop_first() == sv@.skip(i + 1));
                assert(out@.push(sv@[i as int]) + remove_ci(rest.drop_first(), p@) == out@ + (seq![rest[0]] + remove_ci(rest.drop_first(), p@)));
            }
            out.push(sv[i]);
            i = i + 1;
        }
    }
    proof {
        assert(sv@.skip(i as int).len() == 0);
        assert(out@ + seq![] == out@);
    }
    string_of(&out)
}

/// `s` without trailing spaces and dashes.
pub open spec fn trim_end_space_dash(s: Seq<char>) -> Seq<char>
    decreases s.len(),
{
    if s.len() > 0 && (s.last() == ' ' || s.last() == '-') {
        trim_end_space_dash(s.drop_last())
    } else {
        s
    }
}

/// `s` ends with `suf`, ignoring ASCII case.
pub open spec fn ends_with_ci(s: Seq<char>, suf: Seq<char>) -> bool {
    suf.len() <= s.len() && eq_ignore_case(s.subrange(s.len() - suf.len(), s.len() as int), suf)
}

/// `s` begins with `pre`, ignoring ASCII case.
pub open spec fn starts_with_ci(s: Seq<char>, pre: Seq<char>) -> bool {
    pre.len() <= s.len() && eq_ignore_case(s.subrange(0, pre.len() as int), pre)
}

/// `s` without the suffix `a` (or else `b`), right-trimmed, when it has one.
pub open spec fn strip_suffix_ci(s: Seq<char>, a: Seq<char>, b: Seq<char>) -> Seq<char> {
    if ends_with_ci(s, a) {
        trim_end(s.subrange(0, s.len() - a.len()))
    } else if ends_with_ci(s, b) {
        trim_end(s.subrange(0, s.len() - b.len()))
    } else {
        s
    }
}

/// `s` without the prefix `a` (or else `b`), left-trimmed, when it has one.
pub open spec fn strip_prefix_ci(s: Seq<char>, a: Seq<char>, b: Seq<char>) -> Seq<char> {
    if starts_with_ci(s, a) {
        trim_start(s.subrange(a.len() as int, s.len() as int))
    } else if starts_with_ci(s, b) {
        trim_start(s.subrange(b.len() as int, s.len() as int))
    } else {
        s
    }
}

/// A contest name with "unexpired term", the vote-for instructions and the
/// party markers removed, in this order: " - Vote for none or one",
/// " - Republican Party"/" - Democratic Party", " (D)"/" (R)" at the end,
/// "REP - "/"DEM - " at the start, "(Vote for 1)" at the end.
pub open spec fn normalized_contest(s: Seq<char>) -> Seq<char> {
    let s1 = trim_end_space_dash(trim(remove_ci(trim(s), "unexpired term"@)));
    let s2 = strip_suffix_ci(s1, " - Vote for none or one"@, " - Vote for none or one"@);
    let s3 = strip_suffix_ci(s2, " - Republican Party"@, " - Democratic Party"@);
    let s4 = strip_suffix_ci(s3, " (D)"@, " (R)"@);
    let s5 = strip_prefix_ci(s4, "REP - "@, "DEM - "@);
    strip_suffix_ci(s5, "(Vote for 1)"@, "(Vote for 1)"@)
}

fn trim_end_space_dash_exec(s: &Vec<char>) -> (r: Vec<char>)
    ensures
        r@ == trim_end_space_dash(s@),
{
    let mut j: usize = s.len();
    assert(s@.subrange(0, s.len() as int) == s@);
    while j > 0 && (s[j - 1] == ' ' || s[j - 1] == '-')
        invariant
            j <= s.len(),
            trim_end_space_dash(s@) == trim_end_space_dash(s@.subrange(0, j as int)),
        decreases j,
    {
        assert(s@.subrange(0, j as int).drop_last() == s@.subrange(0, j - 1));
        j = j - 1;
    }
    slice_chars(s, 0, j)
}

fn ends_with_ci_exec(s: &Vec<char>, suf: &Vec<char>) -> (r: bool)
    ensures
        r == ends_with_ci(s@, suf@),
{
    if suf.len() > s.len() {
        return false;
    }
    let tail = slice_chars(s, s.len() - suf.len(), s.len());
    eq_ignore_ascii_case(&tail, suf)
}

fn starts_with_ci_exec(s: &Vec<char>, pre: &Vec<char>) -> (r: bool)
    ensures
        r == starts_with_ci(s@, pre@),
{
    if pre.len() > s.len() {
        return false;
    }
    let head = slice_chars(s, 0, pre.len());
    eq_ignore_ascii_case(&head, pre)
}

fn strip_suffix_ci_exec(s: Vec<char>, a: &str, b: &str) -> (r: Vec<char>)
    ensures
        r@ == strip_suffix_ci(s@, a@, b@),
{
    let av = chars_of(a);
    let bv = chars_of(b);
    if ends_with_ci_exec(&s, &av) {
        let head = slice_chars(&s, 0, s.len() - av.len());
        trim_end_exec(&head)
    } else if ends_with_ci_exec(&s, &bv) {
        let head = slice_chars(&s, 0, s.len() - bv.len());
        trim_end_exec(&head)
    } else {
        s
    }
}

fn strip_prefix_ci_exec(s: Vec<char>, a: &str, b: &str) -> (r: Vec<char>)
    ensures
        r@ == strip_prefix_ci(s@, a@, b@),
{
    let av = chars_of(a);
    let bv = chars_of(b);
    if starts_with_ci_exec(&s, &av) {
        let rest = slice_chars(&s, av.len(), s.len());
        trim_start_exec(&rest)
    } else if starts_with_ci_exec(&s, &bv) {
        let rest = slice_chars(&s, bv.len(), s.len());
        trim_start_exec(&rest)
    } else {
        s
    }
}

/// Normalizes a county contest name (see `normalized_contest`).
pub fn normalize_contest_name(s: &str) -> (r: String)
    ensures
        r@ == normalized_contest(s@),
{
    let sv = chars_of(s);
    let t = trim_exec(&sv);
    let t = string_of(&t);
    let removed = remove_substring_ignore_ascii_case(t.as_str(), "unexpired term");
    let removed = chars_of(removed.as_str());
    let s1 = trim_exec(&removed);
    let s1 = trim_end_space_dash_exec(&s1);
    let s2 = strip_suffix_ci_exec(s1, " - Vote for none or one", " - Vote for none or one");
    let s3 = strip_suffix_ci_exec(s2, " - Republican Party", " - Democratic Party");
    let s4 = strip_suffix_ci_exec(s3, " (D)", " (R)");
    let s5 = strip_prefix_ci_exec(s4, "REP - ", "DEM - ");
    let s6 = strip_suffix_ci_exec(s5, "(Vote for 1)", "(Vote for 1)");
    string_of(&s6)
}


/// The office, district and seat parsed from a contest name.
pub struct ParsedContestName {
    pub office_name: String,
    pub district: Option<String>,
    pub seat: Option<String>,
}

/// The trimmed text, when something is left.
pub open spec fn nonempty_trimmed(o: Option<Seq<char>>) -> Option<Seq<char>> {
    match o {
        Some(s) => if trim(s).len() > 0 {
            Some(trim(s))
        } else {
            None
        },
        None => None,
    }
}

pub open spec fn opt_seq(o: Option<Seq<char>>) -> Seq<Seq<char>> {
    match o {
        Some(s) => seq![s],
        None => seq![],
    }
}

pub open spec fn opt_prefixed(prefix: Seq<char>, o: Option<Seq<char>>) -> Seq<Seq<char>> {
    match o {
        Some(s) => seq![prefix + s],
        None => seq![],
    }
}

/// `d` without its leading zeros.
pub open spec fn trim_zeros(d: Seq<char>) -> Seq<char>
    decreases d.len(),
{
    if d.len() > 0 && d[0] == '0' {
        trim_zeros(d.drop_first())
    } else {
        d
    }
}

/// The texts whose slugs make up a county race's ref key, after the
/// "tx-primaries" and year parts, for each office (some counties name their
/// offices differently).
pub open spec fn county_ref_texts(
    set: RuleSet,
    office: Seq<char>,
    county: Seq<char>,
    county_lower: Seq<char>,
    district: Option<Seq<char>>,
    seat: Option<Seq<char>>,
    party: Option<Seq<char>>,
    candidate: Seq<char>,
) -> Seq<Seq<char>> {
    let cty = county + " county"@;
    if office == "Criminal District Judge"@ {
        if county_lower == "tarrant"@ {
            seq![office] + opt_seq(district) + seq![cty, candidate]
        } else if county_lower == "dallas"@ {
            seq![office, county + " county number"@] + opt_seq(district) + seq![candidate]
        } else {
            seq![office, cty] + opt_seq(district) + seq![candidate]
        }
    } else if office == "Criminal District Attorney"@ {
        seq![office, cty, candidate]
    } else if office == "County Judge"@ || office == "Sheriff & County Tax Assessor-Collector"@
        || office == "County Chair"@ {
        seq![county, office, candidate]
    } else if office == "County & District Clerk"@ {
        seq![
            county,
            if county_lower == "childress"@ {
                "county and district clerk"@
            } else {
                "county clerk district clerk"@
            },
            candidate,
        ]
    } else if office == "Judge - County Civil Court at Law"@ || office
        == "Judge - County Court at Law"@ || office == "Judge - County Criminal Court of Appeals"@ {
        seq![county, office] + opt_prefixed("no "@, district) + seq![candidate]
    } else if office == "Judge - County Criminal Court at Law"@ {
        seq![
            county,
            if county_lower == "tarrant"@ {
                "Judge - County Criminal Court"@
            } else {
                office
            },
        ] + opt_prefixed("no "@, district) + seq![candidate]
    } else if office == "Judge - Probate Court"@ {
        let name = if county_lower == "collin"@ || (set == RuleSet::Combined && county_lower
            == "montgomery"@) {
            "Probate Court"@
        } else if county_lower == "galveston"@ {
            "Judge - Probate Court at Law"@
        } else if county_lower == "denton"@ {
            "Judge - County Probate Court at Law"@
        } else {
            office
        };
        seq![county, name] + opt_prefixed("no "@, district) + seq![candidate]
    } else if office == "Justice of the Peace"@ {
        seq![county, office] + opt_prefixed("precinct "@, district) + opt_prefixed("place "@, seat)
            + seq![candidate]
    } else if office == "Precinct Chair"@ {
        seq![county, office, "for pchr"@] + (match district {
            Some(d) => seq![
                if trim_zeros(d).len() == 0 {
                    "0"@
                } else {
                    trim_zeros(d)
                },
            ],
            None => seq![],
        }) + opt_seq(party) + seq![candidate]
    } else if office == "County School Trustee"@ {
        seq![county, "Harris County Department of Education"@] + opt_prefixed(
            if set == RuleSet::Other {
                "Position "@
            } else {
                "place "@
            },
            district,
        ) + seq![candidate]
    } else {
        seq![county, office] + opt_prefixed("precinct "@, district) + seq![candidate]
    }
}

/// What `push_slug` adds for a text: its slug, when the trimmed text and the
/// slug are both non-empty.
pub open spec fn slug_part(t: Seq<char>) -> Seq<Seq<char>> {
    if trim(t).len() == 0 || slug_text(trim(t)).len() == 0 {
        seq![]
    } else {
        seq![slug_text(trim(t))]
    }
}

pub open spec fn slug_parts(texts: Seq<Seq<char>>) -> Seq<Seq<char>>
    decreases texts.len(),
{
    if texts.len() == 0 {
        seq![]
    } else {
        slug_parts(texts.drop_last()) + slug_part(texts.last())
    }
}

/// The ref key of a county race result row.
pub open spec fn county_ref_key(
    set: RuleSet,
    office: Seq<char>,
    district: Option<Seq<char>>,
    seat: Option<Seq<char>>,
    county: Option<Seq<char>>,
    candidate: Option<Seq<char>>,
    party: Option<Seq<char>>,
    year: int,
) -> Seq<char> {
    let cty = trim(
        match county {
            Some(c) => c,
            None => seq![],
        },
    );
    let cand = trim(
        match candidate {
            Some(c) => c,
            None => seq![],
        },
    );
    join(
        seq!["tx-primaries"@, decimal(year)] + slug_parts(
            county_ref_texts(
                set,
                office,
                cty,
                lowercase(cty),
                nonempty_trimmed(district),
                nonempty_trimmed(seat),
                nonempty_trimmed(party),
                cand,
            ),
        ),
        "-"@,
    )
}

fn nonempty_trimmed_exec(o: Option<&str>) -> (r: Option<Vec<char>>)
    ensures
        match r {
            Some(v) => nonempty_trimmed(opt_str_view(o)) == Some(v@),
            None => nonempty_trimmed(opt_str_view(o)) is None,
        },
{
    match o {
        Some(s) => {
            let t = trim_exec(&chars_of(s));
            if t.len() > 0 {
                Some(t)
            } else {
                None
            }
        },
        None => None,
    }
}

fn lit(s: &str) -> (r: Vec<char>)
    ensures
        r@ == s@,
{
    chars_of(s)
}

fn prefixed(prefix: &str, v: &Vec<char>) -> (r: Vec<char>)
    ensures
        r@ == prefix@ + v@,
{
    concat(&lit(prefix), v)
}

fn push_opt_prefixed(texts: &mut Vec<Vec<char>>, prefix: &str, o: &Option<Vec<char>>)
    ensures
        chars_view(final(texts)@) == chars_view(old(texts)@) + opt_prefixed(prefix@, match o {
            Some(v) => Some(v@),
            None => None,
        }),
{
    let ghost before = chars_view(texts@);
    match o {
        Some(v) => {
            texts.push(prefixed(prefix, v));
            assert(chars_view(texts@) =~= before + seq![prefix@ + v@]);
        },
        None => {
            assert(chars_view(texts@) =~= before + seq![]);
        },
    }
}

fn push_text(texts: &mut Vec<Vec<char>>, t: Vec<char>)
    ensures
        chars_view(final(texts)@) == chars_view(old(texts)@).push(t@),
{
    let ghost before = chars_view(texts@);
    texts.push(t);
    assert(chars_view(texts@) =~= before.push(t@));
}

fn trim_zeros_exec(d: &Vec<char>) -> (r: Vec<char>)
    ensures
        r@ == trim_zeros(d@),
{
    let mut i: usize = 0;
    assert(d@.skip(0) == d@);
    while i < d.len() && d[i] == '0'
        invariant
            i <= d.len(),
            trim_zeros(d@) == trim_zeros(d@.skip(i as int)),
        decreases d.len() - i,
    {
        assert(d@.skip(i as int).drop_first() == d@.skip(i + 1));
        i = i + 1;
    }
    assert(d@.skip(i as int) == d@.subrange(i as int, d.len() as int));
    slice_chars(d, i, d.len())
}

fn county_ref_texts_exec(
    set: RuleSet,
    office: &Vec<char>,
    county: &Vec<char>,
    county_lower: &Vec<char>,
    district: &Option<Vec<char>>,
    seat: &Option<Vec<char>>,
    party: &Option<Vec<char>>,
    candidate: &Vec<char>,
) -> (r: Vec<Vec<char>>)
    ensures
        chars_view(r@) == county_ref_texts(
            set,
            office@,
            county@,
            county_lower@,
            match district {
                Some(v) => Some(v@),
                None => None,
            },
            match seat {
                Some(v) => Some(v@),
                None => None,
            },
            match party {
                Some(v) => Some(v@),
                None => None,
            },
            candidate@,
        ),
{
    let ghost dv: Option<Seq<char>> = match district {
        Some(v) => Some(v@),
        None => None,
    };
    let ghost sv: Option<Seq<char>> = match seat {
        Some(v) => Some(v@),
        None => None,
    };
    let ghost pv: Option<Seq<char>> = match party {
        Some(v) => Some(v@),
        None => None,
    };
    let ghost expected = county_ref_texts(set, office@, county@, county_lower@, dv, sv, pv, candidate@);
    let cty = concat(county, &lit(" county"));
    let is = |s: &str| -> (b: bool)
        ensures
            b == (office@ == s@),
        { chars_eq(office, &lit(s)) };
    let lower_is = |s: &str| -> (b: bool)
        ensures
            b == (county_lower@ == s@),
        { chars_eq(county_lower, &lit(s)) };
    let mut t: Vec<Vec<char>> = Vec::new();
    assert(chars_view(t@) =~= seq![]);
    if is("Criminal District Judge") {
        if lower_is("tarrant") {
            push_text(&mut t, office.clone());
            push_opt_prefixed(&mut t, "", district);
            push_text(&mut t, cty);
            push_text(&mut t, candidate.clone());
        } else if lower_is("dallas") {
            push_text(&mut t, office.clone());
            push_text(&mut t, concat(county, &lit(" county number")));
            push_opt_prefixed(&mut t, "", district);
            push_text(&mut t, candidate.clone());
        } else {
            push_text(&mut t, office.clone());
            push_text(&mut t, cty);
            push_opt_prefixed(&mut t, "", district);
            push_text(&mut t, candidate.clone());
        }
    } else if is("Criminal District Attorney") {
        push_text(&mut t, office.clone());
        push_text(&mut t, cty);
        push_text(&mut t, candidate.clone());
    } else if is("County Judge") || is("Sheriff & County Tax Assessor-Collector") || is("County Chair") {
        push_text(&mut t, county.clone());
        push_text(&mut t, office.clone());
        push_text(&mut t, candidate.clone());
    } else if is("County & District Clerk") {
        push_text(&mut t, county.clone());
        if lower_is("childress") {
            push_text(&mut t, lit("county and district clerk"));
        } else {
            push_text(&mut t, lit("county clerk district clerk"));
        }
        push_text(&mut t, candidate.clone());
    } else if is("Judge - County Civil Court at Law") || is("Judge - County Court at Law") || is("Judge - County Criminal Court of Appeals") {
        push_text(&mut t, county.clone());
        push_text(&mut t, office.clone());
        push_opt_prefixed(&mut t, "no ", district);
        push_text(&mut t, candidate.clone());
    } else if is("Judge - County Criminal Court at Law") {
        push_text(&mut t, county.clone());
        if lower_is("tarrant") {
            push_text(&mut t, lit("Judge - County Criminal Court"));
        } else {
            push_text(&mut t, office.clone());
        }
        push_opt_prefixed(&mut t, "no ", district);
        push_text(&mut t, candidate.clone());
    } else if is("Judge - Probate Court") {
        push_text(&mut t, county.clone());
        if lower_is("collin") || (set == RuleSet::Combined && lower_is("montgomery")) {
            push_text(&mut t, lit("Probate Court"));
        } else if lower_is("galveston") {
            push_text(&mut t, lit("Judge - Probate Court at Law"));
        } else if lower_is("denton") {
            push_text(&mut t, lit("Judge - County Probate Court at Law"));
        } else {
            push_text(&mut t, office.clone());
        }
        push_opt_prefixed(&mut t, "no ", district);
        push_text(&mut t, candidate.clone());
    } else if is("Justice of the Peace") {
        push_text(&mut t, county.clone());
        push_text(&mut t, office.clone());
        push_opt_prefixed(&mut t, "precinct ", district);
        push_opt_prefixed(&mut t, "place ", seat);
        push_text(&mut t, candidate.clone());
    } else if is("Precinct Chair") {
        push_text(&mut t, county.clone());
        push_text(&mut t, office.clone());
        push_text(&mut t, lit("for pchr"));
        match district {
            Some(d) => {
                let z = trim_zeros_exec(d);
                if z.len() == 0 {
                    push_text(&mut t, lit("0"));
                } else {
                    push_text(&mut t, z);
                }
            },
            None => {},
        }
        push_opt_prefixed(&mut t, "", party);
        push_text(&mut t, candidate.clone());
    } else if is("County School Trustee") {
        push_text(&mut t, county.clone());
        push_text(&mut t, lit("Harris County Department of Education"));
        if set == RuleSet::Other {
            push_opt_prefixed(&mut t, "Position ", district);
        } else {
            push_opt_prefixed(&mut t, "place ", district);
        }
        push_text(&mut t, candidate.clone());
    } else {
        push_text(&mut t, county.clone());
        push_text(&mut t, office.clone());
        push_opt_prefixed(&mut t, "precinct ", district);
        push_text(&mut t, candidate.clone());
    }
    proof {
        reveal_strlit("");
        assert(forall|x: Seq<char>| #[trigger] (""@ + x) == x) by {
            assert forall|x: Seq<char>| #[trigger] (""@ + x) == x by {
                assert(""@ + x =~= x);
            }
        }
    }
    assert(chars_view(t@) =~= expected);
    t
}


/// Appends the slug of `text` to `parts` when the trimmed text and its slug
/// are non-empty.
fn push_slug(parts: &mut Vec<Vec<char>>, text: &Vec<char>)
    ensures
        chars_view(final(parts)@) == chars_view(old(parts)@) + slug_part(text@),
{
    let ghost before = chars_view(parts@);
    let t = trim_exec(text);
    if t.len() > 0 {
        let slug = slugify_chars(&t);
        if slug.len() > 0 {
            parts.push(slug);
            assert(chars_view(parts@) =~= before + seq![slug_text(trim(text@))]);
            return;
        }
    }
    assert(chars_view(parts@) =~= before + seq![]);
}

/// The ref key of a county race result row: "tx-primaries", the year, then
/// the slugs of the office-specific parts (see `county_ref_texts`), joined
/// by `-`.
pub fn build_ref_key_for_county_race(
    set: RuleSet,
    office_name: &str,
    parsed: &ParsedContestName,
    county: Option<&str>,
    candidate_name: Option<&str>,
    party: Option<&str>,
    year: i32,
) -> (r: String)
    ensures
        r@ == county_ref_key(
            set,
            office_name@,
            opt_view(parsed.district),
            opt_view(parsed.seat),
            opt_str_view(county),
            opt_str_view(candidate_name),
            opt_str_view(party),
            year as int,
        ),
{
    let county_v = match county {
        Some(c) => chars_of(c),
        None => Vec::new(),
    };
    let county_t = trim_exec(&county_v);
    let county_lower = to_lowercase(&county_t);
    let cand_v = match candidate_name {
        Some(c) => chars_of(c),
        None => Vec::new(),
    };
    let cand_t = trim_exec(&cand_v);
    let district = nonempty_trimmed_exec(match &parsed.district {
        Some(d) => Some(d.as_str()),
        None => None,
    });
    let seat = nonempty_trimmed_exec(match &parsed.seat {
        Some(d) => Some(d.as_str()),
        None => None,
    });
    let party_t = nonempty_trimmed_exec(party);
    let office = chars_of(office_name);
    let texts = county_ref_texts_exec(set, &office, &county_t, &county_lower, &district, &seat, &party_t, &cand_t);
    let ghost tv = chars_view(texts@);
    let mut parts: Vec<Vec<char>> = Vec::new();
    parts.push(lit("tx-primaries"));
    parts.push(i64_to_chars(year as i64));
    let ghost head = seq!["tx-primaries"@, decimal(year as int)];
    assert(chars_view(parts@) =~= head);
    let mut i: usize = 0;
    assert(tv.take(0) == Seq::<Seq<char>>::empty());
    while i < texts.len()
        invariant
            i <= texts.len(),
            tv == chars_view(texts@),
            chars_view(parts@) == head + slug_parts(tv.take(i as int)),
        decreases texts.len() - i,
    {
        proof {
            assert(tv.take(i + 1).drop_last() == tv.take(i as int));
            assert(tv.take(i + 1).last() == texts@[i as int]@);
        }
        push_slug(&mut parts, &texts[i]);
        proof {
            assert(head + slug_parts(tv.take(i as int)) + slug_part(texts@[i as int]@) == head + (
            slug_parts(tv.take(i as int)) + slug_part(texts@[i as int]@)));
        }
        i = i + 1;
    }
    assert(tv.take(texts.len() as int) == tv);
    let sep = lit("-");
    let key = join_exec(&parts, &sep);
    assert(parts@.map_values(|p: Vec<char>| p@) == chars_view(parts@));
    string_of(&key)
}

} // verus!
