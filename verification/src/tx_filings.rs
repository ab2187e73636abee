//! Texas candidate filings (the 2026 primaries and the 2026 municipal
//! elections): which filings are taken, office titles, addresses, ref keys,
//! name splitting, and the rules by which an incoming politician whose slug
//! is taken is found to be the same person as the one holding it.
use vstd::prelude::*;
use crate::slug::{politician_ref_key_chars, ref_key, slug_text, slugify_str};
use crate::text::{
    chars_of, collapse_ws, collapse_ws_exec, concat, eq_ignore_ascii_case, eq_ignore_case, join,
    join_exec, opt_str_view, opt_view, slice_chars, string_of, trim, trim_exec, words, words_exec,
    chars_view, decimal, i64_to_chars,
};

verus! {

/// The election year of the filings.
pub const ELECTION_YEAR: i32 = 2026;

/// The source table of the primary filings.
pub const TX_SOURCE_TABLE: &'static str = "p6t_state_tx.tx_primaries_20260212_all";

/// The source table of the municipal filings.
pub const TX_MUNI_SOURCE_TABLE: &'static str = "p6t_state_tx.tx_2026_municipal_filings";

/// The 2026 Texas municipal election.
pub const TX_MUNI_ELECTION_ID: &'static str = "dce8e1a4-dcdb-4f3e-9cfa-11f96ae86007";

/// A staging address built from a filing.
pub struct TxStagingAddress {
    pub line_1: String,
    pub city: String,
    pub state: String,
    pub country: String,
}

pub ghost struct TxAddressView {
    pub line_1: Seq<char>,
    pub city: Seq<char>,
    pub state: Seq<char>,
    pub country: Seq<char>,
}

impl TxStagingAddress {
    pub open spec fn view(&self) -> TxAddressView {
        TxAddressView {
            line_1: self.line_1@,
            city: self.city@,
            state: self.state@,
            country: self.country@,
        }
    }
}

/// One row of the Texas primaries table.
pub struct TxCandidateFiling {
    pub office_title: Option<String>,
    pub office_type: Option<String>,
    pub candidate_name: Option<String>,
    pub county: Option<String>,
    pub email: Option<String>,
    pub party: Option<String>,
    pub address_street: Option<String>,
    pub address_city: Option<String>,
    pub address_state: Option<String>,
    pub occupation: Option<String>,
    pub incumbent: Option<String>,
    pub status: Option<String>,
}

/// One row of the Texas municipal filings table.
pub struct TxMunicipalFiling {
    pub county: Option<String>,
    pub municipality: Option<String>,
    pub office_name: Option<String>,
    pub district_type: Option<String>,
    pub district: Option<String>,
    pub school_district: Option<String>,
    pub seat_label: Option<String>,
    pub seat: Option<String>,
    pub candidate_name: Option<String>,
    pub incumbent: Option<String>,
    pub is_special_election: Option<bool>,
    pub status: Option<String>,
    pub email: Option<String>,
    pub phone: Option<String>,
    pub campaign_website: Option<String>,
    pub place_fips: Option<String>,
    pub state: Option<String>,
}

/// The trimmed status equals `word` without regard to ASCII case.
pub open spec fn status_is(status: Option<Seq<char>>, word: Seq<char>) -> bool {
    status matches Some(s) && eq_ignore_case(trim(s), word)
}

fn status_is_exec(status: Option<&str>, word: &str) -> (r: bool)
    ensures
        r == status_is(opt_str_view(status), word@),
{
    match status {
        Some(s) => eq_ignore_ascii_case(&trim_exec(&chars_of(s)), &chars_of(word)),
        None => false,
    }
}

/// Whether a primary filing is processed: its status is "in primary".
pub fn should_process_primary_filing(status: Option<&str>) -> (r: bool)
    ensures
        r == status_is(opt_str_view(status), "in primary"@),
{
    status_is_exec(status, "in primary")
}

/// Whether a municipal filing is taken: its status is "Active" or
/// "Unopposed" (trimmed, without regard to case).
pub fn should_ingest_municipal_filing_status(status: Option<&str>) -> (r: bool)
    ensures
        r == (status_is(opt_str_view(status), "Active"@) || status_is(opt_str_view(status), "Unopposed"@)),
{
    status_is_exec(status, "Active") || status_is_exec(status, "Unopposed")
}

/// The whitespace that `char::is_ascii_whitespace` names.
pub open spec fn is_ascii_ws(c: char) -> bool {
    c == ' ' || c == '\t' || c == '\n' || c == '\x0C' || c == '\r'
}

/// `s` without its trailing ASCII whitespace.
pub open spec fn trim_end_ascii_ws(s: Seq<char>) -> Seq<char>
    decreases s.len(),
{
    if s.len() > 0 && is_ascii_ws(s.last()) {
        trim_end_ascii_ws(s.drop_last())
    } else {
        s
    }
}

/// An office title without a trailing " - unexpired term" (in any ASCII
/// case): the rest, trimmed; or the title without trailing ASCII whitespace.
pub open spec fn without_unexpired_term(raw: Seq<char>) -> Seq<char> {
    let t = trim_end_ascii_ws(raw);
    if t.len() >= 17 && eq_ignore_case(t.subrange(t.len() - 17, t.len() as int), " - unexpired term"@) {
        trim(t.subrange(0, t.len() - 17))
    } else {
        t
    }
}

/// The byte `n` from the end of `t`'s UTF-8 encoding begins a character,
/// or `t` is shorter than `n` bytes.
pub open spec fn suffix_boundary(t: Seq<char>, n: int) -> bool {
    ||| vstd::utf8::encode_utf8(t).len() < n
    ||| exists|k: int| 0 <= k <= t.len() && vstd::utf8::encode_utf8(t.subrange(k, t.len() as int)).len() == n
}

fn trim_end_ascii_ws_exec(s: &Vec<char>) -> (r: Vec<char>)
    ensures
        r@ == trim_end_ascii_ws(s@),
{
    let mut n: usize = s.len();
    assert(s@.subrange(0, n as int) == s@);
    while n > 0 && (s[n - 1] == ' ' || s[n - 1] == '\t' || s[n - 1] == '\n' || s[n - 1] == '\x0C' || s[n - 1] == '\r')
        invariant
            n <= s.len(),
            trim_end_ascii_ws(s@.subrange(0, n as int)) == trim_end_ascii_ws(s@),
        decreases n,
    {
        assert(s@.subrange(0, n as int).drop_last() == s@.subrange(0, n - 1));
        n = n - 1;
    }
    slice_chars(s, 0, n)
}

/// The office title without the suffix " - unexpired term". The title is
/// cut 17 bytes from its end, so where that falls inside a character
/// (no input the suffix matches) the title is left out.
pub fn strip_unexpired_term(raw: &str) -> (r: String)
    requires
        suffix_boundary(trim_end_ascii_ws(raw@), 17),
    ensures
        r@ == without_unexpired_term(raw@),
{
    let t = trim_end_ascii_ws_exec(&chars_of(raw));
    if t.len() >= 17 {
        let tail = slice_chars(&t, t.len() - 17, t.len());
        if eq_ignore_ascii_case(&tail, &chars_of(" - unexpired term")) {
            let head = slice_chars(&t, 0, t.len() - 17);
            return string_of(trim_exec(&head).as_slice());
        }
    }
    string_of(t.as_slice())
}

/// An address part: trimmed, its whitespace runs made single spaces.
pub open spec fn normalized_address(s: Seq<char>) -> Seq<char> {
    collapse_ws(trim(s))
}

/// An address part of a filing, normalized; `default` where it is missing
/// or empty.
pub open spec fn address_part(o: Option<Seq<char>>, default: Seq<char>) -> Seq<char> {
    match o {
        Some(s) => if normalized_address(s).len() > 0 {
            normalized_address(s)
        } else {
            default
        },
        None => default,
    }
}

/// An address part trimmed and with single spaces between its words.
pub fn normalize_address_string(s: &str) -> (r: String)
    ensures
        r@ == normalized_address(s@),
{
    string_of(collapse_ws_exec(&trim_exec(&chars_of(s))).as_slice())
}

pub(crate) fn address_part_exec(o: &Option<String>, default: &str) -> (r: String)
    ensures
        r@ == address_part(opt_view(*o), default@),
{
    match o {
        Some(s) => {
            let n = normalize_address_string(s.as_str());
            if chars_of(n.as_str()).len() > 0 {
                n
            } else {
                String::from_str(default)
            }
        },
        None => String::from_str(default),
    }
}

/// The address of a primary filing: street, city, state (default "TX"),
/// country "USA"; none where street and city are both empty.
pub open spec fn tx_address(f: TxCandidateFiling) -> Option<TxAddressView> {
    let line_1 = address_part(opt_view(f.address_street), seq![]);
    let city = address_part(opt_view(f.address_city), seq![]);
    if line_1.len() == 0 && city.len() == 0 {
        None
    } else {
        Some(
            TxAddressView {
                line_1,
                city,
                state: address_part(opt_view(f.address_state), "TX"@),
                country: "USA"@,
            },
        )
    }
}

pub open spec fn opt_address_view(o: Option<TxStagingAddress>) -> Option<TxAddressView> {
    match o {
        Some(a) => Some(a@),
        None => None,
    }
}

/// The staging address of a primary filing.
pub fn process_tx_address(filing: &TxCandidateFiling) -> (r: Option<TxStagingAddress>)
    ensures
        opt_address_view(r) == tx_address(*filing),
{
    proof {
        reveal_strlit("");
        assert(""@ =~= Seq::<char>::empty());
    }
    let line_1 = address_part_exec(&filing.address_street, "");
    let city = address_part_exec(&filing.address_city, "");
    let state = address_part_exec(&filing.address_state, "TX");
    if chars_of(line_1.as_str()).len() == 0 && chars_of(city.as_str()).len() == 0 {
        return None;
    }
    Some(TxStagingAddress { line_1, city, state, country: String::from_str("USA") })
}

/// Two addresses are equal, part by part, trimmed and without regard to
/// ASCII case.
pub open spec fn addresses_equal(a: TxAddressView, b: TxAddressView) -> bool {
    &&& eq_ignore_case(trim(a.line_1), trim(b.line_1))
    &&& eq_ignore_case(trim(a.city), trim(b.city))
    &&& eq_ignore_case(trim(a.state), trim(b.state))
    &&& eq_ignore_case(trim(a.country), trim(b.country))
}

/// Both emails are there and equal without regard to ASCII case.
pub open spec fn emails_match(a: Option<Seq<char>>, b: Option<Seq<char>>) -> bool {
    match (a, b) {
        (Some(x), Some(y)) => eq_ignore_case(x, y),
        _ => false,
    }
}

/// Whether an existing politician and an incoming one are the same person,
/// and whether their (trimmed, non-empty) emails matched: matching emails
/// make them the same; otherwise (neither or one email, or different ones)
/// they are when both addresses are there and equal.
pub open spec fn same_person(
    existing_email: Option<Seq<char>>,
    existing_address: Option<TxAddressView>,
    incoming_email: Option<Seq<char>>,
    incoming_address: Option<TxAddressView>,
) -> (bool, bool) {
    let emails_equal = emails_match(existing_email, incoming_email);
    let addrs = match (existing_address, incoming_address) {
        (Some(a), Some(b)) => addresses_equal(a, b),
        _ => false,
    };
    let both_emails_empty = existing_email is None && incoming_email is None;
    (
        if both_emails_empty {
            addrs
        } else if emails_equal {
            true
        } else {
            addrs
        },
        emails_equal,
    )
}

fn trimmed_eq(a: &String, b: &String) -> (r: bool)
    ensures
        r == eq_ignore_case(trim(a@), trim(b@)),
{
    eq_ignore_ascii_case(&trim_exec(&chars_of(a.as_str())), &trim_exec(&chars_of(b.as_str())))
}

pub open spec fn opt_ref_address_view(o: Option<&TxStagingAddress>) -> Option<TxAddressView> {
    match o {
        Some(a) => Some(a@),
        None => None,
    }
}

/// Whether an existing politician and an incoming one (with trimmed
/// non-empty emails and their addresses) are the same person, and whether
/// their emails matched.
pub fn is_same_person_from_emails_and_addresses(
    existing_email_trimmed: Option<&str>,
    existing_address: Option<&TxStagingAddress>,
    incoming_email_trimmed: Option<&str>,
    incoming_address: Option<&TxStagingAddress>,
) -> (r: (bool, bool))
    ensures
        r == same_person(
            opt_str_view(existing_email_trimmed),
            opt_ref_address_view(existing_address),
            opt_str_view(incoming_email_trimmed),
            opt_ref_address_view(incoming_address),
        ),
{
    let both_emails_empty = existing_email_trimmed.is_none() && incoming_email_trimmed.is_none();
    let emails_equal = match (existing_email_trimmed, incoming_email_trimmed) {
        (Some(a), Some(b)) => eq_ignore_ascii_case(&chars_of(a), &chars_of(b)),
        _ => false,
    };
    let addrs = match (existing_address, incoming_address) {
        (Some(ex), Some(inc)) => trimmed_eq(&ex.line_1, &inc.line_1) && trimmed_eq(&ex.city, &inc.city)
            && trimmed_eq(&ex.state, &inc.state) && trimmed_eq(&ex.country, &inc.country),
        _ => false,
    };
    let same = if both_emails_empty {
        addrs
    } else if emails_equal {
        true
    } else {
        addrs
    };
    (same, emails_equal)
}

/// An email trimmed, when not empty.
pub open spec fn trimmed_email(o: Option<Seq<char>>) -> Option<Seq<char>> {
    match o {
        Some(e) => if trim(e).len() > 0 {
            Some(trim(e))
        } else {
            None
        },
        None => None,
    }
}

/// The email trimmed, when not empty (what emails are compared as).
pub fn trim_email(email: Option<&str>) -> (r: Option<String>)
    ensures
        opt_view(r) == trimmed_email(opt_str_view(email)),
{
    match email {
        Some(e) => {
            let t = trim_exec(&chars_of(e));
            if t.len() > 0 {
                Some(string_of(t.as_slice()))
            } else {
                None
            }
        },
        None => None,
    }
}

/// The `n`-th slug tried when a politician's slug is taken: `{base}-{n}`.
pub fn numbered_slug(base: &str, n: u32) -> (r: String)
    ensures
        r@ == base@ + "-"@ + decimal(n as int),
{
    string_of(concat(&concat(&chars_of(base), &chars_of("-")), &i64_to_chars(n as i64)).as_slice())
}

/// What is done to an existing politician found to be the same person as
/// an incoming one: the incoming address is saved for it when the emails
/// matched and it has none; its email becomes the incoming one (trimmed)
/// when that is not empty.
pub struct SamePersonUpdates {
    pub save_address: bool,
    pub new_email: Option<String>,
}

/// The updates for an existing politician found to be the same person.
pub fn same_person_updates(
    emails_equal: bool,
    existing_has_address: bool,
    incoming_has_address: bool,
    incoming_email: Option<&str>,
) -> (r: SamePersonUpdates)
    ensures
        r.save_address == (emails_equal && !existing_has_address && incoming_has_address),
        opt_view(r.new_email) == trimmed_email(opt_str_view(incoming_email)),
{
    SamePersonUpdates {
        save_address: emails_equal && !existing_has_address && incoming_has_address,
        new_email: trim_email(incoming_email),
    }
}

/// What checking a taken slug gave.
pub enum SlugCheck {
    /// The slug is free: insert the politician under it.
    Free,
    /// The holder is the same person (with whether the emails matched):
    /// update it and insert nothing.
    SamePerson { emails_equal: bool },
    /// The holder is someone else: try the next numbered slug.
    TryNext,
}

/// The decision on a slug: free when nobody holds it, else by
/// [`is_same_person_from_emails_and_addresses`].
pub fn check_slug(
    holder: Option<(Option<&str>, Option<&TxStagingAddress>)>,
    incoming_email_trimmed: Option<&str>,
    incoming_address: Option<&TxStagingAddress>,
) -> (r: SlugCheck)
    ensures
        match holder {
            None => r is Free,
            Some((email, address)) => {
                let (same, eq) = same_person(
                    opt_str_view(email),
                    opt_ref_address_view(address),
                    opt_str_view(incoming_email_trimmed),
                    opt_ref_address_view(incoming_address),
                );
                if same {
                    r == SlugCheck::SamePerson { emails_equal: eq }
                } else {
                    r is TryNext
                }
            },
        },
{
    match holder {
        None => SlugCheck::Free,
        Some((email, address)) => {
            let (same, eq) = is_same_person_from_emails_and_addresses(
                email,
                address,
                incoming_email_trimmed,
                incoming_address,
            );
            if same {
                SlugCheck::SamePerson { emails_equal: eq }
            } else {
                SlugCheck::TryNext
            }
        },
    }
}

/// The slug tried at attempt `n` for a politician whose own slug is
/// `base`: `base` itself first, then `{base}-1`, `{base}-2`, and so on.
pub open spec fn slug_attempt(base: Seq<char>, n: int) -> Seq<char> {
    if n == 0 {
        base
    } else {
        base + "-"@ + decimal(n)
    }
}

/// What follows the check of the slug of attempt `attempt`.
pub enum SlugStep {
    /// Insert the politician under this slug.
    Insert { slug: String },
    /// The holder of this slug is the same person: update it, insert nothing.
    UpdateHolder { slug: String, emails_equal: bool },
    /// Check the slug of this next attempt.
    Check { attempt: u32, slug: String },
}

/// The slug of attempt `n`.
pub fn slug_for_attempt(base: &str, n: u32) -> (r: String)
    ensures
        r@ == slug_attempt(base@, n as int),
{
    if n == 0 {
        String::from_str(base)
    } else {
        numbered_slug(base, n)
    }
}

/// The step after checking the slug of attempt `attempt`: a free slug is
/// taken, a slug held by the same person ends the search with an update of
/// the holder, and a slug held by someone else moves on to the next
/// attempt, so the slugs tried are `base`, `base-1`, `base-2`, ... until
/// one is free or held by the same person.
pub fn next_slug_step(base: &str, attempt: u32, check: SlugCheck) -> (r: SlugStep)
    requires
        attempt < u32::MAX,
    ensures
        match check {
            SlugCheck::Free => r matches SlugStep::Insert { slug } && slug@ == slug_attempt(
                base@,
                attempt as int,
            ),
            SlugCheck::SamePerson { emails_equal } => r matches SlugStep::UpdateHolder {
                slug,
                emails_equal: eq,
            } && slug@ == slug_attempt(base@, attempt as int) && eq == emails_equal,
            SlugCheck::TryNext => r matches SlugStep::Check { attempt: next, slug } && next == attempt
                + 1 && slug@ == slug_attempt(base@, attempt + 1),
        },
{
    match check {
        SlugCheck::Free => SlugStep::Insert { slug: slug_for_attempt(base, attempt) },
        SlugCheck::SamePerson { emails_equal } => SlugStep::UpdateHolder {
            slug: slug_for_attempt(base, attempt),
            emails_equal,
        },
        SlugCheck::TryNext => SlugStep::Check {
            attempt: attempt + 1,
            slug: slug_for_attempt(base, attempt + 1),
        },
    }
}

/// The race candidate ref key of a primary filing: the slug of
/// `tx-primaries-2026-{office title}-{candidate name}`.
pub open spec fn tx_race_candidate_key(office_title: Option<Seq<char>>, candidate_name: Option<Seq<char>>) -> Seq<char> {
    slug_text(
        "tx-primaries-"@ + decimal(ELECTION_YEAR as int) + "-"@ + match office_title {
            Some(t) => t,
            None => seq![],
        } + "-"@ + match candidate_name {
            Some(n) => n,
            None => seq![],
        },
    )
}

fn or_empty(o: &Option<String>) -> (r: Vec<char>)
    ensures
        r@ == match opt_view(*o) {
            Some(t) => t,
            None => Seq::<char>::empty(),
        },
{
    match o {
        Some(s) => chars_of(s.as_str()),
        None => Vec::new(),
    }
}

/// The race candidate ref key of a primary filing.
pub fn process_tx_race_candidate_ref_key(filing: &TxCandidateFiling) -> (r: String)
    ensures
        r@ == tx_race_candidate_key(opt_view(filing.office_title), opt_view(filing.candidate_name)),
{
    let mut t = concat(&chars_of("tx-primaries-"), &i64_to_chars(ELECTION_YEAR as i64));
    t = concat(&t, &chars_of("-"));
    t = concat(&t, &or_empty(&filing.office_title));
    t = concat(&t, &chars_of("-"));
    t = concat(&t, &or_empty(&filing.candidate_name));
    let s = string_of(t.as_slice());
    slugify_str(s.as_str())
}

/// The text a primary politician's ref key is made from: year, office
/// title, normalized name and status, joined by spaces and trimmed.
pub open spec fn tx_politician_key_input(
    office_title: Option<Seq<char>>,
    normalized_name: Seq<char>,
    status: Option<Seq<char>>,
) -> Seq<char> {
    trim(
        decimal(ELECTION_YEAR as int) + " "@ + match office_title {
            Some(t) => t,
            None => seq![],
        } + " "@ + normalized_name + " "@ + match status {
            Some(s) => s,
            None => seq![],
        },
    )
}

/// The text the ref key of a primary filing's politician is made from.
pub fn politician_ref_key_input(filing: &TxCandidateFiling, normalized_name: &str) -> (r: String)
    ensures
        r@ == tx_politician_key_input(opt_view(filing.office_title), normalized_name@, opt_view(filing.status)),
{
    let mut t = concat(&i64_to_chars(ELECTION_YEAR as i64), &chars_of(" "));
    t = concat(&t, &or_empty(&filing.office_title));
    t = concat(&t, &chars_of(" "));
    t = concat(&t, &chars_of(normalized_name));
    t = concat(&t, &chars_of(" "));
    t = concat(&t, &or_empty(&filing.status));
    string_of(trim_exec(&t).as_slice())
}

/// Whether the filer is the incumbent: the trimmed column is "YES" in any
/// ASCII case.
pub fn is_incumbent(incumbent: Option<&str>) -> (r: bool)
    ensures
        r == status_is(opt_str_view(incumbent), "YES"@),
{
    status_is_exec(incumbent, "YES")
}

/// The office identity of a municipal filing: municipality, office, district,
/// seat, school district and place FIPS code, joined by `|`.
pub open spec fn muni_office_identity(f: TxMunicipalFiling) -> Seq<char> {
    join(
        seq![
            or_empty_spec(opt_view(f.municipality)),
            or_empty_spec(opt_view(f.office_name)),
            or_empty_spec(opt_view(f.district)),
            or_empty_spec(opt_view(f.seat)),
            or_empty_spec(opt_view(f.school_district)),
            or_empty_spec(opt_view(f.place_fips)),
        ],
        "|"@,
    )
}

pub open spec fn or_empty_spec(o: Option<Seq<char>>) -> Seq<char> {
    match o {
        Some(t) => t,
        None => seq![],
    }
}

/// The office identity of a municipal filing, for its ref keys.
pub fn municipal_office_identity_for_ref_key(filing: &TxMunicipalFiling) -> (r: String)
    ensures
        r@ == muni_office_identity(*filing),
{
    let parts = vec![
        or_empty(&filing.municipality),
        or_empty(&filing.office_name),
        or_empty(&filing.district),
        or_empty(&filing.seat),
        or_empty(&filing.school_district),
        or_empty(&filing.place_fips),
    ];
    let r = join_exec(&parts, &chars_of("|"));
    assert(parts@.map_values(|p: Vec<char>| p@) =~= seq![
        or_empty_spec(opt_view(filing.municipality)),
        or_empty_spec(opt_view(filing.office_name)),
        or_empty_spec(opt_view(filing.district)),
        or_empty_spec(opt_view(filing.seat)),
        or_empty_spec(opt_view(filing.school_district)),
        or_empty_spec(opt_view(filing.place_fips)),
    ]);
    string_of(r.as_slice())
}

/// The ref key of a municipal filing's politician or race candidate: the
/// key of source `source`, year 2026, the office identity and the name.
pub fn municipal_ref_key(source: &str, filing: &TxMunicipalFiling, name: &str) -> (r: String)
    ensures
        r@ == ref_key(source@, decimal(ELECTION_YEAR as int), muni_office_identity(*filing), Some(name@)),
{
    let identity = municipal_office_identity_for_ref_key(filing);
    let n = chars_of(name);
    let k = politician_ref_key_chars(
        &chars_of(source),
        &i64_to_chars(ELECTION_YEAR as i64),
        &chars_of(identity.as_str()),
        Some(&n),
    );
    string_of(k.as_slice())
}

/// The text trimmed, when not empty.
pub fn trimmed_nonempty(o: &Option<String>) -> (r: Option<String>)
    ensures
        opt_view(r) == trimmed_email(opt_view(*o)),
{
    match o {
        Some(s) => trim_email(Some(s.as_str())),
        None => None,
    }
}

/// A name split on whitespace: first word, the middle words (joined by
/// spaces, when there are any) and the last word; `None` for a blank name.
pub open spec fn simple_split(name: Seq<char>) -> Option<(Seq<char>, Option<Seq<char>>, Seq<char>)> {
    let w = words(name);
    if w.len() == 0 {
        None
    } else {
        Some(
            (
                w[0],
                if w.len() > 2 {
                    Some(join(w.subrange(1, w.len() - 1), " "@))
                } else {
                    None
                },
                w.last(),
            ),
        )
    }
}

/// A name split into first, middle and last by whitespace (what is used
/// where the name extractor gives nothing).
pub fn simple_name_split(name: &str) -> (r: Option<(String, Option<String>, String)>)
    ensures
        match r {
            Some((f, m, l)) => simple_split(name@) == Some((f@, opt_view(m), l@)),
            None => simple_split(name@) is None,
        },
{
    let w = words_exec(&chars_of(name));
    let n = w.len();
    if n == 0 {
        return None;
    }
    let middle = if n > 2 {
        let mut mid: Vec<Vec<char>> = Vec::new();
        let mut k: usize = 1;
        while k < n - 1
            invariant
                1 <= k <= n - 1,
                n == w.len(),
                chars_view(mid@) == chars_view(w@).subrange(1, k as int),
            decreases n - 1 - k,
        {
            let ghost before = mid@;
            let x = w[k].clone();
            assert(x@ == w@[k as int]@);
            mid.push(x);
            proof {
                assert(chars_view(mid@) =~= chars_view(before).push(x@));
                assert(chars_view(mid@) =~= chars_view(w@).subrange(1, k + 1));
            }
            k = k + 1;
        }
        Some(string_of(join_exec(&mid, &chars_of(" ")).as_slice()))
    } else {
        None
    };
    assert(chars_view(w@)[0] == w@[0]@);
    assert(chars_view(w@).last() == w@[n - 1]@);
    Some((string_of(w[0].as_slice()), middle, string_of(w[n - 1].as_slice())))
}

} // verus!
