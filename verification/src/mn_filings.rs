//! Minnesota candidate filings: residence and campaign addresses, the
//! Governor & Lt Governor ticket, running mates' contact values and the
//! race candidate ref keys.
use vstd::prelude::*;
use crate::slug::{politician_ref_key_chars, ref_key, slug_text, slugify_str};
use crate::text::{
    chars_eq, chars_of, concat, eq_ignore_ascii_case, eq_ignore_case, first_index, i64_to_chars,
    decimal, opt_str_view, opt_view, split_once, split_once_exec, string_of, to_uppercase, trim,
    trim_exec, uppercase,
};
use crate::tx_filings::{address_part, address_part_exec, normalize_address_string, normalized_address};

verus! {

/// The election year of the filings.
pub const MN_ELECTION_YEAR: i32 = 2026;

/// The election of the filings.
pub const MN_ELECTION_ID: &'static str = "5fa881d7-f8f3-4b90-9063-45236c85c77a";

/// A staging address of a Minnesota filing.
pub struct MnStagingAddress {
    pub line_1: String,
    pub city: String,
    pub state: String,
    pub postal_code: String,
    pub country: String,
}

pub ghost struct MnAddressView {
    pub line_1: Seq<char>,
    pub city: Seq<char>,
    pub state: Seq<char>,
    pub postal_code: Seq<char>,
    pub country: Seq<char>,
}

impl MnStagingAddress {
    pub open spec fn view(&self) -> MnAddressView {
        MnAddressView {
            line_1: self.line_1@,
            city: self.city@,
            state: self.state@,
            postal_code: self.postal_code@,
            country: self.country@,
        }
    }
}

/// One Minnesota candidate filing.
pub struct CandidateFiling {
    pub office_title: Option<String>,
    pub office_id: Option<String>,
    pub office_code: Option<String>,
    pub candidate_name: Option<String>,
    pub party_abbreviation: Option<String>,
    pub campaign_phone: Option<String>,
    pub campaign_email: Option<String>,
    pub campaign_website: Option<String>,
    pub running_mate_website: Option<String>,
    pub running_mate_email: Option<String>,
    pub running_mate_phone: Option<String>,
    pub county_id: Option<String>,
    pub county_name: Option<String>,
    pub residence_street_address: Option<String>,
    pub residence_city: Option<String>,
    pub residence_state: Option<String>,
    pub residence_zip: Option<String>,
    pub campaign_address: Option<String>,
    pub campaign_city: Option<String>,
    pub campaign_state: Option<String>,
    pub campaign_zip: Option<String>,
}

/// A residence street that the filer chose to keep private.
pub open spec fn suppressed_street(s: Seq<char>) -> bool {
    uppercase(normalized_address(s)) == "NOT REQUIRED"@ || uppercase(normalized_address(s)) == "PRIVATE"@
}

/// Whether the residence street is "NOT REQUIRED" or "PRIVATE" (in any case).
pub fn is_suppressed_residence_street(s: &str) -> (r: bool)
    ensures
        r == suppressed_street(s@),
{
    let n = normalize_address_string(s);
    let up = to_uppercase(chars_of(n.as_str()).as_slice());
    chars_eq(&up, &chars_of("NOT REQUIRED")) || chars_eq(&up, &chars_of("PRIVATE"))
}

/// An address from its parts (street, city, state defaulting to "MN", zip),
/// none where street and city are both empty.
pub open spec fn mn_address(
    street: Option<Seq<char>>,
    city: Option<Seq<char>>,
    state: Option<Seq<char>>,
    zip: Option<Seq<char>>,
) -> Option<MnAddressView> {
    let line_1 = address_part(street, seq![]);
    let c = address_part(city, seq![]);
    if line_1.len() == 0 && c.len() == 0 {
        None
    } else {
        Some(
            MnAddressView {
                line_1,
                city: c,
                state: address_part(state, "MN"@),
                postal_code: address_part(zip, seq![]),
                country: "USA"@,
            },
        )
    }
}

pub open spec fn opt_mn_address_view(o: Option<MnStagingAddress>) -> Option<MnAddressView> {
    match o {
        Some(a) => Some(a@),
        None => None,
    }
}

fn mn_address_exec(
    street: &Option<String>,
    city: &Option<String>,
    state: &Option<String>,
    zip: &Option<String>,
) -> (r: Option<MnStagingAddress>)
    ensures
        opt_mn_address_view(r) == mn_address(opt_view(*street), opt_view(*city), opt_view(*state), opt_view(*zip)),
{
    proof {
        reveal_strlit("");
        assert(""@ =~= Seq::<char>::empty());
    }
    let line_1 = address_part_exec(street, "");
    let c = address_part_exec(city, "");
    let st = address_part_exec(state, "MN");
    let postal_code = address_part_exec(zip, "");
    if chars_of(line_1.as_str()).len() == 0 && chars_of(c.as_str()).len() == 0 {
        return None;
    }
    Some(MnStagingAddress { line_1, city: c, state: st, postal_code, country: String::from_str("USA") })
}

/// The residence address of a filing: none where the street is kept private.
pub open spec fn residence_address(f: CandidateFiling) -> Option<MnAddressView> {
    if opt_view(f.residence_street_address) matches Some(s) && suppressed_street(s) {
        None
    } else {
        mn_address(
            opt_view(f.residence_street_address),
            opt_view(f.residence_city),
            opt_view(f.residence_state),
            opt_view(f.residence_zip),
        )
    }
}

/// The residence address of a filing.
pub fn process_mn_residence_address(filing: &CandidateFiling) -> (r: Option<MnStagingAddress>)
    ensures
        opt_mn_address_view(r) == residence_address(*filing),
{
    if let Some(s) = &filing.residence_street_address {
        if is_suppressed_residence_street(s.as_str()) {
            return None;
        }
    }
    mn_address_exec(
        &filing.residence_street_address,
        &filing.residence_city,
        &filing.residence_state,
        &filing.residence_zip,
    )
}

/// The campaign address of a filing.
pub fn process_mn_campaign_address(filing: &CandidateFiling) -> (r: Option<MnStagingAddress>)
    ensures
        opt_mn_address_view(r) == mn_address(
            opt_view(filing.campaign_address),
            opt_view(filing.campaign_city),
            opt_view(filing.campaign_state),
            opt_view(filing.campaign_zip),
        ),
{
    mn_address_exec(&filing.campaign_address, &filing.campaign_city, &filing.campaign_state, &filing.campaign_zip)
}

/// The filing is a "Governor & Lt Governor" ticket.
pub open spec fn governor_ticket(f: CandidateFiling) -> bool {
    opt_view(f.office_title) matches Some(t) && trim(t) == "Governor & Lt Governor"@
}

/// Whether the filing is a Governor & Lt Governor ticket.
pub fn is_governor_lt_governor_ticket(filing: &CandidateFiling) -> (r: bool)
    ensures
        r == governor_ticket(*filing),
{
    match &filing.office_title {
        Some(t) => chars_eq(&trim_exec(&chars_of(t.as_str())), &chars_of("Governor & Lt Governor")),
        None => false,
    }
}

/// Two contact values are both there, not blank, and equal (trimmed,
/// without regard to ASCII case).
pub open spec fn contacts_equal(a: Option<Seq<char>>, b: Option<Seq<char>>) -> bool {
    match (a, b) {
        (Some(x), Some(y)) => trim(x).len() > 0 && trim(y).len() > 0 && eq_ignore_case(trim(x), trim(y)),
        _ => false,
    }
}

/// Whether two contact values are the same non-blank value.
pub fn contact_values_equal(a: Option<&str>, b: Option<&str>) -> (r: bool)
    ensures
        r == contacts_equal(opt_str_view(a), opt_str_view(b)),
{
    match (a, b) {
        (Some(x), Some(y)) => {
            let tx = trim_exec(&chars_of(x));
            let ty = trim_exec(&chars_of(y));
            tx.len() > 0 && ty.len() > 0 && eq_ignore_ascii_case(&tx, &ty)
        },
        _ => false,
    }
}

/// A running mate's contact value: none where it repeats the governor's.
pub fn running_mate_contact(running_mate: &Option<String>, campaign: &Option<String>) -> (r: Option<String>)
    ensures
        opt_view(r) == if contacts_equal(opt_view(*running_mate), opt_view(*campaign)) {
            None
        } else {
            opt_view(*running_mate)
        },
{
    let a = match running_mate {
        Some(s) => Some(s.as_str()),
        None => None,
    };
    let b = match campaign {
        Some(s) => Some(s.as_str()),
        None => None,
    };
    if contact_values_equal(a, b) {
        None
    } else {
        crate::text::clone_opt(running_mate)
    }
}

/// Why a ticket's names cannot be split.
pub enum TicketNameError {
    MissingName,
    MissingGovernor,
    MissingLtGovernor,
}

/// The governor's and lieutenant governor's names of a ticket: the trimmed
/// parts before and after the first " and ".
pub open spec fn ticket_names(name: Option<Seq<char>>) -> Result<(Seq<char>, Seq<char>), TicketNameError> {
    match name {
        None => Err(TicketNameError::MissingName),
        Some(n) => {
            let (before, after) = match split_once(n, " and "@) {
                Some((a, b)) => (a, Some(b)),
                None => (n, None),
            };
            if trim(before).len() == 0 {
                Err(TicketNameError::MissingGovernor)
            } else {
                match after {
                    Some(b) => if trim(b).len() > 0 {
                        Ok((trim(before), trim(b)))
                    } else {
                        Err(TicketNameError::MissingLtGovernor)
                    },
                    None => Err(TicketNameError::MissingLtGovernor),
                }
            }
        },
    }
}

impl TicketNameError {
    /// The message of the error.
    pub fn message(&self) -> (r: &'static str)
        ensures
            r@ == match self {
                TicketNameError::MissingName => "Missing candidate name for Governor & Lt Governor ticket"@,
                TicketNameError::MissingGovernor => "Governor & Lt Governor ticket missing governor name before ' and '"@,
                TicketNameError::MissingLtGovernor => "Governor & Lt Governor ticket missing lt governor name after ' and '"@,
            },
    {
        match self {
            TicketNameError::MissingName => "Missing candidate name for Governor & Lt Governor ticket",
            TicketNameError::MissingGovernor => "Governor & Lt Governor ticket missing governor name before ' and '",
            TicketNameError::MissingLtGovernor => "Governor & Lt Governor ticket missing lt governor name after ' and '",
        }
    }
}

/// The governor's and lieutenant governor's names of a ticket filing.
pub fn split_ticket_names(filing: &CandidateFiling) -> (r: Result<(String, String), TicketNameError>)
    ensures
        match r {
            Ok((g, l)) => ticket_names(opt_view(filing.candidate_name)) == Ok::<(Seq<char>, Seq<char>), TicketNameError>((g@, l@)),
            Err(e) => ticket_names(opt_view(filing.candidate_name)) == Err::<(Seq<char>, Seq<char>), TicketNameError>(e),
        },
{
    let n = match &filing.candidate_name {
        Some(n) => chars_of(n.as_str()),
        None => return Err(TicketNameError::MissingName),
    };
    let (before, after) = match split_once_exec(&n, &chars_of(" and ")) {
        Some((a, b)) => (a, Some(b)),
        None => (n, None),
    };
    let gov = trim_exec(&before);
    if gov.len() == 0 {
        return Err(TicketNameError::MissingGovernor);
    }
    match after {
        Some(b) => {
            let lt = trim_exec(&b);
            if lt.len() > 0 {
                Ok((string_of(gov.as_slice()), string_of(lt.as_slice())))
            } else {
                Err(TicketNameError::MissingLtGovernor)
            }
        },
        None => Err(TicketNameError::MissingLtGovernor),
    }
}

/// The race candidate ref key: the slug of
/// `mn-sos-{election slug}-{office title}-{candidate name}`.
pub open spec fn mn_race_candidate_key(election_slug: Seq<char>, office_title: Seq<char>, candidate_name: Seq<char>) -> Seq<char> {
    slug_text("mn-sos-"@ + election_slug + "-"@ + office_title + "-"@ + candidate_name)
}

/// The ref key of a candidate in a race.
pub fn race_candidate_ref_key(election_slug: &str, office_title: &str, candidate_name: &str) -> (r: String)
    ensures
        r@ == mn_race_candidate_key(election_slug@, office_title@, candidate_name@),
{
    let mut t = concat(&chars_of("mn-sos-"), &chars_of(election_slug));
    t = concat(&t, &chars_of("-"));
    t = concat(&t, &chars_of(office_title));
    t = concat(&t, &chars_of("-"));
    t = concat(&t, &chars_of(candidate_name));
    slugify_str(string_of(t.as_slice()).as_str())
}

/// The ref key of a filing's candidate in its race (missing parts empty).
pub fn process_race_candidate(filing: &CandidateFiling, election_slug: &str) -> (r: String)
    ensures
        r@ == mn_race_candidate_key(
            election_slug@,
            match opt_view(filing.office_title) {
                Some(t) => t,
                None => Seq::<char>::empty(),
            },
            match opt_view(filing.candidate_name) {
                Some(t) => t,
                None => Seq::<char>::empty(),
            },
        ),
{
    proof {
        reveal_strlit("");
        assert(""@ =~= Seq::<char>::empty());
    }
    let office = match &filing.office_title {
        Some(t) => t.as_str(),
        None => "",
    };
    let name = match &filing.candidate_name {
        Some(t) => t.as_str(),
        None => "",
    };
    race_candidate_ref_key(election_slug, office, name)
}

/// The ref key of a politician for an office: source "MN-SOS", the year,
/// the office title and the name.
pub fn mn_politician_ref_key(office_title: &str, candidate_name: &str) -> (r: String)
    ensures
        r@ == ref_key("MN-SOS"@, decimal(MN_ELECTION_YEAR as int), office_title@, Some(candidate_name@)),
{
    let n = chars_of(candidate_name);
    let k = politician_ref_key_chars(
        &chars_of("MN-SOS"),
        &i64_to_chars(MN_ELECTION_YEAR as i64),
        &chars_of(office_title),
        Some(&n),
    );
    string_of(k.as_slice())
}

} // verus!
