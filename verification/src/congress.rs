//! Congressional offices and the 2024 U.S. House primaries: how many
//! districts each state has, the House and Senate offices seeded for a
//! state, each state's kind of primary, and the primary races of a House
//! office.
use vstd::prelude::*;
use crate::text::{chars_eq, chars_of, concat, lowercase, nat_digits, string_of, to_lowercase, u64_digits};

verus! {

/// The kind of U.S. House primary a state holds.
pub enum PrimaryType {
    /// One primary per party (Republican and Democratic).
    Partisan,
    /// One primary, the top four advance.
    TopFour,
    /// One primary, the top two advance.
    TopTwo,
    /// No primary.
    NoPrimary,
}

fn is(n: &Vec<char>, s: &str) -> (r: bool)
    ensures
        r == (n@ == s@),
{
    chars_eq(n, &chars_of(s))
}

/// The number of U.S. House districts of a state, by its name.
pub open spec fn district_count(state_name: Seq<char>) -> Option<u32> {
    if state_name == "Alabama"@ {
        Some(7)
    } else if state_name == "Alaska"@ {
        Some(1)
    } else if state_name == "Arizona"@ {
        Some(9)
    } else if state_name == "Arkansas"@ {
        Some(4)
    } else if state_name == "California"@ {
        Some(52)
    } else if state_name == "Colorado"@ {
        Some(8)
    } else if state_name == "Connecticut"@ {
        Some(5)
    } else if state_name == "Delaware"@ {
        Some(1)
    } else if state_name == "Florida"@ {
        Some(28)
    } else if state_name == "Georgia"@ {
        Some(14)
    } else if state_name == "Hawaii"@ {
        Some(2)
    } else if state_name == "Idaho"@ {
        Some(2)
    } else if state_name == "Illinois"@ {
        Some(17)
    } else if state_name == "Indiana"@ {
        Some(9)
    } else if state_name == "Iowa"@ {
        Some(4)
    } else if state_name == "Kansas"@ {
        Some(4)
    } else if state_name == "Kentucky"@ {
        Some(6)
    } else if state_name == "Louisiana"@ {
        Some(6)
    } else if state_name == "Maine"@ {
        Some(2)
    } else if state_name == "Maryland"@ {
        Some(8)
    } else if state_name == "Massachusetts"@ {
        Some(9)
    } else if state_name == "Michigan"@ {
        Some(13)
    } else if state_name == "Minnesota"@ {
        Some(8)
    } else if state_name == "Mississippi"@ {
        Some(4)
    } else if state_name == "Missouri"@ {
        Some(8)
    } else if state_name == "Montana"@ {
        Some(2)
    } else if state_name == "Nebraska"@ {
        Some(3)
    } else if state_name == "Nevada"@ {
        Some(4)
    } else if state_name == "New Hampshire"@ {
        Some(2)
    } else if state_name == "New Jersey"@ {
        Some(12)
    } else if state_name == "New Mexico"@ {
        Some(3)
    } else if state_name == "New York"@ {
        Some(26)
    } else if state_name == "North Carolina"@ {
        Some(14)
    } else if state_name == "North Dakota"@ {
        Some(1)
    } else if state_name == "Ohio"@ {
        Some(15)
    } else if state_name == "Oklahoma"@ {
        Some(5)
    } else if state_name == "Oregon"@ {
        Some(6)
    } else if state_name == "Pennsylvania"@ {
        Some(17)
    } else if state_name == "Rhode Island"@ {
        Some(2)
    } else if state_name == "South Carolina"@ {
        Some(7)
    } else if state_name == "South Dakota"@ {
        Some(1)
    } else if state_name == "Tennessee"@ {
        Some(9)
    } else if state_name == "Texas"@ {
        Some(38)
    } else if state_name == "Utah"@ {
        Some(4)
    } else if state_name == "Vermont"@ {
        Some(1)
    } else if state_name == "Virginia"@ {
        Some(11)
    } else if state_name == "Washington"@ {
        Some(10)
    } else if state_name == "West Virginia"@ {
        Some(2)
    } else if state_name == "Wisconsin"@ {
        Some(8)
    } else if state_name == "Wyoming"@ {
        Some(1)
    } else {
        None
    }
}

pub fn house_district_count(state_name: &str) -> (r: Option<u32>)
    ensures
        r == district_count(state_name@),
{
    let n = chars_of(state_name);
    if is(&n, "Alabama") {
        Some(7)
    } else if is(&n, "Alaska") {
        Some(1)
    } else if is(&n, "Arizona") {
        Some(9)
    } else if is(&n, "Arkansas") {
        Some(4)
    } else if is(&n, "California") {
        Some(52)
    } else if is(&n, "Colorado") {
        Some(8)
    } else if is(&n, "Connecticut") {
        Some(5)
    } else if is(&n, "Delaware") {
        Some(1)
    } else if is(&n, "Florida") {
        Some(28)
    } else if is(&n, "Georgia") {
        Some(14)
    } else if is(&n, "Hawaii") {
        Some(2)
    } else if is(&n, "Idaho") {
        Some(2)
    } else if is(&n, "Illinois") {
        Some(17)
    } else if is(&n, "Indiana") {
        Some(9)
    } else if is(&n, "Iowa") {
        Some(4)
    } else if is(&n, "Kansas") {
        Some(4)
    } else if is(&n, "Kentucky") {
        Some(6)
    } else if is(&n, "Louisiana") {
        Some(6)
    } else if is(&n, "Maine") {
        Some(2)
    } else if is(&n, "Maryland") {
        Some(8)
    } else if is(&n, "Massachusetts") {
        Some(9)
    } else if is(&n, "Michigan") {
        Some(13)
    } else if is(&n, "Minnesota") {
        Some(8)
    } else if is(&n, "Mississippi") {
        Some(4)
    } else if is(&n, "Missouri") {
        Some(8)
    } else if is(&n, "Montana") {
        Some(2)
    } else if is(&n, "Nebraska") {
        Some(3)
    } else if is(&n, "Nevada") {
        Some(4)
    } else if is(&n, "New Hampshire") {
        Some(2)
    } else if is(&n, "New Jersey") {
        Some(12)
    } else if is(&n, "New Mexico") {
        Some(3)
    } else if is(&n, "New York") {
        Some(26)
    } else if is(&n, "North Carolina") {
        Some(14)
    } else if is(&n, "North Dakota") {
        Some(1)
    } else if is(&n, "Ohio") {
        Some(15)
    } else if is(&n, "Oklahoma") {
        Some(5)
    } else if is(&n, "Oregon") {
        Some(6)
    } else if is(&n, "Pennsylvania") {
        Some(17)
    } else if is(&n, "Rhode Island") {
        Some(2)
    } else if is(&n, "South Carolina") {
        Some(7)
    } else if is(&n, "South Dakota") {
        Some(1)
    } else if is(&n, "Tennessee") {
        Some(9)
    } else if is(&n, "Texas") {
        Some(38)
    } else if is(&n, "Utah") {
        Some(4)
    } else if is(&n, "Vermont") {
        Some(1)
    } else if is(&n, "Virginia") {
        Some(11)
    } else if is(&n, "Washington") {
        Some(10)
    } else if is(&n, "West Virginia") {
        Some(2)
    } else if is(&n, "Wisconsin") {
        Some(8)
    } else if is(&n, "Wyoming") {
        Some(1)
    } else {
        None
    }
}

pub open spec fn primary_type(state_code: Seq<char>) -> Option<PrimaryType> {
    if state_code == "AL"@ {
        Some(PrimaryType::Partisan)
    } else if state_code == "AK"@ {
        Some(PrimaryType::TopFour)
    } else if state_code == "AZ"@ {
        Some(PrimaryType::Partisan)
    } else if state_code == "AR"@ {
        Some(PrimaryType::Partisan)
    } else if state_code == "CA"@ {
        Some(PrimaryType::TopTwo)
    } else if state_code == "CO"@ {
        Some(PrimaryType::Partisan)
    } else if state_code == "CT"@ {
        Some(PrimaryType::Partisan)
    } else if state_code == "DE"@ {
        Some(PrimaryType::Partisan)
    } else if state_code == "FL"@ {
        Some(PrimaryType::Partisan)
    } else if state_code == "GA"@ {
        Some(PrimaryType::Partisan)
    } else if state_code == "HI"@ {
        Some(PrimaryType::Partisan)
    } else if state_code == "ID"@ {
        Some(PrimaryType::Partisan)
    } else if state_code == "IL"@ {
        Some(PrimaryType::Partisan)
    } else if state_code == "IN"@ {
        Some(PrimaryType::Partisan)
    } else if state_code == "IA"@ {
        Some(PrimaryType::Partisan)
    } else if state_code == "KS"@ {
        Some(PrimaryType::Partisan)
    } else if state_code == "KY"@ {
        Some(PrimaryType::Partisan)
    } else if state_code == "LA"@ {
        Some(PrimaryType::NoPrimary)
    } else if state_code == "ME"@ {
        Some(PrimaryType::Partisan)
    } else if state_code == "MD"@ {
        Some(PrimaryType::Partisan)
    } else if state_code == "MA"@ {
        Some(PrimaryType::Partisan)
    } else if state_code == "MI"@ {
        Some(PrimaryType::Partisan)
    } else if state_code == "MN"@ {
        Some(PrimaryType::Partisan)
    } else if state_code == "MS"@ {
        Some(PrimaryType::Partisan)
    } else if state_code == "MO"@ {
        Some(PrimaryType::Partisan)
    } else if state_code == "MT"@ {
        Some(PrimaryType::Partisan)
    } else if state_code == "NE"@ {
        Some(PrimaryType::TopTwo)
    } else if state_code == "NV"@ {
        Some(PrimaryType::Partisan)
    } else if state_code == "NH"@ {
        Some(PrimaryType::Partisan)
    } else if state_code == "NJ"@ {
        Some(PrimaryType::Partisan)
    } else if state_code == "NM"@ {
        Some(PrimaryType::Partisan)
    } else if state_code == "NY"@ {
        Some(PrimaryType::Partisan)
    } else if state_code == "NC"@ {
        Some(PrimaryType::Partisan)
    } else if state_code == "ND"@ {
        Some(PrimaryType::Partisan)
    } else if state_code == "OH"@ {
        Some(PrimaryType::Partisan)
    } else if state_code == "OK"@ {
        Some(PrimaryType::Partisan)
    } else if state_code == "OR"@ {
        Some(PrimaryType::Partisan)
    } else if state_code == "PA"@ {
        Some(PrimaryType::Partisan)
    } else if state_code == "RI"@ {
        Some(PrimaryType::Partisan)
    } else if state_code == "SC"@ {
        Some(PrimaryType::Partisan)
    } else if state_code == "SD"@ {
        Some(PrimaryType::Partisan)
    } else if state_code == "TN"@ {
        Some(PrimaryType::Partisan)
    } else if state_code == "TX"@ {
        Some(PrimaryType::Partisan)
    } else if state_code == "UT"@ {
        Some(PrimaryType::Partisan)
    } else if state_code == "VT"@ {
        Some(PrimaryType::Partisan)
    } else if state_code == "VA"@ {
        Some(PrimaryType::Partisan)
    } else if state_code == "WA"@ {
        Some(PrimaryType::TopTwo)
    } else if state_code == "WV"@ {
        Some(PrimaryType::Partisan)
    } else if state_code == "WI"@ {
        Some(PrimaryType::Partisan)
    } else if state_code == "WY"@ {
        Some(PrimaryType::Partisan)
    } else {
        None
    }
}

pub fn primary_type_for_state(state_code: &str) -> (r: Option<PrimaryType>)
    ensures
        r == primary_type(state_code@),
{
    let n = chars_of(state_code);
    if is(&n, "AL") {
        Some(PrimaryType::Partisan)
    } else if is(&n, "AK") {
        Some(PrimaryType::TopFour)
    } else if is(&n, "AZ") {
        Some(PrimaryType::Partisan)
    } else if is(&n, "AR") {
        Some(PrimaryType::Partisan)
    } else if is(&n, "CA") {
        Some(PrimaryType::TopTwo)
    } else if is(&n, "CO") {
        Some(PrimaryType::Partisan)
    } else if is(&n, "CT") {
        Some(PrimaryType::Partisan)
    } else if is(&n, "DE") {
        Some(PrimaryType::Partisan)
    } else if is(&n, "FL") {
        Some(PrimaryType::Partisan)
    } else if is(&n, "GA") {
        Some(PrimaryType::Partisan)
    } else if is(&n, "HI") {
        Some(PrimaryType::Partisan)
    } else if is(&n, "ID") {
        Some(PrimaryType::Partisan)
    } else if is(&n, "IL") {
        Some(PrimaryType::Partisan)
    } else if is(&n, "IN") {
        Some(PrimaryType::Partisan)
    } else if is(&n, "IA") {
        Some(PrimaryType::Partisan)
    } else if is(&n, "KS") {
        Some(PrimaryType::Partisan)
    } else if is(&n, "KY") {
        Some(PrimaryType::Partisan)
    } else if is(&n, "LA") {
        Some(PrimaryType::NoPrimary)
    } else if is(&n, "ME") {
        Some(PrimaryType::Partisan)
    } else if is(&n, "MD") {
        Some(PrimaryType::Partisan)
    } else if is(&n, "MA") {
        Some(PrimaryType::Partisan)
    } else if is(&n, "MI") {
        Some(PrimaryType::Partisan)
    } else if is(&n, "MN") {
        Some(PrimaryType::Partisan)
    } else if is(&n, "MS") {
        Some(PrimaryType::Partisan)
    } else if is(&n, "MO") {
        Some(PrimaryType::Partisan)
    } else if is(&n, "MT") {
        Some(PrimaryType::Partisan)
    } else if is(&n, "NE") {
        Some(PrimaryType::TopTwo)
    } else if is(&n, "NV") {
        Some(PrimaryType::Partisan)
    } else if is(&n, "NH") {
        Some(PrimaryType::Partisan)
    } else if is(&n, "NJ") {
        Some(PrimaryType::Partisan)
    } else if is(&n, "NM") {
        Some(PrimaryType::Partisan)
    } else if is(&n, "NY") {
        Some(PrimaryType::Partisan)
    } else if is(&n, "NC") {
        Some(PrimaryType::Partisan)
    } else if is(&n, "ND") {
        Some(PrimaryType::Partisan)
    } else if is(&n, "OH") {
        Some(PrimaryType::Partisan)
    } else if is(&n, "OK") {
        Some(PrimaryType::Partisan)
    } else if is(&n, "OR") {
        Some(PrimaryType::Partisan)
    } else if is(&n, "PA") {
        Some(PrimaryType::Partisan)
    } else if is(&n, "RI") {
        Some(PrimaryType::Partisan)
    } else if is(&n, "SC") {
        Some(PrimaryType::Partisan)
    } else if is(&n, "SD") {
        Some(PrimaryType::Partisan)
    } else if is(&n, "TN") {
        Some(PrimaryType::Partisan)
    } else if is(&n, "TX") {
        Some(PrimaryType::Partisan)
    } else if is(&n, "UT") {
        Some(PrimaryType::Partisan)
    } else if is(&n, "VT") {
        Some(PrimaryType::Partisan)
    } else if is(&n, "VA") {
        Some(PrimaryType::Partisan)
    } else if is(&n, "WA") {
        Some(PrimaryType::TopTwo)
    } else if is(&n, "WV") {
        Some(PrimaryType::Partisan)
    } else if is(&n, "WI") {
        Some(PrimaryType::Partisan)
    } else if is(&n, "WY") {
        Some(PrimaryType::Partisan)
    } else {
        None
    }
}

/// The chamber of a congressional office.
pub enum Chamber {
    /// A U.S. House seat: federal scope, a congressional district.
    House,
    /// A U.S. Senate seat: federal scope, the whole state.
    Senate,
}

/// An office to seed.
pub struct OfficeSeed {
    pub slug: String,
    pub title: String,
    pub name: String,
    pub office_type: String,
    pub priority: u64,
    pub subtitle: String,
    pub subtitle_short: String,
    pub chamber: Chamber,
}

pub ghost struct OfficeSeedView {
    pub slug: Seq<char>,
    pub title: Seq<char>,
    pub name: Seq<char>,
    pub office_type: Seq<char>,
    pub priority: int,
    pub subtitle: Seq<char>,
    pub subtitle_short: Seq<char>,
    pub chamber: Chamber,
}

impl OfficeSeed {
    pub open spec fn view(&self) -> OfficeSeedView {
        OfficeSeedView {
            slug: self.slug@,
            title: self.title@,
            name: self.name@,
            office_type: self.office_type@,
            priority: self.priority as int,
            subtitle: self.subtitle@,
            subtitle_short: self.subtitle_short@,
            chamber: self.chamber,
        }
    }
}

/// The House office of district `d` (from 1) of a state with `count`
/// districts.
pub open spec fn house_seed(code: Seq<char>, count: int, d: nat) -> OfficeSeedView {
    OfficeSeedView {
        slug: "us-house-"@ + lowercase(code) + "-"@ + nat_digits(d),
        title: "U.S. Representative"@,
        name: "U.S. House"@,
        office_type: "Congressional"@,
        priority: count + 1,
        subtitle: code + " - District "@ + nat_digits(d),
        subtitle_short: code + " - "@ + nat_digits(d),
        chamber: Chamber::House,
    }
}

/// Senate seat `s` (1 or 2) of a state.
pub open spec fn senate_seed(code: Seq<char>, state_name: Seq<char>, s: nat) -> OfficeSeedView {
    OfficeSeedView {
        slug: "us-senate-"@ + lowercase(code) + "-"@ + nat_digits(s),
        title: "U.S. Senator"@,
        name: "U.S. Senate"@,
        office_type: "Congressional"@,
        priority: 2,
        subtitle: state_name,
        subtitle_short: code,
        chamber: Chamber::Senate,
    }
}

/// The offices seeded for a state: one House office per district (none
/// where the state's name is not in the table), then two Senate offices.
pub open spec fn state_office_seeds(code: Seq<char>, state_name: Seq<char>) -> Seq<OfficeSeedView> {
    let house = match district_count(state_name) {
        Some(n) => Seq::new(n as nat, |j: int| house_seed(code, n as int, (j + 1) as nat)),
        None => seq![],
    };
    house + seq![senate_seed(code, state_name, 1), senate_seed(code, state_name, 2)]
}

pub open spec fn seeds_view(v: Seq<OfficeSeed>) -> Seq<OfficeSeedView> {
    v.map_values(|s: OfficeSeed| s@)
}

fn cat3(a: &Vec<char>, b: &str, c: &Vec<char>) -> (r: String)
    ensures
        r@ == a@ + b@ + c@,
{
    string_of(concat(&concat(a, &chars_of(b)), c).as_slice())
}

fn house_seed_exec(code: &Vec<char>, lower_code: &Vec<char>, count: u32, d: u64) -> (r: OfficeSeed)
    requires
        lower_code@ == lowercase(code@),
    ensures
        r@ == house_seed(code@, count as int, d as nat),
{
    let digits = u64_digits(d);
    let slug_head = concat(&chars_of("us-house-"), lower_code);
    OfficeSeed {
        slug: cat3(&slug_head, "-", &digits),
        title: String::from_str("U.S. Representative"),
        name: String::from_str("U.S. House"),
        office_type: String::from_str("Congressional"),
        priority: count as u64 + 1,
        subtitle: cat3(code, " - District ", &digits),
        subtitle_short: cat3(code, " - ", &digits),
        chamber: Chamber::House,
    }
}

fn senate_seed_exec(code: &Vec<char>, lower_code: &Vec<char>, state_name: &str, s: u64) -> (r: OfficeSeed)
    requires
        lower_code@ == lowercase(code@),
    ensures
        r@ == senate_seed(code@, state_name@, s as nat),
{
    let digits = u64_digits(s);
    let slug_head = concat(&chars_of("us-senate-"), lower_code);
    OfficeSeed {
        slug: cat3(&slug_head, "-", &digits),
        title: String::from_str("U.S. Senator"),
        name: String::from_str("U.S. Senate"),
        office_type: String::from_str("Congressional"),
        priority: 2,
        subtitle: String::from_str(state_name),
        subtitle_short: string_of(code.as_slice()),
        chamber: Chamber::Senate,
    }
}

/// The House and Senate offices to seed for the state with code
/// `state_code` and name `state_name`.
pub fn seed_offices_for_state(state_code: &str, state_name: &str) -> (r: Vec<OfficeSeed>)
    ensures
        seeds_view(r@) == state_office_seeds(state_code@, state_name@),
{
    let code = chars_of(state_code);
    let lower_code = to_lowercase(code.as_slice());
    let mut out: Vec<OfficeSeed> = Vec::new();
    let ghost house = match district_count(state_name@) {
        Some(n) => Seq::new(n as nat, |j: int| house_seed(state_code@, n as int, (j + 1) as nat)),
        None => Seq::<OfficeSeedView>::empty(),
    };
    match house_district_count(state_name) {
        Some(n) => {
            let mut j: u32 = 0;
            while j < n
                invariant
                    j <= n,
                    code@ == state_code@,
                    lower_code@ == lowercase(code@),
                    district_count(state_name@) == Some(n),
                    house == Seq::new(n as nat, |j: int| house_seed(state_code@, n as int, (j + 1) as nat)),
                    seeds_view(out@) == house.take(j as int),
                decreases n - j,
            {
                let ghost before = out@;
                let seed = house_seed_exec(&code, &lower_code, n, j as u64 + 1);
                out.push(seed);
                proof {
                    assert(seeds_view(out@) =~= seeds_view(before).push(seed@));
                    assert(house.take(j + 1) =~= house.take(j as int).push(house[j as int]));
                }
                j = j + 1;
            }
            assert(house.take(n as int) =~= house);
        },
        None => {
            assert(seeds_view(out@) =~= house);
        },
    }
    let ghost before = out@;
    let s1 = senate_seed_exec(&code, &lower_code, state_name, 1);
    let s2 = senate_seed_exec(&code, &lower_code, state_name, 2);
    out.push(s1);
    out.push(s2);
    assert(seeds_view(out@) =~= seeds_view(before) + seq![s1@, s2@]);
    out
}

/// What the primary elections of a state are called: title, slug and
/// description, from the state's full name.
pub open spec fn primary_election_text(state_full: Seq<char>) -> (Seq<char>, Seq<char>, Seq<char>) {
    (
        state_full + " Primaries 2024"@,
        lowercase(state_full) + "-primaries-2024"@,
        "Primary races in "@ + state_full + " for the upcoming general election on November 5, 2024"@,
    )
}

/// The title, slug and description of a state's 2024 primary elections.
pub fn primary_election_fields(state_full: &str) -> (r: (String, String, String))
    ensures
        (r.0@, r.1@, r.2@) == primary_election_text(state_full@),
{
    let full = chars_of(state_full);
    let title = string_of(concat(&full, &chars_of(" Primaries 2024")).as_slice());
    let slug = string_of(concat(&to_lowercase(full.as_slice()), &chars_of("-primaries-2024")).as_slice());
    let description = string_of(
        concat(
            &concat(&chars_of("Primary races in "), &full),
            &chars_of(" for the upcoming general election on November 5, 2024"),
        ).as_slice(),
    );
    (title, slug, description)
}

/// A primary race of a House office: its title, the party it is for (a
/// partisan primary) and how many advance (a top-two or top-four one).
pub struct PrimaryRacePlan {
    pub title: String,
    pub party: Option<String>,
    pub num_elect: Option<u32>,
}

pub ghost struct PrimaryRaceView {
    pub title: Seq<char>,
    pub party: Option<Seq<char>>,
    pub num_elect: Option<u32>,
}

impl PrimaryRacePlan {
    pub open spec fn view(&self) -> PrimaryRaceView {
        PrimaryRaceView {
            title: self.title@,
            party: match self.party {
                Some(p) => Some(p@),
                None => None,
            },
            num_elect: self.num_elect,
        }
    }
}

/// "U.S. House - <state> - <district> - Primary[ - <party>] - 2024".
pub open spec fn primary_race_title(state_code: Seq<char>, district: Seq<char>, party: Option<Seq<char>>) -> Seq<char> {
    "U.S. House - "@ + state_code + " - "@ + district + " - Primary"@ + match party {
        Some(p) => " - "@ + p,
        None => seq![],
    } + " - 2024"@
}

/// The primary races of the House office of district `district` of a
/// state: a Republican and a Democratic one (named by `republican` and
/// `democratic`) in a partisan state, one where four or two advance in a
/// top-four or top-two state, none where there is no primary.
pub open spec fn primary_races(
    t: PrimaryType,
    state_code: Seq<char>,
    district: Seq<char>,
    republican: Seq<char>,
    democratic: Seq<char>,
) -> Seq<PrimaryRaceView> {
    match t {
        PrimaryType::Partisan => seq![
            PrimaryRaceView { title: primary_race_title(state_code, district, Some(republican)), party: Some(republican), num_elect: None },
            PrimaryRaceView { title: primary_race_title(state_code, district, Some(democratic)), party: Some(democratic), num_elect: None },
        ],
        PrimaryType::TopFour => seq![
            PrimaryRaceView { title: primary_race_title(state_code, district, None), party: None, num_elect: Some(4) },
        ],
        PrimaryType::TopTwo => seq![
            PrimaryRaceView { title: primary_race_title(state_code, district, None), party: None, num_elect: Some(2) },
        ],
        PrimaryType::NoPrimary => seq![],
    }
}

fn race_title_exec(state_code: &str, district: &str, party: Option<&str>) -> (r: String)
    ensures
        r@ == primary_race_title(
            state_code@,
            district@,
            match party {
                Some(p) => Some(p@),
                None => None,
            },
        ),
{
    let mut t = concat(&chars_of("U.S. House - "), &chars_of(state_code));
    t = concat(&t, &chars_of(" - "));
    t = concat(&t, &chars_of(district));
    t = concat(&t, &chars_of(" - Primary"));
    if let Some(p) = party {
        t = concat(&t, &concat(&chars_of(" - "), &chars_of(p)));
    }
    t = concat(&t, &chars_of(" - 2024"));
    proof {
        assert(t@ =~= primary_race_title(
            state_code@,
            district@,
            match party {
                Some(p) => Some(p@),
                None => None,
            },
        ));
    }
    string_of(t.as_slice())
}

/// The 2024 primary races of a House office (see [`primary_races`]).
pub fn house_primary_races(
    t: PrimaryType,
    state_code: &str,
    district: &str,
    republican: &str,
    democratic: &str,
) -> (r: Vec<PrimaryRacePlan>)
    ensures
        r@.map_values(|p: PrimaryRacePlan| p@) == primary_races(t, state_code@, district@, republican@, democratic@),
{
    let mut out: Vec<PrimaryRacePlan> = Vec::new();
    match t {
        PrimaryType::Partisan => {
            out.push(PrimaryRacePlan {
                title: race_title_exec(state_code, district, Some(republican)),
                party: Some(String::from_str(republican)),
                num_elect: None,
            });
            out.push(PrimaryRacePlan {
                title: race_title_exec(state_code, district, Some(democratic)),
                party: Some(String::from_str(democratic)),
                num_elect: None,
            });
        },
        PrimaryType::TopFour => {
            out.push(PrimaryRacePlan { title: race_title_exec(state_code, district, None), party: None, num_elect: Some(4) });
        },
        PrimaryType::TopTwo => {
            out.push(PrimaryRacePlan { title: race_title_exec(state_code, district, None), party: None, num_elect: Some(2) });
        },
        PrimaryType::NoPrimary => {},
    }
    assert(out@.map_values(|p: PrimaryRacePlan| p@) =~= primary_races(t, state_code@, district@, republican@, democratic@));
    out
}

} // verus!
