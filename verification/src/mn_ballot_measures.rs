//! Minnesota ballot questions of the 2024 state general election: the
//! election year of the file's title, which spreadsheet rows are taken, and
//! the slug, code and scope of each ballot measure.
use vstd::prelude::*;
use crate::hart_pdf::{opt_group};
use crate::pattern::{captures, groups_view, regex_captures};
use crate::slug::{slug_text, slugify_str};
use crate::text::{
    chars_eq, chars_of, concat, decimal, i64_to_chars, lowercase, opt_view, parse_u64,
    parse_unsigned, string_of, to_lowercase,
};

verus! {

/// The spreadsheet's path under the scraper's HTML directory.
pub const FILE_PATH: &'static str = "mn/sos/ballot_measures.xlsx";

/// Where the spreadsheet is published.
pub const PAGE_URL: &'static str = "https://www.sos.mn.gov/media/6162/questions-on-2024-state-general-election-ballot.xlsx";

/// The source id of the scraper.
pub const SOURCE_ID: &'static str = "MN-SOS";

/// The title that the election year is read from.
pub const ELECTION_TITLE: &'static str = "2024 State General Election";

/// Four digits followed by " State General Election".
pub const ELECTION_YEAR_RE: &'static str = r"(\d{4}) State General Election";

/// The Minnesota ballot questions scraper.
pub struct Scraper {}

/// Why an election title gave no year.
pub enum YearError {
    /// The title is not "<year> State General Election".
    UnexpectedFormat,
    /// The title matched but held no year.
    MissingYear,
    /// The year is not a number that fits in 16 bits.
    InvalidNumber,
}

/// The year of an election title, as `u16`.
pub open spec fn election_year_of(pattern: Seq<char>, title: Seq<char>) -> Result<u16, YearError> {
    match regex_captures(pattern, title) {
        None => Err(YearError::UnexpectedFormat),
        Some(g) => match opt_group(g, 1) {
            None => Err(YearError::MissingYear),
            Some(y) => match parse_unsigned(y) {
                Some(v) => if v <= u16::MAX {
                    Ok(v as u16)
                } else {
                    Err(YearError::InvalidNumber)
                },
                None => Err(YearError::InvalidNumber),
            },
        },
    }
}

impl YearError {
    /// The message of the error.
    pub fn message(&self) -> (r: &'static str)
        ensures
            r@ == match self {
                YearError::UnexpectedFormat => "Unexpected election title format"@,
                YearError::MissingYear => "Failure extracting election year from title"@,
                YearError::InvalidNumber => "invalid digit found in string"@,
            },
    {
        match self {
            YearError::UnexpectedFormat => "Unexpected election title format",
            YearError::MissingYear => "Failure extracting election year from title",
            YearError::InvalidNumber => "invalid digit found in string",
        }
    }
}

/// The year of an election title, read with `pattern` (whose first group
/// is the year).
pub fn parse_year_with(pattern: &str, title: &str) -> (r: Result<u16, YearError>)
    ensures
        r == election_year_of(pattern@, title@),
{
    let t = chars_of(title);
    let g = match captures(pattern, t.as_slice()) {
        None => return Err(YearError::UnexpectedFormat),
        Some(g) => g,
    };
    let y = if 1 < g.len() {
        match &g[1] {
            Some(y) => y,
            None => {
                assert(groups_view(g@)[1] is None);
                return Err(YearError::MissingYear);
            },
        }
    } else {
        return Err(YearError::MissingYear);
    };
    assert(regex_captures(pattern@, title@) == Some(groups_view(g@)));
    assert(opt_group(groups_view(g@), 1) == Some(y@));
    let parsed = parse_u64(y);
    proof {
        crate::text::lemma_parse_unsigned_nonneg(y@);
    }
    match parsed {
        Some(v) => {
            if v <= 65535 {
                assert(parse_unsigned(y@) == Some(v as int));
                let r: Result<u16, YearError> = Ok(v as u16);
                assert(election_year_of(pattern@, title@) == Ok::<u16, YearError>(v as u16));
                r
            } else {
                assert(parse_unsigned(y@) == Some(v as int));
                Err(YearError::InvalidNumber)
            }
        },
        None => {
            assert(parse_unsigned(y@) is None || parse_unsigned(y@).unwrap() > u64::MAX);
            Err(YearError::InvalidNumber)
        },
    }
}

impl Scraper {
    /// The source id of the scraper.
    pub fn source_id(&self) -> (r: &'static str)
        ensures
            r@ == SOURCE_ID@,
    {
        SOURCE_ID
    }

    /// The year of a "<year> State General Election" title.
    pub fn parse_election_year(title: &str) -> (r: Result<u16, YearError>)
        ensures
            r == election_year_of(ELECTION_YEAR_RE@, title@),
    {
        parse_year_with(ELECTION_YEAR_RE, title)
    }
}

/// A row of the ballot questions spreadsheet.
pub struct BallotMeasureEntry {
    pub county_id: String,
    pub fips_code: String,
    pub school_district_code: String,
    pub ballot_question_number: String,
    pub ballot_question_title: String,
    pub ballot_question_body: String,
}

/// The scope of a ballot measure's election.
pub enum MeasureScope {
    State,
    County,
    City,
    District,
}

/// A ballot measure to upsert.
pub struct BallotMeasurePlan {
    pub slug: String,
    pub title: String,
    pub ballot_measure_code: String,
    pub description: String,
    pub county: Option<String>,
    pub school_district: Option<String>,
    pub county_fips: Option<String>,
    pub municipality_fips: Option<String>,
    pub election_scope: MeasureScope,
}

pub ghost struct MeasureView {
    pub slug: Seq<char>,
    pub title: Seq<char>,
    pub ballot_measure_code: Seq<char>,
    pub description: Seq<char>,
    pub county: Option<Seq<char>>,
    pub school_district: Option<Seq<char>>,
    pub county_fips: Option<Seq<char>>,
    pub municipality_fips: Option<Seq<char>>,
    pub election_scope: MeasureScope,
}

impl BallotMeasurePlan {
    pub open spec fn view(&self) -> MeasureView {
        MeasureView {
            slug: self.slug@,
            title: self.title@,
            ballot_measure_code: self.ballot_measure_code@,
            description: self.description@,
            county: opt_view(self.county),
            school_district: opt_view(self.school_district),
            county_fips: opt_view(self.county_fips),
            municipality_fips: opt_view(self.municipality_fips),
            election_scope: self.election_scope,
        }
    }
}

/// A row is taken when it has a question number and a title other than
/// "no data".
pub open spec fn row_taken(e: BallotMeasureEntry) -> bool {
    e.ballot_question_number@.len() > 0 && e.ballot_question_title@.len() > 0 && e.ballot_question_title@
        != "no data"@
}

/// A cell's value, or none where it says "no data".
pub open spec fn data_value(s: Seq<char>) -> Option<Seq<char>> {
    if s == "no data"@ {
        None
    } else {
        Some(s)
    }
}

/// The slug of a measure: `mn-{year}-{question number}[-{county id}]`
/// (lowercased), slugified.
pub open spec fn measure_slug(year: u16, e: BallotMeasureEntry) -> Seq<char> {
    slug_text(
        "mn-"@ + decimal(year as int) + "-"@ + lowercase(e.ballot_question_number@) + match data_value(
            e.county_id@,
        ) {
            Some(c) => "-"@ + lowercase(c),
            None => seq![],
        },
    )
}

/// The scope of a measure: the state, a county, a city or a district, by
/// which of county, municipality and school district it has.
pub open spec fn measure_scope(
    county_fips: Option<Seq<char>>,
    municipality_fips: Option<Seq<char>>,
    school_district: Option<Seq<char>>,
) -> MeasureScope {
    match (county_fips, municipality_fips, school_district) {
        (None, None, None) => MeasureScope::State,
        (Some(_), None, None) => MeasureScope::County,
        (Some(_), Some(_), None) => MeasureScope::City,
        _ => MeasureScope::District,
    }
}

/// The measure of a taken row, given the county's name and FIPS code that
/// the row's county id stands for.
pub open spec fn measure_of(
    year: u16,
    e: BallotMeasureEntry,
    county: Option<Seq<char>>,
    county_fips: Option<Seq<char>>,
) -> Option<MeasureView> {
    if !row_taken(e) {
        None
    } else {
        let school_district = data_value(e.school_district_code@);
        let municipality_fips = data_value(e.fips_code@);
        Some(
            MeasureView {
                slug: measure_slug(year, e),
                title: e.ballot_question_title@,
                ballot_measure_code: e.ballot_question_number@ + " "@ + match county {
                    Some(c) => c,
                    None => seq![],
                },
                description: e.ballot_question_body@,
                county,
                school_district,
                county_fips,
                municipality_fips,
                election_scope: measure_scope(county_fips, municipality_fips, school_district),
            },
        )
    }
}

fn data_value_exec(s: &String) -> (r: Option<String>)
    ensures
        opt_view(r) == data_value(s@),
{
    if chars_eq(&chars_of(s.as_str()), &chars_of("no data")) {
        None
    } else {
        Some(s.clone())
    }
}

/// Whether a spreadsheet row is a ballot question to take.
pub fn is_row_taken(e: &BallotMeasureEntry) -> (r: bool)
    ensures
        r == row_taken(*e),
{
    chars_of(e.ballot_question_number.as_str()).len() > 0 && chars_of(e.ballot_question_title.as_str()).len()
        > 0 && !chars_eq(&chars_of(e.ballot_question_title.as_str()), &chars_of("no data"))
}

/// The slug of a row's measure.
pub fn ballot_measure_slug(year: u16, e: &BallotMeasureEntry) -> (r: String)
    ensures
        r@ == measure_slug(year, *e),
{
    let mut t = concat(&chars_of("mn-"), &i64_to_chars(year as i64));
    t = concat(&t, &chars_of("-"));
    t = concat(&t, &to_lowercase(chars_of(e.ballot_question_number.as_str()).as_slice()));
    if !chars_eq(&chars_of(e.county_id.as_str()), &chars_of("no data")) {
        t = concat(&t, &chars_of("-"));
        t = concat(&t, &to_lowercase(chars_of(e.county_id.as_str()).as_slice()));
    }
    proof {
        assert(t@ =~= "mn-"@ + decimal(year as int) + "-"@ + lowercase(e.ballot_question_number@) + match data_value(
            e.county_id@,
        ) {
            Some(c) => "-"@ + lowercase(c),
            None => Seq::<char>::empty(),
        });
    }
    slugify_str(string_of(t.as_slice()).as_str())
}

/// The ballot measure of a spreadsheet row, given the name and FIPS code of
/// the county that its county id stands for; none for a row not taken.
pub fn ballot_measure_for_row(
    year: u16,
    e: &BallotMeasureEntry,
    county: Option<String>,
    county_fips: Option<String>,
) -> (r: Option<BallotMeasurePlan>)
    ensures
        match r {
            Some(m) => measure_of(year, *e, opt_view(county), opt_view(county_fips)) == Some(m@),
            None => measure_of(year, *e, opt_view(county), opt_view(county_fips)) is None,
        },
{
    if !is_row_taken(e) {
        return None;
    }
    let school_district = data_value_exec(&e.school_district_code);
    let municipality_fips = data_value_exec(&e.fips_code);
    let code = match &county {
        Some(c) => concat(&concat(&chars_of(e.ballot_question_number.as_str()), &chars_of(" ")), &chars_of(c.as_str())),
        None => concat(&chars_of(e.ballot_question_number.as_str()), &chars_of(" ")),
    };
    let scope = match (&county_fips, &municipality_fips, &school_district) {
        (None, None, None) => MeasureScope::State,
        (Some(_), None, None) => MeasureScope::County,
        (Some(_), Some(_), None) => MeasureScope::City,
        _ => MeasureScope::District,
    };
    Some(BallotMeasurePlan {
        slug: ballot_measure_slug(year, e),
        title: e.ballot_question_title.clone(),
        ballot_measure_code: string_of(code.as_slice()),
        description: e.ballot_question_body.clone(),
        county,
        school_district,
        county_fips,
        municipality_fips,
        election_scope: scope,
    })
}

} // verus!
