//! Colorado general election candidates page: its title and the candidate
//! rows of its table.
use vstd::prelude::*;
use crate::html::{cells_view, html_nested_cells, html_texts, select_nested_cells, select_texts};
use crate::mn_ballot_measures::{election_year_of, parse_year_with, YearError};
use crate::text::{chars_of, opt_view, starts_with, starts_with_exec};

verus! {

/// The page's path under the scraper's HTML directory.
pub const HTML_PATH: &'static str = "co/sos/general_candidates.html";

/// Where the page is published.
pub const PAGE_URL: &'static str = "https://www.sos.state.co.us/pubs/elections/vote/generalCandidates.html";

/// The source id of the scraper.
pub const SOURCE_ID: &'static str = "CO-SOS";

/// Four digits followed by " General Election".
pub const GENERAL_ELECTION_YEAR_RE: &'static str = r"(\d{4}) General Election";

/// The Colorado candidates scraper.
pub struct Scraper {}

/// The title of the page and its candidates.
pub struct PageData {
    pub title: String,
    pub candidates: Vec<CandidateEntry>,
}

/// A candidate row: its position among the table's rows, name, office,
/// party and website.
pub struct CandidateEntry {
    pub index: usize,
    pub name: String,
    pub office: String,
    pub party: Option<String>,
    pub website: Option<String>,
    _write_in: Option<String>,
}

pub ghost struct EntryView {
    pub index: int,
    pub name: Seq<char>,
    pub office: Seq<char>,
    pub party: Option<Seq<char>>,
    pub write_in: Option<Seq<char>>,
    pub website: Option<Seq<char>>,
}

impl CandidateEntry {
    pub closed spec fn view(&self) -> EntryView {
        EntryView {
            index: self.index as int,
            name: self.name@,
            office: self.office@,
            party: opt_view(self.party),
            write_in: opt_view(self._write_in),
            website: opt_view(self.website),
        }
    }
}

/// Why the page could not be read.
pub enum PageError {
    TitleNotFound,
    TableNotFound,
    TableBodyNotFound,
    /// A row lacks the cell of this field.
    MissingField(&'static str),
    EmptyName,
    EmptyOffice,
}

impl PageError {
    /// The message of the error.
    pub fn message(&self) -> (r: String)
        ensures
            r@ == match self {
                PageError::TitleNotFound => "Page title not found"@,
                PageError::TableNotFound => "Candidate table not found"@,
                PageError::TableBodyNotFound => "Candidate table body not found"@,
                PageError::MissingField(label) => "Missing "@ + label@ + " field"@,
                PageError::EmptyName => "Empty name field"@,
                PageError::EmptyOffice => "Empty office field"@,
            },
    {
        match self {
            PageError::TitleNotFound => String::from_str("Page title not found"),
            PageError::TableNotFound => String::from_str("Candidate table not found"),
            PageError::TableBodyNotFound => String::from_str("Candidate table body not found"),
            PageError::MissingField(label) => {
                let t = crate::text::concat(&crate::text::concat(&chars_of("Missing "), &chars_of(label)), &chars_of(" field"));
                crate::text::string_of(t.as_slice())
            },
            PageError::EmptyName => String::from_str("Empty name field"),
            PageError::EmptyOffice => String::from_str("Empty office field"),
        }
    }
}

/// A cell's text, or none where it is empty.
pub open spec fn nonempty_cell(s: Seq<char>) -> Option<Seq<char>> {
    if s.len() == 0 {
        None
    } else {
        Some(s)
    }
}

/// The candidate of row `index` (its cells: name, office, party, write-in,
/// website): an error for a missing cell or an empty name or office, none
/// for a presidential office.
pub open spec fn entry_of(index: int, cells: Seq<Seq<char>>) -> Result<Option<EntryView>, PageError> {
    if cells.len() < 1 {
        Err(PageError::MissingField("name"))
    } else if cells[0].len() == 0 {
        Err(PageError::EmptyName)
    } else if cells.len() < 2 {
        Err(PageError::MissingField("office"))
    } else if cells[1].len() == 0 {
        Err(PageError::EmptyOffice)
    } else if cells.len() < 3 {
        Err(PageError::MissingField("party"))
    } else if cells.len() < 4 {
        Err(PageError::MissingField("write_in"))
    } else if cells.len() < 5 {
        Err(PageError::MissingField("website"))
    } else if starts_with(cells[1], "President"@) {
        Ok(None)
    } else {
        Ok(
            Some(
                EntryView {
                    index,
                    name: cells[0],
                    office: cells[1],
                    party: nonempty_cell(cells[2]),
                    write_in: nonempty_cell(cells[3]),
                    website: nonempty_cell(cells[4]),
                },
            ),
        )
    }
}

/// The candidates of the table's rows, in order; the first row's error.
pub open spec fn entries_of(rows: Seq<Seq<Seq<char>>>) -> Result<Seq<EntryView>, PageError>
    decreases rows.len(),
{
    if rows.len() == 0 {
        Ok(seq![])
    } else {
        match entries_of(rows.drop_last()) {
            Err(e) => Err(e),
            Ok(es) => match entry_of(rows.len() - 1, rows.last()) {
                Err(e) => Err(e),
                Ok(None) => Ok(es),
                Ok(Some(v)) => Ok(es.push(v)),
            },
        }
    }
}

/// The selectors from the page down to a candidate's cells.
pub const TABLE_SELECTOR: &'static str = "table.w3-cmsTable";

/// The title and candidates of a page.
pub open spec fn page_data(html: Seq<char>) -> Result<(Seq<char>, Seq<EntryView>), PageError> {
    let titles = html_texts(html, "p.pageTitle"@);
    if titles.len() == 0 {
        Err(PageError::TitleNotFound)
    } else {
        let tables = html_nested_cells(html, TABLE_SELECTOR@, "tbody"@, "tr"@, "td"@);
        if tables.len() == 0 {
            Err(PageError::TableNotFound)
        } else if tables[0].len() == 0 {
            Err(PageError::TableBodyNotFound)
        } else {
            match entries_of(tables[0][0]) {
                Err(e) => Err(e),
                Ok(es) => Ok((titles[0], es)),
            }
        }
    }
}

fn nonempty_cell_exec(s: &String) -> (r: Option<String>)
    ensures
        opt_view(r) == nonempty_cell(s@),
{
    if chars_of(s.as_str()).len() == 0 {
        None
    } else {
        Some(s.clone())
    }
}

fn entry_exec(index: usize, cells: &Vec<String>) -> (r: Result<Option<CandidateEntry>, PageError>)
    ensures
        match r {
            Ok(Some(e)) => entry_of(index as int, cells@.map_values(|s: String| s@)) == Ok::<Option<EntryView>, PageError>(Some(e@)),
            Ok(None) => entry_of(index as int, cells@.map_values(|s: String| s@)) == Ok::<Option<EntryView>, PageError>(None),
            Err(e) => entry_of(index as int, cells@.map_values(|s: String| s@)) == Err::<Option<EntryView>, PageError>(e),
        },
{
    let ghost cv = cells@.map_values(|s: String| s@);
    if cells.len() < 1 {
        return Err(PageError::MissingField("name"));
    }
    assert(cv[0] == cells@[0]@);
    if chars_of(cells[0].as_str()).len() == 0 {
        return Err(PageError::EmptyName);
    }
    if cells.len() < 2 {
        return Err(PageError::MissingField("office"));
    }
    assert(cv[1] == cells@[1]@);
    if chars_of(cells[1].as_str()).len() == 0 {
        return Err(PageError::EmptyOffice);
    }
    if cells.len() < 3 {
        return Err(PageError::MissingField("party"));
    }
    if cells.len() < 4 {
        return Err(PageError::MissingField("write_in"));
    }
    if cells.len() < 5 {
        return Err(PageError::MissingField("website"));
    }
    assert(cv[2] == cells@[2]@);
    assert(cv[3] == cells@[3]@);
    assert(cv[4] == cells@[4]@);
    if starts_with_exec(&chars_of(cells[1].as_str()), &chars_of("President")) {
        return Ok(None);
    }
    Ok(Some(CandidateEntry {
        index,
        name: cells[0].clone(),
        office: cells[1].clone(),
        party: nonempty_cell_exec(&cells[2]),
        website: nonempty_cell_exec(&cells[4]),
        _write_in: nonempty_cell_exec(&cells[3]),
    }))
}

pub open spec fn entries_view(v: Seq<CandidateEntry>) -> Seq<EntryView> {
    v.map_values(|e: CandidateEntry| e@)
}

impl Scraper {
    /// The source id of the scraper.
    pub fn source_id(&self) -> (r: &'static str)
        ensures
            r@ == SOURCE_ID@,
    {
        SOURCE_ID
    }

    /// The candidates of the table's rows (the cells' texts of each row of
    /// the first body of the candidates table), in order.
    pub fn scrape_candidate_entries(rows: &Vec<Vec<String>>) -> (r: Result<Vec<CandidateEntry>, PageError>)
        ensures
            match r {
                Ok(es) => entries_of(cells_view(rows@)) == Ok::<Seq<EntryView>, PageError>(entries_view(es@)),
                Err(e) => entries_of(cells_view(rows@)) == Err::<Seq<EntryView>, PageError>(e),
            },
    {
        let ghost rv = cells_view(rows@);
        let mut out: Vec<CandidateEntry> = Vec::new();
        let mut k: usize = 0;
        assert(rv.take(0) =~= Seq::<Seq<Seq<char>>>::empty());
        assert(entries_view(out@) =~= Seq::<EntryView>::empty());
        while k < rows.len()
            invariant
                k <= rows.len(),
                rv == cells_view(rows@),
                entries_of(rv.take(k as int)) == Ok::<Seq<EntryView>, PageError>(entries_view(out@)),
            decreases rows.len() - k,
        {
            proof {
                assert(rv.take(k + 1).drop_last() =~= rv.take(k as int));
                assert(rv.take(k + 1).last() == rows@[k as int]@.map_values(|s: String| s@));
            }
            match entry_exec(k, &rows[k]) {
                Err(e) => {
                    proof {
                        lemma_entries_error(rv, k as int);
                    }
                    return Err(e);
                },
                Ok(None) => {},
                Ok(Some(e)) => {
                    let ghost before = out@;
                    out.push(e);
                    proof {
                        assert(entries_view(out@) =~= entries_view(before).push(e@));
                    }
                },
            }
            k = k + 1;
        }
        assert(rv.take(rows.len() as int) =~= rv);
        Ok(out)
    }

    /// The title and candidates of the candidates page.
    pub fn scrape_page_data(html: &str) -> (r: Result<PageData, PageError>)
        ensures
            match r {
                Ok(d) => page_data(html@) == Ok::<(Seq<char>, Seq<EntryView>), PageError>((d.title@, entries_view(d.candidates@))),
                Err(e) => page_data(html@) == Err::<(Seq<char>, Seq<EntryView>), PageError>(e),
            },
    {
        let titles = select_texts(html, "p.pageTitle");
        if titles.len() == 0 {
            return Err(PageError::TitleNotFound);
        }
        assert(titles@.map_values(|s: String| s@)[0] == titles@[0]@);
        let tables = select_nested_cells(html, TABLE_SELECTOR, "tbody", "tr", "td");
        let ghost tv = crate::html::nested_cells_view(tables@);
        assert(tv.len() == tables@.len());
        if tables.len() == 0 {
            return Err(PageError::TableNotFound);
        }
        assert(tv[0] == tables@[0]@.map_values(|b: Vec<Vec<String>>| cells_view(b@)));
        if tables[0].len() == 0 {
            return Err(PageError::TableBodyNotFound);
        }
        let rows = &tables[0][0];
        assert(tv[0][0] == cells_view(rows@));
        let candidates = Self::scrape_candidate_entries(rows)?;
        Ok(PageData { title: titles[0].clone(), candidates })
    }

    /// The year of a "<year> General Election" title.
    pub fn parse_election_year(title: &str) -> (r: Result<u16, YearError>)
        ensures
            r == election_year_of(GENERAL_ELECTION_YEAR_RE@, title@),
    {
        parse_year_with(GENERAL_ELECTION_YEAR_RE, title)
    }
}

/// An error at row `k`, after rows without errors, is the table's error.
proof fn lemma_entries_error(rows: Seq<Seq<Seq<char>>>, k: int)
    requires
        0 <= k < rows.len(),
        entries_of(rows.take(k)) is Ok,
        entry_of(k, rows[k]) is Err,
    ensures
        entries_of(rows) == Err::<Seq<EntryView>, PageError>(entry_of(k, rows[k])->Err_0),
    decreases rows.len(),
{
    if k < rows.len() - 1 {
        assert(rows.drop_last().take(k) =~= rows.take(k));
        assert(rows.drop_last()[k] == rows[k]);
        lemma_entries_error(rows.drop_last(), k);
    } else {
        assert(rows.drop_last() =~= rows.take(k));
    }
}

} // verus!
