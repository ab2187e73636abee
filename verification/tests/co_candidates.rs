use populist_scrapers::co_candidates::{PageError, Scraper};

fn rows(cells: &[&[&str]]) -> Vec<Vec<String>> {
    cells.iter().map(|r| r.iter().map(|c| c.to_string()).collect()).collect()
}

const PAGE: &str = r#"<html><body>
<p class="pageTitle">2024 General Election Candidates</p>
<table class="w3-cmsTable"><tbody>
<tr><td>Kamala Harris</td><td>President</td><td>DEM</td><td></td><td></td></tr>
<tr><td>Jane Roe</td><td>U.S. Representative - 8</td><td>REP</td><td></td><td>janeroe.com</td></tr>
<tr><td>Sam Poe</td><td>State Senate - 12</td><td></td><td>Yes</td><td></td></tr>
</tbody></table>
</body></html>"#;

#[test]
fn page_gives_title_and_non_presidential_candidates() {
    let data = Scraper::scrape_page_data(PAGE).ok().expect("page");
    assert_eq!(data.title, "2024 General Election Candidates");
    assert_eq!(data.candidates.len(), 2);
    let jane = &data.candidates[0];
    assert_eq!(jane.index, 1);
    assert_eq!(jane.name, "Jane Roe");
    assert_eq!(jane.office, "U.S. Representative - 8");
    assert_eq!(jane.party.as_deref(), Some("REP"));
    assert_eq!(jane.website.as_deref(), Some("janeroe.com"));
    let sam = &data.candidates[1];
    assert_eq!(sam.index, 2);
    assert_eq!(sam.party, None);
    assert_eq!(sam.website, None);
    assert_eq!(Scraper::parse_election_year(&data.title).ok(), Some(2024));
    assert_eq!(Scraper {}.source_id(), "CO-SOS");
}

#[test]
fn missing_page_parts_are_errors() {
    assert!(matches!(Scraper::scrape_page_data("<p>nothing</p>"), Err(PageError::TitleNotFound)));
    let no_table = r#"<p class="pageTitle">2024 General Election</p>"#;
    assert!(matches!(Scraper::scrape_page_data(no_table), Err(PageError::TableNotFound)));
}

#[test]
fn row_errors_stop_at_the_first_bad_row() {
    let r = rows(&[&["A", "Office", "P", "", ""], &["", "Office", "P", "", ""], &["B"]]);
    assert!(matches!(Scraper::scrape_candidate_entries(&r), Err(PageError::EmptyName)));
    let r = rows(&[&["A", ""]]);
    assert!(matches!(Scraper::scrape_candidate_entries(&r), Err(PageError::EmptyOffice)));
    let r = rows(&[&["A", "Office", "P"]]);
    let e = Scraper::scrape_candidate_entries(&r).err().expect("error");
    assert!(matches!(e, PageError::MissingField("write_in")));
    assert_eq!(e.message(), "Missing write_in field");
    assert_eq!(PageError::TableBodyNotFound.message(), "Candidate table body not found");
    let r: Vec<Vec<String>> = vec![vec![]];
    assert!(matches!(Scraper::scrape_candidate_entries(&r), Err(PageError::MissingField("name"))));
}

#[test]
fn presidential_rows_are_skipped_but_keep_their_index() {
    let r = rows(&[&["P", "President of the United States", "", "", ""], &["A", "Mayor", "", "", ""]]);
    let es = Scraper::scrape_candidate_entries(&r).ok().expect("entries");
    assert_eq!(es.len(), 1);
    assert_eq!(es[0].index, 1);
}
