use populist_scrapers::bill_summaries::{
    bill_pdf_link, bill_pdf_source, is_pdf_response, summary_prompt,
    truncated_bill_text, BillPdfSource, SUMMARY_MAX_TOKENS,
};

#[test]
fn a_stored_pdf_url_wins_over_the_full_text_url() {
    assert!(matches!(
        bill_pdf_source(Some("a.pdf".to_string()), Some("b".to_string())),
        BillPdfSource::Stored(u) if u == "a.pdf"
    ));
    assert!(matches!(
        bill_pdf_source(None, Some("b".to_string())),
        BillPdfSource::FullText(u) if u == "b"
    ));
    assert!(matches!(bill_pdf_source(None, None), BillPdfSource::Skip));
}

#[test]
fn only_another_content_type_sends_to_the_page_search() {
    assert!(is_pdf_response(Some("application/pdf")));
    assert!(is_pdf_response(None));
    assert!(!is_pdf_response(Some("text/html; charset=utf-8")));
}

#[test]
fn the_first_pdf_link_of_the_documents_cell_is_found() {
    let html = "<table><tr><td data-label='Documents'><a href='/x.doc'>doc</a>\
<a href='/bills/hb1.pdf'>pdf</a><a href='/bills/hb1-amended.pdf'>pdf</a></td></tr></table>";
    assert_eq!(bill_pdf_link(html), Some("/bills/hb1.pdf".to_string()));
    let html = "<table><tr><td data-label='Votes'><a href='/bills/hb1.pdf'>pdf</a></td></tr></table>";
    assert_eq!(bill_pdf_link(html), None);
}

#[test]
fn bill_text_is_cut_to_four_bytes_a_token() {
    assert_eq!(truncated_bill_text("abcdef", 1), "abcd");
    assert_eq!(truncated_bill_text("abcd", 1), "abcd");
    assert_eq!(truncated_bill_text("ab", 1), "ab");
    assert_eq!(truncated_bill_text("\u{e9}\u{e9}\u{e9}", 1), "\u{e9}\u{e9}");
    let long = "x".repeat(SUMMARY_MAX_TOKENS * 4 + 10);
    assert_eq!(truncated_bill_text(&long, SUMMARY_MAX_TOKENS).len(), 65540);
}

#[test]
fn the_prompt_puts_the_request_before_the_text() {
    assert_eq!(
        summary_prompt("HB 1 text"),
        "Summarize the following bill text clearly and concisely:\n\nHB 1 text"
    );
}
