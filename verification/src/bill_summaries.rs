//! Summaries of bills: where a bill's PDF is found, how much of its text
//! is sent, and the prompt that asks for the summary.
use vstd::prelude::*;
use crate::html::{html_attrs, opt_str, select_attrs};
use crate::mn_results_update::{byte_len, utf8_len, utf8_len_exec};
use crate::text::{chars_eq, chars_of, concat, string_of};

verus! {

/// The documents cell's links to a PDF on a bill's web page.
pub const BILL_PDF_LINK_SELECTOR: &'static str = "td[data-label='Documents'] a[href$='.pdf']";

/// The content type of a response that is the PDF itself.
pub const PDF_CONTENT_TYPE: &'static str = "application/pdf";

/// The chat model that writes the summaries.
pub const SUMMARY_MODEL: &'static str = "gpt-3.5-turbo-0125";

/// The system message of the summary request.
pub const SUMMARY_SYSTEM_MESSAGE: &'static str = "You are an expert at analyzing legislative text. Provide clear, concise answers based on the bill content provided.";

/// What the user message puts before the bill's text.
pub const SUMMARY_PROMPT_PREFIX: &'static str = "Summarize the following bill text clearly and concisely:\n\n";

/// The model's token budget; the text sent is cut to four bytes a token.
pub const SUMMARY_MAX_TOKENS: usize = 16385;

/// Where a bill's PDF comes from.
pub enum BillPdfSource {
    /// The PDF's URL is already stored with the bill.
    Stored(String),
    /// The full-text URL is fetched: the PDF itself, or a page that links it.
    FullText(String),
    /// The bill has neither URL and is skipped.
    Skip,
}

/// A stored PDF URL wins; else the full-text URL is fetched; a bill with
/// neither is skipped.
pub fn bill_pdf_source(pdf_url: Option<String>, full_text_url: Option<String>) -> (r: BillPdfSource)
    ensures
        match pdf_url {
            Some(u) => r == BillPdfSource::Stored(u),
            None => match full_text_url {
                Some(f) => r == BillPdfSource::FullText(f),
                None => r == BillPdfSource::Skip,
            },
        },
{
    match pdf_url {
        Some(u) => BillPdfSource::Stored(u),
        None => match full_text_url {
            Some(f) => BillPdfSource::FullText(f),
            None => BillPdfSource::Skip,
        },
    }
}

/// Whether the full-text response is taken as the PDF itself: unless it
/// names a content type other than `application/pdf`.
pub fn is_pdf_response(content_type: Option<&str>) -> (r: bool)
    ensures
        r == match content_type {
            Some(t) => t@ == PDF_CONTENT_TYPE@,
            None => true,
        },
{
    match content_type {
        Some(t) => chars_eq(&chars_of(t), &chars_of(PDF_CONTENT_TYPE)),
        None => true,
    }
}

/// The first entry of a list of attribute values, if any.
pub open spec fn first_attr(attrs: Seq<Option<Seq<char>>>) -> Option<Seq<char>> {
    if attrs.len() > 0 {
        attrs[0]
    } else {
        None
    }
}

/// The `href` of the first PDF link in the documents cell of a bill's web
/// page, or `None` where the page has no such link. The selector matches
/// only links that have an `href`.
pub fn bill_pdf_link(html: &str) -> (r: Option<String>)
    ensures
        opt_str(r) == first_attr(html_attrs(html@, BILL_PDF_LINK_SELECTOR@, "href"@)),
{
    let mut attrs = select_attrs(html, BILL_PDF_LINK_SELECTOR, "href");
    proof {
        assert(crate::html::opt_strings_view(attrs@).len() == attrs@.len());
    }
    if attrs.len() == 0 {
        None
    } else {
        let ghost before = attrs@;
        let first = attrs.remove(0);
        proof {
            assert(crate::html::opt_strings_view(before)[0] == opt_str(before[0]));
        }
        first
    }
}

/// Some prefix of `s` has exactly `n` bytes in UTF-8 (slicing `s` at byte
/// `n` does not split a character).
pub open spec fn byte_boundary(s: Seq<char>, n: int) -> bool {
    exists|k: int| 0 <= k <= s.len() && #[trigger] byte_len(s.take(k)) == n
}

/// A longer prefix has more bytes.
pub proof fn lemma_byte_len_prefix_grows(s: Seq<char>, j: int, k: int)
    requires
        0 <= j < k <= s.len(),
    ensures
        byte_len(s.take(j)) < byte_len(s.take(k)),
    decreases k - j,
{
    assert(s.take(k).drop_last() =~= s.take(k - 1));
    assert(s.take(k).last() == s[k - 1]);
    if j < k - 1 {
        lemma_byte_len_prefix_grows(s, j, k - 1);
    }
}

/// The bill text as it is sent: the whole text where it has at most
/// `4 * max_tokens` bytes, else its first `4 * max_tokens` bytes. The
/// caller makes sure that this cut does not fall inside a character.
pub fn truncated_bill_text(content: &str, max_tokens: usize) -> (r: String)
    requires
        max_tokens <= usize::MAX / 4,
        byte_len(content@) <= 4 * max_tokens || byte_boundary(content@, 4 * max_tokens),
    ensures
        byte_len(content@) <= 4 * max_tokens ==> r@ == content@,
        byte_len(content@) > 4 * max_tokens ==> r@ == content@.take(r@.len() as int) && byte_len(r@)
            == 4 * max_tokens,
{
    let limit: usize = max_tokens * 4;
    let c = chars_of(content);
    let mut i: usize = 0;
    let mut bytes: u128 = 0;
    assert(c@.take(0) =~= Seq::<char>::empty());
    while i < c.len()
        invariant_except_break
            i <= c.len(),
            bytes == byte_len(c@.take(i as int)),
            bytes <= limit,
        ensures
            i <= c.len(),
            bytes == byte_len(c@.take(i as int)),
            bytes <= limit,
            i < c.len() ==> bytes + utf8_len(c@[i as int]) > limit,
        decreases c.len() - i,
    {
        let b = utf8_len_exec(c[i]);
        if bytes + b > limit as u128 {
            break;
        }
        proof {
            assert(c@.take(i + 1).drop_last() =~= c@.take(i as int));
            assert(c@.take(i + 1).last() == c@[i as int]);
        }
        bytes = bytes + b;
        i = i + 1;
    }
    if i == c.len() {
        assert(c@.take(i as int) =~= c@);
        return String::from_str(content);
    }
    proof {
        assert(c@.take(i + 1).drop_last() =~= c@.take(i as int));
        assert(c@.take(i + 1).last() == c@[i as int]);
        assert(c@.take(c@.len() as int) =~= c@);
        if byte_len(c@) <= 4 * max_tokens {
            if i + 1 < c@.len() {
                lemma_byte_len_prefix_grows(c@, i + 1, c@.len() as int);
            }
        } else {
            let k = choose|k: int| 0 <= k <= c@.len() && #[trigger] byte_len(c@.take(k)) == 4 * max_tokens;
            if k < i {
                lemma_byte_len_prefix_grows(c@, k, i as int);
            } else if k > i + 1 {
                lemma_byte_len_prefix_grows(c@, i + 1, k);
            }
        }
    }
    let mut out: Vec<char> = Vec::new();
    let mut j: usize = 0;
    while j < i
        invariant
            j <= i < c.len(),
            out@ == c@.take(j as int),
        decreases i - j,
    {
        out.push(c[j]);
        proof {
            assert(c@.take(j + 1) =~= c@.take(j as int).push(c@[j as int]));
        }
        j = j + 1;
    }
    string_of(&out)
}

/// The user message that asks for a summary of `text`.
pub open spec fn summary_prompt_text(text: Seq<char>) -> Seq<char> {
    SUMMARY_PROMPT_PREFIX@ + text
}

/// The user message that asks for a summary of `text`.
pub fn summary_prompt(text: &str) -> (r: String)
    ensures
        r@ == summary_prompt_text(text@),
{
    let p = concat(&chars_of(SUMMARY_PROMPT_PREFIX), &chars_of(text));
    string_of(&p)
}

} // verus!
