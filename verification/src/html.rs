//! Reading HTML documents (through `scraper`), URLs (through `url`) and
//! form-encoding query strings (through `form_urlencoded`). What the HTML
//! and URL parsers give is named by uninterpreted functions of their
//! arguments; form encoding is stated exactly.
use vstd::prelude::*;

verus! {

pub open spec fn opt_strings_view(v: Seq<Option<String>>) -> Seq<Option<Seq<char>>> {
    v.map_values(
        |o: Option<String>|
            match o {
                Some(s) => Some(s@),
                None => None,
            },
    )
}

/// The value of attribute `attr` of each element of `html` that `selector`
/// matches, in document order (empty where the selector does not parse).
pub uninterp spec fn html_attrs(html: Seq<char>, selector: Seq<char>, attr: Seq<char>) -> Seq<
    Option<Seq<char>>,
>;

/// Calls `Html::parse_document`, `Selector::parse`, `Html::select` and
/// `Element::attr`; the result is named by `html_attrs`.
#[verifier::external_body]
pub(crate) fn select_attrs(html: &str, selector: &str, attr: &str) -> (r: Vec<Option<String>>)
    ensures
        opt_strings_view(r@) == html_attrs(html@, selector@, attr@),
{
    let doc = scraper::Html::parse_document(html);
    match scraper::Selector::parse(selector) {
        Ok(sel) => doc.select(&sel).map(|el| el.value().attr(attr).map(|s| s.to_string())).collect(),
        Err(_) => Vec::new(),
    }
}

/// The inner HTML of each element that `selector` matches, in document order.
pub uninterp spec fn html_inner_htmls(html: Seq<char>, selector: Seq<char>) -> Seq<Seq<char>>;

/// Calls `Html::parse_document`, `Selector::parse`, `Html::select` and
/// `ElementRef::inner_html`; the result is named by `html_inner_htmls`.
#[verifier::external_body]
pub(crate) fn select_inner_htmls(html: &str, selector: &str) -> (r: Vec<String>)
    ensures
        r@.map_values(|s: String| s@) == html_inner_htmls(html@, selector@),
{
    let doc = scraper::Html::parse_document(html);
    match scraper::Selector::parse(selector) {
        Ok(sel) => doc.select(&sel).map(|el| el.inner_html()).collect(),
        Err(_) => Vec::new(),
    }
}

/// The text (all text nodes, concatenated) of each element that `selector`
/// matches, in document order.
pub uninterp spec fn html_texts(html: Seq<char>, selector: Seq<char>) -> Seq<Seq<char>>;

/// Calls `Html::parse_document`, `Selector::parse`, `Html::select` and
/// `ElementRef::text`; the result is named by `html_texts`.
#[verifier::external_body]
pub(crate) fn select_texts(html: &str, selector: &str) -> (r: Vec<String>)
    ensures
        r@.map_values(|s: String| s@) == html_texts(html@, selector@),
{
    let doc = scraper::Html::parse_document(html);
    match scraper::Selector::parse(selector) {
        Ok(sel) => doc.select(&sel).map(|el| el.text().collect::<String>()).collect(),
        Err(_) => Vec::new(),
    }
}

/// For each element that `selector` matches, in document order: the value
/// of its attribute `attr` and its text.
pub uninterp spec fn html_attr_texts(html: Seq<char>, selector: Seq<char>, attr: Seq<char>) -> Seq<
    (Option<Seq<char>>, Seq<char>),
>;

/// Calls `Html::parse_document`, `Selector::parse`, `Html::select`,
/// `Element::attr` and `ElementRef::text`; named by `html_attr_texts`.
#[verifier::external_body]
pub(crate) fn select_attr_texts(html: &str, selector: &str, attr: &str) -> (r: Vec<(Option<String>, String)>)
    ensures
        r@.map_values(
            |p: (Option<String>, String)|
                (
                    match p.0 {
                        Some(s) => Some(s@),
                        None => None,
                    },
                    p.1@,
                ),
        ) == html_attr_texts(html@, selector@, attr@),
{
    let doc = scraper::Html::parse_document(html);
    match scraper::Selector::parse(selector) {
        Ok(sel) => doc.select(&sel).map(|el| (el.value().attr(attr).map(|s| s.to_string()), el.text().collect::<String>())).collect(),
        Err(_) => Vec::new(),
    }
}

/// For each `outer` element, in document order, and each `inner` element
/// inside it: the texts of the `cell` elements of each of its `row`
/// elements. Empty where a selector does not parse.
pub uninterp spec fn html_nested_cells(
    html: Seq<char>,
    outer: Seq<char>,
    inner: Seq<char>,
    row: Seq<char>,
    cell: Seq<char>,
) -> Seq<Seq<Seq<Seq<Seq<char>>>>>;

pub open spec fn cells_view(rows: Seq<Vec<String>>) -> Seq<Seq<Seq<char>>> {
    rows.map_values(|r: Vec<String>| r@.map_values(|s: String| s@))
}

pub open spec fn nested_cells_view(v: Seq<Vec<Vec<Vec<String>>>>) -> Seq<Seq<Seq<Seq<Seq<char>>>>> {
    v.map_values(|o: Vec<Vec<Vec<String>>>| o@.map_values(|b: Vec<Vec<String>>| cells_view(b@)))
}

/// Calls `Html::parse_document`, `Selector::parse` and `select` from the
/// document down to the cells, and `ElementRef::text` of each cell; named
/// by `html_nested_cells`.
#[verifier::external_body]
pub(crate) fn select_nested_cells(html: &str, outer: &str, inner: &str, row: &str, cell: &str) -> (r: Vec<Vec<Vec<Vec<String>>>>)
    ensures
        nested_cells_view(r@) == html_nested_cells(html@, outer@, inner@, row@, cell@),
{
    let doc = scraper::Html::parse_document(html);
    match (scraper::Selector::parse(outer), scraper::Selector::parse(inner), scraper::Selector::parse(row), scraper::Selector::parse(cell)) {
        (Ok(o), Ok(i), Ok(r), Ok(c)) => doc.select(&o).map(|t| t.select(&i).map(|b| b.select(&r).map(|tr| tr.select(&c).map(|td| td.text().collect()).collect()).collect()).collect()).collect(),
        _ => Vec::new(),
    }
}

/// What `Url::parse` gives for a string: its serialization, host, path and
/// query, or `None` where it does not parse.
pub uninterp spec fn url_parts(s: Seq<char>) -> Option<(Seq<char>, Option<Seq<char>>, Seq<char>, Option<Seq<char>>)>;

/// The serialization, host, path and query of a parsed URL.
pub struct UrlParts {
    pub serialized: String,
    pub host: Option<String>,
    pub path: String,
    pub query: Option<String>,
}

pub open spec fn opt_str(o: Option<String>) -> Option<Seq<char>> {
    match o {
        Some(s) => Some(s@),
        None => None,
    }
}

/// Calls `Url::parse` and reads `as_str`, `host_str`, `path` and `query`;
/// named by `url_parts`.
#[verifier::external_body]
pub(crate) fn parse_url(s: &str) -> (r: Option<UrlParts>)
    ensures
        match r {
            Some(p) => url_parts(s@) == Some((p.serialized@, opt_str(p.host), p.path@, opt_str(p.query))),
            None => url_parts(s@) is None,
        },
{
    let u = url::Url::parse(s).ok()?;
    Some(UrlParts {
        serialized: u.as_str().to_string(),
        host: u.host_str().map(|h| h.to_string()),
        path: u.path().to_string(),
        query: u.query().map(|q| q.to_string()),
    })
}

/// What `Url::parse(base)` and then `Url::join(href)` give: the serialized
/// URL, or `None` where either fails.
pub uninterp spec fn joined_url(base: Seq<char>, href: Seq<char>) -> Option<Seq<char>>;

/// Calls `Url::parse` on `base` and `Url::join` with `href`; named by
/// `joined_url`.
#[verifier::external_body]
pub(crate) fn join_url(base: &str, href: &str) -> (r: Option<String>)
    ensures
        match r {
            Some(u) => joined_url(base@, href@) == Some(u@),
            None => joined_url(base@, href@) is None,
        },
{
    let b = url::Url::parse(base).ok()?;
    b.join(href).ok().map(|u| u.to_string())
}

/// The bytes that the form-urlencoded byte serializer keeps as they are.
pub open spec fn form_unreserved(b: u8) -> bool {
    b == 0x2a || b == 0x2d || b == 0x2e || b == 0x5f || (0x30 <= b && b <= 0x39) || (0x41 <= b && b <= 0x5a) || (
    0x61 <= b && b <= 0x7a)
}

pub open spec fn hex_upper(d: int) -> char {
    if d < 10 {
        ((0x30 + d) as u32) as char
    } else {
        ((0x41 + d - 10) as u32) as char
    }
}

/// What the serializer writes for one byte: the byte itself, `+` for a
/// space, or `%XX` with uppercase hex digits.
pub open spec fn form_byte(b: u8) -> Seq<char> {
    if form_unreserved(b) {
        seq![(b as u32) as char]
    } else if b == 0x20 {
        seq!['+']
    } else {
        seq!['%', hex_upper(b as int / 16), hex_upper(b as int % 16)]
    }
}

/// The `application/x-www-form-urlencoded` byte serialization of `bytes`.
pub open spec fn form_urlencode(bytes: Seq<u8>) -> Seq<char>
    decreases bytes.len(),
{
    if bytes.len() == 0 {
        seq![]
    } else {
        form_urlencode(bytes.drop_last()) + form_byte(bytes.last())
    }
}

/// Calls `form_urlencoded::byte_serialize` and collects the pieces. Its
/// source keeps `*-._`, ASCII digits and letters, writes `+` for a space
/// and `%XX` (uppercase hex) for every other byte.
#[verifier::external_body]
pub(crate) fn byte_serialize(input: &[u8]) -> (r: String)
    ensures
        r@ == form_urlencode(input@),
{
    form_urlencoded::byte_serialize(input).collect()
}

} // verus!
