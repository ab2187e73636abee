//! Texas U.S. House candidate web scrape: which search results and pages
//! count as campaign, official or Ballotpedia sites, what a page gives
//! (social links, email, profile image, campaign website), and the
//! per-candidate decisions that lead to a staging row.
use vstd::prelude::*;
use crate::html::{
    byte_serialize, form_urlencode, html_attr_texts, html_attrs, html_inner_htmls, join_url,
    joined_url, opt_str, opt_strings_view, parse_url, select_attr_texts, select_attrs,
    select_inner_htmls, url_parts,
};
use crate::pattern::{find, regex_find};
use crate::text::{
    chars_of, concat, contains, contains_exec, lowercase, opt_view, slice_chars, starts_with,
    starts_with_exec, string_of, to_lowercase, trim, trim_exec, words, words_exec,
};

verus! {

/// The user agent of the scrape's requests.
pub const USER_AGENT: &'static str = "Mozilla/5.0 (compatible; PopulistCandidateScraper/1.0; +https://populist.us)";

/// The pause between two requests, in milliseconds.
pub const REQUEST_DELAY_MS: u64 = 2000;

/// The election whose candidates are scraped (the March 3 Texas primary).
pub const ELECTION_ID_TX_MARCH3_PRIMARY: &'static str = "0d586931-c119-4fe7-814f-f679e91282a8";

/// The DuckDuckGo HTML search URL for a query.
pub open spec fn search_url(query: &str) -> Seq<char> {
    "https://html.duckduckgo.com/html/?q="@ + form_urlencode(vstd::utf8::encode_utf8(query@))
}

/// The DuckDuckGo HTML search URL for `query`, form-encoded.
pub fn duckduckgo_search_url(query: &str) -> (r: String)
    ensures
        r@ == search_url(query),
{
    let encoded = byte_serialize(query.as_bytes());
    string_of(concat(&chars_of("https://html.duckduckgo.com/html/?q="), &chars_of(encoded.as_str())).as_slice())
}

/// A lowercased URL of a social network, Ballotpedia or a House or Senate site.
pub open spec fn excluded_site(lower: Seq<char>) -> bool {
    ||| contains(lower, "facebook.com"@)
    ||| contains(lower, "twitter.com"@)
    ||| contains(lower, "x.com"@)
    ||| contains(lower, "instagram.com"@)
    ||| contains(lower, "tiktok.com"@)
    ||| contains(lower, "youtube.com"@)
    ||| contains(lower, "linkedin.com"@)
    ||| contains(lower, "ballotpedia.org"@)
    ||| contains(lower, "house.gov"@)
    ||| contains(lower, "senate.gov"@)
}

fn holds_text(s: &Vec<char>, needle: &str) -> (r: bool)
    ensures
        r == contains(s@, needle@),
{
    contains_exec(s, &chars_of(needle))
}

fn excluded_site_exec(lower: &Vec<char>) -> (r: bool)
    ensures
        r == excluded_site(lower@),
{
    holds_text(lower, "facebook.com") || holds_text(lower, "twitter.com") || holds_text(lower, "x.com") || holds_text(lower, "instagram.com")
        || holds_text(lower, "tiktok.com") || holds_text(lower, "youtube.com") || holds_text(lower, "linkedin.com") || holds_text(
        lower,
        "ballotpedia.org",
    ) || holds_text(lower, "house.gov") || holds_text(lower, "senate.gov")
}

fn lower_of(s: &str) -> (r: Vec<char>)
    ensures
        r@ == lowercase(s@),
{
    to_lowercase(chars_of(s).as_slice())
}

/// Whether a URL is one not to fetch when looking for campaign sites.
pub fn url_fails_campaign_exclude(url: &str) -> (r: bool)
    ensures
        r == excluded_site(lowercase(url@)),
{
    excluded_site_exec(&lower_of(url))
}

/// Whether a URL looks like an official government site.
pub fn looks_like_official_site(url: &str) -> (r: bool)
    ensures
        r == (contains(lowercase(url@), "house.gov"@) || contains(lowercase(url@), "senate.gov"@)
            || contains(lowercase(url@), ".gov"@)),
{
    let lower = lower_of(url);
    holds_text(&lower, "house.gov") || holds_text(&lower, "senate.gov") || holds_text(&lower, ".gov")
}

/// Whether a URL looks like a Ballotpedia candidate page (the lowercased URL
/// is tested for "/wiki/" or "Ballotpedia").
pub fn looks_like_ballotpedia_candidate(url: &str) -> (r: bool)
    ensures
        r == (contains(lowercase(url@), "ballotpedia.org"@) && (contains(lowercase(url@), "/wiki/"@)
            || contains(lowercase(url@), "Ballotpedia"@))),
{
    let lower = lower_of(url);
    holds_text(&lower, "ballotpedia.org") && (holds_text(&lower, "/wiki/") || holds_text(&lower, "Ballotpedia"))
}

/// A name part, trimmed and lowercased, when not empty.
pub open spec fn name_part(o: Option<Seq<char>>) -> Seq<Seq<char>> {
    match o {
        Some(s) => if lowercase(trim(s)).len() > 0 {
            seq![lowercase(trim(s))]
        } else {
            seq![]
        },
        None => seq![],
    }
}

/// Some of `parts` occurs in `s`.
pub open spec fn any_part_in(s: Seq<char>, parts: Seq<Seq<char>>) -> bool {
    exists|k: int| 0 <= k < parts.len() && contains(s, #[trigger] parts[k])
}

/// Whether a URL, with the title of its page, looks like a campaign site:
/// no social, Ballotpedia or government site; and, where a name part is
/// given, the URL or title holds one of them and "congress" or "texas".
pub open spec fn campaign_site(
    url: Seq<char>,
    title: Option<Seq<char>>,
    first_name: Option<Seq<char>>,
    last_name: Option<Seq<char>>,
    preferred_name: Option<Seq<char>>,
) -> bool {
    let lower = lowercase(url);
    let combined = lower + " "@ + match title {
        Some(t) => lowercase(t),
        None => seq![],
    };
    let parts = name_part(first_name) + name_part(last_name) + name_part(preferred_name);
    &&& !excluded_site(lower)
    &&& (parts.len() == 0 || (any_part_in(combined, parts) && (contains(combined, "congress"@) || contains(
        combined,
        "texas"@,
    ))))
}

fn name_part_exec(o: Option<&str>) -> (r: Vec<Vec<char>>)
    ensures
        r@.map_values(|v: Vec<char>| v@) == name_part(
            match o {
                Some(s) => Some(s@),
                None => None,
            },
        ),
{
    let mut out: Vec<Vec<char>> = Vec::new();
    if let Some(s) = o {
        let p = to_lowercase(trim_exec(&chars_of(s)).as_slice());
        if p.len() > 0 {
            out.push(p);
            assert(out@.map_values(|v: Vec<char>| v@) =~= seq![p@]);
        }
    }
    assert(out@.len() == 0 ==> out@.map_values(|v: Vec<char>| v@) =~= Seq::<Seq<char>>::empty());
    out
}

fn any_part_in_exec(s: &Vec<char>, parts: &Vec<Vec<char>>) -> (r: bool)
    ensures
        r == any_part_in(s@, parts@.map_values(|v: Vec<char>| v@)),
{
    let ghost pv = parts@.map_values(|v: Vec<char>| v@);
    let mut k: usize = 0;
    while k < parts.len()
        invariant
            k <= parts.len(),
            pv == parts@.map_values(|v: Vec<char>| v@),
            forall|j: int| 0 <= j < k ==> !contains(s@, #[trigger] pv[j]),
        decreases parts.len() - k,
    {
        assert(pv[k as int] == parts@[k as int]@);
        if contains_exec(s, &parts[k]) {
            return true;
        }
        k = k + 1;
    }
    false
}

fn append_parts(a: &mut Vec<Vec<char>>, b: Vec<Vec<char>>)
    ensures
        final(a)@.map_values(|v: Vec<char>| v@) == old(a)@.map_values(|v: Vec<char>| v@) + b@.map_values(
            |v: Vec<char>| v@,
        ),
{
    let mut k: usize = 0;
    while k < b.len()
        invariant
            k <= b.len(),
            a@.map_values(|v: Vec<char>| v@) == old(a)@.map_values(|v: Vec<char>| v@) + b@.map_values(
                |v: Vec<char>| v@,
            ).take(k as int),
        decreases b.len() - k,
    {
        let ghost before = a@;
        let x = b[k].clone();
        a.push(x);
        proof {
            assert(a@.map_values(|v: Vec<char>| v@) =~= before.map_values(|v: Vec<char>| v@).push(x@));
            assert(b@.map_values(|v: Vec<char>| v@).take(k + 1) =~= b@.map_values(|v: Vec<char>| v@).take(
                k as int,
            ).push(b@[k as int]@));
        }
        k = k + 1;
    }
    assert(b@.map_values(|v: Vec<char>| v@).take(b.len() as int) =~= b@.map_values(|v: Vec<char>| v@));
}

/// Whether a URL (and the title of its page) looks like a campaign site.
pub fn looks_like_campaign_site(
    url: &str,
    title: Option<&str>,
    first_name: Option<&str>,
    last_name: Option<&str>,
    preferred_name: Option<&str>,
) -> (r: bool)
    ensures
        r == campaign_site(
            url@,
            match title {
                Some(t) => Some(t@),
                None => None,
            },
            match first_name {
                Some(t) => Some(t@),
                None => None,
            },
            match last_name {
                Some(t) => Some(t@),
                None => None,
            },
            match preferred_name {
                Some(t) => Some(t@),
                None => None,
            },
        ),
{
    let lower = lower_of(url);
    if excluded_site_exec(&lower) {
        return false;
    }
    let title_lower = match title {
        Some(t) => lower_of(t),
        None => Vec::new(),
    };
    let combined = concat(&concat(&lower, &chars_of(" ")), &title_lower);
    let mut parts = name_part_exec(first_name);
    append_parts(&mut parts, name_part_exec(last_name));
    append_parts(&mut parts, name_part_exec(preferred_name));
    if parts.len() > 0 {
        let has_name = any_part_in_exec(&combined, &parts);
        let has_keyword = holds_text(&combined, "congress") || holds_text(&combined, "texas");
        if !has_name || !has_keyword {
            return false;
        }
    }
    true
}

/// The first of `s` that `p` holds of.
pub open spec fn first_where(s: Seq<Seq<char>>, p: spec_fn(Seq<char>) -> bool) -> Option<Seq<char>>
    decreases s.len(),
{
    if s.len() == 0 {
        None
    } else {
        match first_where(s.drop_last(), p) {
            Some(x) => Some(x),
            None => if p(s.last()) {
                Some(s.last())
            } else {
                None
            },
        }
    }
}

proof fn lemma_first_where_found(s: Seq<Seq<char>>, p: spec_fn(Seq<char>) -> bool, i: int)
    requires
        0 <= i < s.len(),
        first_where(s.take(i), p) is None,
        p(s[i]),
    ensures
        first_where(s, p) == Some(s[i]),
    decreases s.len(),
{
    if i < s.len() - 1 {
        assert(s.drop_last().take(i) == s.take(i));
        assert(s.drop_last()[i] == s[i]);
        lemma_first_where_found(s.drop_last(), p, i);
    } else {
        assert(s.drop_last() == s.take(i));
    }
}

/// The URLs of search result links: for each href that parses as a URL
/// whose host is not empty and not DuckDuckGo's, its serialization.
pub open spec fn result_urls(hrefs: Seq<Option<Seq<char>>>) -> Seq<Seq<char>>
    decreases hrefs.len(),
{
    if hrefs.len() == 0 {
        seq![]
    } else {
        let prev = result_urls(hrefs.drop_last());
        match hrefs.last() {
            Some(h) => match url_parts(h) {
                Some((ser, host, _, _)) => {
                    let host_text = match host {
                        Some(t) => t,
                        None => seq![],
                    };
                    if !contains(host_text, "duckduckgo"@) && host_text.len() > 0 {
                        prev.push(ser)
                    } else {
                        prev
                    }
                },
                None => prev,
            },
            None => prev,
        }
    }
}

/// The result URLs of a DuckDuckGo HTML results page: those of the
/// `a.result__a` links, or where there are none those of `a.result__url`.
pub open spec fn search_results(html: Seq<char>) -> Seq<Seq<char>> {
    let main = result_urls(html_attrs(html, "a.result__a"@, "href"@));
    if main.len() == 0 {
        result_urls(html_attrs(html, "a.result__url"@, "href"@))
    } else {
        main
    }
}

fn result_urls_exec(html: &str, selector: &str) -> (r: Vec<String>)
    ensures
        r@.map_values(|s: String| s@) == result_urls(html_attrs(html@, selector@, "href"@)),
{
    let hrefs = select_attrs(html, selector, "href");
    let ghost hv = opt_strings_view(hrefs@);
    let mut out: Vec<String> = Vec::new();
    let mut k: usize = 0;
    assert(hv.take(0) == Seq::<Option<Seq<char>>>::empty());
    assert(out@.map_values(|s: String| s@) =~= Seq::<Seq<char>>::empty());
    while k < hrefs.len()
        invariant
            k <= hrefs.len(),
            hv == opt_strings_view(hrefs@),
            out@.map_values(|s: String| s@) == result_urls(hv.take(k as int)),
        decreases hrefs.len() - k,
    {
        proof {
            assert(hv.take(k + 1).drop_last() =~= hv.take(k as int));
            assert(hv.take(k + 1).last() == hv[k as int]);
        }
        if let Some(h) = &hrefs[k] {
            if let Some(u) = parse_url(h.as_str()) {
                let host = match &u.host {
                    Some(t) => chars_of(t.as_str()),
                    None => Vec::new(),
                };
                if !holds_text(&host, "duckduckgo") && host.len() > 0 {
                    let ghost before = out@;
                    let ser = u.serialized;
                    out.push(ser);
                    proof {
                        assert(out@.map_values(|s: String| s@) =~= before.map_values(|s: String| s@).push(ser@));
                    }
                }
            }
        }
        k = k + 1;
    }
    assert(hv.take(hrefs.len() as int) =~= hv);
    out
}

/// The result URLs of a DuckDuckGo HTML results page, in page order.
pub fn parse_duckduckgo_results(html: &str) -> (r: Vec<String>)
    ensures
        r@.map_values(|s: String| s@) == search_results(html@),
{
    let main = result_urls_exec(html, "a.result__a");
    if main.len() == 0 {
        result_urls_exec(html, "a.result__url")
    } else {
        main
    }
}

/// Which test a search result has to pass.
pub enum ResultFilter {
    OfficialSite,
    BallotpediaCandidate,
}

pub open spec fn passes_filter(f: ResultFilter, url: Seq<char>) -> bool {
    let lower = lowercase(url);
    match f {
        ResultFilter::OfficialSite => contains(lower, "house.gov"@) || contains(lower, "senate.gov"@)
            || contains(lower, ".gov"@),
        ResultFilter::BallotpediaCandidate => contains(lower, "ballotpedia.org"@) && (contains(
            lower,
            "/wiki/"@,
        ) || contains(lower, "Ballotpedia"@)),
    }
}

/// The test of a filter, as a predicate.
pub open spec fn filter_pred(f: ResultFilter) -> spec_fn(Seq<char>) -> bool {
    |u: Seq<char>| passes_filter(f, u)
}

/// The first result of a results page that passes the filter.
pub fn first_search_result(html: &str, filter: ResultFilter) -> (r: Option<String>)
    ensures
        opt_view(r) == first_where(search_results(html@), filter_pred(filter)),
{
    let results = parse_duckduckgo_results(html);
    let ghost rv = results@.map_values(|s: String| s@);
    let ghost p = filter_pred(filter);
    let mut k: usize = 0;
    assert(rv.take(0) =~= Seq::<Seq<char>>::empty());
    while k < results.len()
        invariant
            k <= results.len(),
            rv == results@.map_values(|s: String| s@),
            p == filter_pred(filter),
            rv == search_results(html@),
            first_where(rv.take(k as int), p) is None,
        decreases results.len() - k,
    {
        proof {
            assert(rv.take(k + 1).drop_last() =~= rv.take(k as int));
            assert(rv.take(k + 1).last() == rv[k as int]);
        }
        let u = results[k].as_str();
        let ok = match filter {
            ResultFilter::OfficialSite => looks_like_official_site(u),
            ResultFilter::BallotpediaCandidate => looks_like_ballotpedia_candidate(u),
        };
        if ok {
            proof {
                assert(rv[k as int] == results@[k as int]@);
                assert(passes_filter(filter, rv[k as int]));
                assert(p(rv[k as int]));
                lemma_first_where_found(rv, p, k as int);
            }
            let found = results[k].clone();
            assert(found@ == rv[k as int]);
            return Some(found);
        }
        k = k + 1;
    }
    assert(rv.take(results.len() as int) =~= rv);
    None
}

/// The results worth fetching when looking for a campaign site: those that
/// are no social, Ballotpedia or government site, in page order.
pub open spec fn campaign_candidates(results: Seq<Seq<char>>) -> Seq<Seq<char>>
    decreases results.len(),
{
    if results.len() == 0 {
        seq![]
    } else if excluded_site(lowercase(results.last())) {
        campaign_candidates(results.drop_last())
    } else {
        campaign_candidates(results.drop_last()).push(results.last())
    }
}

/// The result URLs of a results page to fetch when looking for a campaign
/// site, in page order.
pub fn campaign_site_candidates(html: &str) -> (r: Vec<String>)
    ensures
        r@.map_values(|s: String| s@) == campaign_candidates(search_results(html@)),
{
    let results = parse_duckduckgo_results(html);
    let ghost rv = results@.map_values(|s: String| s@);
    let mut out: Vec<String> = Vec::new();
    let mut k: usize = 0;
    assert(rv.take(0) =~= Seq::<Seq<char>>::empty());
    assert(out@.map_values(|s: String| s@) =~= Seq::<Seq<char>>::empty());
    while k < results.len()
        invariant
            k <= results.len(),
            rv == results@.map_values(|s: String| s@),
            out@.map_values(|s: String| s@) == campaign_candidates(rv.take(k as int)),
        decreases results.len() - k,
    {
        proof {
            assert(rv.take(k + 1).drop_last() =~= rv.take(k as int));
            assert(rv.take(k + 1).last() == rv[k as int]);
        }
        if !url_fails_campaign_exclude(results[k].as_str()) {
            let ghost before = out@;
            let u = results[k].clone();
            out.push(u);
            proof {
                assert(out@.map_values(|s: String| s@) =~= before.map_values(|s: String| s@).push(u@));
            }
        }
        k = k + 1;
    }
    assert(rv.take(results.len() as int) =~= rv);
    out
}

/// The title of a page: the inner HTML of its first `title` element, trimmed.
pub open spec fn page_title(html: Seq<char>) -> Option<Seq<char>> {
    let ts = html_inner_htmls(html, "title"@);
    if ts.len() > 0 {
        Some(trim(ts[0]))
    } else {
        None
    }
}

/// The title of a page, if it has one.
pub fn extract_page_title(html: &str) -> (r: Option<String>)
    ensures
        opt_view(r) == page_title(html@),
{
    let ts = select_inner_htmls(html, "title");
    if ts.len() > 0 {
        assert(ts@.map_values(|s: String| s@)[0] == ts@[0]@);
        Some(string_of(trim_exec(&chars_of(ts[0].as_str())).as_slice()))
    } else {
        None
    }
}

/// Whether a fetched search result is a campaign site: its URL and page
/// title pass [`looks_like_campaign_site`] with the candidate's names.
pub fn is_campaign_page(
    url: &str,
    page_html: &str,
    first_name: &str,
    last_name: &str,
    preferred_name: Option<&str>,
) -> (r: bool)
    ensures
        r == campaign_site(
            url@,
            page_title(page_html@),
            Some(first_name@),
            Some(last_name@),
            match preferred_name {
                Some(t) => Some(t@),
                None => None,
            },
        ),
{
    let title = extract_page_title(page_html);
    let t = match &title {
        Some(s) => Some(s.as_str()),
        None => None,
    };
    looks_like_campaign_site(url, t, Some(first_name), Some(last_name), preferred_name)
}


/// A social profile URL reduced to `https://` + host + path (unless it is
/// "/" or empty) + `?` and the query, if any; the URL itself where it does
/// not parse.
pub open spec fn normalized_social_url(url: Seq<char>) -> Seq<char> {
    match url_parts(url) {
        None => url,
        Some((_, host, path, query)) => "https://"@ + (match host {
            Some(h) => h,
            None => seq![],
        }) + (if path != "/"@ && path.len() > 0 {
            path
        } else {
            seq![]
        }) + (match query {
            Some(q) => "?"@ + q,
            None => seq![],
        }),
    }
}

/// The social profile URL `url`, normalized.
pub fn normalize_social_url(url: &str) -> (r: String)
    ensures
        r@ == normalized_social_url(url@),
{
    match parse_url(url) {
        None => String::from_str(url),
        Some(u) => {
            let mut s = chars_of("https://");
            if let Some(h) = &u.host {
                s = concat(&s, &chars_of(h.as_str()));
            }
            let p = chars_of(u.path.as_str());
            let slash = chars_of("/");
            if !crate::text::chars_eq(&p, &slash) && p.len() > 0 {
                s = concat(&s, &p);
            }
            if let Some(q) = &u.query {
                s = concat(&concat(&s, &chars_of("?")), &chars_of(q.as_str()));
            }
            proof {
                assert(s@ =~= normalized_social_url(url@));
            }
            string_of(s.as_slice())
        },
    }
}

/// The base against which a page's links are resolved: its own URL, or
/// `https://example.com` where that does not parse.
pub open spec fn base_for(base_url: Seq<char>) -> Seq<char> {
    if url_parts(base_url) is Some {
        base_url
    } else {
        "https://example.com"@
    }
}

fn base_for_exec(base_url: &str) -> (r: String)
    ensures
        r@ == base_for(base_url@),
{
    match parse_url(base_url) {
        Some(_) => String::from_str(base_url),
        None => String::from_str("https://example.com"),
    }
}

/// A link resolved against the base, or the link itself where it does not
/// resolve.
pub open spec fn resolved(base: Seq<char>, href: Seq<char>) -> Seq<char> {
    match joined_url(base, href) {
        Some(u) => u,
        None => href,
    }
}

fn resolved_exec(base: &String, href: &Vec<char>) -> (r: Vec<char>)
    ensures
        r@ == resolved(base@, href@),
{
    let h = string_of(href.as_slice());
    match join_url(base.as_str(), h.as_str()) {
        Some(u) => chars_of(u.as_str()),
        None => href.clone(),
    }
}

/// The first social links and email address found among a page's links.
pub ghost struct LinkScan {
    pub facebook: Option<Seq<char>>,
    pub twitter: Option<Seq<char>>,
    pub instagram: Option<Seq<char>>,
    pub tiktok: Option<Seq<char>>,
    pub youtube: Option<Seq<char>>,
    pub linkedin: Option<Seq<char>>,
    pub email: Option<Seq<char>>,
}

/// The address of a `mailto:` link: the first word after the prefix.
pub open spec fn mailto_address(href: Seq<char>) -> Seq<char> {
    let rest = if starts_with(href, "mailto:"@) {
        href.subrange(7, href.len() as int)
    } else {
        href
    };
    let w = words(rest);
    if w.len() > 0 {
        w[0]
    } else {
        seq![]
    }
}

/// What one link of a page adds: the first email address of a `mailto:`
/// link, and the first link of each social network (normalized).
pub open spec fn link_step(st: LinkScan, base: Seq<char>, raw: Option<Seq<char>>) -> LinkScan {
    match raw {
        None => st,
        Some(r) => {
            let href = trim(r);
            if href.len() == 0 {
                st
            } else {
                let full = resolved(base, href);
                let lower = lowercase(full);
                let n = Some(normalized_social_url(full));
                if contains(lower, "mailto:"@) {
                    let addr = mailto_address(href);
                    if addr.len() > 0 && contains(addr, "@"@) && st.email is None {
                        LinkScan { email: Some(addr), ..st }
                    } else {
                        st
                    }
                } else if contains(lower, "facebook.com"@) {
                    if st.facebook is None { LinkScan { facebook: n, ..st } } else { st }
                } else if contains(lower, "twitter.com"@) || contains(lower, "x.com"@) {
                    if st.twitter is None { LinkScan { twitter: n, ..st } } else { st }
                } else if contains(lower, "instagram.com"@) {
                    if st.instagram is None { LinkScan { instagram: n, ..st } } else { st }
                } else if contains(lower, "tiktok.com"@) {
                    if st.tiktok is None { LinkScan { tiktok: n, ..st } } else { st }
                } else if contains(lower, "youtube.com"@) {
                    if st.youtube is None { LinkScan { youtube: n, ..st } } else { st }
                } else if contains(lower, "linkedin.com"@) {
                    if st.linkedin is None { LinkScan { linkedin: n, ..st } } else { st }
                } else {
                    st
                }
            }
        },
    }
}

pub open spec fn no_links() -> LinkScan {
    LinkScan {
        facebook: None,
        twitter: None,
        instagram: None,
        tiktok: None,
        youtube: None,
        linkedin: None,
        email: None,
    }
}

pub open spec fn link_scan(hrefs: Seq<Option<Seq<char>>>, base: Seq<char>) -> LinkScan
    decreases hrefs.len(),
{
    if hrefs.len() == 0 {
        no_links()
    } else {
        link_step(link_scan(hrefs.drop_last(), base), base, hrefs.last())
    }
}

/// An email address anywhere in a page.
pub const EMAIL_RE: &'static str = r"[A-Za-z0-9._%+-]+@[A-Za-z0-9.-]+\.[A-Za-z]{2,}";

pub open spec fn social_entry(name: Seq<char>, v: Option<Seq<char>>) -> Seq<(Seq<char>, Seq<char>)> {
    match v {
        Some(u) => seq![(name, u)],
        None => seq![],
    }
}

/// The social links of a page, as (column, URL) pairs, and its email
/// address: that of the first `mailto:` link, or else the first address in
/// the page's text.
pub open spec fn social_and_email(html: Seq<char>, base_url: Seq<char>) -> (
    Seq<(Seq<char>, Seq<char>)>,
    Option<Seq<char>>,
) {
    let st = link_scan(html_attrs(html, "a[href]"@, "href"@), base_for(base_url));
    let email = match st.email {
        Some(e) => Some(e),
        None => match regex_find(EMAIL_RE@, html) {
            Some((a, b)) => Some(html.subrange(a, b)),
            None => None,
        },
    };
    (
        social_entry("facebook_url"@, st.facebook) + social_entry("twitter_url"@, st.twitter)
            + social_entry("instagram_url"@, st.instagram) + social_entry("tiktok_url"@, st.tiktok)
            + social_entry("youtube_url"@, st.youtube) + social_entry("linkedin_url"@, st.linkedin),
        email,
    )
}

struct LinkScanExec {
    facebook: Option<String>,
    twitter: Option<String>,
    instagram: Option<String>,
    tiktok: Option<String>,
    youtube: Option<String>,
    linkedin: Option<String>,
    email: Option<String>,
}

impl LinkScanExec {
    spec fn view(&self) -> LinkScan {
        LinkScan {
            facebook: opt_view(self.facebook),
            twitter: opt_view(self.twitter),
            instagram: opt_view(self.instagram),
            tiktok: opt_view(self.tiktok),
            youtube: opt_view(self.youtube),
            linkedin: opt_view(self.linkedin),
            email: opt_view(self.email),
        }
    }
}

fn mailto_address_exec(href: &Vec<char>) -> (r: Vec<char>)
    ensures
        r@ == mailto_address(href@),
{
    let prefix = chars_of("mailto:");
    let rest = if starts_with_exec(href, &prefix) {
        proof {
            reveal_strlit("mailto:");
        }
        slice_chars(href, 7, href.len())
    } else {
        href.clone()
    };
    let w = words_exec(&rest);
    if w.len() > 0 {
        w[0].clone()
    } else {
        Vec::new()
    }
}

fn link_step_exec(st: &mut LinkScanExec, base: &String, raw: &Option<String>)
    ensures
        final(st)@ == link_step(old(st)@, base@, opt_view(*raw)),
{
    let r = match raw {
        Some(r) => r,
        None => return,
    };
    let href = trim_exec(&chars_of(r.as_str()));
    if href.len() == 0 {
        return;
    }
    let full = resolved_exec(base, &href);
    let lower = to_lowercase(full.as_slice());
    let full_s = string_of(full.as_slice());
    if holds_text(&lower, "mailto:") {
        let addr = mailto_address_exec(&href);
        if addr.len() > 0 && holds_text(&addr, "@") && st.email.is_none() {
            st.email = Some(string_of(addr.as_slice()));
        }
    } else if holds_text(&lower, "facebook.com") {
        if st.facebook.is_none() {
            st.facebook = Some(normalize_social_url(full_s.as_str()));
        }
    } else if holds_text(&lower, "twitter.com") || holds_text(&lower, "x.com") {
        if st.twitter.is_none() {
            st.twitter = Some(normalize_social_url(full_s.as_str()));
        }
    } else if holds_text(&lower, "instagram.com") {
        if st.instagram.is_none() {
            st.instagram = Some(normalize_social_url(full_s.as_str()));
        }
    } else if holds_text(&lower, "tiktok.com") {
        if st.tiktok.is_none() {
            st.tiktok = Some(normalize_social_url(full_s.as_str()));
        }
    } else if holds_text(&lower, "youtube.com") {
        if st.youtube.is_none() {
            st.youtube = Some(normalize_social_url(full_s.as_str()));
        }
    } else if holds_text(&lower, "linkedin.com") {
        if st.linkedin.is_none() {
            st.linkedin = Some(normalize_social_url(full_s.as_str()));
        }
    }
}

fn push_social(out: &mut Vec<(String, String)>, name: &str, v: Option<String>)
    ensures
        final(out)@.map_values(|p: (String, String)| (p.0@, p.1@)) == old(out)@.map_values(
            |p: (String, String)| (p.0@, p.1@),
        ) + social_entry(name@, opt_view(v)),
{
    let ghost before = out@;
    match v {
        Some(u) => {
            let n = String::from_str(name);
            out.push((n, u));
            proof {
                assert(out@.map_values(|p: (String, String)| (p.0@, p.1@)) =~= before.map_values(
                    |p: (String, String)| (p.0@, p.1@),
                ) + social_entry(name@, opt_view(v)));
            }
        },
        None => {
            assert(before.map_values(|p: (String, String)| (p.0@, p.1@)) + social_entry(name@, None) =~= before.map_values(
                |p: (String, String)| (p.0@, p.1@),
            ));
        },
    }
}

/// The social links (as column and URL) and the email address of a page.
pub fn extract_social_and_email(html: &str, base_url: &str) -> (r: (Vec<(String, String)>, Option<String>))
    ensures
        (r.0@.map_values(|p: (String, String)| (p.0@, p.1@)), opt_view(r.1)) == social_and_email(html@, base_url@),
{
    let base = base_for_exec(base_url);
    let hrefs = select_attrs(html, "a[href]", "href");
    let ghost hv = opt_strings_view(hrefs@);
    let mut st = LinkScanExec {
        facebook: None,
        twitter: None,
        instagram: None,
        tiktok: None,
        youtube: None,
        linkedin: None,
        email: None,
    };
    let mut k: usize = 0;
    assert(hv.take(0) =~= Seq::<Option<Seq<char>>>::empty());
    while k < hrefs.len()
        invariant
            k <= hrefs.len(),
            hv == opt_strings_view(hrefs@),
            st@ == link_scan(hv.take(k as int), base@),
        decreases hrefs.len() - k,
    {
        proof {
            assert(hv.take(k + 1).drop_last() =~= hv.take(k as int));
            assert(hv.take(k + 1).last() == opt_view(hrefs@[k as int]));
        }
        link_step_exec(&mut st, &base, &hrefs[k]);
        k = k + 1;
    }
    assert(hv.take(hrefs.len() as int) =~= hv);
    let email = match st.email {
        Some(e) => Some(e),
        None => {
            let text = chars_of(html);
            match find(EMAIL_RE, text.as_slice()) {
                Some((a, b)) => Some(string_of(slice_chars(&text, a, b).as_slice())),
                None => None,
            }
        },
    };
    let mut social: Vec<(String, String)> = Vec::new();
    assert(social@.map_values(|p: (String, String)| (p.0@, p.1@)) =~= Seq::<(Seq<char>, Seq<char>)>::empty());
    push_social(&mut social, "facebook_url", st.facebook);
    push_social(&mut social, "twitter_url", st.twitter);
    push_social(&mut social, "instagram_url", st.instagram);
    push_social(&mut social, "tiktok_url", st.tiktok);
    push_social(&mut social, "youtube_url", st.youtube);
    push_social(&mut social, "linkedin_url", st.linkedin);
    (social, email)
}


/// Looking through a page's elements in order: `None` while undecided,
/// `Some(answer)` once decided.
pub open spec fn decide_first(
    items: Seq<Option<Seq<char>>>,
    step: spec_fn(Option<Seq<char>>) -> Option<Option<Seq<char>>>,
) -> Option<Option<Seq<char>>>
    decreases items.len(),
{
    if items.len() == 0 {
        None
    } else {
        match decide_first(items.drop_last(), step) {
            Some(d) => Some(d),
            None => step(items.last()),
        }
    }
}

proof fn lemma_decide_first_found(
    items: Seq<Option<Seq<char>>>,
    step: spec_fn(Option<Seq<char>>) -> Option<Option<Seq<char>>>,
    i: int,
)
    requires
        0 <= i < items.len(),
        decide_first(items.take(i), step) is None,
        step(items[i]) is Some,
    ensures
        decide_first(items, step) == step(items[i]),
    decreases items.len(),
{
    if i < items.len() - 1 {
        assert(items.drop_last().take(i) == items.take(i));
        assert(items.drop_last()[i] == items[i]);
        lemma_decide_first_found(items.drop_last(), step, i);
    } else {
        assert(items.drop_last() == items.take(i));
    }
}

/// An `og:image` content attribute, resolved: taken where not empty.
pub open spec fn og_image_step(base: Seq<char>) -> spec_fn(Option<Seq<char>>) -> Option<Option<Seq<char>>> {
    |c: Option<Seq<char>>|
        match c {
            Some(t) => {
                let full = match joined_url(base, trim(t)) {
                    Some(u) => u,
                    None => t,
                };
                if full.len() > 0 {
                    Some(Some(full))
                } else {
                    None
                }
            },
            None => None,
        }
}

/// An `img` src attribute: skipped when it names a logo, icon, button or
/// sprite, else resolved and taken where not empty.
pub open spec fn img_step(base: Seq<char>) -> spec_fn(Option<Seq<char>>) -> Option<Option<Seq<char>>> {
    |o: Option<Seq<char>>|
        {
            let src = match o {
                Some(t) => t,
                None => seq![],
            };
            let lower = lowercase(src);
            if contains(lower, "logo"@) || contains(lower, "icon"@) || contains(lower, "button"@)
                || contains(lower, "sprite"@) {
                None
            } else {
                let full = match joined_url(base, trim(src)) {
                    Some(u) => u,
                    None => src,
                };
                if full.len() > 0 {
                    Some(Some(full))
                } else {
                    None
                }
            }
        }
}

/// The meta selector of a page's Open Graph image.
pub const OG_IMAGE_SELECTOR: &'static str = r#"meta[property="og:image"]"#;

/// A page's profile image: its Open Graph image, or else its first image
/// that is no logo, icon, button or sprite.
pub open spec fn profile_image(html: Seq<char>, base_url: Seq<char>) -> Option<Seq<char>> {
    let base = base_for(base_url);
    match decide_first(html_attrs(html, OG_IMAGE_SELECTOR@, "content"@), og_image_step(base)) {
        Some(d) => d,
        None => match decide_first(html_attrs(html, "img[src]"@, "src"@), img_step(base)) {
            Some(d) => d,
            None => None,
        },
    }
}

fn og_image_exec(html: &str, base: &String) -> (r: Option<Option<String>>)
    ensures
        match r {
            Some(d) => decide_first(html_attrs(html@, OG_IMAGE_SELECTOR@, "content"@), og_image_step(base@)) == Some(opt_view(d)),
            None => decide_first(html_attrs(html@, OG_IMAGE_SELECTOR@, "content"@), og_image_step(base@)) is None,
        },
{
    let items = select_attrs(html, OG_IMAGE_SELECTOR, "content");
    let ghost iv = opt_strings_view(items@);
    let ghost step = og_image_step(base@);
    let mut k: usize = 0;
    assert(iv.take(0) =~= Seq::<Option<Seq<char>>>::empty());
    while k < items.len()
        invariant
            k <= items.len(),
            iv == opt_strings_view(items@),
            iv == html_attrs(html@, OG_IMAGE_SELECTOR@, "content"@),
            step == og_image_step(base@),
            decide_first(iv.take(k as int), step) is None,
        decreases items.len() - k,
    {
        proof {
            assert(iv.take(k + 1).drop_last() =~= iv.take(k as int));
            assert(iv.take(k + 1).last() == iv[k as int]);
            assert(iv[k as int] == opt_view(items@[k as int]));
        }
        if let Some(c) = &items[k] {
            let t = chars_of(c.as_str());
            let tt = trim_exec(&t);
            let tts = string_of(tt.as_slice());
            let full = match join_url(base.as_str(), tts.as_str()) {
                Some(u) => chars_of(u.as_str()),
                None => t,
            };
            if full.len() > 0 {
                proof {
                    lemma_decide_first_found(iv, step, k as int);
                }
                return Some(Some(string_of(full.as_slice())));
            }
        }
        k = k + 1;
    }
    assert(iv.take(items.len() as int) =~= iv);
    None
}


fn img_image_exec(html: &str, base: &String) -> (r: Option<Option<String>>)
    ensures
        match r {
            Some(d) => decide_first(html_attrs(html@, "img[src]"@, "src"@), img_step(base@)) == Some(opt_view(d)),
            None => decide_first(html_attrs(html@, "img[src]"@, "src"@), img_step(base@)) is None,
        },
{
    let items = select_attrs(html, "img[src]", "src");
    let ghost iv = opt_strings_view(items@);
    let ghost step = img_step(base@);
    let mut k: usize = 0;
    assert(iv.take(0) =~= Seq::<Option<Seq<char>>>::empty());
    while k < items.len()
        invariant
            k <= items.len(),
            iv == opt_strings_view(items@),
            iv == html_attrs(html@, "img[src]"@, "src"@),
            step == img_step(base@),
            decide_first(iv.take(k as int), step) is None,
        decreases items.len() - k,
    {
        proof {
            assert(iv.take(k + 1).drop_last() =~= iv.take(k as int));
            assert(iv.take(k + 1).last() == iv[k as int]);
            assert(iv[k as int] == opt_view(items@[k as int]));
        }
        let src = match &items[k] {
            Some(c) => chars_of(c.as_str()),
            None => Vec::new(),
        };
        let lower = to_lowercase(src.as_slice());
        if !(holds_text(&lower, "logo") || holds_text(&lower, "icon") || holds_text(&lower, "button")
            || holds_text(&lower, "sprite")) {
            let ts = string_of(trim_exec(&src).as_slice());
            let full = match join_url(base.as_str(), ts.as_str()) {
                Some(u) => chars_of(u.as_str()),
                None => src,
            };
            if full.len() > 0 {
                proof {
                    lemma_decide_first_found(iv, step, k as int);
                }
                return Some(Some(string_of(full.as_slice())));
            }
        }
        k = k + 1;
    }
    assert(iv.take(items.len() as int) =~= iv);
    None
}

/// A page's profile image, if it has one.
pub fn extract_profile_image(html: &str, base_url: &str) -> (r: Option<String>)
    ensures
        opt_view(r) == profile_image(html@, base_url@),
{
    let base = base_for_exec(base_url);
    match og_image_exec(html, &base) {
        Some(d) => d,
        None => match img_image_exec(html, &base) {
            Some(d) => d,
            None => None,
        },
    }
}

/// A Ballotpedia link: a link without href ends the search with nothing; a
/// link whose text names a (campaign) website and whose href is no anchor
/// is resolved (ending the search with nothing where that fails) and taken
/// when it leads off Ballotpedia.
pub open spec fn ballotpedia_step(base: Seq<char>, item: (Option<Seq<char>>, Seq<char>)) -> Option<
    Option<Seq<char>>,
> {
    match item.0 {
        None => Some(None),
        Some(href) => {
            let text = lowercase(item.1);
            if (contains(text, "campaign website"@) || contains(text, "website"@)) && !starts_with(
                href,
                "#"@,
            ) {
                match joined_url(base, trim(href)) {
                    None => Some(None),
                    Some(full) => if !contains(full, "ballotpedia.org"@) {
                        Some(Some(full))
                    } else {
                        None
                    },
                }
            } else {
                None
            }
        },
    }
}

pub open spec fn ballotpedia_scan(items: Seq<(Option<Seq<char>>, Seq<char>)>, base: Seq<char>) -> Option<
    Option<Seq<char>>,
>
    decreases items.len(),
{
    if items.len() == 0 {
        None
    } else {
        match ballotpedia_scan(items.drop_last(), base) {
            Some(d) => Some(d),
            None => ballotpedia_step(base, items.last()),
        }
    }
}

/// The campaign website that a Ballotpedia page links to.
pub open spec fn ballotpedia_campaign_site(html: Seq<char>, base_url: Seq<char>) -> Option<Seq<char>> {
    match ballotpedia_scan(html_attr_texts(html, "a[href]"@, "href"@), base_for(base_url)) {
        Some(d) => d,
        None => None,
    }
}

proof fn lemma_ballotpedia_found(items: Seq<(Option<Seq<char>>, Seq<char>)>, base: Seq<char>, i: int)
    requires
        0 <= i < items.len(),
        ballotpedia_scan(items.take(i), base) is None,
        ballotpedia_step(base, items[i]) is Some,
    ensures
        ballotpedia_scan(items, base) == ballotpedia_step(base, items[i]),
    decreases items.len(),
{
    if i < items.len() - 1 {
        assert(items.drop_last().take(i) == items.take(i));
        assert(items.drop_last()[i] == items[i]);
        lemma_ballotpedia_found(items.drop_last(), base, i);
    } else {
        assert(items.drop_last() == items.take(i));
    }
}

/// The "Campaign website" (or "Website") link of a Ballotpedia page, when
/// it leads off Ballotpedia.
pub fn extract_campaign_website_from_ballotpedia(html: &str, base_url: &str) -> (r: Option<String>)
    ensures
        opt_view(r) == ballotpedia_campaign_site(html@, base_url@),
{
    let base = base_for_exec(base_url);
    let items = select_attr_texts(html, "a[href]", "href");
    let ghost iv = items@.map_values(
        |p: (Option<String>, String)|
            (
                match p.0 {
                    Some(s) => Some(s@),
                    None => None,
                },
                p.1@,
            ),
    );
    let mut k: usize = 0;
    assert(iv.take(0) =~= Seq::<(Option<Seq<char>>, Seq<char>)>::empty());
    while k < items.len()
        invariant
            k <= items.len(),
            iv == items@.map_values(
                |p: (Option<String>, String)|
                    (
                        match p.0 {
                            Some(s) => Some(s@),
                            None => None,
                        },
                        p.1@,
                    ),
            ),
            iv == html_attr_texts(html@, "a[href]"@, "href"@),
            base@ == base_for(base_url@),
            ballotpedia_scan(iv.take(k as int), base@) is None,
        decreases items.len() - k,
    {
        proof {
            assert(iv.take(k + 1).drop_last() =~= iv.take(k as int));
            assert(iv.take(k + 1).last() == iv[k as int]);
        }
        let ghost item = iv[k as int];
        assert(item.1 == items@[k as int].1@);
        assert(item.0 == opt_view(items@[k as int].0));
        let href = match &items[k].0 {
            Some(h) => h,
            None => {
                proof {
                    assert(ballotpedia_step(base@, item) == Some(None::<Seq<char>>));
                    lemma_ballotpedia_found(iv, base@, k as int);
                }
                return None;
            },
        };
        let text = to_lowercase(chars_of(items[k].1.as_str()).as_slice());
        let hv = chars_of(href.as_str());
        if (holds_text(&text, "campaign website") || holds_text(&text, "website")) && !starts_with_exec(
            &hv,
            &chars_of("#"),
        ) {
            let th = string_of(trim_exec(&hv).as_slice());
            match join_url(base.as_str(), th.as_str()) {
                None => {
                    proof {
                        assert(item.0 == Some(hv@));
                        assert(ballotpedia_step(base@, item) == Some(None::<Seq<char>>));
                        lemma_ballotpedia_found(iv, base@, k as int);
                    }
                    return None;
                },
                Some(full) => {
                    if !holds_text(&chars_of(full.as_str()), "ballotpedia.org") {
                        proof {
                            lemma_ballotpedia_found(iv, base@, k as int);
                        }
                        return Some(full);
                    }
                },
            }
        }
        k = k + 1;
    }
    assert(iv.take(items.len() as int) =~= iv);
    None
}


/// A Texas U.S. House candidate of the primary, as loaded for the scrape.
pub struct CandidateRow {
    pub id: u128,
    pub slug: String,
    pub first_name: String,
    pub last_name: String,
    pub preferred_name: Option<String>,
    pub full_name: Option<String>,
    pub office_id: Option<u128>,
    pub campaign_website_url: Option<String>,
    pub official_website_url: Option<String>,
    pub facebook_url: Option<String>,
    pub twitter_url: Option<String>,
    pub instagram_url: Option<String>,
    pub youtube_url: Option<String>,
    pub linkedin_url: Option<String>,
    pub tiktok_url: Option<String>,
    pub email: Option<String>,
    pub thumbnail_image_url: Option<String>,
    /// The name of the office the candidate holds now.
    pub current_office_name: Option<String>,
    pub race_title: Option<String>,
}

/// A row of `stg_tx_scraped_us_house_candidates`.
pub struct StagingRow {
    pub politician_id: u128,
    pub politician_full_name: Option<String>,
    pub source_url: Option<String>,
    pub source_type: Option<String>,
    pub campaign_website_url: Option<String>,
    pub official_website_url: Option<String>,
    pub facebook_url: Option<String>,
    pub twitter_url: Option<String>,
    pub instagram_url: Option<String>,
    pub tiktok_url: Option<String>,
    pub youtube_url: Option<String>,
    pub linkedin_url: Option<String>,
    pub email: Option<String>,
    pub thumbnail_image_url: Option<String>,
    pub scrape_status: String,
}

pub ghost struct StagingView {
    pub politician_id: u128,
    pub politician_full_name: Option<Seq<char>>,
    pub source_url: Option<Seq<char>>,
    pub source_type: Option<Seq<char>>,
    pub campaign_website_url: Option<Seq<char>>,
    pub official_website_url: Option<Seq<char>>,
    pub facebook_url: Option<Seq<char>>,
    pub twitter_url: Option<Seq<char>>,
    pub instagram_url: Option<Seq<char>>,
    pub tiktok_url: Option<Seq<char>>,
    pub youtube_url: Option<Seq<char>>,
    pub linkedin_url: Option<Seq<char>>,
    pub email: Option<Seq<char>>,
    pub thumbnail_image_url: Option<Seq<char>>,
    pub scrape_status: Seq<char>,
}

impl StagingRow {
    pub open spec fn view(&self) -> StagingView {
        StagingView {
            politician_id: self.politician_id,
            politician_full_name: opt_view(self.politician_full_name),
            source_url: opt_view(self.source_url),
            source_type: opt_view(self.source_type),
            campaign_website_url: opt_view(self.campaign_website_url),
            official_website_url: opt_view(self.official_website_url),
            facebook_url: opt_view(self.facebook_url),
            twitter_url: opt_view(self.twitter_url),
            instagram_url: opt_view(self.instagram_url),
            tiktok_url: opt_view(self.tiktok_url),
            youtube_url: opt_view(self.youtube_url),
            linkedin_url: opt_view(self.linkedin_url),
            email: opt_view(self.email),
            thumbnail_image_url: opt_view(self.thumbnail_image_url),
            scrape_status: self.scrape_status@,
        }
    }
}

/// A value that is there and not blank.
pub open spec fn nonblank_value(o: Option<Seq<char>>) -> bool {
    o matches Some(t) && trim(t).len() > 0
}

/// The candidate already has a social link (entered by hand): it is not
/// scraped.
pub open spec fn manual_data(c: CandidateRow) -> bool {
    ||| nonblank_value(opt_view(c.facebook_url))
    ||| nonblank_value(opt_view(c.twitter_url))
    ||| nonblank_value(opt_view(c.instagram_url))
    ||| nonblank_value(opt_view(c.youtube_url))
    ||| nonblank_value(opt_view(c.linkedin_url))
    ||| nonblank_value(opt_view(c.tiktok_url))
}

fn nonblank_exec(o: &Option<String>) -> (r: bool)
    ensures
        r == nonblank_value(opt_view(*o)),
{
    match o {
        Some(t) => trim_exec(&chars_of(t.as_str())).len() > 0,
        None => false,
    }
}

/// Whether the candidate already has a social link.
pub fn has_manual_data(c: &CandidateRow) -> (r: bool)
    ensures
        r == manual_data(*c),
{
    nonblank_exec(&c.facebook_url) || nonblank_exec(&c.twitter_url) || nonblank_exec(&c.instagram_url)
        || nonblank_exec(&c.youtube_url) || nonblank_exec(&c.linkedin_url) || nonblank_exec(&c.tiktok_url)
}

pub open spec fn or_text(o: Option<Seq<char>>, d: Seq<char>) -> Seq<char> {
    match o {
        Some(t) => t,
        None => d,
    }
}

/// The name searched for: the full name, or "candidate".
pub open spec fn search_name(c: CandidateRow) -> Seq<char> {
    or_text(opt_view(c.full_name), "candidate"@)
}

pub open spec fn official_query(c: CandidateRow) -> Seq<char> {
    search_name(c) + " "@ + or_text(opt_view(c.current_office_name), "U.S. House"@) + " Texas official website"@
}

pub open spec fn campaign_query(c: CandidateRow) -> Seq<char> {
    search_name(c) + " "@ + or_text(opt_view(c.race_title), "TX U.S. House"@) + " candidate campaign website"@
}

pub open spec fn ballotpedia_query(c: CandidateRow) -> Seq<char> {
    search_name(c) + " ballotpedia"@
}

/// A row with no scraped data.
pub open spec fn bare_row(c: CandidateRow, official: Option<Seq<char>>, status: Seq<char>) -> StagingView {
    StagingView {
        politician_id: c.id,
        politician_full_name: opt_view(c.full_name),
        source_url: None,
        source_type: None,
        campaign_website_url: None,
        official_website_url: official,
        facebook_url: None,
        twitter_url: None,
        instagram_url: None,
        tiktok_url: None,
        youtube_url: None,
        linkedin_url: None,
        email: None,
        thumbnail_image_url: None,
        scrape_status: status,
    }
}

/// The row of a source page that could not be fetched.
pub open spec fn fetch_error_row(
    c: CandidateRow,
    official: Option<Seq<char>>,
    source_url: Seq<char>,
    source_type: Seq<char>,
    campaign: Option<Seq<char>>,
) -> StagingView {
    StagingView {
        source_url: Some(source_url),
        source_type: Some(source_type),
        campaign_website_url: campaign,
        ..bare_row(c, official, "fetch_error"@)
    }
}

/// The value of the last (column, URL) pair of column `name`.
pub open spec fn social_lookup(list: Seq<(Seq<char>, Seq<char>)>, name: Seq<char>) -> Option<Seq<char>>
    decreases list.len(),
{
    if list.len() == 0 {
        None
    } else if list.last().0 == name {
        Some(list.last().1)
    } else {
        social_lookup(list.drop_last(), name)
    }
}

/// The row of a fetched source page: its social links, email, profile
/// image, and the campaign website (the known one, or the one a Ballotpedia
/// page links to).
pub open spec fn scraped_row(
    c: CandidateRow,
    official: Option<Seq<char>>,
    source_url: Seq<char>,
    source_type: Seq<char>,
    campaign: Option<Seq<char>>,
    html: Seq<char>,
) -> StagingView {
    let (socials, email) = social_and_email(html, source_url);
    StagingView {
        politician_id: c.id,
        politician_full_name: opt_view(c.full_name),
        source_url: Some(source_url),
        source_type: Some(source_type),
        campaign_website_url: match campaign {
            Some(u) => Some(u),
            None => ballotpedia_campaign_site(html, source_url),
        },
        official_website_url: official,
        facebook_url: social_lookup(socials, "facebook_url"@),
        twitter_url: social_lookup(socials, "twitter_url"@),
        instagram_url: social_lookup(socials, "instagram_url"@),
        tiktok_url: social_lookup(socials, "tiktok_url"@),
        youtube_url: social_lookup(socials, "youtube_url"@),
        linkedin_url: social_lookup(socials, "linkedin_url"@),
        email,
        thumbnail_image_url: profile_image(html, source_url),
        scrape_status: "ok"@,
    }
}

fn bare_row_exec(c: &CandidateRow, official: Option<String>, status: &str) -> (r: StagingRow)
    ensures
        r@ == bare_row(*c, opt_view(official), status@),
{
    StagingRow {
        politician_id: c.id,
        politician_full_name: crate::text::clone_opt(&c.full_name),
        source_url: None,
        source_type: None,
        campaign_website_url: None,
        official_website_url: official,
        facebook_url: None,
        twitter_url: None,
        instagram_url: None,
        tiktok_url: None,
        youtube_url: None,
        linkedin_url: None,
        email: None,
        thumbnail_image_url: None,
        scrape_status: String::from_str(status),
    }
}

fn text_or(o: &Option<String>, d: &str) -> (r: Vec<char>)
    ensures
        r@ == or_text(opt_view(*o), d@),
{
    match o {
        Some(t) => chars_of(t.as_str()),
        None => chars_of(d),
    }
}

fn query_of(parts: &Vec<Vec<char>>) -> (r: String)
    requires
        parts.len() == 4,
    ensures
        r@ == parts@[0]@ + parts@[1]@ + parts@[2]@ + parts@[3]@,
{
    string_of(concat(&concat(&concat(&parts[0], &parts[1]), &parts[2]), &parts[3]).as_slice())
}

/// The query for the candidate's official site.
pub fn official_search_query(c: &CandidateRow) -> (r: String)
    ensures
        r@ == official_query(*c),
{
    let parts = vec![
        text_or(&c.full_name, "candidate"),
        chars_of(" "),
        text_or(&c.current_office_name, "U.S. House"),
        chars_of(" Texas official website"),
    ];
    query_of(&parts)
}

/// The query for the candidate's campaign site.
pub fn campaign_search_query(c: &CandidateRow) -> (r: String)
    ensures
        r@ == campaign_query(*c),
{
    let parts = vec![
        text_or(&c.full_name, "candidate"),
        chars_of(" "),
        text_or(&c.race_title, "TX U.S. House"),
        chars_of(" candidate campaign website"),
    ];
    query_of(&parts)
}

/// The query for the candidate's Ballotpedia page.
pub fn ballotpedia_search_query(c: &CandidateRow) -> (r: String)
    ensures
        r@ == ballotpedia_query(*c),
{
    string_of(concat(&text_or(&c.full_name, "candidate"), &chars_of(" ballotpedia")).as_slice())
}

fn social_value(socials: &Vec<(String, String)>, name: &str) -> (r: Option<String>)
    ensures
        opt_view(r) == social_lookup(socials@.map_values(|p: (String, String)| (p.0@, p.1@)), name@),
{
    let ghost sv = socials@.map_values(|p: (String, String)| (p.0@, p.1@));
    let n = chars_of(name);
    let mut k: usize = socials.len();
    assert(sv.take(k as int) =~= sv);
    while k > 0
        invariant
            k <= socials.len(),
            sv == socials@.map_values(|p: (String, String)| (p.0@, p.1@)),
            n@ == name@,
            social_lookup(sv.take(k as int), name@) == social_lookup(sv, name@),
        decreases k,
    {
        proof {
            assert(sv.take(k as int).drop_last() =~= sv.take(k - 1));
            assert(sv.take(k as int).last() == sv[k - 1]);
        }
        if crate::text::chars_eq(&chars_of(socials[k - 1].0.as_str()), &n) {
            return Some(socials[k - 1].1.clone());
        }
        k = k - 1;
    }
    None
}

fn scraped_row_exec(
    c: &CandidateRow,
    official: Option<String>,
    source_url: String,
    source_type: String,
    campaign: Option<String>,
    html: &str,
) -> (r: StagingRow)
    ensures
        r@ == scraped_row(*c, opt_view(official), source_url@, source_type@, opt_view(campaign), html@),
{
    let (socials, email) = extract_social_and_email(html, source_url.as_str());
    let campaign_site = match campaign {
        Some(u) => Some(u),
        None => extract_campaign_website_from_ballotpedia(html, source_url.as_str()),
    };
    let thumbnail = extract_profile_image(html, source_url.as_str());
    StagingRow {
        politician_id: c.id,
        politician_full_name: crate::text::clone_opt(&c.full_name),
        campaign_website_url: campaign_site,
        official_website_url: official,
        facebook_url: social_value(&socials, "facebook_url"),
        twitter_url: social_value(&socials, "twitter_url"),
        instagram_url: social_value(&socials, "instagram_url"),
        tiktok_url: social_value(&socials, "tiktok_url"),
        youtube_url: social_value(&socials, "youtube_url"),
        linkedin_url: social_value(&socials, "linkedin_url"),
        email,
        thumbnail_image_url: thumbnail,
        source_url: Some(source_url),
        source_type: Some(source_type),
        scrape_status: String::from_str("ok"),
    }
}


/// Where the scrape of one candidate stands.
pub enum ScrapeState {
    Start,
    /// Waiting for the official site search.
    AwaitOfficial,
    /// Waiting for the campaign site search.
    AwaitCampaign { official: Option<String> },
    /// Waiting for the Ballotpedia search.
    AwaitBallotpedia { official: Option<String> },
    /// Waiting for the source page.
    AwaitFetch {
        official: Option<String>,
        source_url: String,
        source_type: String,
        campaign: Option<String>,
    },
    Done,
}

/// What the outside work gave.
pub enum ScrapeEvent {
    Begin,
    /// A search found this URL (or nothing, or failed).
    Found(Option<String>),
    /// A fetch gave this page (or failed).
    Fetched(Option<String>),
}

/// The outside work to do next.
pub enum ScrapeAction {
    /// Search for the official site with this query; the first result that
    /// [`looks_like_official_site`] is the answer.
    SearchOfficial(String),
    /// Search for a campaign site with this query; the first result among
    /// [`campaign_site_candidates`] whose page [`is_campaign_page`] is the
    /// answer.
    SearchCampaign(String),
    /// Search with this query; the first result that
    /// [`looks_like_ballotpedia_candidate`] is the answer.
    SearchBallotpedia(String),
    /// Fetch this page.
    Fetch(String),
    /// Write this staging row; the candidate is done.
    Write(StagingRow),
}

/// The candidate's stored campaign website, when it is not blank.
pub open spec fn stored_campaign(c: CandidateRow) -> Option<Seq<char>> {
    if nonblank_value(opt_view(c.campaign_website_url)) {
        opt_view(c.campaign_website_url)
    } else {
        None
    }
}

/// After the official site is known: fetch the stored campaign website, or
/// search for one.
pub open spec fn after_official(
    c: CandidateRow,
    official: Option<Seq<char>>,
    r: (ScrapeState, Option<ScrapeAction>),
) -> bool {
    match stored_campaign(c) {
        Some(u) => {
            &&& r.0 matches ScrapeState::AwaitFetch { official: o, source_url, source_type, campaign }
                && opt_view(o) == official && source_url@ == u && source_type@ == "campaign_site"@
                && opt_view(campaign) == Some(u)
            &&& r.1 matches Some(ScrapeAction::Fetch(f)) && f@ == u
        },
        None => {
            &&& r.0 matches ScrapeState::AwaitCampaign { official: o } && opt_view(o) == official
            &&& r.1 matches Some(ScrapeAction::SearchCampaign(q)) && q@ == campaign_query(c)
        },
    }
}

/// Fetching a found source page next.
pub open spec fn fetch_next(
    official: Option<Seq<char>>,
    url: Seq<char>,
    source_type: Seq<char>,
    campaign: Option<Seq<char>>,
    r: (ScrapeState, Option<ScrapeAction>),
) -> bool {
    &&& r.0 matches ScrapeState::AwaitFetch { official: o, source_url, source_type: t, campaign: cw }
        && opt_view(o) == official && source_url@ == url && t@ == source_type && opt_view(cw) == campaign
    &&& r.1 matches Some(ScrapeAction::Fetch(f)) && f@ == url
}

/// Writing `row` and being done.
pub open spec fn write_next(row: StagingView, r: (ScrapeState, Option<ScrapeAction>)) -> bool {
    &&& r.0 is Done
    &&& r.1 matches Some(ScrapeAction::Write(w)) && w@ == row
}

/// One step of the scrape of a candidate: a candidate with social links
/// already is skipped; one with an office first gets an official site
/// search; the source page is the stored campaign website, else a campaign
/// site found by search, else a Ballotpedia page found by search; with no
/// source the row says "no_site", with a failed fetch "fetch_error", else
/// it holds what the page gives ("ok"). An event that does not fit the state
/// leaves it as it is, with nothing to do.
pub open spec fn scrape_step_spec(
    c: CandidateRow,
    state: ScrapeState,
    event: ScrapeEvent,
    r: (ScrapeState, Option<ScrapeAction>),
) -> bool {
    match (state, event) {
        (ScrapeState::Start, ScrapeEvent::Begin) => if manual_data(c) {
            write_next(bare_row(c, None, "skipped_manual_data"@), r)
        } else if c.office_id is Some {
            &&& r.0 is AwaitOfficial
            &&& r.1 matches Some(ScrapeAction::SearchOfficial(q)) && q@ == official_query(c)
        } else {
            after_official(c, None, r)
        },
        (ScrapeState::AwaitOfficial, ScrapeEvent::Found(o)) => after_official(c, opt_view(o), r),
        (ScrapeState::AwaitCampaign { official }, ScrapeEvent::Found(Some(u))) => fetch_next(
            opt_view(official),
            u@,
            "web_search_campaign"@,
            Some(u@),
            r,
        ),
        (ScrapeState::AwaitCampaign { official }, ScrapeEvent::Found(None)) => {
            &&& r.0 matches ScrapeState::AwaitBallotpedia { official: o } && opt_view(o) == opt_view(official)
            &&& r.1 matches Some(ScrapeAction::SearchBallotpedia(q)) && q@ == ballotpedia_query(c)
        },
        (ScrapeState::AwaitBallotpedia { official }, ScrapeEvent::Found(Some(u))) => fetch_next(
            opt_view(official),
            u@,
            "ballotpedia"@,
            None,
            r,
        ),
        (ScrapeState::AwaitBallotpedia { official }, ScrapeEvent::Found(None)) => write_next(
            bare_row(c, opt_view(official), "no_site"@),
            r,
        ),
        (
            ScrapeState::AwaitFetch { official, source_url, source_type, campaign },
            ScrapeEvent::Fetched(None),
        ) => write_next(
            fetch_error_row(c, opt_view(official), source_url@, source_type@, opt_view(campaign)),
            r,
        ),
        (
            ScrapeState::AwaitFetch { official, source_url, source_type, campaign },
            ScrapeEvent::Fetched(Some(html)),
        ) => write_next(
            scraped_row(c, opt_view(official), source_url@, source_type@, opt_view(campaign), html@),
            r,
        ),
        _ => r.0 == state && r.1 is None,
    }
}

fn after_official_exec(c: &CandidateRow, official: Option<String>) -> (r: (ScrapeState, Option<ScrapeAction>))
    ensures
        after_official(*c, opt_view(official), r),
{
    if nonblank_exec(&c.campaign_website_url) {
        let u = match &c.campaign_website_url {
            Some(u) => u.clone(),
            None => String::new(),
        };
        let f = u.clone();
        let cw = u.clone();
        (
            ScrapeState::AwaitFetch {
                official,
                source_url: u,
                source_type: String::from_str("campaign_site"),
                campaign: Some(cw),
            },
            Some(ScrapeAction::Fetch(f)),
        )
    } else {
        (ScrapeState::AwaitCampaign { official }, Some(ScrapeAction::SearchCampaign(campaign_search_query(c))))
    }
}

/// The next state of a candidate's scrape and the outside work to do, from
/// the state and what the last work gave.
pub fn scrape_step(c: &CandidateRow, state: ScrapeState, event: ScrapeEvent) -> (r: (ScrapeState, Option<ScrapeAction>))
    ensures
        scrape_step_spec(*c, state, event, r),
{
    match (state, event) {
        (ScrapeState::Start, ScrapeEvent::Begin) => {
            if has_manual_data(c) {
                (ScrapeState::Done, Some(ScrapeAction::Write(bare_row_exec(c, None, "skipped_manual_data"))))
            } else if c.office_id.is_some() {
                (ScrapeState::AwaitOfficial, Some(ScrapeAction::SearchOfficial(official_search_query(c))))
            } else {
                after_official_exec(c, None)
            }
        },
        (ScrapeState::AwaitOfficial, ScrapeEvent::Found(o)) => after_official_exec(c, o),
        (ScrapeState::AwaitCampaign { official }, ScrapeEvent::Found(Some(u))) => {
            let f = u.clone();
            let cw = u.clone();
            (
                ScrapeState::AwaitFetch {
                    official,
                    source_url: u,
                    source_type: String::from_str("web_search_campaign"),
                    campaign: Some(cw),
                },
                Some(ScrapeAction::Fetch(f)),
            )
        },
        (ScrapeState::AwaitCampaign { official }, ScrapeEvent::Found(None)) => {
            (ScrapeState::AwaitBallotpedia { official }, Some(ScrapeAction::SearchBallotpedia(ballotpedia_search_query(c))))
        },
        (ScrapeState::AwaitBallotpedia { official }, ScrapeEvent::Found(Some(u))) => {
            let f = u.clone();
            (
                ScrapeState::AwaitFetch {
                    official,
                    source_url: u,
                    source_type: String::from_str("ballotpedia"),
                    campaign: None,
                },
                Some(ScrapeAction::Fetch(f)),
            )
        },
        (ScrapeState::AwaitBallotpedia { official }, ScrapeEvent::Found(None)) => {
            (ScrapeState::Done, Some(ScrapeAction::Write(bare_row_exec(c, official, "no_site"))))
        },
        (ScrapeState::AwaitFetch { official, source_url, source_type, campaign }, ScrapeEvent::Fetched(None)) => {
            let mut row = bare_row_exec(c, official, "fetch_error");
            row.source_url = Some(source_url);
            row.source_type = Some(source_type);
            row.campaign_website_url = campaign;
            (ScrapeState::Done, Some(ScrapeAction::Write(row)))
        },
        (
            ScrapeState::AwaitFetch { official, source_url, source_type, campaign },
            ScrapeEvent::Fetched(Some(html)),
        ) => {
            let row = scraped_row_exec(c, official, source_url, source_type, campaign, html.as_str());
            (ScrapeState::Done, Some(ScrapeAction::Write(row)))
        },
        (state, _) => (state, None),
    }
}

} // verus!
