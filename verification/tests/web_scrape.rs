use populist_scrapers::web_scrape::{
    ballotpedia_search_query, campaign_search_query, campaign_site_candidates,
    duckduckgo_search_url, extract_campaign_website_from_ballotpedia, extract_page_title,
    extract_profile_image, extract_social_and_email, first_search_result, has_manual_data,
    is_campaign_page, looks_like_ballotpedia_candidate, looks_like_campaign_site,
    looks_like_official_site, normalize_social_url, official_search_query,
    parse_duckduckgo_results, scrape_step, url_fails_campaign_exclude, CandidateRow,
    ResultFilter, ScrapeAction, ScrapeEvent, ScrapeState,
};

fn candidate() -> CandidateRow {
    CandidateRow {
        id: 7,
        slug: "jane-doe".to_string(),
        first_name: "Jane".to_string(),
        last_name: "Doe".to_string(),
        preferred_name: None,
        full_name: Some("Jane Doe".to_string()),
        office_id: None,
        campaign_website_url: None,
        official_website_url: None,
        facebook_url: None,
        twitter_url: None,
        instagram_url: None,
        youtube_url: None,
        linkedin_url: None,
        tiktok_url: None,
        email: None,
        thumbnail_image_url: None,
        current_office_name: None,
        race_title: Some("U.S. House TX-7".to_string()),
    }
}

const RESULTS: &str = r#"<html><body>
<a class="result__a" href="https://www.facebook.com/janedoe">fb</a>
<a class="result__a" href="//duckduckgo.com/l/?uddg=x">ad</a>
<a class="result__a" href="https://janedoefortexas.com/about">site</a>
<a class="result__a" href="https://doe.house.gov/">official</a>
<a class="result__a" href="https://ballotpedia.org/wiki/Jane_Doe">bp</a>
<a class="result__a" href="not a url">bad</a>
</body></html>"#;

#[test]
fn search_urls_are_form_encoded() {
    assert_eq!(
        duckduckgo_search_url("Jane Doe & co/2"),
        "https://html.duckduckgo.com/html/?q=Jane+Doe+%26+co%2F2"
    );
}

#[test]
fn excluded_sites_are_recognized() {
    assert!(url_fails_campaign_exclude("https://WWW.FACEBOOK.com/x"));
    assert!(url_fails_campaign_exclude("https://x.com/jane"));
    assert!(url_fails_campaign_exclude("https://doe.house.gov"));
    assert!(!url_fails_campaign_exclude("https://janedoe.org"));
}

#[test]
fn official_and_ballotpedia_urls() {
    assert!(looks_like_official_site("https://www.TX.gov/x"));
    assert!(!looks_like_official_site("https://janedoe.org"));
    assert!(looks_like_ballotpedia_candidate("https://ballotpedia.org/wiki/Jane_Doe"));
    assert!(!looks_like_ballotpedia_candidate("https://ballotpedia.org/Jane_Doe"));
}

#[test]
fn an_excluded_site_is_never_a_campaign_site() {
    assert!(!looks_like_campaign_site(
        "https://facebook.com/janedoe",
        Some("Jane Doe for Texas"),
        Some("Jane"),
        Some("Doe"),
        None
    ));
}

#[test]
fn campaign_sites_need_a_name_and_a_keyword() {
    assert!(looks_like_campaign_site(
        "https://janedoe.org",
        Some("Jane Doe for Congress"),
        Some("Jane"),
        Some("Doe"),
        None
    ));
    assert!(!looks_like_campaign_site(
        "https://janedoe.org",
        Some("Jane Doe Bakery"),
        Some("Jane"),
        Some("Doe"),
        None
    ));
    assert!(looks_like_campaign_site("https://anything.org", None, None, Some("  "), None));
}

#[test]
fn result_links_skip_duckduckgo_and_bad_urls() {
    assert_eq!(
        parse_duckduckgo_results(RESULTS),
        vec![
            "https://www.facebook.com/janedoe",
            "https://janedoefortexas.com/about",
            "https://doe.house.gov/",
            "https://ballotpedia.org/wiki/Jane_Doe",
        ]
    );
}

#[test]
fn result_url_links_are_the_fallback() {
    let html = r#"<a class="result__url" href="https://a.org">a</a>"#;
    assert_eq!(parse_duckduckgo_results(html), vec!["https://a.org/"]);
}

#[test]
fn first_results_by_filter() {
    assert_eq!(
        first_search_result(RESULTS, ResultFilter::OfficialSite),
        Some("https://doe.house.gov/".to_string())
    );
    assert_eq!(
        first_search_result(RESULTS, ResultFilter::BallotpediaCandidate),
        Some("https://ballotpedia.org/wiki/Jane_Doe".to_string())
    );
    assert_eq!(first_search_result("<p>none</p>", ResultFilter::OfficialSite), None);
}

#[test]
fn campaign_candidates_drop_excluded_sites() {
    assert_eq!(
        campaign_site_candidates(RESULTS),
        vec!["https://janedoefortexas.com/about"]
    );
}

#[test]
fn page_titles_and_campaign_pages() {
    let page = "<html><head><title>  Jane Doe for Texas </title></head></html>";
    assert_eq!(extract_page_title(page), Some("Jane Doe for Texas".to_string()));
    assert_eq!(extract_page_title("<p>x</p>"), None);
    assert!(is_campaign_page("https://janedoefortexas.com", page, "Jane", "Doe", None));
    assert!(!is_campaign_page("https://janedoe.com", "<title>Recipes</title>", "Jane", "Doe", None));
}

#[test]
fn social_urls_are_normalized() {
    assert_eq!(
        normalize_social_url("http://www.facebook.com/janedoe/?ref=1#top"),
        "https://www.facebook.com/janedoe/?ref=1"
    );
    assert_eq!(normalize_social_url("https://twitter.com/"), "https://twitter.com");
    assert_eq!(normalize_social_url("not a url"), "not a url");
}

#[test]
fn social_links_and_email_from_a_page() {
    let html = r#"<html><body>
      <a href="/about">About</a>
      <a href="mailto:jane@doe.org?subject=hi">Mail</a>
      <a href="https://www.facebook.com/janedoe">FB</a>
      <a href="https://www.facebook.com/other">FB2</a>
      <a href="https://x.com/janedoe">X</a>
    </body></html>"#;
    let (socials, email) = extract_social_and_email(html, "https://janedoe.org");
    assert_eq!(
        socials,
        vec![
            ("facebook_url".to_string(), "https://www.facebook.com/janedoe".to_string()),
            ("twitter_url".to_string(), "https://x.com/janedoe".to_string()),
        ]
    );
    assert_eq!(email, Some("jane@doe.org?subject=hi".to_string()));
}

#[test]
fn email_falls_back_to_the_page_text() {
    let (socials, email) =
        extract_social_and_email("<p>Write to info@janedoe.org today</p>", "bad base");
    assert!(socials.is_empty());
    assert_eq!(email, Some("info@janedoe.org".to_string()));
}

#[test]
fn profile_image_prefers_open_graph() {
    let html = r#"<meta property="og:image" content="/img/jane.jpg"><img src="/logo.png"><img src="/b.png">"#;
    assert_eq!(
        extract_profile_image(html, "https://janedoe.org/home"),
        Some("https://janedoe.org/img/jane.jpg".to_string())
    );
    let html = r#"<img src="/site-logo.png"><img src="photos/jane.png">"#;
    assert_eq!(
        extract_profile_image(html, "https://janedoe.org/home/"),
        Some("https://janedoe.org/home/photos/jane.png".to_string())
    );
    assert_eq!(extract_profile_image("<p>none</p>", "https://janedoe.org"), None);
}

#[test]
fn ballotpedia_campaign_website_link() {
    let html = r##"<a href="#top">Website</a><a href="https://ballotpedia.org/x">Website</a>
        <a href="https://janedoe.org">Campaign website</a>"##;
    assert_eq!(
        extract_campaign_website_from_ballotpedia(html, "https://ballotpedia.org/Jane_Doe"),
        Some("https://janedoe.org/".to_string())
    );
    assert_eq!(
        extract_campaign_website_from_ballotpedia("<a href=\"/y\">News</a>", "https://ballotpedia.org"),
        None
    );
}

#[test]
fn manual_social_links_skip_the_candidate() {
    let mut c = candidate();
    assert!(!has_manual_data(&c));
    c.linkedin_url = Some("   ".to_string());
    assert!(!has_manual_data(&c));
    c.tiktok_url = Some("https://tiktok.com/@jane".to_string());
    assert!(has_manual_data(&c));
}

#[test]
fn search_queries() {
    let c = candidate();
    assert_eq!(official_search_query(&c), "Jane Doe U.S. House Texas official website");
    assert_eq!(campaign_search_query(&c), "Jane Doe U.S. House TX-7 candidate campaign website");
    let mut d = candidate();
    d.full_name = None;
    d.race_title = None;
    assert_eq!(campaign_search_query(&d), "candidate TX U.S. House candidate campaign website");
    assert_eq!(ballotpedia_search_query(&d), "candidate ballotpedia");
}

#[test]
fn a_candidate_with_manual_data_is_written_as_skipped() {
    let mut c = candidate();
    c.facebook_url = Some("https://facebook.com/jane".to_string());
    let (state, action) = scrape_step(&c, ScrapeState::Start, ScrapeEvent::Begin);
    assert!(matches!(state, ScrapeState::Done));
    match action {
        Some(ScrapeAction::Write(row)) => {
            assert_eq!(row.politician_id, 7);
            assert_eq!(row.scrape_status, "skipped_manual_data");
            assert_eq!(row.facebook_url, None);
        }
        _ => panic!("expected a write"),
    }
}

#[test]
fn the_scrape_walks_search_then_ballotpedia_then_fetch() {
    let mut c = candidate();
    c.office_id = Some(3);
    let (state, action) = scrape_step(&c, ScrapeState::Start, ScrapeEvent::Begin);
    assert!(matches!(state, ScrapeState::AwaitOfficial));
    assert!(matches!(action, Some(ScrapeAction::SearchOfficial(ref q)) if q == "Jane Doe U.S. House Texas official website"));
    let (state, action) =
        scrape_step(&c, state, ScrapeEvent::Found(Some("https://doe.house.gov/".to_string())));
    assert!(matches!(action, Some(ScrapeAction::SearchCampaign(_))));
    let (state, action) = scrape_step(&c, state, ScrapeEvent::Found(None));
    assert!(matches!(action, Some(ScrapeAction::SearchBallotpedia(ref q)) if q == "Jane Doe ballotpedia"));
    let (state, action) = scrape_step(
        &c,
        state,
        ScrapeEvent::Found(Some("https://ballotpedia.org/wiki/Jane_Doe".to_string())),
    );
    assert!(matches!(action, Some(ScrapeAction::Fetch(ref u)) if u == "https://ballotpedia.org/wiki/Jane_Doe"));
    let page = r#"<a href="https://janedoe.org">Campaign website</a><a href="https://instagram.com/jane">IG</a>"#;
    let (state, action) = scrape_step(&c, state, ScrapeEvent::Fetched(Some(page.to_string())));
    assert!(matches!(state, ScrapeState::Done));
    match action {
        Some(ScrapeAction::Write(row)) => {
            assert_eq!(row.scrape_status, "ok");
            assert_eq!(row.source_type.as_deref(), Some("ballotpedia"));
            assert_eq!(row.official_website_url.as_deref(), Some("https://doe.house.gov/"));
            assert_eq!(row.campaign_website_url.as_deref(), Some("https://janedoe.org/"));
            assert_eq!(row.instagram_url.as_deref(), Some("https://instagram.com/jane"));
            assert_eq!(row.email, None);
        }
        _ => panic!("expected a write"),
    }
}

#[test]
fn a_stored_campaign_site_is_fetched_and_a_failed_fetch_is_recorded() {
    let mut c = candidate();
    c.campaign_website_url = Some("https://janedoe.org".to_string());
    let (state, action) = scrape_step(&c, ScrapeState::Start, ScrapeEvent::Begin);
    assert!(matches!(action, Some(ScrapeAction::Fetch(ref u)) if u == "https://janedoe.org"));
    let (state, action) = scrape_step(&c, state, ScrapeEvent::Fetched(None));
    assert!(matches!(state, ScrapeState::Done));
    match action {
        Some(ScrapeAction::Write(row)) => {
            assert_eq!(row.scrape_status, "fetch_error");
            assert_eq!(row.source_type.as_deref(), Some("campaign_site"));
            assert_eq!(row.campaign_website_url.as_deref(), Some("https://janedoe.org"));
        }
        _ => panic!("expected a write"),
    }
}

#[test]
fn no_site_found_and_unexpected_events() {
    let c = candidate();
    let (state, _) = scrape_step(&c, ScrapeState::AwaitBallotpedia { official: None }, ScrapeEvent::Found(None));
    assert!(matches!(state, ScrapeState::Done));
    let (state, action) = scrape_step(&c, ScrapeState::Done, ScrapeEvent::Begin);
    assert!(matches!(state, ScrapeState::Done));
    assert!(action.is_none());
}
