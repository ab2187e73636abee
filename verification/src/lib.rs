//! Verified parsing, normalization and key-building logic of the Populist
//! election-data scrapers: text helpers, Minnesota result identities,
//! Texas county result rules and ref keys, Hart PDF result parsing, Civix
//! result tables, filing helpers and the small scraper heuristics.
pub mod text;
pub mod slug;
pub mod mn_results;
pub mod mn_result_keys;
pub mod mn_results_update;
pub mod pattern;
pub mod county_results;
pub mod tx_results;
pub mod sos_xml;
pub mod hart_pdf;
pub mod embed_cleanup;
pub mod html;
pub mod web_scrape;
pub mod congress;
pub mod tx_filings;
pub mod mn_filings;
pub mod mn_ballot_measures;
pub mod extensions;
pub mod co_candidates;
pub mod tx_merge;
pub mod csv_text;
pub mod county_files;
pub mod civix;
pub mod post_processing;
pub mod bill_summaries;
pub mod laws;
pub mod laws_rows;
