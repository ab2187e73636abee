# populist_scrapers

Verified parsing, normalization and key-building logic for the Populist
election-data scrapers, written in Verus. Every function in `src/` carries a
contract that Verus proves; the few calls into outside crates (`regex`,
`scraper`, `url`, `form_urlencoded`, `csv`, `encoding_rs`, `roxmltree`,
`slugify`) and a handful of `std` text conversions sit behind small trusted
wrappers whose doc comments say what is assumed of them. PDF text
extraction (`pdf-extract`, which panics on some malformed documents) and
zip archives (`zip`) are handled in `app/`, which hands the library the
extracted text and the entry names.

## Layout

- `src/text.rs`, `src/slug.rs`, `src/pattern.rs`, `src/html.rs`,
  `src/csv_text.rs`: text helpers with their specifications, slugs and ref
  keys, and the wrappers around the outside crates.
- `src/mn_results.rs`, `src/mn_result_keys.rs`, `src/mn_results_update.rs`:
  Minnesota result files (decoding, CSV conversion, staging tables) and the
  ref keys that match result rows to race candidates.
- `src/mn_filings.rs`, `src/tx_filings.rs`: candidate filing rules
  (addresses, tickets, same-person checks, ref keys).
- `src/county_results.rs`, `src/tx_results.rs`, `src/sos_xml.rs`,
  `src/civix.rs`, `src/hart_pdf.rs`, `src/county_files.rs`, `src/tx_merge.rs`:
  Texas result sources (Secretary of State XML, Civix tables, county
  Clarity/Hart/other CSVs and Hart PDFs) mapped to staging rows, the plan
  for extracting a results zip, and the merge decisions.
- `src/web_scrape.rs`: candidate web-site heuristics and the per-candidate
  scrape as a state machine.
- `src/bill_summaries.rs`: where a bill's PDF is found, the cut of its text
  to the model's token budget and the summary prompt.
- `src/congress.rs`, `src/post_processing.rs`, `src/embed_cleanup.rs`,
  `src/mn_ballot_measures.rs`, `src/co_candidates.rs`, `src/extensions.rs`:
  the remaining scripts' decisions and texts.
- `src/laws.rs`: properties that span functions, proved over the same
  specifications.
- `tests/`: executable tests of the library.
- `app/main.rs`: a command-line shell that reads files and calls the library.
