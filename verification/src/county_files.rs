//! Texas county results files: Clarity download lists, the names that
//! downloaded zips and extracted CSVs get, the county column added to a
//! CSV, and the county named by a Hart PDF's file name.
use vstd::prelude::*;
use crate::csv_text::{csv_error_message, csv_table, csv_written, read_csv_table, write_csv};
use crate::hart_pdf::{title_case};
use crate::html::cells_view;
use crate::text::{
    chars_eq, chars_of, concat, contains, contains_exec, eq_ignore_ascii_case, eq_ignore_case,
    opt_str_view, opt_view, slice_chars, split_once, split_once_exec, starts_with, starts_with_exec,
    string_of,
    strings_view, trim, trim_end_char, trim_end_char_exec, trim_exec,
};

verus! {

/// Directory of the Clarity data, under the scrapers crate.
pub const TX_CLARITY_DATA_DIR: &'static str = "data/tx/counties/clarity";

/// Directory of the county URL list.
pub const TX_COUNTIES_DIR: &'static str = "data/tx/counties";

/// The county URL list (columns url, county_name, party).
pub const COUNTY_CLARITY_RESULTS_URLS_CSV: &'static str = "county_clarity_results_urls.csv";

/// Directory of the Hart PDFs.
pub const TX_HART_INPUT_DIR: &'static str = "data/tx/counties/hart/input";

/// Directory of the CSVs made from Hart PDFs.
pub const TX_HART_OUTPUT_DIR: &'static str = "data/tx/counties/hart/output";

/// One row of the county URL list.
pub struct CountyClarityResultsUrl {
    pub url: String,
    pub county_name: String,
    /// A party ("dem", "rep"), appended to the file names where present.
    pub party: Option<String>,
}

pub ghost struct UrlRowView {
    pub url: Seq<char>,
    pub county_name: Seq<char>,
    pub party: Option<Seq<char>>,
}

impl CountyClarityResultsUrl {
    pub open spec fn view(&self) -> UrlRowView {
        UrlRowView { url: self.url@, county_name: self.county_name@, party: opt_view(self.party) }
    }
}

/// A character of a file name: spaces and tabs become `_`, ASCII letters,
/// digits, `-` and `_` stay, anything else becomes `_`.
pub open spec fn filename_char(c: char) -> char {
    if c == ' ' || c == '\t' {
        '_'
    } else if ('a' <= c && c <= 'z') || ('A' <= c && c <= 'Z') || ('0' <= c && c <= '9') || c == '-' || c == '_' {
        c
    } else {
        '_'
    }
}

/// `s` without its leading run of `c`.
pub open spec fn trim_start_char(s: Seq<char>, c: char) -> Seq<char>
    decreases s.len(),
{
    if s.len() > 0 && s[0] == c {
        trim_start_char(s.drop_first(), c)
    } else {
        s
    }
}

/// A name made safe for a file name: trimmed, each character mapped by
/// [`filename_char`], leading and trailing `_` dropped.
pub open spec fn sanitized(s: Seq<char>) -> Seq<char> {
    trim_end_char(trim_start_char(trim(s).map_values(|c: char| filename_char(c)), '_'), '_')
}

fn trim_start_char_exec(s: &Vec<char>, c: char) -> (r: Vec<char>)
    ensures
        r@ == trim_start_char(s@, c),
{
    let mut i: usize = 0;
    assert(s@.skip(0) == s@);
    while i < s.len() && s[i] == c
        invariant
            i <= s.len(),
            trim_start_char(s@.skip(i as int), c) == trim_start_char(s@, c),
        decreases s.len() - i,
    {
        assert(s@.skip(i as int).drop_first() =~= s@.skip(i + 1));
        i = i + 1;
    }
    assert(s@.skip(i as int) =~= s@.subrange(i as int, s.len() as int));
    slice_chars(s, i, s.len())
}

/// A name made safe for a file name.
pub fn sanitize_for_filename(s: &str) -> (r: String)
    ensures
        r@ == sanitized(s@),
{
    let t = trim_exec(&chars_of(s));
    let mut m: Vec<char> = Vec::new();
    let mut i: usize = 0;
    while i < t.len()
        invariant
            i <= t.len(),
            m@ == t@.take(i as int).map_values(|c: char| filename_char(c)),
        decreases t.len() - i,
    {
        let c = t[i];
        let d = if c == ' ' || c == '\t' {
            '_'
        } else if ('a' <= c && c <= 'z') || ('A' <= c && c <= 'Z') || ('0' <= c && c <= '9') || c == '-' || c == '_' {
            c
        } else {
            '_'
        };
        m.push(d);
        proof {
            assert(t@.take(i + 1).map_values(|c: char| filename_char(c)) =~= t@.take(i as int).map_values(
                |c: char| filename_char(c),
            ).push(filename_char(c)));
        }
        i = i + 1;
    }
    assert(t@.take(t.len() as int) =~= t@);
    string_of(trim_end_char_exec(&trim_start_char_exec(&m, '_'), '_').as_slice())
}

/// The position of the last `c` in `s`.
pub open spec fn last_index_of(s: Seq<char>, c: char) -> Option<int>
    decreases s.len(),
{
    if s.len() == 0 {
        None
    } else if s.last() == c {
        Some(s.len() - 1)
    } else {
        last_index_of(s.drop_last(), c)
    }
}

fn last_index_of_exec(s: &Vec<char>, c: char) -> (r: Option<usize>)
    ensures
        match r {
            Some(i) => last_index_of(s@, c) == Some(i as int) && i < s.len(),
            None => last_index_of(s@, c) is None,
        },
{
    let mut k: usize = s.len();
    assert(s@.take(k as int) =~= s@);
    while k > 0
        invariant
            k <= s.len(),
            last_index_of(s@.take(k as int), c) == last_index_of(s@, c),
        decreases k,
    {
        assert(s@.take(k as int).drop_last() =~= s@.take(k - 1));
        assert(s@.take(k as int).last() == s@[k - 1]);
        if s[k - 1] == c {
            return Some(k - 1);
        }
        k = k - 1;
    }
    None
}

/// The last `/`-separated part of a URL.
pub open spec fn url_base_name(url: Seq<char>) -> Seq<char> {
    match last_index_of(url, '/') {
        Some(i) => url.subrange(i + 1, url.len() as int),
        None => url,
    }
}

/// The suffix that names a county (and party) in file names.
pub open spec fn county_party_suffix(county_name: Seq<char>, party: Option<Seq<char>>) -> Seq<char> {
    let c = sanitized(county_name);
    if c.len() == 0 {
        seq![]
    } else {
        match party {
            Some(p) => if sanitized(p).len() == 0 {
                c
            } else {
                c + "_"@ + sanitized(p)
            },
            None => c,
        }
    }
}

/// The local file name of a downloaded zip: the URL's base name with the
/// county (and party) suffix put before its extension.
pub open spec fn zip_filename(url: Seq<char>, county_name: Seq<char>, party: Option<Seq<char>>) -> Seq<char> {
    let base = url_base_name(url);
    let suffix = county_party_suffix(county_name, party);
    if suffix.len() == 0 {
        base
    } else {
        match last_index_of(base, '.') {
            Some(d) => base.subrange(0, d) + "_"@ + suffix + base.subrange(d, base.len() as int),
            None => base + "_"@ + suffix,
        }
    }
}

/// The local file name of a downloaded zip, e.g. "summary_dallas_dem.zip"
/// for "https://x.com/summary.zip", county "dallas", party "dem".
pub fn zip_filename_for_url_county_party(url: &str, county_name: &str, party: Option<&str>) -> (r: String)
    ensures
        r@ == zip_filename(
            url@,
            county_name@,
            match party {
                Some(p) => Some(p@),
                None => None,
            },
        ),
{
    let u = chars_of(url);
    let base = match last_index_of_exec(&u, '/') {
        Some(i) => slice_chars(&u, i + 1, u.len()),
        None => u,
    };
    let c = chars_of(sanitize_for_filename(county_name).as_str());
    let suffix = if c.len() == 0 {
        Vec::new()
    } else {
        match party {
            Some(p) => {
                let ps = chars_of(sanitize_for_filename(p).as_str());
                if ps.len() == 0 {
                    c
                } else {
                    concat(&concat(&c, &chars_of("_")), &ps)
                }
            },
            None => c,
        }
    };
    if suffix.len() == 0 {
        return string_of(base.as_slice());
    }
    let named = match last_index_of_exec(&base, '.') {
        Some(d) => concat(
            &concat(&concat(&slice_chars(&base, 0, d), &chars_of("_")), &suffix),
            &slice_chars(&base, d, base.len()),
        ),
        None => concat(&concat(&base, &chars_of("_")), &suffix),
    };
    string_of(named.as_slice())
}

/// The suffix given to a county's extracted CSVs: the county, and where
/// there is a party `_` and the party, each sanitized.
pub open spec fn csv_file_suffix(county_name: Seq<char>, party: Option<Seq<char>>) -> Seq<char> {
    match party {
        Some(p) => sanitized(county_name) + "_"@ + sanitized(p),
        None => sanitized(county_name),
    }
}

/// The suffix given to the CSVs extracted for a URL list row.
pub fn clarity_file_suffix(row: &CountyClarityResultsUrl) -> (r: String)
    ensures
        r@ == csv_file_suffix(row.county_name@, opt_view(row.party)),
{
    let c = chars_of(sanitize_for_filename(row.county_name.as_str()).as_str());
    match &row.party {
        Some(p) => {
            let ps = chars_of(sanitize_for_filename(p.as_str()).as_str());
            string_of(concat(&concat(&c, &chars_of("_")), &ps).as_slice())
        },
        None => string_of(c.as_slice()),
    }
}

/// The URL list row of a record: URL and county trimmed, the party trimmed
/// where not empty; none for a record of fewer than two fields, an empty
/// URL or a commented-out one (starting with `#`).
pub open spec fn url_row_of(rec: Seq<Seq<char>>) -> Option<UrlRowView> {
    if rec.len() < 2 {
        None
    } else {
        let url = trim(rec[0]);
        let party = if rec.len() > 2 && trim(rec[2]).len() > 0 {
            Some(trim(rec[2]))
        } else {
            None
        };
        if url.len() > 0 && !starts_with(url, "#"@) {
            Some(UrlRowView { url, county_name: trim(rec[1]), party })
        } else {
            None
        }
    }
}

/// The URL list rows of the records, in order.
pub open spec fn url_rows(recs: Seq<Seq<Seq<char>>>) -> Seq<UrlRowView>
    decreases recs.len(),
{
    if recs.len() == 0 {
        seq![]
    } else {
        match url_row_of(recs.last()) {
            Some(r) => url_rows(recs.drop_last()).push(r),
            None => url_rows(recs.drop_last()),
        }
    }
}

fn url_row_exec(rec: &Vec<String>) -> (r: Option<CountyClarityResultsUrl>)
    ensures
        match r {
            Some(u) => url_row_of(strings_view(rec@)) == Some(u@),
            None => url_row_of(strings_view(rec@)) is None,
        },
{
    if rec.len() < 2 {
        return None;
    }
    let ghost rv = strings_view(rec@);
    assert(rv[0] == rec@[0]@);
    assert(rv[1] == rec@[1]@);
    let url = trim_exec(&chars_of(rec[0].as_str()));
    let county = trim_exec(&chars_of(rec[1].as_str()));
    let party = if rec.len() > 2 {
        assert(rv[2] == rec@[2]@);
        let p = trim_exec(&chars_of(rec[2].as_str()));
        if p.len() > 0 {
            Some(string_of(p.as_slice()))
        } else {
            None
        }
    } else {
        None
    };
    if url.len() > 0 && url[0] != '#' {
        proof {
            reveal_strlit("#");
            assert("#"@ =~= seq!['#']);
            assert(url@.subrange(0, 1) =~= seq![url@[0]]);
            assert(url@[0] != '#');
            assert(url@.subrange(0, 1)[0] != "#"@[0]);
            assert(url@.subrange(0, 1) != "#"@);
            assert(!starts_with(url@, "#"@));
        }
        Some(CountyClarityResultsUrl { url: string_of(url.as_slice()), county_name: string_of(county.as_slice()), party })
    } else {
        proof {
            reveal_strlit("#");
            assert("#"@ =~= seq!['#']);
            if url@.len() > 0 {
                assert(url@.subrange(0, 1) =~= "#"@);
            }
        }
        None
    }
}

pub open spec fn url_rows_view(v: Seq<CountyClarityResultsUrl>) -> Seq<UrlRowView> {
    v.map_values(|u: CountyClarityResultsUrl| u@)
}

/// The rows of the county URL list (a CSV text with a header row), or the
/// reader's error message.
pub fn load_county_clarity_results_urls(csv: &str) -> (r: Result<Vec<CountyClarityResultsUrl>, String>)
    ensures
        match r {
            Ok(rows) => csv_table(csv@) matches Some((_, recs)) && url_rows_view(rows@) == url_rows(recs),
            Err(_) => csv_table(csv@) is None,
        },
{
    let (_headers, recs) = match read_csv_table(csv) {
        Ok(t) => t,
        Err(e) => return Err(csv_error_message(&e)),
    };
    let ghost rv = cells_view(recs@);
    let mut out: Vec<CountyClarityResultsUrl> = Vec::new();
    let mut k: usize = 0;
    assert(rv.take(0) =~= Seq::<Seq<Seq<char>>>::empty());
    assert(url_rows_view(out@) =~= Seq::<UrlRowView>::empty());
    while k < recs.len()
        invariant
            k <= recs.len(),
            rv == cells_view(recs@),
            url_rows_view(out@) == url_rows(rv.take(k as int)),
        decreases recs.len() - k,
    {
        proof {
            assert(rv.take(k + 1).drop_last() =~= rv.take(k as int));
            assert(rv.take(k + 1).last() == strings_view(recs@[k as int]@));
        }
        match url_row_exec(&recs[k]) {
            Some(u) => {
                let ghost before = out@;
                out.push(u);
                proof {
                    assert(url_rows_view(out@) =~= url_rows_view(before).push(u@));
                }
            },
            None => {},
        }
        k = k + 1;
    }
    assert(rv.take(recs.len() as int) =~= rv);
    Ok(out)
}

/// The rows of a CSV with a "county" column added: the header gets
/// "county", each record the county's name.
pub open spec fn with_county(headers: Seq<Seq<char>>, recs: Seq<Seq<Seq<char>>>, county: Seq<char>) -> Seq<
    Seq<Seq<char>>,
> {
    seq![headers.push("county"@)] + recs.map_values(|r: Seq<Seq<char>>| r.push(county))
}

/// A CSV text with a "county" column holding `county_value` added, written
/// back as CSV; or the reader's error message.
pub fn add_county_column(csv: &str, county_value: &str) -> (r: Result<Vec<u8>, String>)
    ensures
        match r {
            Ok(b) => csv_table(csv@) matches Some((h, recs)) && csv_written(
                with_county(h, recs, county_value@),
            ) == Some(b@),
            Err(_) => csv_table(csv@) is None,
        },
{
    let (headers, recs) = match read_csv_table(csv) {
        Ok(t) => t,
        Err(e) => return Err(csv_error_message(&e)),
    };
    let ghost rv = cells_view(recs@);
    let ghost hv = strings_view(headers@);
    let mut rows: Vec<Vec<String>> = Vec::new();
    let mut h = headers;
    let county_header = String::from_str("county");
    h.push(county_header);
    assert(strings_view(h@) =~= hv.push("county"@));
    rows.push(h);
    let ghost head = cells_view(rows@);
    assert(head =~= seq![hv.push("county"@)]);
    let mut k: usize = 0;
    while k < recs.len()
        invariant
            k <= recs.len(),
            rv == cells_view(recs@),
            head == seq![hv.push("county"@)],
            forall|i: int| 0 <= i < recs@.len() ==> #[trigger] recs@[i]@.len() == hv.len(),
            csv_table(csv@) == Some((hv, rv)),
            cells_view(rows@) == head + rv.take(k as int).map_values(|r: Seq<Seq<char>>| r.push(county_value@)),
        decreases recs.len() - k,
    {
        let ghost before = rows@;
        let mut rec = recs[k].clone();
        rec.push(String::from_str(county_value));
        rows.push(rec);
        proof {
            assert(cells_view(rows@) =~= cells_view(before).push(strings_view(rec@)));
            assert(strings_view(rec@) =~= rv[k as int].push(county_value@));
            assert(rv.take(k + 1).map_values(|r: Seq<Seq<char>>| r.push(county_value@)) =~= rv.take(k as int).map_values(
                |r: Seq<Seq<char>>| r.push(county_value@),
            ).push(rv[k as int].push(county_value@)));
        }
        k = k + 1;
    }
    assert(rv.take(recs.len() as int) =~= rv);
    assert(cells_view(rows@) =~= with_county(hv, rv, county_value@));
    proof {
        let w = cells_view(rows@);
        assert forall|i: int| 0 <= i < w.len() implies #[trigger] w[i].len() == w[0].len() by {
            if i > 0 {
                assert(w[i] == rv[i - 1].push(county_value@));
                assert(rv[i - 1] == strings_view(recs@[i - 1]@));
            }
        }
    }
    match write_csv(&rows) {
        Some(b) => Ok(b),
        None => Err(String::new()),
    }
}

/// The county of a Hart PDF named `cumulative_{county}_{party}`: the part
/// after the `cumulative_` prefix, up to the next `_`, title-cased; empty
/// where the name does not begin with that prefix or that part is empty.
pub open spec fn county_of_filename(stem: Seq<char>) -> Seq<char> {
    let pre = "cumulative_"@;
    if !starts_with(stem, pre) {
        seq![]
    } else {
        let rest = stem.subrange(pre.len() as int, stem.len() as int);
        let raw = match split_once(rest, "_"@) {
            Some((seg, _)) => seg,
            None => rest,
        };
        title_case(raw)
    }
}

/// The county named by a Hart PDF's file name (without extension).
pub fn county_from_filename(filename_stem: &str) -> (r: String)
    ensures
        r@ == county_of_filename(filename_stem@),
{
    let pre = chars_of("cumulative_");
    let stem = chars_of(filename_stem);
    proof {
        reveal_strlit("cumulative_");
    }
    if !starts_with_exec(&stem, &pre) {
        return String::new();
    }
    let rest = slice_chars(&stem, pre.len(), stem.len());
    let raw = match split_once_exec(&rest, &chars_of("_")) {
        Some((seg, _)) => seg,
        None => rest,
    };
    string_of(crate::hart_pdf::title_case_exec(&raw).as_slice())
}

/// The last component of a `/`-separated path, as `Path::file_name`
/// gives it: empty and `.` components are passed over, and a last
/// component `..` (or none at all) gives `None`.
pub open spec fn path_file_name(s: Seq<char>) -> Option<Seq<char>>
    decreases s.len(),
{
    match last_index_of(s, '/') {
        Some(k) => {
            let seg = s.subrange(k + 1, s.len() as int);
            if seg.len() == 0 || seg == "."@ {
                if 0 <= k < s.len() {
                    path_file_name(s.subrange(0, k))
                } else {
                    None
                }
            } else if seg == ".."@ {
                None
            } else {
                Some(seg)
            }
        },
        None => if s.len() == 0 || s == "."@ || s == ".."@ {
            None
        } else {
            Some(s)
        },
    }
}

proof fn lemma_last_index_of_bounds(s: Seq<char>, c: char)
    ensures
        last_index_of(s, c) matches Some(k) ==> 0 <= k < s.len() && s[k] == c,
    decreases s.len(),
{
    if s.len() > 0 && s.last() != c {
        lemma_last_index_of_bounds(s.drop_last(), c);
    }
}

fn path_file_name_exec(s: &Vec<char>) -> (r: Option<Vec<char>>)
    ensures
        match r {
            Some(b) => path_file_name(s@) == Some(b@),
            None => path_file_name(s@) is None,
        },
    decreases s.len(),
{
    proof {
        lemma_last_index_of_bounds(s@, '/');
        reveal_strlit(".");
        reveal_strlit("..");
    }
    let dot = chars_of(".");
    let dotdot = chars_of("..");
    match last_index_of_exec(s, '/') {
        Some(k) => {
            let seg = slice_chars(s, k + 1, s.len());
            if seg.len() == 0 || chars_eq(&seg, &dot) {
                path_file_name_exec(&slice_chars(s, 0, k))
            } else if chars_eq(&seg, &dotdot) {
                None
            } else {
                Some(seg)
            }
        },
        None => {
            if s.len() == 0 || chars_eq(s, &dot) || chars_eq(s, &dotdot) {
                None
            } else {
                Some(slice_chars(s, 0, s.len()))
            }
        },
    }
}

/// A file name's stem and extension, as `Path::file_stem` and
/// `Path::extension` give them: split at the last `.`, unless there is none
/// or it is the first character.
pub open spec fn stem_and_extension(name: Seq<char>) -> (Seq<char>, Option<Seq<char>>) {
    match last_index_of(name, '.') {
        Some(k) => if k > 0 {
            (name.subrange(0, k), Some(name.subrange(k + 1, name.len() as int)))
        } else {
            (name, None)
        },
        None => (name, None),
    }
}

/// What is done with one entry of a results zip.
pub enum UnzipStep {
    /// Not extracted: a directory entry ending in `/`, or macOS metadata.
    Skip,
    /// A directory entry: create the directory `name` in the output.
    CreateDir { name: String },
    /// A file: write it as `name` in the output, then rename it to
    /// `rename_to` where that is given.
    Extract { name: String, rename_to: Option<String> },
}

/// The name an entry is written under: its last path component, or the
/// whole entry name where it has none.
pub open spec fn entry_base(name: Seq<char>) -> Seq<char> {
    match path_file_name(name) {
        Some(b) => b,
        None => name,
    }
}

/// The new name of an extracted CSV: `{stem}_{suffix}.csv` where the
/// sanitized suffix is not empty and the extension is "csv" in any case.
pub open spec fn csv_rename(base: Seq<char>, suffix: Option<Seq<char>>) -> Option<Seq<char>> {
    match suffix {
        Some(x) => {
            let sfx = sanitized(x);
            let (stem, ext) = stem_and_extension(base);
            match ext {
                Some(e) => if sfx.len() > 0 && eq_ignore_case(e, "csv"@) {
                    Some(stem + "_"@ + sfx + ".csv"@)
                } else {
                    None
                },
                None => None,
            }
        },
        None => None,
    }
}

/// The step for the zip entry `name` (`is_dir` where the archive marks it
/// a directory): entries ending in `/` or holding `__MACOSX` are skipped;
/// the rest are written under their base name, and an extracted CSV gets
/// the suffix (sanitized) put before its extension.
pub fn unzip_entry_step(name: &str, is_dir: bool, suffix: Option<&str>) -> (r: UnzipStep)
    ensures
        ({
            let n = name@;
            if (n.len() > 0 && n.last() == '/') || contains(n, "__MACOSX"@) {
                r is Skip
            } else if is_dir {
                r matches UnzipStep::CreateDir { name: d } && d@ == entry_base(n)
            } else {
                r matches UnzipStep::Extract { name: f, rename_to } && f@ == entry_base(n) && opt_view(
                    rename_to,
                ) == csv_rename(entry_base(n), opt_str_view(suffix))
            }
        }),
{
    let n = chars_of(name);
    if (n.len() > 0 && n[n.len() - 1] == '/') || contains_exec(&n, &chars_of("__MACOSX")) {
        return UnzipStep::Skip;
    }
    let base = match path_file_name_exec(&n) {
        Some(b) => b,
        None => n,
    };
    if is_dir {
        return UnzipStep::CreateDir { name: string_of(&base) };
    }
    let rename_to = match suffix {
        Some(x) => {
            let sfx = chars_of(sanitize_for_filename(x).as_str());
            proof {
                lemma_last_index_of_bounds(base@, '.');
            }
            match last_index_of_exec(&base, '.') {
                Some(k) => if k > 0 && sfx.len() > 0 && eq_ignore_ascii_case(
                    &slice_chars(&base, k + 1, base.len()),
                    &chars_of("csv"),
                ) {
                    let stem = slice_chars(&base, 0, k);
                    let with_sfx = concat(&concat(&stem, &chars_of("_")), &sfx);
                    Some(string_of(&concat(&with_sfx, &chars_of(".csv"))))
                } else {
                    None
                },
                None => None,
            }
        },
        None => None,
    };
    UnzipStep::Extract { name: string_of(&base), rename_to }
}

} // verus!
