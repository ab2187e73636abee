//! Reading and writing CSV text through the `csv` crate. What the reader
//! and writer give is named by uninterpreted functions of their arguments.
use vstd::prelude::*;
use crate::html::cells_view;
use crate::text::strings_view;

verus! {

#[verifier::external_type_specification]
#[verifier::external_body]
pub struct ExCsvError(csv::Error);

/// The header row and the records of a CSV text (comma-delimited, header
/// row first, every record as long as the header), or `None` where the
/// reader fails on it.
pub uninterp spec fn csv_table(text: Seq<char>) -> Option<(Seq<Seq<char>>, Seq<Seq<Seq<char>>>)>;

/// Calls `csv::ReaderBuilder::new().from_reader`, `Reader::headers` and
/// `Reader::records`, collecting every field as a `String`; named by
/// `csv_table`. The reader is not flexible: the header row fixes the field
/// count and a record of another length is an error, so every record it
/// returns is as long as the header row.
#[verifier::external_body]
pub(crate) fn read_csv_table(text: &str) -> (r: Result<(Vec<String>, Vec<Vec<String>>), csv::Error>)
    ensures
        match r {
            Ok((h, rs)) => csv_table(text@) == Some((strings_view(h@), cells_view(rs@))) && forall|i: int|
                0 <= i < rs@.len() ==> #[trigger] rs@[i]@.len() == h@.len(),
            Err(_) => csv_table(text@) is None,
        },
{
    let mut rdr = csv::ReaderBuilder::new().from_reader(text.as_bytes());
    let headers: Vec<String> = rdr.headers()?.iter().map(|s| s.to_string()).collect();
    let records = rdr.records().map(|r| r.map(|rec| rec.iter().map(|s| s.to_string()).collect())).collect::<Result<Vec<Vec<String>>, csv::Error>>()?;
    Ok((headers, records))
}

/// Calls `Display::fmt` of `csv::Error` (through `to_string`): what went
/// wrong and where.
#[verifier::external_body]
pub(crate) fn csv_error_message(e: &csv::Error) -> (r: String) {
    e.to_string()
}

/// Each record of a headerless text whose fields are separated by
/// `delimiter`, or `None` for a record the reader rejects.
pub uninterp spec fn csv_delimited_records(text: Seq<char>, delimiter: u8) -> Seq<Option<Seq<Seq<char>>>>;

/// The fields of each record, or `None` for a rejected one.
pub open spec fn records_view(v: Seq<Option<Vec<String>>>) -> Seq<Option<Seq<Seq<char>>>> {
    v.map_values(
        |o: Option<Vec<String>>|
            match o {
                Some(f) => Some(strings_view(f@)),
                None => None,
            },
    )
}

/// Calls `csv::ReaderBuilder::new().has_headers(false).delimiter(d)` and
/// `Reader::records`; named by `csv_delimited_records`.
#[verifier::external_body]
pub(crate) fn read_delimited_records(text: &str, delimiter: u8) -> (r: Vec<Option<Vec<String>>>)
    ensures
        records_view(r@) == csv_delimited_records(text@, delimiter),
{
    let mut rdr = csv::ReaderBuilder::new().has_headers(false).delimiter(delimiter).from_reader(text.as_bytes());
    rdr.records().map(|r| r.ok().map(|rec| rec.iter().map(|s| s.to_string()).collect())).collect()
}

/// The CSV text that a writer makes of the rows, or `None` where it fails
/// (the writer refuses a row whose length differs from the first row's).
pub uninterp spec fn csv_written(rows: Seq<Seq<Seq<char>>>) -> Option<Seq<u8>>;

/// Every row is as long as the first.
pub open spec fn same_lengths(rows: Seq<Seq<Seq<char>>>) -> bool {
    forall|i: int| 0 <= i < rows.len() ==> #[trigger] rows[i].len() == rows[0].len()
}

/// Calls `csv::Writer::from_writer` on a vector, `write_record` for each
/// row and `into_inner`; named by `csv_written`. The writer is not
/// flexible, so its only error on rows of one length would be a failed
/// write to the vector, which does not happen: such rows are written.
#[verifier::external_body]
pub(crate) fn write_csv(rows: &Vec<Vec<String>>) -> (r: Option<Vec<u8>>)
    ensures
        match r {
            Some(b) => csv_written(cells_view(rows@)) == Some(b@),
            None => csv_written(cells_view(rows@)) is None,
        },
        same_lengths(cells_view(rows@)) ==> r is Some,
{
    let mut wtr = csv::Writer::from_writer(Vec::new());
    for row in rows {
        wtr.write_record(row).ok()?;
    }
    wtr.into_inner().ok()
}

} // verus!
