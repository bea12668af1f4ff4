//! The route table as delimited text. Reading the text into rows is the work
//! of the `csv` crate: the contract below is taken from it, not proved.

use crate::model::strings_view;
use vstd::prelude::*;

verus! {

/// The view of a table: its rows, each the texts of its columns.
pub open spec fn table_view(rows: Seq<Vec<String>>) -> Seq<Seq<Seq<char>>> {
    rows.map_values(|row: Vec<String>| strings_view(row@))
}

/// The view of the outcome of reading a table: its rows, or the reader's
/// message.
pub open spec fn read_view(table: Result<Vec<Vec<String>>, String>) -> Result<
    Seq<Seq<Seq<char>>>,
    Seq<char>,
> {
    match table {
        Ok(rows) => Ok(table_view(rows@)),
        Err(m) => Err(m@),
    }
}

/// What a reader of comma-separated text makes of a text: its records, each
/// the texts of its fields, or the message of the first error that the
/// reader meets. With `headers` the first record is taken for the header and
/// left out.
pub uninterp spec fn csv_records(text: Seq<char>, headers: bool) -> Result<
    Seq<Seq<Seq<char>>>,
    Seq<char>,
>;

/// `csv::Reader::records`, on a reader that `csv::ReaderBuilder` has made
/// over the bytes of the text, with `has_headers` set as given: every record
/// that the reader yields, or the text of the first error among them. The
/// result depends on the text and the setting alone.
#[verifier::external_body]
pub(crate) fn read_records(text: &str, headers: bool) -> (table: Result<Vec<Vec<String>>, String>)
    ensures
        read_view(table) == csv_records(text@, headers),
{
    let mut reader = csv::ReaderBuilder::new().has_headers(headers).from_reader(text.as_bytes());
    let mut rows: Vec<Vec<String>> = Vec::new();
    for record in reader.records() {
        match record {
            Ok(fields) => rows.push(fields.iter().map(String::from).collect()),
            Err(e) => return Err(e.to_string()),
        }
    }
    Ok(rows)
}

} // verus!
