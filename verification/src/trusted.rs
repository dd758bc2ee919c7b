//! The assumptions this crate makes about code it does not verify.
//!
//! Everything here is believed, not proved: two standard-library functions
//! that vstd leaves unspecified, and the CSV reader of the `csv` crate.

use vstd::prelude::*;
use vstd::utf8::{decode_utf8, valid_utf8};

verus! {

/// `String::push` appends exactly one character to the end of the string.
pub assume_specification[ String::push ](text: &mut String, c: char)
    ensures
        final(text)@ == old(text)@.push(c),
;

/// The error of `String::from_utf8`, carried through unopened.
#[verifier::external_type_specification]
#[verifier::external_body]
pub struct ExFromUtf8Error(std::string::FromUtf8Error);

/// `String::from_utf8` succeeds exactly on well-formed UTF-8 and then yields
/// the text that the bytes encode.
pub assume_specification[ String::from_utf8 ](bytes: Vec<u8>) -> (decoded: Result<
    String,
    std::string::FromUtf8Error,
>)
    ensures
        decoded is Ok <==> valid_utf8(bytes@),
        decoded matches Ok(text) ==> text@ == decode_utf8(bytes@),
;

/// The error that `csv::Reader` reports for a record, carried through
/// unopened.
#[verifier::external_type_specification]
#[verifier::external_body]
pub struct ExCsvError(csv::Error);

/// What `csv::Reader`, in its default configuration, yields for `data`: one
/// entry per record after the header record, in order. An entry is the
/// record's fields, or `None` where the reader reports an error for that
/// record.
pub uninterp spec fn csv_records(data: Seq<char>) -> Seq<Option<Seq<Seq<char>>>>;

/// The plain value that stands for one item of the reader's output.
pub open spec fn record_fields<E>(record: Result<Vec<String>, E>) -> Option<Seq<Seq<char>>> {
    match record {
        Ok(fields) => Some(fields.deep_view()),
        Err(_) => None,
    }
}

/// The plain values that stand for the reader's whole output.
pub open spec fn records_view<E>(records: Seq<Result<Vec<String>, E>>) -> Seq<
    Option<Seq<Seq<char>>>,
> {
    Seq::new(records.len(), |i: int| record_fields(records[i]))
}

/// Runs `csv::Reader::from_reader(..).records()` over `data` to the end and
/// hands back every item with its fields copied into owned strings. The
/// contract only gives that output its name, `csv_records`: the reader is
/// deterministic, and on in-memory input it always comes to an end.
#[verifier::external_body]
pub(crate) fn read_records(data: &str) -> (records: Vec<Result<Vec<String>, csv::Error>>)
    ensures
        records_view(records@) == csv_records(data@),
{
    let mut reader = csv::Reader::from_reader(data.as_bytes());
    reader.records().map(|r| r.map(|rec| rec.iter().map(|f| f.to_owned()).collect())).collect()
}

} // verus!
