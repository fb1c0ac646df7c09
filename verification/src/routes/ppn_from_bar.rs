//! Looking up the PPN of a volume by its barcode in the union catalogue
//! (over Z39.50), answered with a number or a text body.

use vstd::prelude::*;
use crate::routes::{text_answer, text_response, BAD_REQUEST, INTERNAL_SERVER_ERROR, NOT_FOUND, OK};
use crate::scraping::models::{ApiResponseBody, ApiResponseBodyView, BarcodeQuery, BodyResponse, BodyResponseView};
use crate::json::{json_parses, json_root, json_step, string_of, JsonDocument, JsonStep};
use crate::text::{i32_to_text, int_text, parse_i32, parse_in_range};

verus! {

/// The Z39.50 database that holds the library's holdings.
pub const CATALOGUE_SERVER: &'static str = "z3950.k10plus.de:210/opac-de-18";

/// What the lookup of a barcode in the catalogue came to.
pub enum LookupOutcome {
    /// The catalogue could not be reached.
    ConnectionFailed,
    /// The search failed.
    SearchFailed,
    /// The search found nothing.
    NoHits,
    /// The first record could not be fetched.
    RecordUnavailable,
    /// The text of the first record, asked for as JSON.
    Record(String),
}

/// The search for a barcode in the catalogue's query language: the barcode
/// index (use attribute 8535).
pub open spec fn barcode_query(barcode: i32) -> Seq<char> {
    "@attr 1=8535 "@ + int_text(barcode as int)
}

/// The answer to a request without a barcode: 400.
pub open spec fn missing_barcode_answer() -> BodyResponseView {
    text_answer(BAD_REQUEST, "barcode query parameter is required."@)
}

/// The catalogue search for the barcode of `query`, or the answer where it
/// gives none.
pub fn barcode_search(query: &BarcodeQuery) -> (res: Result<String, BodyResponse>)
    ensures
        query.barcode matches Some(b) ==> (res matches Ok(q) && q@ == barcode_query(b)),
        query.barcode is None ==> (res matches Err(r) && r.deep_view() == missing_barcode_answer()),
{
    match query.barcode {
        Some(barcode) => {
            let mut q = "@attr 1=8535 ".to_owned();
            let digits = i32_to_text(barcode);
            q.append(digits.as_str());
            Ok(q)
        },
        None => Err(text_response(BAD_REQUEST, "barcode query parameter is required.")),
    }
}

/// The record's control number: the string member `001` of the first
/// element of the record's `fields`; the empty text where the record has
/// none.
pub open spec fn control_number(record: Seq<char>) -> Seq<char> {
    match json_step(json_root(record), JsonStep::Member("fields"@)) {
        Some(fields) => match json_step(fields, JsonStep::Element(0)) {
            Some(first) => match json_step(first, JsonStep::Member("001"@)) {
                Some(number) => match string_of(number) {
                    Some(t) => t,
                    None => Seq::empty(),
                },
                None => Seq::empty(),
            },
            None => Seq::empty(),
        },
        None => Seq::empty(),
    }
}

/// Reads the control number of the parsed record `record`.
pub fn read_control_number(record: &JsonDocument) -> (res: String)
    ensures
        res@ == control_number(record@),
{
    let root = record.root();
    let fields = match root.member("fields") {
        Some(f) => f,
        None => return String::new(),
    };
    let first = match fields.element(0) {
        Some(f) => f,
        None => return String::new(),
    };
    let number = match first.member("001") {
        Some(n) => n,
        None => return String::new(),
    };
    match number.as_str() {
        Some(t) => t,
        None => String::new(),
    }
}

/// The answer to the record text `record`: 500 where it is not JSON;
/// otherwise 200 with its control number where that is a decimal `i32`,
/// else 500.
pub open spec fn record_answer(record: Seq<char>) -> BodyResponseView {
    if !json_parses(record) {
        text_answer(INTERNAL_SERVER_ERROR, "Failed to parse record from the library server."@)
    } else {
        match parse_in_range(control_number(record), -0x8000_0000, 0x7fff_ffff) {
            Some(ppn) => BodyResponseView { status: OK, body: ApiResponseBodyView::Number(ppn as i32) },
            None => text_answer(INTERNAL_SERVER_ERROR, "Failed to extract PPN from the record."@),
        }
    }
}

/// Answers with the PPN in the record text `record`.
pub fn read_record(record: &str) -> (res: BodyResponse)
    ensures
        res.deep_view() == record_answer(record@),
{
    let document = match JsonDocument::parse(record) {
        Some(d) => d,
        None => return text_response(
            INTERNAL_SERVER_ERROR,
            "Failed to parse record from the library server.",
        ),
    };
    let number = read_control_number(&document);
    match parse_i32(number.as_str()) {
        Some(ppn) => BodyResponse { status: OK, body: ApiResponseBody::Number(ppn) },
        None => text_response(INTERNAL_SERVER_ERROR, "Failed to extract PPN from the record."),
    }
}

/// The answer to a barcode lookup that came to `outcome`: 500 where the
/// catalogue failed, 404 where nothing was found, and otherwise the answer
/// to the first record's text.
pub open spec fn lookup_answer(outcome: LookupOutcome) -> BodyResponseView {
    match outcome {
        LookupOutcome::ConnectionFailed => text_answer(
            INTERNAL_SERVER_ERROR,
            "Failed to connect to the library server."@,
        ),
        LookupOutcome::SearchFailed => text_answer(
            INTERNAL_SERVER_ERROR,
            "Failed to perform search on the library server."@,
        ),
        LookupOutcome::NoHits => text_answer(NOT_FOUND, "No volume found for the given barcode."@),
        LookupOutcome::RecordUnavailable => text_answer(
            INTERNAL_SERVER_ERROR,
            "Failed to retrieve record from the library server."@,
        ),
        LookupOutcome::Record(record) => record_answer(record@),
    }
}

/// Answers a barcode lookup that came to `outcome`.
pub fn get(outcome: LookupOutcome) -> (res: BodyResponse)
    ensures
        res.deep_view() == lookup_answer(outcome),
{
    match outcome {
        LookupOutcome::ConnectionFailed => text_response(
            INTERNAL_SERVER_ERROR,
            "Failed to connect to the library server.",
        ),
        LookupOutcome::SearchFailed => text_response(
            INTERNAL_SERVER_ERROR,
            "Failed to perform search on the library server.",
        ),
        LookupOutcome::NoHits => text_response(NOT_FOUND, "No volume found for the given barcode."),
        LookupOutcome::RecordUnavailable => text_response(
            INTERNAL_SERVER_ERROR,
            "Failed to retrieve record from the library server.",
        ),
        LookupOutcome::Record(record) => read_record(record.as_str()),
    }
}

} // verus!
