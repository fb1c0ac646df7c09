//! The reservations page, answered with a body that lists the reservations
//! or says what went wrong.

use vstd::prelude::*;
use crate::scraping::models::SessionTokenQuery;
use crate::routes::{
    column_value,
    get_column_value,
    get_text_or_empty,
    invalid_token_msg,
    missing_token_msg,
    text_answer,
    text_or_empty,
    text_response,
    BAD_REQUEST,
    OK,
    UNAUTHORIZED,
};
use crate::routes::get_checked_out::rows_selector;
use crate::routes::get_reservations::{
    cancel_input_selector,
    library_label_selector,
    location_selector,
    title_selector,
};
use crate::scraping::html::{
    attribute_of,
    first_selected,
    is_logged_in,
    shows_login,
    page_scope,
    selection,
    texts_of,
    Document,
    Element,
    ElementId,
    Select,
};
use crate::scraping::libraries::{library_of, to_library};
use crate::scraping::models::{
    ppn_number,
    to_ppn,
    ApiResponseBody,
    ApiResponseBodyView,
    BodyResponse,
    BodyResponseView,
    Location,
    LocationView,
    Medium,
    MediumView,
    Reservation,
    ReservationView,
    Volume,
    VolumeView,
};
use crate::text::{after_marker, has_substring, join_from, joined, nonempty_trimmed, text_after, words};

verus! {

/// `o`'s text, or the empty text where there is none.
pub open spec fn or_empty(o: Option<Seq<char>>) -> Seq<char> {
    match o {
        Some(t) => t,
        None => Seq::empty(),
    }
}

/// The PPN in a row id of the form `...:ppn:<ppn>`: the number that
/// follows the first `:ppn:` (0 where no number follows it, or where the id
/// holds no `:ppn:`).
pub open spec fn ppn_of_id(id_attr: Seq<char>) -> i32 {
    ppn_number(or_empty(text_after(id_attr, ":ppn:"@)))
}

/// Reads the PPN from a row id.
pub fn get_medium_ppn_from_id(id_attr: &str) -> (res: i32)
    ensures
        res == ppn_of_id(id_attr@),
{
    let text = match after_marker(id_attr, ":ppn:") {
        Some(ppn) => ppn,
        None => String::new(),
    };
    to_ppn(text.as_str())
}

/// The value of the cancel checkbox of a row, or the empty text.
pub open spec fn cancel_value(row: ElementId) -> Seq<char> {
    match first_selected(row, cancel_input_selector()) {
        Some(input) => or_empty(attribute_of(input, "value"@)),
        None => Seq::empty(),
    }
}

/// The words of a row's location cell, where it has one.
pub open spec fn location_words_of(row: ElementId) -> Option<Seq<Seq<char>>> {
    match first_selected(row, location_selector()) {
        Some(cell) => Some(words(texts_of(cell))),
        None => None,
    }
}

/// A row can be read: its cancel checkbox's value holds a barcode, and its
/// location cell, where it has one, at least one word.
pub open spec fn entry_readable(row: ElementId) -> bool {
    &&& has_substring(cancel_value(row), ":bar:"@)
    &&& location_words_of(row) matches Some(ws) ==> ws.len() >= 1
}

/// The reservation that a readable row describes; missing parts read as
/// empty texts.
pub open spec fn entry_of(row: ElementId) -> ReservationView {
    let ppn = ppn_of_id(or_empty(attribute_of(row, "id"@)));
    let title = match first_selected(row, title_selector()) {
        Some(t) => text_or_empty(t),
        None => Seq::empty(),
    };
    let library = library_of(
        match first_selected(row, library_label_selector()) {
            Some(l) => text_or_empty(l),
            None => Seq::empty(),
        },
    );
    let section = match location_words_of(row) {
        Some(ws) => joined(ws.subrange(1, ws.len() as int)),
        None => Seq::empty(),
    };
    ReservationView {
        volume: VolumeView {
            medium: MediumView { ppn, title },
            bar: text_after(cancel_value(row), ":bar:"@).unwrap(),
            signature: or_empty(column_value(row, "Signatur"@)),
            location: LocationView { library, section },
        },
        due_date: or_empty(column_value(row, "Rückgabedatum"@)),
    }
}

/// Reads one row; `None` where it cannot be read.
pub fn read_entry(reservation: &Element) -> (res: Option<Reservation>)
    ensures
        res is Some <==> entry_readable(reservation@),
        res matches Some(r) ==> r.deep_view() == entry_of(reservation@),
{
    let id = match reservation.attr("id") {
        Some(id) => id,
        None => String::new(),
    };
    let ppn = get_medium_ppn_from_id(id.as_str());
    let title = match reservation.select_first("td[data-th=Titel] > span.title") {
        Some(e) => get_text_or_empty(&e),
        None => String::new(),
    };
    let signature = match get_column_value(reservation, "Signatur") {
        Some(t) => t,
        None => String::new(),
    };
    let due_date = match get_column_value(reservation, "Rückgabedatum") {
        Some(t) => t,
        None => String::new(),
    };
    let cancel_uri = match reservation.select_first(
        "td > label > input[name=\"cancelSelectedIDS[]\"]",
    ) {
        Some(input) => match input.attr("value") {
            Some(v) => v,
            None => String::new(),
        },
        None => String::new(),
    };
    let bar = match after_marker(cancel_uri.as_str(), ":bar:") {
        Some(bar) => bar,
        None => return None,
    };
    let library_name = match reservation.select_first(
        "td[data-th=\"Standort (Printmedien)\"] > strong",
    ) {
        Some(e) => get_text_or_empty(&e),
        None => String::new(),
    };
    let library = to_library(library_name.as_str());
    let section = match reservation.select_first("td[data-th=\"Standort (Printmedien)\"]") {
        Some(cell) => {
            let section_words = nonempty_trimmed(&cell.texts());
            if section_words.len() < 1 {
                return None;
            }
            join_from(&section_words, 1)
        },
        None => String::new(),
    };
    let medium = Medium { ppn, title };
    let volume = Volume { medium, bar, signature, location: Location { library, section } };
    Some(Reservation { volume, due_date })
}

/// The answer to the reservations page `page`: 401 where the session is not
/// logged in; otherwise 200 with the reservations of its rows, or `None`
/// where a row cannot be read.
pub open spec fn entries_answer(page: Seq<char>) -> Option<BodyResponseView> {
    if shows_login(page) {
        Some(text_answer(UNAUTHORIZED, invalid_token_msg()))
    } else {
        let rows = selection(page_scope(page), rows_selector());
        if forall|i: int| 0 <= i < rows.len() ==> entry_readable(#[trigger] rows[i]) {
            Some(
                BodyResponseView {
                    status: OK,
                    body: ApiResponseBodyView::Reservations(
                        rows.map_values(|row: ElementId| entry_of(row)),
                    ),
                },
            )
        } else {
            None
        }
    }
}

/// Answers with the reservations on the reservations page `page`; `None`
/// where a row cannot be read.
pub fn get(page: &str) -> (res: Option<BodyResponse>)
    ensures
        res is Some <==> entries_answer(page@) is Some,
        res matches Some(r) ==> r.deep_view() == entries_answer(page@).unwrap(),
{
    let document = Document::parse(page);
    if !is_logged_in(&document) {
        return Some(text_response(UNAUTHORIZED, "session_token is invalid."));
    }
    let rows = document.select_all("tr.myresearch-result");
    let ghost ids = rows@.map_values(|e: Element| e@);
    let mut reservations: Vec<Reservation> = Vec::new();
    let mut i: usize = 0;
    while i < rows.len()
        invariant
            i <= rows.len(),
            ids == rows@.map_values(|e: Element| e@),
            ids == selection(page_scope(page@), rows_selector()),
            !shows_login(page@),
            reservations.len() == i,
            forall|k: int| 0 <= k < i ==> entry_readable(#[trigger] ids[k]),
            forall|k: int|
                0 <= k < i ==> (#[trigger] reservations@[k]).deep_view() == entry_of(ids[k]),
        decreases rows.len() - i,
    {
        match read_entry(&rows[i]) {
            Some(r) => reservations.push(r),
            None => {
                assert(!entry_readable(ids[i as int]));
                return None;
            },
        }
        i = i + 1;
    }
    let res = BodyResponse { status: OK, body: ApiResponseBody::Reservations(reservations) };
    assert(res.deep_view().body == ApiResponseBodyView::Reservations(
        ids.map_values(|row: ElementId| entry_of(row)),
    )) by {
        assert(reservations.deep_view() =~= ids.map_values(|row: ElementId| entry_of(row)));
    }
    Some(res)
}

/// The answer to a request without a session token: 400.
pub fn default_route() -> (res: BodyResponse)
    ensures
        res.deep_view() == text_answer(BAD_REQUEST, missing_token_msg()),
{
    text_response(BAD_REQUEST, "This route needs a session_token query parameter.")
}

/// The cookie to send to the catalogue for the session of `query`, or,
/// where the query carries no session token, the answer to give at once:
/// no request goes to the catalogue then.
pub fn request_for(query: &SessionTokenQuery) -> (res: Result<String, BodyResponse>)
    ensures
        query.session_token matches Some(t) ==> (res matches Ok(c) && c@ == "VUFIND_SESSION="@ + t@),
        query.session_token is None ==> (res matches Err(r) && r.deep_view() == text_answer(BAD_REQUEST, missing_token_msg())),
{
    match &query.session_token {
        Some(t) => Ok(crate::routes::session_cookie(t.as_str())),
        None => Err(default_route()),
    }
}

} // verus!
