//! The reservations page: the volumes that the session's user has reserved.

use vstd::prelude::*;
use crate::scraping::models::SessionTokenQuery;
use crate::routes::{
    answer,
    column_value,
    get_column_value,
    invalid_token_msg,
    missing_token_msg,
    respond,
    BAD_REQUEST,
    OK,
    UNAUTHORIZED,
};
use crate::routes::get_checked_out::rows_selector;
use crate::scraping::html::{
    attribute_of,
    first_selected,
    first_text,
    is_logged_in,
    shows_login,
    page_scope,
    selection,
    texts_of,
    Document,
    Element,
    ElementId,
    Select,
};
use crate::scraping::libraries::{library_of, to_library};
use crate::scraping::models::{
    ppn_number,
    to_ppn,
    ApiResponse,
    ApiResponseView,
    Location,
    LocationView,
    Medium,
    MediumView,
    Reservation,
    ReservationView,
    Volume,
    VolumeView,
};
use crate::text::{after_marker, has_substring, join_from, joined, nonempty_trimmed, text_after, words};

verus! {

/// Reads the PPN from a row id of the form `...:ppn:<ppn>`: what follows the
/// first `:ppn:`.
pub fn get_medium_ppn(id_attr: &str) -> (res: String)
    requires
        has_substring(id_attr@, ":ppn:"@),
    ensures
        text_after(id_attr@, ":ppn:"@) == Some(res@),
{
    match after_marker(id_attr, ":ppn:") {
        Some(ppn) => ppn,
        None => String::new(),
    }
}

/// The selector of a reservation's title.
pub open spec fn title_selector() -> Seq<char> {
    "td[data-th=Titel] > span.title"@
}

/// The selector of a reservation's cancel checkbox, whose value holds the
/// barcode.
pub open spec fn cancel_input_selector() -> Seq<char> {
    "td > label > input[name=\"cancelSelectedIDS[]\"]"@
}

/// The selector of a reservation's location cell.
pub open spec fn location_selector() -> Seq<char> {
    "td[data-th=\"Standort (Printmedien)\"]"@
}

/// The selector of the library label in a reservation's location cell.
pub open spec fn library_label_selector() -> Seq<char> {
    "td[data-th=\"Standort (Printmedien)\"] > strong"@
}

/// The words of a reservation's location cell.
pub open spec fn location_words(row: ElementId) -> Seq<Seq<char>> {
    words(texts_of(first_selected(row, location_selector()).unwrap()))
}

/// A reservation's row can be read: it has an id with a PPN, a title with
/// text, the signature and return date columns, a cancel checkbox whose
/// value holds a barcode, a library label with text, and a location cell
/// with at least one word.
pub open spec fn reservation_readable(row: ElementId) -> bool {
    &&& attribute_of(row, "id"@) matches Some(id) && has_substring(id, ":ppn:"@)
    &&& first_selected(row, title_selector()) matches Some(t) && first_text(t) is Some
    &&& column_value(row, "Signatur"@) is Some
    &&& column_value(row, "Rückgabedatum"@) is Some
    &&& first_selected(row, cancel_input_selector()) matches Some(input)
    &&& attribute_of(input, "value"@) matches Some(v) && has_substring(v, ":bar:"@)
    &&& first_selected(row, library_label_selector()) matches Some(l) && first_text(l) is Some
    &&& first_selected(row, location_selector()) is Some
    &&& location_words(row).len() >= 1
}

/// The reservation that a readable row of the reservations page describes.
pub open spec fn reservation_of(row: ElementId) -> ReservationView {
    let ppn = ppn_number(text_after(attribute_of(row, "id"@).unwrap(), ":ppn:"@).unwrap());
    let title = first_text(first_selected(row, title_selector()).unwrap()).unwrap();
    let bar = text_after(
        attribute_of(first_selected(row, cancel_input_selector()).unwrap(), "value"@).unwrap(),
        ":bar:"@,
    ).unwrap();
    let library = library_of(first_text(first_selected(row, library_label_selector()).unwrap()).unwrap());
    let ws = location_words(row);
    ReservationView {
        volume: VolumeView {
            medium: MediumView { ppn, title },
            bar,
            signature: column_value(row, "Signatur"@).unwrap(),
            location: LocationView { library, section: joined(ws.subrange(1, ws.len() as int)) },
        },
        due_date: column_value(row, "Rückgabedatum"@).unwrap(),
    }
}

/// Reads one row of the reservations page; `None` where it cannot be read.
pub fn read_reservation(reservation: &Element) -> (res: Option<Reservation>)
    ensures
        res is Some <==> reservation_readable(reservation@),
        res matches Some(r) ==> r.deep_view() == reservation_of(reservation@),
{
    let id = match reservation.attr("id") {
        Some(id) => id,
        None => return None,
    };
    let ppn = match after_marker(id.as_str(), ":ppn:") {
        Some(ppn) => to_ppn(ppn.as_str()),
        None => return None,
    };
    let title = match reservation.select_first("td[data-th=Titel] > span.title") {
        Some(e) => match e.first_text() {
            Some(t) => t,
            None => return None,
        },
        None => return None,
    };
    let signature = match get_column_value(reservation, "Signatur") {
        Some(t) => t,
        None => return None,
    };
    let due_date = match get_column_value(reservation, "Rückgabedatum") {
        Some(t) => t,
        None => return None,
    };
    let cancel_uri = match reservation.select_first(
        "td > label > input[name=\"cancelSelectedIDS[]\"]",
    ) {
        Some(input) => match input.attr("value") {
            Some(v) => v,
            None => return None,
        },
        None => return None,
    };
    let bar = match after_marker(cancel_uri.as_str(), ":bar:") {
        Some(bar) => bar,
        None => return None,
    };
    let library_name = match reservation.select_first(
        "td[data-th=\"Standort (Printmedien)\"] > strong",
    ) {
        Some(e) => match e.first_text() {
            Some(t) => t,
            None => return None,
        },
        None => return None,
    };
    let library = to_library(library_name.as_str());
    let section_words = match reservation.select_first("td[data-th=\"Standort (Printmedien)\"]") {
        Some(cell) => nonempty_trimmed(&cell.texts()),
        None => return None,
    };
    if section_words.len() < 1 {
        return None;
    }
    let section = join_from(&section_words, 1);
    let medium = Medium { ppn, title };
    let volume = Volume { medium, bar, signature, location: Location { library, section } };
    Some(Reservation { volume, due_date })
}

/// The answer to the reservations page `page`: 401 where the session is not
/// logged in; otherwise 200 with the reservations of its rows, or `None`
/// where a row cannot be read.
pub open spec fn reservations_answer(page: Seq<char>) -> Option<
    ApiResponseView<Seq<ReservationView>>,
> {
    if shows_login(page) {
        Some(answer(UNAUTHORIZED, Seq::empty(), invalid_token_msg()))
    } else {
        let rows = selection(page_scope(page), rows_selector());
        if forall|i: int| 0 <= i < rows.len() ==> reservation_readable(#[trigger] rows[i]) {
            Some(
                answer(OK, rows.map_values(|row: ElementId| reservation_of(row)), Seq::empty()),
            )
        } else {
            None
        }
    }
}

/// Answers with the reservations on the reservations page `page` (the text
/// that the catalogue's hold list returned for the session); `None` where a
/// row cannot be read.
pub fn route(page: &str) -> (res: Option<ApiResponse<Vec<Reservation>>>)
    ensures
        res is Some <==> reservations_answer(page@) is Some,
        res matches Some(r) ==> r.deep_view() == reservations_answer(page@).unwrap(),
{
    let document = Document::parse(page);
    if !is_logged_in(&document) {
        let res = respond(UNAUTHORIZED, Vec::new(), "session_token is invalid.");
        assert(res.deep_view().result.data =~= Seq::<ReservationView>::empty());
        return Some(res);
    }
    let rows = document.select_all("tr.myresearch-result");
    let ghost ids = rows@.map_values(|e: Element| e@);
    let mut reservations: Vec<Reservation> = Vec::new();
    let mut i: usize = 0;
    while i < rows.len()
        invariant
            i <= rows.len(),
            ids == rows@.map_values(|e: Element| e@),
            ids == selection(page_scope(page@), rows_selector()),
            !shows_login(page@),
            reservations.len() == i,
            forall|k: int| 0 <= k < i ==> reservation_readable(#[trigger] ids[k]),
            forall|k: int|
                0 <= k < i ==> (#[trigger] reservations@[k]).deep_view() == reservation_of(ids[k]),
        decreases rows.len() - i,
    {
        match read_reservation(&rows[i]) {
            Some(r) => reservations.push(r),
            None => {
                assert(!reservation_readable(ids[i as int]));
                return None;
            },
        }
        i = i + 1;
    }
    let res = respond(OK, reservations, "");
    proof {
        reveal_strlit("");
        assert(res.deep_view().result.data =~= ids.map_values(
            |row: ElementId| reservation_of(row),
        ));
        assert(res.deep_view().result.msg =~= Seq::<char>::empty());
    }
    Some(res)
}

/// The answer to a request without a session token: 400, with no
/// reservations.
pub fn default_route() -> (res: ApiResponse<Vec<Reservation>>)
    ensures
        res.deep_view() == answer(
            BAD_REQUEST,
            Seq::<ReservationView>::empty(),
            missing_token_msg(),
        ),
{
    let res = respond(BAD_REQUEST, Vec::new(), "This route needs a session_token query parameter.");
    assert(res.deep_view().result.data =~= Seq::<ReservationView>::empty());
    res
}

/// The cookie to send to the catalogue for the session of `query`, or,
/// where the query carries no session token, the answer to give at once:
/// no request goes to the catalogue then.
pub fn request_for(query: &SessionTokenQuery) -> (res: Result<String, ApiResponse<Vec<Reservation>>>)
    ensures
        query.session_token matches Some(t) ==> (res matches Ok(c) && c@ == "VUFIND_SESSION="@ + t@),
        query.session_token is None ==> (res matches Err(r) && r.deep_view() == answer(BAD_REQUEST, Seq::<ReservationView>::empty(), missing_token_msg())),
{
    match &query.session_token {
        Some(t) => Ok(crate::routes::session_cookie(t.as_str())),
        None => Err(default_route()),
    }
}

} // verus!
