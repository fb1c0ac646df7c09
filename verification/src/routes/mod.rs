//! The decisions of the API's routes: from the pages that the catalogue
//! answers with to the API's answers. Fetching the pages is left to the
//! caller; each route module holds what follows the fetch.

use vstd::prelude::*;
use crate::scraping::html::{
    page_scope,
    Document,
    ElementId,
    Element,
    Select,
    first_selected,
    first_text,
};
use crate::scraping::models::{
    ApiResponse,
    ApiResponseBody,
    ApiResponseBodyView,
    ApiResponseView,
    ApiResult,
    ApiResultView,
    BodyResponse,
    BodyResponseView,
};
use crate::text::{trim, trimmed};

pub mod get_checked_out;
pub mod get_reservations;
pub mod get_search;
pub mod post_cancel_reservations;
pub mod cancel_reservations;
pub mod post_make_reservation;
pub mod post_session_token;
pub mod session_token;
pub mod reservations;
pub mod ppn_from_bar;
pub mod index;
pub mod get_index;
pub mod get_loans;
pub mod properties;
pub mod readings;

verus! {

/// HTTP 200 OK.
pub const OK: u16 = 200;

/// HTTP 205 Reset Content, the catalogue's answer to a successful login.
pub const RESET_CONTENT: u16 = 205;

/// HTTP 302 Found, the catalogue's answer to a successful reservation.
pub const FOUND: u16 = 302;

/// HTTP 400 Bad Request.
pub const BAD_REQUEST: u16 = 400;

/// HTTP 401 Unauthorized.
pub const UNAUTHORIZED: u16 = 401;

/// HTTP 404 Not Found.
pub const NOT_FOUND: u16 = 404;

/// HTTP 500 Internal Server Error.
pub const INTERNAL_SERVER_ERROR: u16 = 500;

/// The catalogue's account page, which lists the session's loans.
pub const ACCOUNT_URL: &'static str = "https://katalogplus.sub.uni-hamburg.de/vufind/MyResearch/Home";

/// The catalogue's hold list, which lists the session's reservations and
/// takes cancel requests.
pub const HOLDS_URL: &'static str = "https://katalogplus.sub.uni-hamburg.de/vufind/Holds/List";

/// The catalogue's login page, which sets the session cookie and holds the
/// login form's CSRF token.
pub const LOGIN_PAGE_URL: &'static str = "https://katalogplus.sub.uni-hamburg.de/vufind/MyResearch/UserLogin";

/// Where the catalogue's login form is sent.
pub const LOGIN_URL: &'static str = "https://katalogplus.sub.uni-hamburg.de/vufind/MyResearch/Home?layout=lightbox&lbreferer=https%3A%2F%2Fkatalogplus.sub.uni-hamburg.de%2Fvufind%2FMyResearch%2FUserLogin";

/// The selector of the cell of a table row that holds `column`.
pub open spec fn column_selector(column: Seq<char>) -> Seq<char> {
    "td[data-th="@ + column + "]"@
}

/// The selector of the cell of a table row that holds `column`.
pub fn column_selector_for(column: &str) -> (res: String)
    ensures
        res@ == column_selector(column@),
{
    let mut res = "td[data-th=".to_owned();
    res.append(column);
    res.append("]");
    res
}

/// The trimmed first text of the cell of `row` that holds `column`; `None`
/// where the row has no such cell or the cell no text.
pub open spec fn column_value(row: ElementId, column: Seq<char>) -> Option<Seq<char>> {
    match first_selected(row, column_selector(column)) {
        Some(cell) => match first_text(cell) {
            Some(t) => Some(trimmed(t)),
            None => None,
        },
        None => None,
    }
}

/// Reads the trimmed first text of the cell of `row` that holds `column`.
pub fn get_column_value(row: &Element, column: &str) -> (res: Option<String>)
    ensures
        res matches Some(v) ==> column_value(row@, column@) == Some(v@),
        res is None ==> column_value(row@, column@) is None,
{
    let selector = column_selector_for(column);
    match row.select_first(selector.as_str()) {
        Some(cell) => match cell.first_text() {
            Some(t) => Some(trim(t.as_str())),
            None => None,
        },
        None => None,
    }
}

/// The first text of `e`, or the empty text where it has none.
pub open spec fn text_or_empty(e: ElementId) -> Seq<char> {
    match first_text(e) {
        Some(t) => t,
        None => Seq::empty(),
    }
}

/// Reads the first text of `e`, or the empty text where it has none.
pub fn get_text_or_empty(e: &Element) -> (res: String)
    ensures
        res@ == text_or_empty(e@),
{
    match e.first_text() {
        Some(t) => t,
        None => String::new(),
    }
}

/// The first text of the first element that `selector` selects in `scope`;
/// the empty text where nothing is selected or the element has no text.
pub open spec fn note_of(scope: ElementId, selector: Seq<char>) -> Seq<char> {
    match first_selected(scope, selector) {
        Some(e) => text_or_empty(e),
        None => Seq::empty(),
    }
}

/// Reads the first text of the first element that `selector` selects below
/// `scope`.
pub fn get_note(scope: &Element, selector: &str) -> (res: String)
    ensures
        res@ == note_of(scope@, selector@),
{
    match scope.select_first(selector) {
        Some(e) => get_text_or_empty(&e),
        None => String::new(),
    }
}

/// An answer with the given status, data and message; it reports success
/// exactly when the status is 200.
pub fn respond<T>(status: u16, data: T, msg: &str) -> (res: ApiResponse<T>)
    ensures
        res.status == status,
        res.result.success == (status == OK),
        res.result.data == data,
        res.result.msg@ == msg@,
{
    ApiResponse { status, result: ApiResult { success: status == OK, data, msg: msg.to_owned() } }
}


/// The model of an answer with the given status, data and message; it
/// reports success exactly when the status is 200.
pub open spec fn answer<V>(status: u16, data: V, msg: Seq<char>) -> ApiResponseView<V> {
    ApiResponseView { status, result: ApiResultView { success: status == OK, data, msg } }
}

/// The message of the answer to a request without a session token.
pub open spec fn missing_token_msg() -> Seq<char> {
    "This route needs a session_token query parameter."@
}

/// The message of the answer to a request whose session is not logged in.
pub open spec fn invalid_token_msg() -> Seq<char> {
    "session_token is invalid."@
}

/// The message of the answer when the catalogue cannot be reached.
pub open spec fn unreachable_msg() -> Seq<char> {
    "Failed to connect to the library server."@
}

/// The cookie that carries a session token to the catalogue.
pub fn session_cookie(session_token: &str) -> (res: String)
    ensures
        res@ == "VUFIND_SESSION="@ + session_token@,
{
    let mut res = "VUFIND_SESSION=".to_owned();
    res.append(session_token);
    res
}


/// The answer when the catalogue cannot be reached: 500, with `data`.
pub fn server_unreachable<T>(data: T) -> (res: ApiResponse<T>)
    ensures
        res.status == INTERNAL_SERVER_ERROR,
        !res.result.success,
        res.result.data == data,
        res.result.msg@ == unreachable_msg(),
{
    respond(INTERNAL_SERVER_ERROR, data, "Failed to connect to the library server.")
}


/// The model of an answer with the given status and a text body.
pub open spec fn text_answer(status: u16, text: Seq<char>) -> BodyResponseView {
    BodyResponseView { status, body: ApiResponseBodyView::Text(text) }
}

/// An answer with the given status and a text body.
pub fn text_response(status: u16, text: &str) -> (res: BodyResponse)
    ensures
        res.deep_view() == text_answer(status, text@),
{
    BodyResponse { status, body: ApiResponseBody::Text(text.to_owned()) }
}

/// The cookie that carries a session token to the catalogue, with the
/// standard user interface selected.
pub fn standard_session_cookie(session_token: &str) -> (res: String)
    ensures
        res@ == "VUFIND_SESSION="@ + session_token@ + "; ui=standard"@,
{
    let mut res = session_cookie(session_token);
    res.append("; ui=standard");
    res
}

/// The text of the first alert of the page `page`, or `fallback` where the
/// page has no alert or the alert no text.
pub open spec fn alert_of(page: Seq<char>, fallback: Seq<char>) -> Seq<char> {
    match first_selected(page_scope(page), "div[role=alert]"@) {
        Some(e) => match first_text(e) {
            Some(t) => t,
            None => fallback,
        },
        None => fallback,
    }
}

/// Reads the text of the first alert of `document`, or `fallback`.
pub fn get_alert(document: &Document, fallback: &str) -> (res: String)
    ensures
        res@ == alert_of(document@, fallback@),
{
    match document.select_first("div[role=alert]") {
        Some(e) => match e.first_text() {
            Some(t) => t,
            None => fallback.to_owned(),
        },
        None => fallback.to_owned(),
    }
}


/// The text answer when the catalogue cannot be reached: 500.
pub fn server_unreachable_text() -> (res: BodyResponse)
    ensures
        res.deep_view() == text_answer(INTERNAL_SERVER_ERROR, unreachable_msg()),
{
    text_response(INTERNAL_SERVER_ERROR, "Failed to connect to the library server.")
}

} // verus!
