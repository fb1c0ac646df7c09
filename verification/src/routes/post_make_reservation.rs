//! Reserving a volume, answered with an `ApiResult` of whether it succeeded.

use vstd::prelude::*;
use crate::scraping::models::SessionTokenQuery;
use crate::routes::{
    alert_of,
    answer,
    get_alert,
    invalid_token_msg,
    missing_token_msg,
    respond,
    BAD_REQUEST,
    FOUND,
    OK,
    UNAUTHORIZED,
};
use crate::scraping::html::{is_logged_in, shows_login, Document};
use crate::scraping::models::{ApiResponse, ApiResponseView, ReservationData};

verus! {

/// The address of the catalogue's hold form for the record `ppn`.
pub open spec fn hold_address(ppn: Seq<char>) -> Seq<char> {
    "https://katalogplus.sub.uni-hamburg.de/vufind/Record/"@ + ppn + "/Hold"@
}

/// The address of the catalogue's hold form for the record of `data`.
pub fn hold_url(data: &ReservationData) -> (res: String)
    ensures
        res@ == hold_address(data.ppn@),
{
    let mut res = "https://katalogplus.sub.uni-hamburg.de/vufind/Record/".to_owned();
    res.append(data.ppn.as_str());
    res.append("/Hold");
    res
}

/// The query of the hold request for the volume of `data`: its document id,
/// item id and hash key, and the request type `hold`.
pub fn hold_query(data: &ReservationData) -> (res: Vec<(String, String)>)
    ensures
        res.len() == 4,
        res@[0].0@ == "doc_id"@ && res@[0].1@ == data.doc_id@,
        res@[1].0@ == "item_id"@ && res@[1].1@ == data.item_id@,
        res@[2].0@ == "hashKey"@ && res@[2].1@ == data.hash_key@,
        res@[3].0@ == "type"@ && res@[3].1@ == "hold"@,
{
    let mut res: Vec<(String, String)> = Vec::new();
    res.push(("doc_id".to_owned(), data.doc_id.clone()));
    res.push(("item_id".to_owned(), data.item_id.clone()));
    res.push(("hashKey".to_owned(), data.hash_key.clone()));
    res.push(("type".to_owned(), "hold".to_owned()));
    res
}

/// The message that stands for a refusal without an alert.
pub open spec fn reservation_fallback() -> Seq<char> {
    "Reservation unsuccessful."@
}

/// The answer to a hold request that the catalogue answered with `status`
/// and the page `page`: 200 where it redirected (302); otherwise 401 where
/// the session is not logged in, else 400 with the page's alert.
pub open spec fn reservation_answer(status: u16, page: Seq<char>) -> ApiResponseView<bool> {
    if status == FOUND {
        answer(OK, true, "Reservation successful."@)
    } else if shows_login(page) {
        answer(UNAUTHORIZED, false, invalid_token_msg())
    } else {
        answer(BAD_REQUEST, false, alert_of(page, reservation_fallback()))
    }
}

/// Answers a hold request from the status `status` and the page `page` with
/// which the catalogue answered it.
pub fn route(status: u16, page: &str) -> (res: ApiResponse<bool>)
    ensures
        res.deep_view() == reservation_answer(status, page@),
{
    if status == FOUND {
        return respond(OK, true, "Reservation successful.");
    }
    let document = Document::parse(page);
    if !is_logged_in(&document) {
        return respond(UNAUTHORIZED, false, "session_token is invalid.");
    }
    let message = get_alert(&document, "Reservation unsuccessful.");
    respond(BAD_REQUEST, false, message.as_str())
}

/// The answer to a request without a session token: 400.
pub fn default_route() -> (res: ApiResponse<bool>)
    ensures
        res.deep_view() == answer(BAD_REQUEST, false, missing_token_msg()),
{
    respond(BAD_REQUEST, false, "This route needs a session_token query parameter.")
}

/// The cookie to send to the catalogue for the session of `query`, with the standard user interface selected, or,
/// where the query carries no session token, the answer to give at once:
/// no request goes to the catalogue then.
pub fn request_for(query: &SessionTokenQuery) -> (res: Result<String, ApiResponse<bool>>)
    ensures
        query.session_token matches Some(t) ==> (res matches Ok(c) && c@ == "VUFIND_SESSION="@ + t@ + "; ui=standard"@),
        query.session_token is None ==> (res matches Err(r) && r.deep_view() == answer(BAD_REQUEST, false, missing_token_msg())),
{
    match &query.session_token {
        Some(t) => Ok(crate::routes::standard_session_cookie(t.as_str())),
        None => Err(default_route()),
    }
}

} // verus!
