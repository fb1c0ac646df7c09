//! Cancelling reservations, answered with an `ApiResult` of whether it
//! succeeded.

use vstd::prelude::*;
use crate::scraping::models::SessionTokenQuery;
use crate::routes::{
    alert_of,
    answer,
    get_alert,
    invalid_token_msg,
    missing_token_msg,
    respond,
    BAD_REQUEST,
    OK,
    UNAUTHORIZED,
};
use crate::scraping::html::{is_logged_in, shows_login, Document};
use crate::scraping::models::{ApiResponse, ApiResponseView};
use crate::text::{contains, has_substring};

pub use crate::scraping::models::CancelReservationData;
verus! {

/// The form that asks the catalogue to cancel the reservations with the ids
/// `to_cancel`: the cancel command, then one `selectedIDS[]` entry per id.
pub fn cancel_form(data: &CancelReservationData) -> (res: Vec<(String, String)>)
    ensures
        res.len() == data.to_cancel.len() + 1,
        res@[0].0@ == "cancelSelected"@,
        res@[0].1@ == "Bestellung stornieren"@,
        forall|i: int|
            0 <= i < data.to_cancel.len() ==> (#[trigger] res@[i + 1]).0@ == "selectedIDS[]"@
                && res@[i + 1].1@ == data.to_cancel@[i]@,
{
    let mut res: Vec<(String, String)> = Vec::new();
    res.push(("cancelSelected".to_owned(), "Bestellung stornieren".to_owned()));
    let mut i: usize = 0;
    while i < data.to_cancel.len()
        invariant
            i <= data.to_cancel.len(),
            res.len() == i + 1,
            res@[0].0@ == "cancelSelected"@,
            res@[0].1@ == "Bestellung stornieren"@,
            forall|k: int|
                0 <= k < i ==> (#[trigger] res@[k + 1]).0@ == "selectedIDS[]"@ && res@[k + 1].1@
                    == data.to_cancel@[k]@,
        decreases data.to_cancel.len() - i,
    {
        let id = data.to_cancel[i].clone();
        res.push(("selectedIDS[]".to_owned(), id));
        i = i + 1;
    }
    res
}

/// The alert text that stands for a page without an alert.
pub open spec fn cancel_fallback() -> Seq<char> {
    "Failed to cancel reservations."@
}

/// Whether the alert `alert` reports that the reservations were cancelled.
pub open spec fn reports_cancelled(alert: Seq<char>) -> bool {
    has_substring(alert, "erfolgreich storniert"@)
}

/// The answer to the page `page` that the catalogue returned for a cancel
/// request: 401 where the session is not logged in; 200 where its alert
/// reports the cancellation; otherwise 400 with the alert.
pub open spec fn cancel_answer(page: Seq<char>) -> ApiResponseView<bool> {
    if shows_login(page) {
        answer(UNAUTHORIZED, false, invalid_token_msg())
    } else {
        let alert = alert_of(page, cancel_fallback());
        if reports_cancelled(alert) {
            answer(OK, true, "Reservations canceled successfully."@)
        } else {
            answer(BAD_REQUEST, false, alert)
        }
    }
}

/// Answers a cancel request from the page `page` that the catalogue
/// returned for it.
pub fn route(page: &str) -> (res: ApiResponse<bool>)
    ensures
        res.deep_view() == cancel_answer(page@),
{
    let document = Document::parse(page);
    if !is_logged_in(&document) {
        return respond(UNAUTHORIZED, false, "session_token is invalid.");
    }
    let alert_message = get_alert(&document, "Failed to cancel reservations.");
    if contains(alert_message.as_str(), "erfolgreich storniert") {
        respond(OK, true, "Reservations canceled successfully.")
    } else {
        respond(BAD_REQUEST, false, alert_message.as_str())
    }
}

/// The answer to a request without a session token: 400.
pub fn default_route() -> (res: ApiResponse<bool>)
    ensures
        res.deep_view() == answer(BAD_REQUEST, false, missing_token_msg()),
{
    respond(BAD_REQUEST, false, "This route needs a session_token query parameter.")
}

/// The cookie to send to the catalogue for the session of `query`, with the standard user interface selected, or,
/// where the query carries no session token, the answer to give at once:
/// no request goes to the catalogue then.
pub fn request_for(query: &SessionTokenQuery) -> (res: Result<String, ApiResponse<bool>>)
    ensures
        query.session_token matches Some(t) ==> (res matches Ok(c) && c@ == "VUFIND_SESSION="@ + t@ + "; ui=standard"@),
        query.session_token is None ==> (res matches Err(r) && r.deep_view() == answer(BAD_REQUEST, false, missing_token_msg())),
{
    match &query.session_token {
        Some(t) => Ok(crate::routes::standard_session_cookie(t.as_str())),
        None => Err(default_route()),
    }
}

} // verus!
