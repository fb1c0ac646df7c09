//! Cancelling reservations, answered with a text body.

use vstd::prelude::*;
use crate::scraping::models::SessionTokenQuery;
use crate::routes::{
    alert_of,
    get_alert,
    missing_token_msg,
    text_answer,
    text_response,
    invalid_token_msg,
    BAD_REQUEST,
    OK,
    UNAUTHORIZED,
};
use crate::routes::post_cancel_reservations::{cancel_fallback, reports_cancelled};
use crate::scraping::html::{is_logged_in, shows_login, Document};
use crate::scraping::models::{BodyResponse, BodyResponseView};
use crate::text::contains;

pub use crate::scraping::models::CancelReservationData;
verus! {

/// The answer to the page `page` that the catalogue returned for a cancel
/// request: 401 where the session is not logged in; 200 where its alert
/// reports the cancellation; otherwise 400 with the alert.
pub open spec fn cancel_text_answer(page: Seq<char>) -> BodyResponseView {
    if shows_login(page) {
        text_answer(UNAUTHORIZED, invalid_token_msg())
    } else {
        let alert = alert_of(page, cancel_fallback());
        if reports_cancelled(alert) {
            text_answer(OK, "Reservations canceled successfully."@)
        } else {
            text_answer(BAD_REQUEST, alert)
        }
    }
}

/// Answers a cancel request from the page `page` that the catalogue
/// returned for it.
pub fn post(page: &str) -> (res: BodyResponse)
    ensures
        res.deep_view() == cancel_text_answer(page@),
{
    let document = Document::parse(page);
    if !is_logged_in(&document) {
        return text_response(UNAUTHORIZED, "session_token is invalid.");
    }
    let alert_message = get_alert(&document, "Failed to cancel reservations.");
    if contains(alert_message.as_str(), "erfolgreich storniert") {
        text_response(OK, "Reservations canceled successfully.")
    } else {
        text_response(BAD_REQUEST, alert_message.as_str())
    }
}

/// The answer to a request without a session token: 400.
pub fn default_route() -> (res: BodyResponse)
    ensures
        res.deep_view() == text_answer(BAD_REQUEST, missing_token_msg()),
{
    text_response(BAD_REQUEST, "This route needs a session_token query parameter.")
}

/// The cookie to send to the catalogue for the session of `query`, with the standard user interface selected, or,
/// where the query carries no session token, the answer to give at once:
/// no request goes to the catalogue then.
pub fn request_for(query: &SessionTokenQuery) -> (res: Result<String, BodyResponse>)
    ensures
        query.session_token matches Some(t) ==> (res matches Ok(c) && c@ == "VUFIND_SESSION="@ + t@ + "; ui=standard"@),
        query.session_token is None ==> (res matches Err(r) && r.deep_view() == text_answer(BAD_REQUEST, missing_token_msg())),
{
    match &query.session_token {
        Some(t) => Ok(crate::routes::standard_session_cookie(t.as_str())),
        None => Err(default_route()),
    }
}

} // verus!
