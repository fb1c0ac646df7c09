//! Properties that hold across the routes' answers.

use vstd::prelude::*;
use crate::routes::{invalid_token_msg, OK, UNAUTHORIZED};
use crate::routes::get_checked_out::checked_out_answer;
use crate::routes::get_reservations::reservations_answer;
use crate::routes::get_search::search_answer;
use crate::routes::post_cancel_reservations::cancel_answer;
use crate::routes::post_make_reservation::reservation_answer;
use crate::routes::post_session_token::login_answer;
use crate::routes::reservations::entries_answer;
use crate::routes::cancel_reservations::cancel_text_answer;
use crate::routes::session_token::{login_result, login_step, LoginPage, LoginStepView};
use crate::scraping::models::LoginData;
use crate::routes::text_answer;
use crate::routes::get_checked_out::rows_selector;
use crate::routes::get_search::result_links_selector;
use crate::scraping::html::{shows_login, page_scope, selection_count};

verus! {

/// Every answer with an `ApiResult` reports success exactly when its status
/// is 200.
pub proof fn lemma_success_iff_ok(page: Seq<char>, status: u16, token: Seq<char>, expiry: i64)
    ensures
        checked_out_answer(page) matches Some(r) ==> r.result.success == (r.status == OK),
        reservations_answer(page) matches Some(r) ==> r.result.success == (r.status == OK),
        search_answer(page).result.success == (search_answer(page).status == OK),
        cancel_answer(page).result.success == (cancel_answer(page).status == OK),
        reservation_answer(status, page).result.success == (reservation_answer(status, page).status
            == OK),
        login_answer(status, token, expiry).result.success == (login_answer(
            status,
            token,
            expiry,
        ).status == OK),
{
}

/// A page that is the catalogue's login page (the session is not logged
/// in) is answered 401 with the message that the session token is invalid,
/// by every route that acts for a session; a hold request only where the
/// catalogue did not redirect.
pub proof fn lemma_logged_out_is_unauthorized(page: Seq<char>, status: u16)
    requires
        shows_login(page),
    ensures
        checked_out_answer(page) matches Some(r) && r.status == UNAUTHORIZED && r.result.msg
            == invalid_token_msg(),
        reservations_answer(page) matches Some(r) && r.status == UNAUTHORIZED && r.result.msg
            == invalid_token_msg(),
        cancel_answer(page).status == UNAUTHORIZED,
        cancel_answer(page).result.msg == invalid_token_msg(),
        status != 302 ==> reservation_answer(status, page).status == UNAUTHORIZED,
        entries_answer(page) == Some(text_answer(UNAUTHORIZED, invalid_token_msg())),
        cancel_text_answer(page) == text_answer(UNAUTHORIZED, invalid_token_msg()),
{
}


/// The lists that the routes answer with hold one entry per row (or result
/// link) of the page, in the order in which the parsed page yields them.
pub proof fn lemma_every_row_listed(page: Seq<char>)
    ensures
        checked_out_answer(page) matches Some(r) ==> (r.status == OK ==> r.result.data.len()
            == selection_count(page_scope(page), rows_selector())),
        reservations_answer(page) matches Some(r) ==> (r.status == OK ==> r.result.data.len()
            == selection_count(page_scope(page), rows_selector())),
        search_answer(page).result.data.len() == selection_count(
            page_scope(page),
            result_links_selector(),
        ),
{
}

/// A login's answer does not depend on the user's name or password: two
/// logins that meet the same catalogue answers (the login page, and the
/// answer to the login form) at the same clock reading get the same answer.
/// Both answer at once or both send a form, and then under the same cookie
/// and for the same session.
pub proof fn lemma_login_ignores_credentials(
    fetched: Option<LoginPage>,
    first: LoginData,
    second: LoginData,
    status: Option<u16>,
    expiry: i64,
)
    ensures
        login_result(login_step(fetched, first), status, expiry) == login_result(
            login_step(fetched, second),
            status,
            expiry,
        ),
        (login_step(fetched, first) is Answer) == (login_step(fetched, second) is Answer),
        login_step(fetched, first) matches LoginStepView::SendForm { cookie, session_token, .. }
            ==> (login_step(fetched, second) matches LoginStepView::SendForm {
            cookie: c,
            session_token: t,
            ..
        } && c == cookie && t == session_token),
{
}

} // verus!
