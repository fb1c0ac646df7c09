//! Logging in: the session token, answered with a session or a text body.

use vstd::prelude::*;
use crate::routes::{
    server_unreachable_text,
    session_cookie,
    text_answer,
    text_response,
    unreachable_msg,
    INTERNAL_SERVER_ERROR,
    OK,
    RESET_CONTENT,
    UNAUTHORIZED,
};
use crate::routes::post_session_token::{
    csrf_of,
    cut_token,
    find_session_cookie,
    form_view,
    get_csrf,
    login_fields,
    login_form,
    lemma_session_cookie_from,
    session_cookie_of,
    token_fits,
    token_of,
};
use crate::scraping::models::{
    ApiResponseBody,
    ApiResponseBodyView,
    BodyResponse,
    BodyResponseView,
    Session,
    SessionView,
};

pub use crate::scraping::models::LoginData;
verus! {

/// Reads the session token from the `Set-Cookie` values of the login page's
/// answer: `None` where none of them sets the session cookie; otherwise what
/// follows `VUFIND_SESSION=` in the first that does, up to its first `;`.
pub fn get_token_from_headers(set_cookies: &Vec<String>) -> (res: Option<String>)
    requires
        session_cookie_of(set_cookies@.map_values(|c: String| c@)) matches Some(c) ==> token_fits(c),
    ensures
        res is None <==> session_cookie_of(set_cookies@.map_values(|c: String| c@)) is None,
        res matches Some(t) ==> t@ == token_of(
            session_cookie_of(set_cookies@.map_values(|c: String| c@)).unwrap(),
        ),
{
    proof {
        lemma_session_cookie_from(set_cookies@.map_values(|c: String| c@), 0);
    }
    match find_session_cookie(set_cookies) {
        Some(i) => Some(cut_token(set_cookies[i].as_str())),
        None => None,
    }
}

/// The CSRF token of the login page `page`, or the empty text where it has
/// none.
pub open spec fn csrf_or_empty(page: Seq<char>) -> Seq<char> {
    match csrf_of(page) {
        Some(t) => t,
        None => Seq::empty(),
    }
}

/// Reads the CSRF token of the login page `page`, or the empty text.
pub fn get_csrf_or_empty(page: &str) -> (res: String)
    ensures
        res@ == csrf_or_empty(page@),
{
    match get_csrf(page) {
        Some(t) => t,
        None => String::new(),
    }
}

/// The answer when the login page sets no session cookie: 500.
pub fn missing_token() -> (res: BodyResponse)
    ensures
        res.deep_view() == text_answer(INTERNAL_SERVER_ERROR, "Failed to get session token."@),
{
    text_response(INTERNAL_SERVER_ERROR, "Failed to get session token.")
}

/// The answer to a login that the catalogue answered with `status` (`None`
/// where the request failed): 200 with the session where it answered 205,
/// else 401.
pub open spec fn login_text_answer(
    status: Option<u16>,
    session_token: Seq<char>,
    expiry: i64,
) -> BodyResponseView {
    if status == Some(RESET_CONTENT) {
        BodyResponseView {
            status: OK,
            body: ApiResponseBodyView::Session(SessionView { session_token, expiry }),
        }
    } else {
        text_answer(UNAUTHORIZED, "Login details seem to be incorrect."@)
    }
}

/// Answers a login that the catalogue answered with `status` (`None` where
/// the request failed), for the session `session_token` that would expire at
/// `expiry`.
pub fn post(status: Option<u16>, session_token: String, expiry: i64) -> (res: BodyResponse)
    ensures
        res.deep_view() == login_text_answer(status, session_token@, expiry),
{
    let success = match status {
        Some(s) => s == RESET_CONTENT,
        None => false,
    };
    if success {
        BodyResponse { status: OK, body: ApiResponseBody::Session(Session { session_token, expiry }) }
    } else {
        text_response(UNAUTHORIZED, "Login details seem to be incorrect.")
    }
}

/// What the catalogue's login page answered: its `Set-Cookie` values and
/// its text.
pub struct LoginPage {
    pub set_cookies: Vec<String>,
    pub text: String,
}

/// The `Set-Cookie` values of a login page, as texts.
pub open spec fn cookies_view(page: LoginPage) -> Seq<Seq<char>> {
    page.set_cookies@.map_values(|c: String| c@)
}

/// What a login does once the login page was fetched.
pub enum LoginStep {
    /// Answer at once; no login form is sent.
    Answer(BodyResponse),
    /// Send the login form `form` with the session cookie `cookie`, for the
    /// session `session_token`.
    SendForm { cookie: String, form: Vec<(String, String)>, session_token: String },
}

/// The model of a `LoginStep`.
pub enum LoginStepView {
    Answer(BodyResponseView),
    SendForm { cookie: Seq<char>, form: Seq<(Seq<char>, Seq<char>)>, session_token: Seq<char> },
}

impl DeepView for LoginStep {
    type V = LoginStepView;

    open spec fn deep_view(&self) -> LoginStepView {
        match self {
            LoginStep::Answer(r) => LoginStepView::Answer(r.deep_view()),
            LoginStep::SendForm { cookie, form, session_token } => LoginStepView::SendForm {
                cookie: cookie@,
                form: form_view(form@),
                session_token: session_token@,
            },
        }
    }
}

/// The next step of a login for `login_data` once the login page was
/// fetched (`None` where it could not be): without the page, 500; without a
/// session cookie on it, 500 and no login form; otherwise the login form,
/// with the page's CSRF token, sent under the page's session cookie.
pub open spec fn login_step(fetched: Option<LoginPage>, login_data: LoginData) -> LoginStepView {
    match fetched {
        None => LoginStepView::Answer(text_answer(INTERNAL_SERVER_ERROR, unreachable_msg())),
        Some(p) => match session_cookie_of(cookies_view(p)) {
            None => LoginStepView::Answer(
                text_answer(INTERNAL_SERVER_ERROR, "Failed to get session token."@),
            ),
            Some(c) => LoginStepView::SendForm {
                cookie: "VUFIND_SESSION="@ + token_of(c),
                form: login_fields(csrf_or_empty(p.text@), login_data),
                session_token: token_of(c),
            },
        },
    }
}

/// The answer to a whole login: the step's answer where it answers at once,
/// else the answer to the login form, which the catalogue answered with
/// `status` (`None` where the request failed), for a session that would
/// expire at `expiry`.
pub open spec fn login_result(step: LoginStepView, status: Option<u16>, expiry: i64) -> BodyResponseView {
    match step {
        LoginStepView::Answer(r) => r,
        LoginStepView::SendForm { session_token, .. } => login_text_answer(status, session_token, expiry),
    }
}

/// The next step of a login for `login_data` once the login page was
/// fetched (`None` where it could not be).
pub fn after_login_page(fetched: Option<LoginPage>, login_data: &LoginData) -> (res: LoginStep)
    requires
        fetched matches Some(p) ==> (session_cookie_of(cookies_view(p)) matches Some(c) ==> token_fits(
            c,
        )),
    ensures
        res.deep_view() == login_step(fetched, *login_data),
{
    let page = match fetched {
        Some(page) => page,
        None => return LoginStep::Answer(server_unreachable_text()),
    };
    let session_token = match get_token_from_headers(&page.set_cookies) {
        Some(token) => token,
        None => return LoginStep::Answer(missing_token()),
    };
    let csrf = get_csrf_or_empty(page.text.as_str());
    let form = login_form(csrf.as_str(), login_data);
    let cookie = session_cookie(session_token.as_str());
    LoginStep::SendForm { cookie, form, session_token }
}

} // verus!
