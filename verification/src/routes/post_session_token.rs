//! Logging in: the session token, answered with an `ApiResult` that holds
//! the session.

use vstd::prelude::*;
use crate::routes::{answer, respond, OK, RESET_CONTENT, UNAUTHORIZED};
use crate::scraping::html::{
    attribute_of,
    first_selected,
    page_scope,
    Document,
    Select,
};
use crate::scraping::models::{
    ApiResponse,
    ApiResponseView,
    Session,
    SessionView,
};
use crate::text::{
    chars_of,
    contains,
    find,
    first_index,
    has_substring,
    lemma_first_index,
    lemma_first_index_from,
    lemma_first_index_is,
    occurs_at,
};

pub use crate::scraping::models::LoginData;
verus! {

/// The name of the catalogue's session cookie, with the `=` that follows it.
pub open spec fn session_marker() -> Seq<char> {
    "VUFIND_SESSION="@
}

/// The first of the `Set-Cookie` values `cookies` at or after `from` that
/// sets the session cookie.
pub open spec fn session_cookie_from(cookies: Seq<Seq<char>>, from: int) -> Option<Seq<char>>
    decreases cookies.len() - from,
{
    if from < 0 || from >= cookies.len() {
        None
    } else if has_substring(cookies[from], session_marker()) {
        Some(cookies[from])
    } else {
        session_cookie_from(cookies, from + 1)
    }
}

/// The first of the `Set-Cookie` values `cookies` that sets the session
/// cookie.
pub open spec fn session_cookie_of(cookies: Seq<Seq<char>>) -> Option<Seq<char>> {
    session_cookie_from(cookies, 0)
}

/// Where the token starts in a cookie that sets the session cookie: after
/// the first `VUFIND_SESSION=`.
pub open spec fn token_start(cookie: Seq<char>) -> int {
    first_index(cookie, session_marker()).unwrap() + session_marker().len()
}

/// The cookie that the search finds sets the session cookie.
pub proof fn lemma_session_cookie_from(cookies: Seq<Seq<char>>, from: int)
    ensures
        session_cookie_from(cookies, from) matches Some(c) ==> has_substring(c, session_marker()),
    decreases cookies.len() - from,
{
    if from < 0 || from >= cookies.len() {
    } else if has_substring(cookies[from], session_marker()) {
    } else {
        lemma_session_cookie_from(cookies, from + 1);
    }
}

/// Where the token ends in a cookie: at the cookie's first `;`, or at its
/// end.
pub open spec fn token_end(cookie: Seq<char>) -> int {
    match first_index(cookie, ";"@) {
        Some(i) => i,
        None => cookie.len() as int,
    }
}

/// The token can be cut out of the session cookie: no `;` stands before it.
pub open spec fn token_fits(cookie: Seq<char>) -> bool {
    token_start(cookie) <= token_end(cookie)
}

/// The session token that the cookie `cookie` sets.
pub open spec fn token_of(cookie: Seq<char>) -> Seq<char> {
    cookie.subrange(token_start(cookie), token_end(cookie))
}

/// Whether a session token can be read from the `Set-Cookie` values
/// `cookies`: one of them sets the session cookie, and no `;` stands before
/// the token in the first such.
pub open spec fn token_readable(cookies: Seq<Seq<char>>) -> bool {
    session_cookie_of(cookies) matches Some(c) && token_fits(c)
}

/// Finds the first `Set-Cookie` value that sets the session cookie.
pub fn find_session_cookie(set_cookies: &Vec<String>) -> (res: Option<usize>)
    ensures
        res matches Some(i) ==> i < set_cookies.len() && session_cookie_of(
            set_cookies@.map_values(|c: String| c@),
        ) == Some(set_cookies@[i as int]@),
        res is None ==> session_cookie_of(set_cookies@.map_values(|c: String| c@)) is None,
{
    let ghost all = set_cookies@.map_values(|c: String| c@);
    let mut i: usize = 0;
    while i < set_cookies.len()
        invariant
            i <= set_cookies.len(),
            all == set_cookies@.map_values(|c: String| c@),
            session_cookie_of(all) == session_cookie_from(all, i as int),
        decreases set_cookies.len() - i,
    {
        if contains(set_cookies[i].as_str(), "VUFIND_SESSION=") {
            return Some(i);
        }
        i = i + 1;
    }
    None
}

/// Where the token starts and ends in a cookie that sets the session
/// cookie.
fn token_bounds(cookie: &str) -> (res: (usize, usize))
    requires
        has_substring(cookie@, session_marker()),
    ensures
        res.0 == token_start(cookie@),
        res.1 == token_end(cookie@),
        res.0 <= cookie@.len(),
        res.1 <= cookie@.len(),
{
    let cs = chars_of(cookie);
    let n = cs.len();
    let marker = chars_of("VUFIND_SESSION=");
    let semicolon = chars_of(";");
    proof {
        lemma_first_index(cookie@, session_marker());
        lemma_first_index(cookie@, ";"@);
    }
    let start = match find(&cs, &marker) {
        Some(i) => {
            assert(i + marker@.len() <= n);
            i + marker.len()
        },
        None => 0,
    };
    let end = match find(&cs, &semicolon) {
        Some(i) => i,
        None => n,
    };
    (start, end)
}

/// Cuts the session token out of a cookie that sets the session cookie.
pub fn cut_token(cookie: &str) -> (res: String)
    requires
        has_substring(cookie@, session_marker()),
        token_fits(cookie@),
    ensures
        res@ == token_of(cookie@),
{
    let (start, end) = token_bounds(cookie);
    cookie.substring_char(start, end).to_owned()
}

/// Whether a session token can be read from the `Set-Cookie` values.
pub fn can_read_token(set_cookies: &Vec<String>) -> (res: bool)
    ensures
        res == token_readable(set_cookies@.map_values(|c: String| c@)),
{
    proof {
        lemma_session_cookie_from(set_cookies@.map_values(|c: String| c@), 0);
    }
    match find_session_cookie(set_cookies) {
        Some(i) => {
            let (start, end) = token_bounds(set_cookies[i].as_str());
            start <= end
        },
        None => false,
    }
}

/// Reads the session token from the `Set-Cookie` values of the login page's
/// answer: what follows `VUFIND_SESSION=` in the first value that holds it,
/// up to that value's first `;`.
pub fn get_token_from_headers(set_cookies: &Vec<String>) -> (res: String)
    requires
        token_readable(set_cookies@.map_values(|c: String| c@)),
    ensures
        res@ == token_of(session_cookie_of(set_cookies@.map_values(|c: String| c@)).unwrap()),
{
    proof {
        lemma_session_cookie_from(set_cookies@.map_values(|c: String| c@), 0);
    }
    match find_session_cookie(set_cookies) {
        Some(i) => cut_token(set_cookies[i].as_str()),
        None => String::new(),
    }
}

/// The selector of the login form's CSRF field.
pub open spec fn csrf_selector() -> Seq<char> {
    "input[type=hidden][name=csrf]"@
}

/// The CSRF token of the login page `page`, where it has one.
pub open spec fn csrf_of(page: Seq<char>) -> Option<Seq<char>> {
    match first_selected(page_scope(page), csrf_selector()) {
        Some(field) => attribute_of(field, "value"@),
        None => None,
    }
}

/// Reads the CSRF token of the login page `page`.
pub fn get_csrf(page: &str) -> (res: Option<String>)
    ensures
        res matches Some(t) ==> csrf_of(page@) == Some(t@),
        res is None ==> csrf_of(page@) is None,
{
    let document = Document::parse(page);
    match document.select_first("input[type=hidden][name=csrf]") {
        Some(field) => field.attr("value"),
        None => None,
    }
}

/// The fields of the login form: the CSRF token, the user's name and
/// password, the authentication method, the CSRF token once more and the
/// login command.
pub open spec fn login_fields(csrf: Seq<char>, login_data: LoginData) -> Seq<(Seq<char>, Seq<char>)> {
    seq![
        ("csrf"@, csrf),
        ("username"@, login_data.username@),
        ("password"@, login_data.password@),
        ("auth_method"@, "ILS"@),
        ("csrf"@, csrf),
        ("processLogin"@, "Anmelden"@),
    ]
}

/// The model of a form: its fields' names and values.
pub open spec fn form_view(form: Seq<(String, String)>) -> Seq<(Seq<char>, Seq<char>)> {
    form.map_values(|f: (String, String)| (f.0@, f.1@))
}

/// The login form: the CSRF token, the user's name and password, the
/// authentication method, the CSRF token once more and the login command.
pub fn login_form(csrf: &str, login_data: &LoginData) -> (res: Vec<(String, String)>)
    ensures
        form_view(res@) == login_fields(csrf@, *login_data),
        res.len() == 6,
        res@[0].0@ == "csrf"@ && res@[0].1@ == csrf@,
        res@[1].0@ == "username"@ && res@[1].1@ == login_data.username@,
        res@[2].0@ == "password"@ && res@[2].1@ == login_data.password@,
        res@[3].0@ == "auth_method"@ && res@[3].1@ == "ILS"@,
        res@[4].0@ == "csrf"@ && res@[4].1@ == csrf@,
        res@[5].0@ == "processLogin"@ && res@[5].1@ == "Anmelden"@,
{
    let mut res: Vec<(String, String)> = Vec::new();
    res.push(("csrf".to_owned(), csrf.to_owned()));
    res.push(("username".to_owned(), login_data.username.clone()));
    res.push(("password".to_owned(), login_data.password.clone()));
    res.push(("auth_method".to_owned(), "ILS".to_owned()));
    res.push(("csrf".to_owned(), csrf.to_owned()));
    res.push(("processLogin".to_owned(), "Anmelden".to_owned()));
    proof {
        assert(form_view(res@) =~= login_fields(csrf@, *login_data));
    }
    res
}

/// How long a session lasts: one hour, in seconds.
pub const SESSION_SECONDS: i64 = 3600;

/// When a session that starts at the Unix time `now` expires.
pub fn session_expiry(now: i64) -> (res: i64)
    requires
        now <= i64::MAX - SESSION_SECONDS,
    ensures
        res == now + SESSION_SECONDS,
{
    now + SESSION_SECONDS
}

/// The answer to a login that the catalogue answered with `status`: 200
/// with the session where it answered 205, else 401 with an empty session
/// that expires at -1.
pub open spec fn login_answer(status: u16, session_token: Seq<char>, expiry: i64) -> ApiResponseView<
    SessionView,
> {
    if status == RESET_CONTENT {
        answer(OK, SessionView { session_token, expiry }, Seq::empty())
    } else {
        answer(
            UNAUTHORIZED,
            SessionView { session_token: Seq::empty(), expiry: -1i64 },
            "Login details seem to be incorrect."@,
        )
    }
}

/// Answers a login that the catalogue answered with `status`, for the
/// session `session_token` that would expire at `expiry`.
pub fn route(status: u16, session_token: String, expiry: i64) -> (res: ApiResponse<Session>)
    ensures
        res.deep_view() == login_answer(status, session_token@, expiry),
{
    if status == RESET_CONTENT {
        let res = respond(OK, Session { session_token, expiry }, "");
        proof {
            reveal_strlit("");
            assert(res.deep_view().result.msg =~= Seq::<char>::empty());
        }
        res
    } else {
        let res = respond(
            UNAUTHORIZED,
            Session { session_token: String::new(), expiry: -1 },
            "Login details seem to be incorrect.",
        );
        res
    }
}


/// Reading back a session cookie: from the `Set-Cookie` value
/// `VUFIND_SESSION=<token>`, alone or followed by `;` and attributes, the
/// token comes back, where it holds no `;`.
pub proof fn lemma_token_read_back(token: Seq<char>, attributes: Seq<char>)
    requires
        forall|i: int| 0 <= i < token.len() ==> token[i] != ';',
        attributes.len() == 0 || attributes[0] == ';',
    ensures
        token_readable(seq![session_marker() + token + attributes]),
        token_of(session_cookie_of(seq![session_marker() + token + attributes]).unwrap()) == token,
{
    reveal_strlit("VUFIND_SESSION=");
    reveal_strlit(";");
    let m = session_marker();
    let c = m + token + attributes;
    let semi = ";"@;
    assert(c.subrange(0, m.len() as int) =~= m);
    lemma_first_index_is(c, m, 0, 0);
    let cookies = seq![c];
    assert(session_cookie_of(cookies) == Some(c));
    let end: int = (m.len() + token.len()) as int;
    assert forall|j: int| 0 <= j < end implies !occurs_at(c, semi, j) by {
        if occurs_at(c, semi, j) {
            assert(c.subrange(j, j + 1)[0] == c[j]);
            if j < m.len() {
                assert(c[j] == m[j]);
            } else {
                assert(c[j] == token[j - m.len()]);
            }
        }
    }
    if attributes.len() == 0 {
        lemma_first_index_from(c, semi, 0);
        assert(c.len() == end);
        assert forall|j: int| end <= j implies !occurs_at(c, semi, j) by {}
        assert(first_index(c, semi) is None);
        assert(c.subrange(m.len() as int, end) =~= token);
    } else {
        assert(c.subrange(end, end + 1) =~= semi);
        lemma_first_index_is(c, semi, 0, end);
        assert(c.subrange(m.len() as int, end) =~= token);
    }
}

} // verus!
