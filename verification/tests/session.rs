use stabil_api::routes::{post_session_token, session_cookie, session_token, standard_session_cookie};
use stabil_api::routes::{
    cancel_reservations, get_checked_out, get_reservations, post_cancel_reservations,
    post_make_reservation, reservations,
};
use stabil_api::scraping::models::{ApiResponseBody, LoginData, SessionTokenQuery};

fn cookies(values: &[&str]) -> Vec<String> {
    values.iter().map(|v| v.to_string()).collect()
}

#[test]
fn token_is_read_from_the_session_cookie() {
    let set = cookies(&["ui=standard; path=/", "VUFIND_SESSION=abc123; path=/; HttpOnly", "VUFIND_SESSION=zzz"]);
    assert!(post_session_token::can_read_token(&set));
    assert_eq!(post_session_token::get_token_from_headers(&set), "abc123");
    assert_eq!(session_token::get_token_from_headers(&set), Some("abc123".to_string()));
}

#[test]
fn token_without_attributes_runs_to_the_end() {
    let set = cookies(&["VUFIND_SESSION=t0k3n"]);
    assert_eq!(post_session_token::get_token_from_headers(&set), "t0k3n");
}

#[test]
fn written_cookie_reads_back() {
    let written = session_cookie("s3ss10n");
    assert_eq!(written, "VUFIND_SESSION=s3ss10n");
    assert_eq!(session_token::get_token_from_headers(&vec![written]), Some("s3ss10n".to_string()));
    assert_eq!(standard_session_cookie("s"), "VUFIND_SESSION=s; ui=standard");
}

#[test]
fn no_session_cookie() {
    let set = cookies(&["ui=standard"]);
    assert!(!post_session_token::can_read_token(&set));
    assert_eq!(session_token::get_token_from_headers(&set), None);
    assert!(!post_session_token::can_read_token(&Vec::new()));
}

#[test]
fn semicolon_before_the_token_cannot_be_read() {
    let set = cookies(&["a=b; VUFIND_SESSION=abc"]);
    assert!(!post_session_token::can_read_token(&set));
}

#[test]
fn csrf_is_read_from_the_login_page() {
    let page = "<html><body><form><input type=\"hidden\" name=\"csrf\" value=\"c5rf\"></form></body></html>";
    assert_eq!(post_session_token::get_csrf(page), Some("c5rf".to_string()));
    assert_eq!(post_session_token::get_csrf("<html></html>"), None);
    assert_eq!(session_token::get_csrf_or_empty("<html></html>"), "");
}

#[test]
fn login_form_fields() {
    let login = LoginData { username: "u".to_string(), password: "p".to_string() };
    let form = post_session_token::login_form("c", &login);
    let expected: Vec<(String, String)> = [
        ("csrf", "c"),
        ("username", "u"),
        ("password", "p"),
        ("auth_method", "ILS"),
        ("csrf", "c"),
        ("processLogin", "Anmelden"),
    ]
    .iter()
    .map(|(k, v)| (k.to_string(), v.to_string()))
    .collect();
    assert_eq!(form, expected);
}

#[test]
fn session_lasts_one_hour() {
    assert_eq!(post_session_token::session_expiry(1_700_000_000), 1_700_003_600);
}

#[test]
fn login_answers() {
    let r = post_session_token::route(205, "tok".to_string(), 99);
    assert_eq!((r.status, r.result.success), (200, true));
    assert_eq!((r.result.data.session_token.as_str(), r.result.data.expiry), ("tok", 99));
    let r = post_session_token::route(200, "tok".to_string(), 99);
    assert_eq!((r.status, r.result.success), (401, false));
    assert_eq!((r.result.data.session_token.as_str(), r.result.data.expiry), ("", -1));
    assert_eq!(r.result.msg, "Login details seem to be incorrect.");

    match session_token::post(Some(205), "tok".to_string(), 5).body {
        ApiResponseBody::Session(s) => {
            assert!(s.session_token.len() > 0);
            assert!(s.expiry > 0);
        }
        _ => panic!("expected session"),
    }
    assert_eq!(session_token::post(None, "tok".to_string(), 5).status, 401);
    assert_eq!(session_token::post(Some(302), "tok".to_string(), 5).status, 401);
    assert_eq!(session_token::missing_token().status, 500);
}

fn text_of(body: ApiResponseBody) -> String {
    match body {
        ApiResponseBody::Text(t) => t,
        _ => panic!("expected text"),
    }
}

#[test]
fn login_step_after_the_login_page() {
    let login = LoginData { username: "u".to_string(), password: "p".to_string() };
    match session_token::after_login_page(None, &login) {
        session_token::LoginStep::Answer(r) => {
            assert_eq!((r.status, text_of(r.body).as_str()), (500, "Failed to connect to the library server."))
        }
        _ => panic!("expected an answer"),
    }
    let page = session_token::LoginPage { set_cookies: cookies(&["ui=standard"]), text: String::new() };
    match session_token::after_login_page(Some(page), &login) {
        session_token::LoginStep::Answer(r) => {
            assert_eq!((r.status, text_of(r.body).as_str()), (500, "Failed to get session token."))
        }
        _ => panic!("expected an answer, and no login form"),
    }
    let page = session_token::LoginPage {
        set_cookies: cookies(&["ui=standard", "VUFIND_SESSION=abc; path=/"]),
        text: "<html><body><input type=\"hidden\" name=\"csrf\" value=\"c5rf\"></body></html>".to_string(),
    };
    match session_token::after_login_page(Some(page), &login) {
        session_token::LoginStep::SendForm { cookie, form, session_token } => {
            assert_eq!(cookie, "VUFIND_SESSION=abc");
            assert_eq!(session_token, "abc");
            assert_eq!(form, post_session_token::login_form("c5rf", &login));
        }
        _ => panic!("expected the login form"),
    }
}

#[test]
fn session_routes_need_a_token() {
    let with = SessionTokenQuery { session_token: Some("t".to_string()) };
    let without = SessionTokenQuery { session_token: None };
    let msg = "This route needs a session_token query parameter.";

    assert_eq!(get_checked_out::request_for(&with).ok(), Some("VUFIND_SESSION=t".to_string()));
    let r = get_checked_out::request_for(&without).err().unwrap();
    assert_eq!((r.status, r.result.success, r.result.msg.as_str(), r.result.data.len()), (400, false, msg, 0));

    assert_eq!(get_reservations::request_for(&with).ok(), Some("VUFIND_SESSION=t".to_string()));
    let r = get_reservations::request_for(&without).err().unwrap();
    assert_eq!((r.status, r.result.msg.as_str()), (400, msg));

    assert_eq!(reservations::request_for(&with).ok(), Some("VUFIND_SESSION=t".to_string()));
    let r = reservations::request_for(&without).err().unwrap();
    assert_eq!((r.status, text_of(r.body).as_str()), (400, msg));

    assert_eq!(cancel_reservations::request_for(&with).ok(), Some("VUFIND_SESSION=t; ui=standard".to_string()));
    let r = cancel_reservations::request_for(&without).err().unwrap();
    assert_eq!((r.status, text_of(r.body).as_str()), (400, msg));

    assert_eq!(post_cancel_reservations::request_for(&with).ok(), Some("VUFIND_SESSION=t; ui=standard".to_string()));
    let r = post_cancel_reservations::request_for(&without).err().unwrap();
    assert_eq!((r.status, r.result.data, r.result.msg.as_str()), (400, false, msg));

    assert_eq!(post_make_reservation::request_for(&with).ok(), Some("VUFIND_SESSION=t; ui=standard".to_string()));
    let r = post_make_reservation::request_for(&without).err().unwrap();
    assert_eq!((r.status, r.result.data, r.result.msg.as_str()), (400, false, msg));
}

#[test]
fn login_answer_ignores_credentials() {
    let page = || session_token::LoginPage {
        set_cookies: cookies(&["VUFIND_SESSION=abc; path=/"]),
        text: "<input type=\"hidden\" name=\"csrf\" value=\"c\">".to_string(),
    };
    let alice = LoginData { username: "alice".to_string(), password: "one".to_string() };
    let bob = LoginData { username: "bob".to_string(), password: "two".to_string() };
    let answer = |data: &LoginData| match session_token::after_login_page(Some(page()), data) {
        session_token::LoginStep::SendForm { cookie, session_token, .. } => {
            let r = session_token::post(Some(205), session_token, 7);
            match r.body {
                ApiResponseBody::Session(s) => (cookie, r.status, s.session_token, s.expiry),
                _ => panic!("expected a session"),
            }
        }
        _ => panic!("expected the login form"),
    };
    assert_eq!(answer(&alice), answer(&bob));
    assert_eq!(answer(&alice), ("VUFIND_SESSION=abc".to_string(), 200, "abc".to_string(), 7));
}
