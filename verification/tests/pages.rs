use stabil_api::routes::{
    cancel_reservations, get_checked_out, get_loans, get_reservations, get_search, post_cancel_reservations,
    post_make_reservation, reservations,
};
use stabil_api::scraping::html::{is_logged_in, Document, Select};
use stabil_api::scraping::models::{
    ApiResponseBody, CancelReservationData, ReservationData, SearchQuery, SessionTokenQuery, Status,
};

const LOGIN_PAGE: &str =
    "<html><body class=\"template-name-login\"><form></form></body></html>";

const ACCOUNT_PAGE: &str = "<html><body class=\"template-name-myresearch\"><table><tbody>\
<tr class=\"myresearch-result\" id=\"record:ppn:1947771086\">\
<td data-th=\"Titel\">Rust Book<br><strong>Ausleihstelle:</strong> <strong>FB Informatik</strong> Regal 3</td>\
<td data-th=\"Signatur\"> A 123 </td>\
<td data-th=\"Rückgabe\">01.02.2025</td>\
<td data-th=\"Verlängerungen\">2</td>\
<td data-th=\"Mahnungen\">0</td>\
<td data-th=\"Selection\" class=\"checkbox\"><label><input type=\"checkbox\" name=\"renewSelectedIDS[]\" value=\"830:bar:109956811\"></label></td>\
</tr>\
<tr class=\"myresearch-result\" id=\"record:ppn:42X\">\
<td data-th=\"Titel\">Second<strong>Ausleihstelle:</strong><strong>Staats- und Universitätsbibliothek</strong>Lesesaal<div class=\"alert-danger\">Ausleihstatus: Abholregal</div></td>\
<td data-th=\"Signatur\">B 7</td>\
<td data-th=\"Rückgabe\">03.04.2025</td>\
<td data-th=\"Verlängerungen\">-1<div class=\"alert-danger\">Maximum erreicht</div></td>\
<td data-th=\"Mahnungen\">1</td>\
<td data-th=\"Selection\"><input type=\"checkbox\" disabled></td>\
</tr>\
</tbody></table></body></html>";

#[test]
fn login_page_is_not_logged_in() {
    assert!(!is_logged_in(&Document::parse(LOGIN_PAGE)));
    assert!(is_logged_in(&Document::parse(ACCOUNT_PAGE)));
}

#[test]
fn select_reads_elements_texts_and_attributes() {
    let doc = Document::parse(ACCOUNT_PAGE);
    let rows = doc.select_all("tr.myresearch-result");
    assert_eq!(rows.len(), 2);
    assert_eq!(rows[1].attr("id"), Some("record:ppn:42X".to_string()));
    let cell = rows[0].select_first("td[data-th=Signatur]").unwrap();
    assert_eq!(cell.first_text(), Some(" A 123 ".to_string()));
    assert!(doc.select_first("td.nothing").is_none());
    assert!(doc.select_all("[[bad selector").is_empty());
    let strongs = rows[0].select_all("td[data-th=Titel] > strong");
    assert_eq!(strongs[1].texts(), vec!["FB Informatik".to_string()]);
}

#[test]
fn checked_out_lists_every_loan() {
    let res = get_checked_out::route(ACCOUNT_PAGE).expect("readable page");
    assert_eq!(res.status, 200);
    assert!(res.result.success);
    assert_eq!(res.result.msg, "");
    assert_eq!(res.result.data.len(), 2);

    let first = &res.result.data[0];
    assert_eq!(first.volume.medium.ppn, 1947771086);
    assert_eq!(first.volume.medium.title, "Rust Book");
    assert_eq!(first.volume.bar, "109956811");
    assert_eq!(first.volume.signature, "A 123");
    assert_eq!(first.volume.location.library.id, 72);
    assert_eq!(first.volume.location.library.name, "FB Informatik");
    assert_eq!(first.volume.location.section, "Regal 3");
    assert_eq!(first.due_date, "01.02.2025");
    assert_eq!(first.status, Status::Default);
    assert_eq!(first.renewals, 2);
    assert_eq!(first.renewal_msg, "");
    assert_eq!(first.warnings, 0);
    assert!(first.can_be_renewed);

    let second = &res.result.data[1];
    assert_eq!(second.volume.medium.ppn, 0);
    assert_eq!(second.status, Status::PickupRack);
    assert_eq!(second.volume.location.library.id, 2);
    assert_eq!(second.volume.location.section, "Lesesaal Ausleihstatus: Abholregal");
    assert_eq!(second.renewals, -1);
    assert_eq!(second.renewal_msg, "Maximum erreicht");
    assert_eq!(second.warnings, 1);
    assert!(!second.can_be_renewed);
    assert_eq!(second.volume.bar, "");
}

#[test]
fn checked_out_of_logged_out_session_is_unauthorized() {
    let res = get_checked_out::route(LOGIN_PAGE).unwrap();
    assert_eq!(res.status, 401);
    assert!(!res.result.success);
    assert!(res.result.data.is_empty());
    assert_eq!(res.result.msg, "session_token is invalid.");
}

#[test]
fn checked_out_row_without_ppn_is_unreadable() {
    let page = ACCOUNT_PAGE.replace("record:ppn:42X", "record-42X");
    assert!(get_checked_out::route(&page).is_none());
    let page = ACCOUNT_PAGE.replace(">2</td>", ">many</td>");
    assert!(get_checked_out::route(&page).is_none());
}

#[test]
fn checked_out_empty_list() {
    let res = get_checked_out::route("<html><body><p>Keine Ausleihen</p></body></html>").unwrap();
    assert_eq!(res.status, 200);
    assert!(res.result.data.is_empty());
}

#[test]
fn missing_token_answers() {
    let r = get_checked_out::default_route();
    assert_eq!(r.status, 400);
    assert!(!r.result.success);
    assert_eq!(r.result.msg, "This route needs a session_token query parameter.");
    let r = get_reservations::default_route();
    assert_eq!((r.status, r.result.data.len()), (400, 0));
    let r = post_cancel_reservations::default_route();
    assert_eq!((r.status, r.result.data), (400, false));
    let r = post_make_reservation::default_route();
    assert_eq!((r.status, r.result.data), (400, false));
    match cancel_reservations::default_route().body {
        ApiResponseBody::Text(t) => assert_eq!(t, "This route needs a session_token query parameter."),
        _ => panic!("expected text"),
    }
    assert_eq!(reservations::default_route().status, 400);
}

const HOLDS_PAGE: &str = "<html><body><table><tbody>\
<tr class=\"myresearch-result\" id=\"hold:ppn:1234\">\
<td data-th=\"Titel\"><span class=\"title\">A Title </span></td>\
<td data-th=\"Signatur\">C 9</td>\
<td data-th=\"Rückgabedatum\"> 05.06.2025 </td>\
<td><label><input type=\"checkbox\" name=\"cancelSelectedIDS[]\" value=\"77:bar:555\"></label></td>\
<td data-th=\"Standort (Printmedien)\"><strong>FB Mathematik</strong> Regal <b>9</b></td>\
</tr></tbody></table></body></html>";

#[test]
fn reservations_are_read() {
    let res = get_reservations::route(HOLDS_PAGE).unwrap();
    assert_eq!(res.status, 200);
    assert_eq!(res.result.data.len(), 1);
    let r = &res.result.data[0];
    assert_eq!(r.volume.medium.ppn, 1234);
    assert_eq!(r.volume.medium.title, "A Title ");
    assert_eq!(r.volume.bar, "555");
    assert_eq!(r.volume.signature, "C 9");
    assert_eq!(r.due_date, "05.06.2025");
    assert_eq!(r.volume.location.library.id, 236);
    assert_eq!(r.volume.location.section, "Regal 9");

    let res = get_reservations::route(LOGIN_PAGE).unwrap();
    assert_eq!(res.status, 401);
}

#[test]
fn reservations_body_answer() {
    let res = reservations::get(HOLDS_PAGE).unwrap();
    assert_eq!(res.status, 200);
    match res.body {
        ApiResponseBody::Reservations(list) => {
            assert_eq!(list.len(), 1);
            assert_eq!(list[0].volume.bar, "555");
            assert_eq!(list[0].volume.location.section, "Regal 9");
        }
        _ => panic!("expected reservations"),
    }
    let lenient = HOLDS_PAGE.replace(" id=\"hold:ppn:1234\"", "");
    match reservations::get(&lenient).unwrap().body {
        ApiResponseBody::Reservations(list) => assert_eq!(list[0].volume.medium.ppn, 0),
        _ => panic!("expected reservations"),
    }
    let no_bar = HOLDS_PAGE.replace("77:bar:555", "77");
    assert!(reservations::get(&no_bar).is_none());
    assert!(get_reservations::route(&no_bar).is_none());
    match reservations::get(LOGIN_PAGE).unwrap().body {
        ApiResponseBody::Text(t) => assert_eq!(t, "session_token is invalid."),
        _ => panic!("expected text"),
    }
}

const RESULTS_PAGE: &str = "<html><body>\
<div id=\"result0\"><a class=\"title\" href=\"/vufind/Record/1947771086?sid=4\">  Rust in Action \n</a></div>\
<div id=\"result1\"><a class=\"title\" href=\"/vufind/Record/42X\">Zweiter Titel</a></div>\
<div id=\"other\"><a class=\"title\" href=\"/vufind/Record/1\">Not a result</a></div>\
</body></html>";

#[test]
fn search_results_are_read() {
    let res = get_search::route(RESULTS_PAGE);
    assert_eq!(res.status, 200);
    assert!(res.result.success);
    assert_eq!(res.result.data.len(), 2);
    assert_eq!(res.result.data[0].ppn, 1947771086);
    assert_eq!(res.result.data[0].title, "Rust in Action");
    assert_eq!(res.result.data[1].ppn, 0);
    assert_eq!(get_search::get_medium_ppn_from_href("/vufind/Search/Results"), 0);
    assert_eq!(get_search::get_medium_ppn_from_href("/vufind/Record/123?sid=1"), 123);
    assert_eq!(get_search::get_medium_ppn_from_href("/vufind/Record/-7"), -7);
}

#[test]
fn search_url_defaults_to_first_page() {
    let q = SearchQuery { query: Some("rust".to_string()), page: None };
    assert_eq!(
        get_search::results_url(&q),
        "https://katalogplus.sub.uni-hamburg.de/vufind/Search/Results?lookfor=rust&page=1&type=AllFields&searchbox=1"
    );
    let q = SearchQuery { query: None, page: Some(12) };
    assert_eq!(
        get_search::results_url(&q),
        "https://katalogplus.sub.uni-hamburg.de/vufind/Search/Results?lookfor=&page=12&type=AllFields&searchbox=1"
    );
}

#[test]
fn cancel_answers() {
    let ok = "<html><body><div role=\"alert\">2 Bestellungen erfolgreich storniert</div></body></html>";
    let r = post_cancel_reservations::route(ok);
    assert_eq!((r.status, r.result.success, r.result.data), (200, true, true));
    assert_eq!(r.result.msg, "Reservations canceled successfully.");

    let refused = "<html><body><div role=\"alert\">Nicht möglich</div></body></html>";
    let r = post_cancel_reservations::route(refused);
    assert_eq!((r.status, r.result.success, r.result.data), (400, false, false));
    assert_eq!(r.result.msg, "Nicht möglich");

    let r = post_cancel_reservations::route("<html><body></body></html>");
    assert_eq!(r.result.msg, "Failed to cancel reservations.");

    let r = post_cancel_reservations::route(LOGIN_PAGE);
    assert_eq!((r.status, r.result.msg.as_str()), (401, "session_token is invalid."));

    match cancel_reservations::post(refused).body {
        ApiResponseBody::Text(t) => assert_eq!(t, "Nicht möglich"),
        _ => panic!("expected text"),
    }
    assert_eq!(cancel_reservations::post(ok).status, 200);
    assert_eq!(cancel_reservations::post(LOGIN_PAGE).status, 401);
}

#[test]
fn cancel_form_lists_every_id() {
    let data = CancelReservationData { to_cancel: vec!["a".to_string(), "b".to_string()] };
    let form = post_cancel_reservations::cancel_form(&data);
    assert_eq!(
        form,
        vec![
            ("cancelSelected".to_string(), "Bestellung stornieren".to_string()),
            ("selectedIDS[]".to_string(), "a".to_string()),
            ("selectedIDS[]".to_string(), "b".to_string()),
        ]
    );
}

#[test]
fn hold_answers() {
    let r = post_make_reservation::route(302, "");
    assert_eq!((r.status, r.result.success), (200, true));
    assert_eq!(r.result.msg, "Reservation successful.");
    let r = post_make_reservation::route(200, LOGIN_PAGE);
    assert_eq!(r.status, 401);
    let r = post_make_reservation::route(200, "<html><body><div role=\"alert\">Schon vorgemerkt</div></body></html>");
    assert_eq!((r.status, r.result.msg.as_str()), (400, "Schon vorgemerkt"));
    let r = post_make_reservation::route(200, "<html><body></body></html>");
    assert_eq!(r.result.msg, "Reservation unsuccessful.");
}

#[test]
fn hold_request_is_built() {
    let data = ReservationData {
        ppn: "4711".to_string(),
        doc_id: "d".to_string(),
        item_id: "i".to_string(),
        hash_key: "h".to_string(),
    };
    assert_eq!(
        post_make_reservation::hold_url(&data),
        "https://katalogplus.sub.uni-hamburg.de/vufind/Record/4711/Hold"
    );
    let q = post_make_reservation::hold_query(&data);
    assert_eq!(q[2], ("hashKey".to_string(), "h".to_string()));
    assert_eq!(q[3], ("type".to_string(), "hold".to_string()));
}

#[test]
fn loans_are_read() {
    let res = get_loans::route(ACCOUNT_PAGE).unwrap();
    assert!(res.success);
    assert_eq!(res.msg, "");
    assert_eq!(res.data.len(), 2);
    let first = &res.data[0];
    assert_eq!(first.medium.id, "1947771086");
    assert_eq!(first.medium.title, "Rust Book");
    assert_eq!(first.medium.signature, "A 123");
    assert_eq!(first.due_date, "01.02.2025");
    assert_eq!((first.renewals, first.warnings, first.can_be_renewed), (2, 0, true));
    let second = &res.data[1];
    assert_eq!(second.medium.id, "42X");
    assert_eq!((second.medium.title.as_str(), second.medium.signature.as_str()), ("Second", "B 7"));
    assert_eq!(second.due_date, "03.04.2025");
    assert_eq!((second.renewals, second.warnings, second.can_be_renewed), (-1, 1, false));
}

#[test]
fn loans_of_logged_out_session_and_unreadable_rows() {
    let res = get_loans::route(LOGIN_PAGE).unwrap();
    assert!(!res.success);
    assert!(res.data.is_empty());
    assert_eq!(res.msg, "session_token is invalid.");
    assert!(get_loans::route(&ACCOUNT_PAGE.replace("record:ppn:42X", "record-42X")).is_none());
    assert!(get_loans::route(&ACCOUNT_PAGE.replace(">1</td>", ">200</td>")).is_none());
    assert!(get_loans::route(&ACCOUNT_PAGE.replace("data-th=\"Signatur\">B 7", "data-th=\"Zeichen\">B 7")).is_none());
    assert!(get_loans::route("<html><body></body></html>").unwrap().data.is_empty());
}

#[test]
fn loans_need_a_token() {
    let with = SessionTokenQuery { session_token: Some("t".to_string()) };
    assert_eq!(get_loans::request_for(&with).ok(), Some("VUFIND_SESSION=t".to_string()));
    let r = get_loans::request_for(&SessionTokenQuery { session_token: None }).err().unwrap();
    assert_eq!((r.success, r.data.as_str(), r.msg.as_str()), (false, "", "This route needs a session_token query parameter."));
}
