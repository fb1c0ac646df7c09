use stabil_api::routes::get_checked_out::{get_bar, get_ppn};
use stabil_api::routes::get_loans::{default_route as loans_default, get_medium_id};
use stabil_api::routes::get_reservations::get_medium_ppn;
use stabil_api::routes::reservations::get_medium_ppn_from_id;
use stabil_api::scraping::models::to_ppn;

#[test]
fn barcode_follows_the_bar_marker() {
    assert_eq!(get_bar("22:SUB:bar:0123456789"), "0123456789");
    assert_eq!(get_bar("a:bar:b:bar:c"), "b:bar:c");
    assert_eq!(get_bar(":bar:"), "");
}

#[test]
fn ppn_follows_the_ppn_marker() {
    assert_eq!(get_ppn("record:ppn:1234567890"), "1234567890");
    assert_eq!(get_ppn(":ppn:x:ppn:y"), "x:ppn:y");
}

#[test]
fn medium_id_and_ppn_follow_the_ppn_marker() {
    assert_eq!(get_medium_id("loan:ppn:987654321"), "987654321");
    assert_eq!(get_medium_ppn("hold:ppn:42X"), "42X");
    assert_eq!(get_medium_ppn("Bücher:ppn:ü"), "ü");
}

#[test]
fn ppn_numbers() {
    assert_eq!(to_ppn("1947771086"), 1947771086);
    assert_eq!(to_ppn("+12"), 12);
    assert_eq!(to_ppn("42X"), 0);
    assert_eq!(to_ppn(""), 0);
    assert_eq!(to_ppn("2147483648"), 0);
    assert_eq!(get_medium_ppn_from_id("hold:ppn:1234"), 1234);
    assert_eq!(get_medium_ppn_from_id("hold-1234"), 0);
}

#[test]
fn loans_without_token() {
    let r = loans_default();
    assert!(!r.success);
    assert_eq!(r.data, "");
    assert_eq!(r.msg, "This route needs a session_token query parameter.");
}
