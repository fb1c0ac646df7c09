use stabil_api::json::JsonDocument;
use stabil_api::routes::ppn_from_bar::{
    barcode_search, get, read_control_number, read_record, LookupOutcome,
};
use stabil_api::routes::{server_unreachable, server_unreachable_text};
use stabil_api::scraping::libraries::{lookup_library, to_library};
use stabil_api::scraping::models::{to_status, ApiResponseBody, BarcodeQuery, Status};

fn record(text: &str) -> LookupOutcome {
    LookupOutcome::Record(text.to_string())
}

fn control_number_of(text: &str) -> String {
    read_control_number(&JsonDocument::parse(text).unwrap())
}

fn text_of(body: ApiResponseBody) -> String {
    match body {
        ApiResponseBody::Text(t) => t,
        _ => panic!("expected text"),
    }
}

#[test]
fn barcode_query_is_built() {
    assert_eq!(barcode_search(&BarcodeQuery { barcode: Some(109956811) }).ok(), Some("@attr 1=8535 109956811".to_string()));
    let refused = barcode_search(&BarcodeQuery { barcode: None }).err().unwrap();
    assert_eq!(refused.status, 400);
    assert_eq!(text_of(refused.body), "barcode query parameter is required.");
}

#[test]
fn record_control_number_is_the_ppn() {
    let r = get(record(r#"{"leader":"00000cam a2200000 c 4500","fields":[{"001":"1947771086"},{"003":"DE-627"}]}"#));
    assert_eq!(r.status, 200);
    match r.body {
        ApiResponseBody::Number(ppn) => assert_eq!(ppn, 1947771086),
        _ => panic!("expected a number"),
    }
}

#[test]
fn control_number_reading() {
    assert_eq!(control_number_of(r#"{"fields":[{"001":"12","003":"DE-627"}]}"#), "12");
    assert_eq!(control_number_of(r#"{"fields":[{"001":12}]}"#), "");
    assert_eq!(control_number_of(r#"{"fields":[{"003":"DE-627"},{"001":"12"}]}"#), "");
    assert_eq!(control_number_of(r#"{"fields":[]}"#), "");
    assert_eq!(control_number_of(r#"{"fields":{"0":{"001":"12"}}}"#), "");
    assert_eq!(control_number_of(r#"{"other":[{"001":"12"}]}"#), "");
    assert_eq!(control_number_of(r#"[{"fields":[{"001":"12"}]}]"#), "");
    assert_eq!(control_number_of(r#""text""#), "");
}

#[test]
fn json_values_are_read() {
    let doc = JsonDocument::parse(r#" {"a": [null, true, 1.5, "x\u00fc", {"b": "c"}]} "#).unwrap();
    let root = doc.root();
    let a = root.member("a").unwrap();
    assert!(root.member("b").is_none());
    assert!(root.element(0).is_none());
    assert!(a.member("a").is_none());
    assert_eq!(a.element(3).unwrap().as_str(), Some("xü".to_string()));
    assert_eq!(a.element(2).unwrap().as_str(), None);
    assert_eq!(a.element(4).unwrap().member("b").unwrap().as_str(), Some("c".to_string()));
    assert!(a.element(5).is_none());
    assert!(JsonDocument::parse("{").is_none());
    assert!(JsonDocument::parse("").is_none());
    assert!(JsonDocument::parse("[1] [2]").is_none());
}

#[test]
fn lookup_failures() {
    let r = get(record(r#"{"fields":[{"001":"100000000X"}]}"#));
    assert_eq!((r.status, text_of(r.body).as_str()), (500, "Failed to extract PPN from the record."));
    let r = get(record(r#"{"fields":[{"001":"1947771086"}"#));
    assert_eq!((r.status, text_of(r.body).as_str()), (500, "Failed to parse record from the library server."));
    let r = read_record("not json");
    assert_eq!((r.status, text_of(r.body).as_str()), (500, "Failed to parse record from the library server."));
    let r = read_record(r#"{"fields":[{"003":"DE-627"}]}"#);
    assert_eq!((r.status, text_of(r.body).as_str()), (500, "Failed to extract PPN from the record."));
    let r = get(LookupOutcome::NoHits);
    assert_eq!((r.status, text_of(r.body).as_str()), (404, "No volume found for the given barcode."));
    let r = get(LookupOutcome::ConnectionFailed);
    assert_eq!((r.status, text_of(r.body).as_str()), (500, "Failed to connect to the library server."));
    let r = get(LookupOutcome::SearchFailed);
    assert_eq!(text_of(r.body), "Failed to perform search on the library server.");
    let r = get(LookupOutcome::RecordUnavailable);
    assert_eq!(text_of(r.body), "Failed to retrieve record from the library server.");
}

#[test]
fn unreachable_answers() {
    let r = server_unreachable(false);
    assert_eq!((r.status, r.result.success, r.result.msg.as_str()), (500, false, "Failed to connect to the library server."));
    assert_eq!(server_unreachable_text().status, 500);
}

#[test]
fn libraries_are_found_by_name() {
    let lib = to_library("FB Informatik");
    assert_eq!((lib.id, lib.name.as_str()), (72, "FB Informatik"));
    assert_eq!(lib.filter, "(standort_iln_str_mv:22\\\\:18\\\\/228+OR+standort_iln_str_mv:22\\\\:18\\\\/228-*)");
    let lib = to_library("Ärztliche Zentralbibliothek");
    assert_eq!(lib.id, 347);
    let lib = to_library("Linga-Bibliothek");
    assert_eq!((lib.id, lib.filter.as_str()), (0, "(standort_iln_str_mv:22\\\\:SUB-LINGA)"));
    assert_eq!(lookup_library("ZB Recht"), Some((1089712717, "(standort_iln_str_mv:22\\\\:18\\\\/304)")));
}

#[test]
fn unknown_library_has_id_zero() {
    let lib = to_library("Unbekannt");
    assert_eq!((lib.id, lib.name.as_str(), lib.filter.as_str()), (0, "Unbekannt", ""));
    assert_eq!(lookup_library(""), None);
}

#[test]
fn status_lines() {
    assert_eq!(to_status("Ausleihstatus: Abholregal"), Status::PickupRack);
    assert_eq!(to_status(""), Status::Default);
    assert_eq!(to_status("Ausleihstatus: Vorgemerkt"), Status::Other);
    assert_eq!(to_status(" "), Status::Other);
}
