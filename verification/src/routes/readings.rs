//! Laws on what the routes read from the catalogue's answers: which status
//! code a login needs, which phrase a cancellation needs, and which cell of
//! a row each field of a loan or reservation comes from. Each is stated
//! with the catalogue's own codes, phrases, selectors and column names.

use vstd::prelude::*;
use crate::routes::cancel_reservations::cancel_text_answer;
use crate::routes::post_cancel_reservations::cancel_answer;
use crate::routes::post_session_token::{
    csrf_of,
    lemma_token_read_back,
    login_answer,
    session_cookie_from,
    session_cookie_of,
    token_of,
    token_readable,
};
use crate::routes::session_token::{login_result, login_step, login_text_answer, LoginPage};
use crate::routes::{
    answer,
    column_selector,
    column_value,
    invalid_token_msg,
    missing_token_msg,
    text_answer,
    unreachable_msg,
};
use crate::routes::get_checked_out::checked_out_answer;
use crate::routes::get_loans::{loans_answer, row_loan};
use crate::routes::get_reservations::reservations_answer;
use crate::routes::get_search::{medium_of, page_text, query_text, search_answer, search_url};
use crate::routes::post_make_reservation::{hold_address, reservation_answer};
use crate::routes::ppn_from_bar::{barcode_query, lookup_answer, record_answer, LookupOutcome};
use crate::routes::get_reservations::location_words;
use crate::routes::reservations::{entry_readable, location_words_of};
use crate::json::{json_parses, json_root, json_step, string_of, JsonStep};
use crate::routes::reservations::entries_answer;
use crate::routes::get_checked_out::{loan_of, loan_readable, word_position_from};
use crate::routes::text_or_empty;
use crate::scraping::libraries::library_of;
use crate::scraping::models::ppn_number;
use crate::routes::get_reservations::{reservation_of, reservation_readable};
use crate::routes::reservations::entry_of;
use crate::scraping::html::{
    attribute_of,
    first_selected,
    first_text,
    page_scope,
    selected,
    selection_count,
    shows_login,
    texts_of,
    ElementId,
};
use crate::scraping::models::{ApiResponseBodyView, BodyResponseView, LoginData, SessionView, Status};
use crate::text::{first_index, first_index_from, has_substring, int_text, joined, occurs_at, parse_in_range, text_after, trimmed, words};

verus! {

/// A login succeeds only where the catalogue answered the login form with
/// 205 Reset Content. Every other outcome, a failed request included, is
/// answered 401 with the text that the login details seem to be incorrect,
/// and hands out no session; 205 is answered 200 with the session.
pub proof fn lemma_login_needs_reset_content(status: Option<u16>, token: Seq<char>, expiry: i64)
    ensures
        status != Some(205u16) ==> login_text_answer(status, token, expiry) == (BodyResponseView {
            status: 401,
            body: ApiResponseBodyView::Text("Login details seem to be incorrect."@),
        }),
        status == Some(205u16) ==> login_text_answer(status, token, expiry) == (BodyResponseView {
            status: 200,
            body: ApiResponseBodyView::Session(SessionView { session_token: token, expiry }),
        }),
{
}

/// The same for the login route that answers with an `ApiResult`: success,
/// status 200 and the session only for 205; otherwise 401, no success and
/// the text that the login details seem to be incorrect.
pub proof fn lemma_login_result_needs_reset_content(status: u16, token: Seq<char>, expiry: i64)
    ensures
        status != 205 ==> {
            &&& login_answer(status, token, expiry).status == 401
            &&& !login_answer(status, token, expiry).result.success
            &&& login_answer(status, token, expiry).result.msg == "Login details seem to be incorrect."@
        },
        status == 205 ==> {
            &&& login_answer(status, token, expiry).status == 200
            &&& login_answer(status, token, expiry).result.success
            &&& login_answer(status, token, expiry).result.data == (SessionView {
                session_token: token,
                expiry,
            })
        },
{
}

/// A whole login (login page, then login form) hands out a session only
/// where the catalogue answered the form with 205, whatever the login page
/// and the login data were.
pub proof fn lemma_whole_login_needs_reset_content(
    fetched: Option<LoginPage>,
    login_data: LoginData,
    status: Option<u16>,
    expiry: i64,
)
    ensures
        login_result(login_step(fetched, login_data), status, expiry).status == 200 ==> status
            == Some(205u16),
        login_result(login_step(fetched, login_data), status, expiry).body is Session ==> status
            == Some(205u16),
{
}

/// The message a failed cancellation falls back to holds no report of
/// success.
proof fn lemma_fallback_reports_nothing()
    ensures
        !has_substring("Failed to cancel reservations."@, "erfolgreich storniert"@),
{
    let f = "Failed to cancel reservations."@;
    let p = "erfolgreich storniert"@;
    reveal_strlit("Failed to cancel reservations.");
    reveal_strlit("erfolgreich storniert");
    assert forall|j: int| 0 <= j <= 9 implies !occurs_at(f, p, j) by {
        let k: int = if j == 4 { 1 } else { 0 };
        assert(f.subrange(j, j + p.len())[k] != p[k]);
    }
    reveal_with_fuel(first_index_from, 11);
}

/// The first alert of a page and its text, where it has one.
pub open spec fn first_alert_text(page: Seq<char>) -> Option<Seq<char>> {
    match first_selected(page_scope(page), "div[role=alert]"@) {
        Some(e) => first_text(e),
        None => None,
    }
}

/// For a logged-in hold list, a cancellation is answered 200 exactly when
/// the text of the page's first alert (`div[role=alert]`) contains
/// `erfolgreich storniert`. An alert without that phrase is answered 400
/// with the alert's text; a page without an alert text 400 with the
/// fallback message.
pub proof fn lemma_cancel_needs_success_report(page: Seq<char>)
    requires
        !shows_login(page),
    ensures
        (cancel_text_answer(page).status == 200) == (first_alert_text(page) matches Some(t)
            && has_substring(t, "erfolgreich storniert"@)),
        cancel_text_answer(page).status == 200 ==> cancel_text_answer(page).body
            == ApiResponseBodyView::Text("Reservations canceled successfully."@),
        first_alert_text(page) matches Some(t) ==> (!has_substring(t, "erfolgreich storniert"@)
            ==> cancel_text_answer(page) == (BodyResponseView {
            status: 400,
            body: ApiResponseBodyView::Text(t),
        })),
        first_alert_text(page) is None ==> cancel_text_answer(page) == (BodyResponseView {
            status: 400,
            body: ApiResponseBodyView::Text("Failed to cancel reservations."@),
        }),
{
    lemma_fallback_reports_nothing();
}

/// The same for the cancel route that answers with an `ApiResult`:
/// success and 200 exactly when the first alert's text contains
/// `erfolgreich storniert`; otherwise 400 with the alert's text, or the
/// fallback message where there is none.
pub proof fn lemma_cancel_result_needs_success_report(page: Seq<char>)
    requires
        !shows_login(page),
    ensures
        (cancel_answer(page).status == 200) == (first_alert_text(page) matches Some(t)
            && has_substring(t, "erfolgreich storniert"@)),
        cancel_answer(page).result.success == (cancel_answer(page).status == 200),
        first_alert_text(page) matches Some(t) ==> (!has_substring(t, "erfolgreich storniert"@)
            ==> cancel_answer(page).status == 400 && cancel_answer(page).result.msg == t),
        first_alert_text(page) is None ==> cancel_answer(page).status == 400
            && cancel_answer(page).result.msg == "Failed to cancel reservations."@,
{
    lemma_fallback_reports_nothing();
}

/// The trimmed first text of the first element that `selector` selects in
/// `row`; `None` where there is no such element or it has no text.
pub open spec fn cell_text(row: ElementId, selector: Seq<char>) -> Option<Seq<char>> {
    match first_selected(row, selector) {
        Some(cell) => match first_text(cell) {
            Some(t) => Some(trimmed(t)),
            None => None,
        },
        None => None,
    }
}

/// The first text of the first element that `selector` selects in `row`;
/// the empty text where there is no such element or it has no text.
pub open spec fn note_text(row: ElementId, selector: Seq<char>) -> Seq<char> {
    match first_selected(row, selector) {
        Some(note) => match first_text(note) {
            Some(t) => t,
            None => Seq::empty(),
        },
        None => Seq::empty(),
    }
}

/// The cells of the columns that the account and hold lists read are
/// selected by `td[data-th=<column>]`.
proof fn lemma_column_selectors()
    ensures
        column_selector("Titel"@) == "td[data-th=Titel]"@,
        column_selector("Signatur"@) == "td[data-th=Signatur]"@,
        column_selector("Rückgabe"@) == "td[data-th=Rückgabe]"@,
        column_selector("Rückgabedatum"@) == "td[data-th=Rückgabedatum]"@,
        column_selector("Verlängerungen"@) == "td[data-th=Verlängerungen]"@,
        column_selector("Mahnungen"@) == "td[data-th=Mahnungen]"@,
{
    reveal_strlit("td[data-th=");
    reveal_strlit("]");
    reveal_strlit("Titel");
    reveal_strlit("Signatur");
    reveal_strlit("Rückgabe");
    reveal_strlit("Rückgabedatum");
    reveal_strlit("Verlängerungen");
    reveal_strlit("Mahnungen");
    reveal_strlit("td[data-th=Titel]");
    reveal_strlit("td[data-th=Signatur]");
    reveal_strlit("td[data-th=Rückgabe]");
    reveal_strlit("td[data-th=Rückgabedatum]");
    reveal_strlit("td[data-th=Verlängerungen]");
    reveal_strlit("td[data-th=Mahnungen]");
    assert(column_selector("Titel"@) =~= "td[data-th=Titel]"@);
    assert(column_selector("Signatur"@) =~= "td[data-th=Signatur]"@);
    assert(column_selector("Rückgabe"@) =~= "td[data-th=Rückgabe]"@);
    assert(column_selector("Rückgabedatum"@) =~= "td[data-th=Rückgabedatum]"@);
    assert(column_selector("Verlängerungen"@) =~= "td[data-th=Verlängerungen]"@);
    assert(column_selector("Mahnungen"@) =~= "td[data-th=Mahnungen]"@);
}

/// A loan's status comes from the alert note in its title cell alone
/// (`td[data-th=Titel] > div.alert-danger`): the pickup rack where its
/// first text is `Ausleihstatus: Abholregal`, the default where the title
/// cell has no such note or it has no text, another status otherwise.
/// Notes in other cells of the row do not change it. The renewal message is
/// the first text of the note in the renewals cell
/// (`td[data-th=Verlängerungen] > div.alert-danger`).
pub proof fn lemma_loan_notes(row: ElementId)
    ensures
        loan_of(row).status == (if note_text(row, "td[data-th=Titel] > div.alert-danger"@)
            == "Ausleihstatus: Abholregal"@ {
            Status::PickupRack
        } else if note_text(row, "td[data-th=Titel] > div.alert-danger"@).len() == 0 {
            Status::Default
        } else {
            Status::Other
        }),
        loan_of(row).renewal_msg == note_text(
            row,
            "td[data-th=Verlängerungen] > div.alert-danger"@,
        ),
{
}

/// A readable loan row's fields come from its own columns: the title from
/// the `Titel` cell, the signature from `Signatur`, the due date from
/// `Rückgabe`, the renewals from `Verlängerungen` and the reminders from
/// `Mahnungen` (each the trimmed first text of `td[data-th=<column>]`), and
/// it can be renewed exactly when the row holds no disabled selection box.
pub proof fn lemma_loan_columns(row: ElementId)
    requires
        loan_readable(row),
    ensures
        cell_text(row, "td[data-th=Titel]"@) == Some(loan_of(row).volume.medium.title),
        cell_text(row, "td[data-th=Signatur]"@) == Some(loan_of(row).volume.signature),
        cell_text(row, "td[data-th=Rückgabe]"@) == Some(loan_of(row).due_date),
        parse_in_range(cell_text(row, "td[data-th=Verlängerungen]"@).unwrap(), -128, 127) == Some(
            loan_of(row).renewals as int,
        ),
        parse_in_range(cell_text(row, "td[data-th=Mahnungen]"@).unwrap(), -128, 127) == Some(
            loan_of(row).warnings as int,
        ),
        loan_of(row).can_be_renewed == (selection_count(
            row,
            "td[data-th=Selection] > input[disabled]"@,
        ) == 0),
{
    lemma_column_selectors();
    assert(column_value(row, "Titel"@) == cell_text(row, "td[data-th=Titel]"@));
    assert(column_value(row, "Signatur"@) == cell_text(row, "td[data-th=Signatur]"@));
    assert(column_value(row, "Rückgabe"@) == cell_text(row, "td[data-th=Rückgabe]"@));
    assert(column_value(row, "Verlängerungen"@) == cell_text(row, "td[data-th=Verlängerungen]"@));
    assert(column_value(row, "Mahnungen"@) == cell_text(row, "td[data-th=Mahnungen]"@));
}

/// A readable reservation row's due date is the trimmed first text of its
/// `td[data-th=Rückgabedatum]` cell, and its signature that of its
/// `td[data-th=Signatur]` cell.
pub proof fn lemma_reservation_columns(row: ElementId)
    requires
        reservation_readable(row),
    ensures
        cell_text(row, "td[data-th=Rückgabedatum]"@) == Some(reservation_of(row).due_date),
        cell_text(row, "td[data-th=Signatur]"@) == Some(reservation_of(row).volume.signature),
{
    lemma_column_selectors();
    assert(column_value(row, "Rückgabedatum"@) == cell_text(row, "td[data-th=Rückgabedatum]"@));
    assert(column_value(row, "Signatur"@) == cell_text(row, "td[data-th=Signatur]"@));
}

/// In the hold list read leniently, each reservation's due date is the
/// trimmed first text of its row's `td[data-th=Rückgabedatum]` cell, and
/// its signature that of its `td[data-th=Signatur]` cell; each is empty
/// only where that cell is missing or has no text.
pub proof fn lemma_entry_columns(row: ElementId)
    ensures
        entry_of(row).due_date == match cell_text(row, "td[data-th=Rückgabedatum]"@) {
            Some(t) => t,
            None => Seq::empty(),
        },
        entry_of(row).volume.signature == match cell_text(row, "td[data-th=Signatur]"@) {
            Some(t) => t,
            None => Seq::empty(),
        },
{
    lemma_column_selectors();
    assert(column_value(row, "Rückgabedatum"@) == cell_text(row, "td[data-th=Rückgabedatum]"@));
    assert(column_value(row, "Signatur"@) == cell_text(row, "td[data-th=Signatur]"@));
}

/// A page is the catalogue's login page exactly when its body carries the
/// class `template-name-login`.
pub proof fn lemma_login_page(page: Seq<char>)
    ensures
        shows_login(page) == (selection_count(page_scope(page), "body.template-name-login"@) > 0),
{
}

/// The fixed answers: a request without a session token is answered 400
/// with `This route needs a session_token query parameter.`, a session that
/// is not logged in 401 with `session_token is invalid.`, and an
/// unreachable catalogue 500 with `Failed to connect to the library
/// server.`.
pub proof fn lemma_fixed_answers<V>(data: V)
    ensures
        text_answer(400, missing_token_msg()) == (BodyResponseView {
            status: 400,
            body: ApiResponseBodyView::Text("This route needs a session_token query parameter."@),
        }),
        answer(400, data, missing_token_msg()).result.msg
            == "This route needs a session_token query parameter."@,
        !answer(400, data, missing_token_msg()).result.success,
        text_answer(401, invalid_token_msg()) == (BodyResponseView {
            status: 401,
            body: ApiResponseBodyView::Text("session_token is invalid."@),
        }),
        answer(401, data, invalid_token_msg()).result.msg == "session_token is invalid."@,
        !answer(401, data, invalid_token_msg()).result.success,
        text_answer(500, unreachable_msg()) == (BodyResponseView {
            status: 500,
            body: ApiResponseBodyView::Text("Failed to connect to the library server."@),
        }),
        answer(200, data, Seq::empty()).result.success,
{
}

/// The account page's loans are read from its rows `tr.myresearch-result`:
/// where the session is logged in, the answer is 200 with one loan per row,
/// the i-th read from the i-th row; where it is not, 401 with no loans and
/// the invalid-token message.
pub proof fn lemma_loans_from_rows(page: Seq<char>)
    ensures
        checked_out_answer(page) matches Some(r) ==> (!shows_login(page) ==> {
            &&& r.status == 200
            &&& r.result.success
            &&& r.result.data.len() == selection_count(page_scope(page), "tr.myresearch-result"@)
            &&& forall|i: int|
                0 <= i < r.result.data.len() ==> #[trigger] r.result.data[i] == loan_of(
                    selected(page_scope(page), "tr.myresearch-result"@, i as nat),
                )
        }),
        shows_login(page) ==> (checked_out_answer(page) matches Some(r) && r.status == 401
            && r.result.data.len() == 0 && r.result.msg == "session_token is invalid."@),
        loans_answer(page) matches Some(r) ==> (!shows_login(page) ==> {
            &&& r.success
            &&& r.data.len() == selection_count(page_scope(page), "tr.myresearch-result"@)
            &&& forall|i: int|
                0 <= i < r.data.len() ==> #[trigger] r.data[i] == row_loan(
                    selected(page_scope(page), "tr.myresearch-result"@, i as nat),
                )
        }),
        shows_login(page) ==> (loans_answer(page) matches Some(r) && !r.success && r.data.len()
            == 0 && r.msg == "session_token is invalid."@),
{
}

/// The hold list's reservations are read from its rows
/// `tr.myresearch-result`, the i-th from the i-th row; a session that is
/// not logged in is answered 401 with the invalid-token message.
pub proof fn lemma_reservations_from_rows(page: Seq<char>)
    ensures
        reservations_answer(page) matches Some(r) ==> (!shows_login(page) ==> {
            &&& r.status == 200
            &&& r.result.data.len() == selection_count(page_scope(page), "tr.myresearch-result"@)
            &&& forall|i: int|
                0 <= i < r.result.data.len() ==> #[trigger] r.result.data[i] == reservation_of(
                    selected(page_scope(page), "tr.myresearch-result"@, i as nat),
                )
        }),
        shows_login(page) ==> (reservations_answer(page) matches Some(r) && r.status == 401
            && r.result.msg == "session_token is invalid."@),
        entries_answer(page) matches Some(r) ==> (!shows_login(page) ==> r.status == 200),
        entries_answer(page) matches Some(r) ==> (!shows_login(page) ==> (
        r.body matches ApiResponseBodyView::Reservations(list) && list.len() == selection_count(
            page_scope(page),
            "tr.myresearch-result"@,
        ) && forall|i: int|
            0 <= i < list.len() ==> #[trigger] list[i] == entry_of(
                selected(page_scope(page), "tr.myresearch-result"@, i as nat),
            ))),
        shows_login(page) ==> entries_answer(page) == Some(
            BodyResponseView {
                status: 401,
                body: ApiResponseBodyView::Text("session_token is invalid."@),
            },
        ),
{
}

/// The search results are read from the title links
/// `div[id^=result] a.title`: the answer is 200 with one medium per link,
/// the i-th read from the i-th link.
pub proof fn lemma_search_from_links(page: Seq<char>)
    ensures
        search_answer(page).status == 200,
        search_answer(page).result.success,
        search_answer(page).result.data.len() == selection_count(
            page_scope(page),
            "div[id^=result] a.title"@,
        ),
        forall|i: int|
            0 <= i < search_answer(page).result.data.len() ==> #[trigger] search_answer(
                page,
            ).result.data[i] == medium_of(selected(page_scope(page), "div[id^=result] a.title"@, i as nat)),
{
}

/// The search for a word finds its first place at or after `from`, and
/// nothing where the word is not there.
proof fn lemma_word_position(ws: Seq<Seq<char>>, w: Seq<char>, from: int)
    requires
        0 <= from,
    ensures
        forall|k: int|
            from <= k < ws.len() && ws[k] == w && (forall|j: int| from <= j < k ==> ws[j] != w)
                ==> word_position_from(ws, w, from) == Some(k),
        (forall|j: int| from <= j < ws.len() ==> ws[j] != w) ==> word_position_from(ws, w, from)
            is None,
    decreases ws.len() - from,
{
    if from < ws.len() {
        lemma_word_position(ws, w, from + 1);
    }
}

/// A readable loan row's identity: the PPN is the number after `:ppn:` in
/// the row's id; the barcode, where the loan can be renewed, is what
/// follows `:bar:` in the value of the row's renewal box
/// (`td.checkbox > label > input[name="renewSelectedIDS[]"]`), else empty;
/// the library is the one named by the trimmed text of the second label of
/// the title cell (`td[data-th=Titel] > strong`); and the section is the
/// words of the title cell from the second after `Ausleihstelle:` on (from
/// the third where that word is missing), joined with spaces.
pub proof fn lemma_loan_identity(row: ElementId)
    requires
        loan_readable(row),
    ensures
        loan_of(row).volume.medium.ppn == ppn_number(
            text_after(attribute_of(row, "id"@).unwrap(), ":ppn:"@).unwrap(),
        ),
        loan_of(row).can_be_renewed ==> loan_of(row).volume.bar == text_after(
            attribute_of(
                first_selected(row, "td.checkbox > label > input[name=\"renewSelectedIDS[]\"]"@).unwrap(),
                "value"@,
            ).unwrap(),
            ":bar:"@,
        ).unwrap(),
        !loan_of(row).can_be_renewed ==> loan_of(row).volume.bar.len() == 0,
        loan_of(row).volume.location.library == library_of(
            trimmed(text_or_empty(selected(row, "td[data-th=Titel] > strong"@, 1))),
        ),
        ({
            let ws = words(texts_of(first_selected(row, "td[data-th=Titel]"@).unwrap()));
            &&& forall|k: int|
                0 <= k < ws.len() && ws[k] == "Ausleihstelle:"@ && (forall|j: int|
                    0 <= j < k ==> ws[j] != "Ausleihstelle:"@) ==> loan_of(row).volume.location.section
                    == joined(ws.subrange(k + 2, ws.len() as int))
            &&& (forall|j: int| 0 <= j < ws.len() ==> ws[j] != "Ausleihstelle:"@)
                ==> loan_of(row).volume.location.section == joined(ws.subrange(2, ws.len() as int))
        }),
{
    lemma_column_selectors();
    let ws = words(texts_of(first_selected(row, "td[data-th=Titel]"@).unwrap()));
    lemma_word_position(ws, "Ausleihstelle:"@, 0);
}

/// A readable hold-list row's reservation: the PPN is the number after
/// `:ppn:` in the row's id; the title the first text of
/// `td[data-th=Titel] > span.title`; the barcode what follows `:bar:` in the
/// value of the cancel box `td > label > input[name="cancelSelectedIDS[]"]`;
/// the library the one named by the first text of the location cell's label
/// (`td[data-th="Standort (Printmedien)"] > strong`); and the section the
/// location cell's words after the first, joined with spaces.
pub proof fn lemma_reservation_identity(row: ElementId)
    requires
        reservation_readable(row),
    ensures
        reservation_of(row).volume.medium.ppn == ppn_number(
            text_after(attribute_of(row, "id"@).unwrap(), ":ppn:"@).unwrap(),
        ),
        Some(reservation_of(row).volume.medium.title) == first_text(
            first_selected(row, "td[data-th=Titel] > span.title"@).unwrap(),
        ),
        Some(reservation_of(row).volume.bar) == text_after(
            attribute_of(
                first_selected(row, "td > label > input[name=\"cancelSelectedIDS[]\"]"@).unwrap(),
                "value"@,
            ).unwrap(),
            ":bar:"@,
        ),
        reservation_of(row).volume.location.library == library_of(
            first_text(
                first_selected(row, "td[data-th=\"Standort (Printmedien)\"] > strong"@).unwrap(),
            ).unwrap(),
        ),
        ({
            let ws = words(
                texts_of(first_selected(row, "td[data-th=\"Standort (Printmedien)\"]"@).unwrap()),
            );
            reservation_of(row).volume.location.section == joined(ws.subrange(1, ws.len() as int))
        }),
{
}

/// A hold-list row read leniently: the title is the first text of
/// `td[data-th=Titel] > span.title` (empty where there is none); the
/// barcode what follows `:bar:` in the value of the cancel box; the
/// section the location cell's words after the first (empty without that
/// cell); the PPN the number after `:ppn:` in the row's id, and 0 where the
/// row has no id.
pub proof fn lemma_entry_identity(row: ElementId)
    ensures
        entry_of(row).volume.medium.title == match first_selected(
            row,
            "td[data-th=Titel] > span.title"@,
        ) {
            Some(t) => text_or_empty(t),
            None => Seq::empty(),
        },
        entry_readable(row) ==> Some(entry_of(row).volume.bar) == text_after(
            match first_selected(row, "td > label > input[name=\"cancelSelectedIDS[]\"]"@) {
                Some(input) => match attribute_of(input, "value"@) {
                    Some(v) => v,
                    None => Seq::empty(),
                },
                None => Seq::empty(),
            },
            ":bar:"@,
        ),
        entry_of(row).volume.location.section == match first_selected(
            row,
            "td[data-th=\"Standort (Printmedien)\"]"@,
        ) {
            Some(cell) => joined(words(texts_of(cell)).subrange(1, words(texts_of(cell)).len() as int)),
            None => Seq::empty(),
        },
        attribute_of(row, "id"@) matches Some(id) ==> (text_after(id, ":ppn:"@) matches Some(t)
            ==> entry_of(row).volume.medium.ppn == ppn_number(t)),
        attribute_of(row, "id"@) is None ==> entry_of(row).volume.medium.ppn == 0,
{
    reveal_strlit(":ppn:");
}

/// A search result's medium: the PPN is the number between `Record/` and
/// the next `?` (or the end) of the link's address, and the title the
/// link's trimmed first text.
pub proof fn lemma_search_medium(link: ElementId)
    ensures
        medium_of(link).title == trimmed(text_or_empty(link)),
        ({
            let href = match attribute_of(link, "href"@) {
                Some(h) => h,
                None => Seq::empty(),
            };
            medium_of(link).ppn == ppn_number(
                match text_after(href, "Record/"@) {
                    Some(rest) => match first_index(rest, "?"@) {
                        Some(i) => rest.subrange(0, i),
                        None => rest,
                    },
                    None => Seq::empty(),
                },
            )
        }),
{
}

/// The search address: the catalogue's results page with the query (empty
/// where there is none) and the page (1 where there is none).
pub proof fn lemma_search_address(query: Option<Seq<char>>, page: Option<i32>)
    ensures
        search_url(query_text(query), page_text(page))
            == "https://katalogplus.sub.uni-hamburg.de/vufind/Search/Results?lookfor="@
            + (match query {
            Some(q) => q,
            None => Seq::empty(),
        }) + "&page="@ + (match page {
            Some(p) => int_text(p as int),
            None => "1"@,
        }) + "&type=AllFields&searchbox=1"@,
{
}

/// A hold request succeeds exactly where the catalogue answered it with
/// 302 Found: then 200, success and `Reservation successful.`. Otherwise a
/// session that is not logged in gets 401 and the invalid-token message,
/// and a logged-in one 400 with the page's first alert text, or
/// `Reservation unsuccessful.` where it has none. The hold form is asked
/// for at the record's `/Hold` address.
pub proof fn lemma_hold_needs_found(status: u16, page: Seq<char>, ppn: Seq<char>)
    ensures
        (reservation_answer(status, page).status == 200) == (status == 302),
        reservation_answer(status, page).result.success == (status == 302),
        status == 302 ==> reservation_answer(status, page).result.msg == "Reservation successful."@,
        status != 302 && shows_login(page) ==> reservation_answer(status, page).status == 401
            && reservation_answer(status, page).result.msg == "session_token is invalid."@,
        status != 302 && !shows_login(page) ==> reservation_answer(status, page).status == 400
            && reservation_answer(status, page).result.msg == match first_alert_text(page) {
            Some(t) => t,
            None => "Reservation unsuccessful."@,
        },
        hold_address(ppn) == "https://katalogplus.sub.uni-hamburg.de/vufind/Record/"@ + ppn
            + "/Hold"@,
{
}

/// The text of the control number of a record: the string member `001` of
/// the first element of the member `fields`, or the empty text.
pub open spec fn record_number_text(record: Seq<char>) -> Seq<char> {
    match json_step(json_root(record), JsonStep::Member("fields"@)) {
        Some(fields) => match json_step(fields, JsonStep::Element(0)) {
            Some(first) => match json_step(first, JsonStep::Member("001"@)) {
                Some(n) => match string_of(n) {
                    Some(t) => t,
                    None => Seq::empty(),
                },
                None => Seq::empty(),
            },
            None => Seq::empty(),
        },
        None => Seq::empty(),
    }
}

/// A barcode lookup: the search asks the barcode index (`@attr 1=8535`).
/// The catalogue's failures are answered 500 with their messages, no hit
/// 404; a record is answered 200 with its PPN exactly where it is JSON and
/// the string `fields[0]["001"]` is a decimal `i32`, 500 otherwise.
pub proof fn lemma_lookup_answers(barcode: i32, record: Seq<char>)
    ensures
        barcode_query(barcode) == "@attr 1=8535 "@ + int_text(barcode as int),
        lookup_answer(LookupOutcome::ConnectionFailed) == (BodyResponseView {
            status: 500,
            body: ApiResponseBodyView::Text("Failed to connect to the library server."@),
        }),
        lookup_answer(LookupOutcome::SearchFailed) == (BodyResponseView {
            status: 500,
            body: ApiResponseBodyView::Text("Failed to perform search on the library server."@),
        }),
        lookup_answer(LookupOutcome::NoHits) == (BodyResponseView {
            status: 404,
            body: ApiResponseBodyView::Text("No volume found for the given barcode."@),
        }),
        lookup_answer(LookupOutcome::RecordUnavailable) == (BodyResponseView {
            status: 500,
            body: ApiResponseBodyView::Text("Failed to retrieve record from the library server."@),
        }),
        !json_parses(record) ==> record_answer(record) == (BodyResponseView {
            status: 500,
            body: ApiResponseBodyView::Text("Failed to parse record from the library server."@),
        }),
        json_parses(record) ==> record_answer(record) == match parse_in_range(
            record_number_text(record),
            -2147483648,
            2147483647,
        ) {
            Some(n) => BodyResponseView { status: 200, body: ApiResponseBodyView::Number(n as i32) },
            None => BodyResponseView {
                status: 500,
                body: ApiResponseBodyView::Text("Failed to extract PPN from the record."@),
            },
        },
{
}

/// A PPN text gives its value where it is a decimal `i32`, else 0.
pub proof fn lemma_ppn_number(t: Seq<char>)
    ensures
        parse_in_range(t, -2147483648, 2147483647) matches Some(n) ==> ppn_number(t) == n,
        parse_in_range(t, -2147483648, 2147483647) is None ==> ppn_number(t) == 0,
{
}

/// The search for the session cookie finds the first `Set-Cookie` value at
/// or after `from` that holds `VUFIND_SESSION=`, and nothing where none
/// does.
proof fn lemma_session_cookie_search(cookies: Seq<Seq<char>>, from: int)
    requires
        0 <= from,
    ensures
        forall|k: int|
            from <= k < cookies.len() && has_substring(cookies[k], "VUFIND_SESSION="@) && (forall|
                j: int,
            | from <= j < k ==> !has_substring(cookies[j], "VUFIND_SESSION="@))
                ==> session_cookie_from(cookies, from) == Some(cookies[k]),
        (forall|j: int| from <= j < cookies.len() ==> !has_substring(cookies[j], "VUFIND_SESSION="@))
            ==> session_cookie_from(cookies, from) is None,
    decreases cookies.len() - from,
{
    if from < cookies.len() {
        lemma_session_cookie_search(cookies, from + 1);
    }
}

/// The session token comes from the first `Set-Cookie` value that holds
/// `VUFIND_SESSION=`; there is none where no value holds it. A cookie
/// written `VUFIND_SESSION=<token>`, alone or followed by `;` and
/// attributes, gives back the token where it holds no `;`.
pub proof fn lemma_session_cookie_reading(
    cookies: Seq<Seq<char>>,
    token: Seq<char>,
    attributes: Seq<char>,
)
    ensures
        forall|k: int|
            0 <= k < cookies.len() && has_substring(cookies[k], "VUFIND_SESSION="@) && (forall|
                j: int,
            | 0 <= j < k ==> !has_substring(cookies[j], "VUFIND_SESSION="@))
                ==> session_cookie_of(cookies) == Some(cookies[k]),
        (forall|j: int| 0 <= j < cookies.len() ==> !has_substring(cookies[j], "VUFIND_SESSION="@))
            ==> session_cookie_of(cookies) is None,
        (forall|i: int| 0 <= i < token.len() ==> token[i] != ';') && (attributes.len() == 0
            || attributes[0] == ';') ==> {
            &&& token_readable(seq!["VUFIND_SESSION="@ + token + attributes])
            &&& token_of(session_cookie_of(seq!["VUFIND_SESSION="@ + token + attributes]).unwrap())
                == token
        },
{
    lemma_session_cookie_search(cookies, 0);
    if (forall|i: int| 0 <= i < token.len() ==> token[i] != ';') && (attributes.len() == 0
        || attributes[0] == ';') {
        lemma_token_read_back(token, attributes);
    }
}

/// The login page's CSRF token is the value of its hidden `csrf` field
/// (`input[type=hidden][name=csrf]`).
pub proof fn lemma_csrf_field(page: Seq<char>)
    ensures
        csrf_of(page) == match first_selected(page_scope(page), "input[type=hidden][name=csrf]"@) {
            Some(field) => attribute_of(field, "value"@),
            None => None,
        },
{
}

} // verus!
