//! The account page: the volumes that the session's user has checked out.

use vstd::prelude::*;
use crate::scraping::models::SessionTokenQuery;
use crate::routes::{
    answer,
    invalid_token_msg,
    missing_token_msg,
    column_selector,
    column_selector_for,
    column_value,
    get_column_value,
    get_note,
    note_of,
    respond,
    text_or_empty,
    get_text_or_empty,
    OK,
    UNAUTHORIZED,
    BAD_REQUEST,
};
use crate::scraping::html::{
    attribute_of,
    first_selected,
    is_logged_in,
    shows_login,
    page_scope,
    selected,
    selection,
    selection_count,
    texts_of,
    Document,
    Element,
    ElementId,
    Select,
};
use crate::scraping::libraries::{library_of, to_library};
use crate::scraping::models::{
    ppn_number,
    to_ppn,
    to_status,
    status_of,
    ApiResponse,
    ApiResponseView,
    CheckedOut,
    CheckedOutView,
    Location,
    LocationView,
    Medium,
    MediumView,
    Volume,
    VolumeView,
};
use crate::text::{
    after_marker,
    has_substring,
    join_from,
    joined,
    nonempty_trimmed,
    parse_i8,
    parse_in_range,
    same_text,
    text_after,
    trim,
    trimmed,
    words,
};

verus! {

/// Reads the barcode from a form value of the form `...:bar:<barcode>`:
/// what follows the first `:bar:`.
pub fn get_bar(bar_attr: &str) -> (res: String)
    requires
        has_substring(bar_attr@, ":bar:"@),
    ensures
        text_after(bar_attr@, ":bar:"@) == Some(res@),
{
    match after_marker(bar_attr, ":bar:") {
        Some(bar) => bar,
        None => String::new(),
    }
}

/// Reads the PPN from a row id of the form `...:ppn:<ppn>`: what follows the
/// first `:ppn:`.
pub fn get_ppn(ppn_attr: &str) -> (res: String)
    requires
        has_substring(ppn_attr@, ":ppn:"@),
    ensures
        text_after(ppn_attr@, ":ppn:"@) == Some(res@),
{
    match after_marker(ppn_attr, ":ppn:") {
        Some(ppn) => ppn,
        None => String::new(),
    }
}


/// The first position at or after `from` of the word `w` in `ws`.
pub open spec fn word_position_from(ws: Seq<Seq<char>>, w: Seq<char>, from: int) -> Option<int>
    decreases ws.len() - from,
{
    if from < 0 || from >= ws.len() {
        None
    } else if ws[from] == w {
        Some(from)
    } else {
        word_position_from(ws, w, from + 1)
    }
}

/// Finds the first position of the word `w` in `ws`.
pub fn find_word(ws: &Vec<String>, w: &str) -> (res: Option<usize>)
    ensures
        res matches Some(i) ==> word_position_from(ws@.map_values(|t: String| t@), w@, 0) == Some(
            i as int,
        ),
        res is None ==> word_position_from(ws@.map_values(|t: String| t@), w@, 0) is None,
{
    let ghost all = ws@.map_values(|t: String| t@);
    let mut i: usize = 0;
    while i < ws.len()
        invariant
            i <= ws.len(),
            all == ws@.map_values(|t: String| t@),
            word_position_from(all, w@, 0) == word_position_from(all, w@, i as int),
        decreases ws.len() - i,
    {
        if same_text(ws[i].as_str(), w) {
            return Some(i);
        }
        i = i + 1;
    }
    None
}

/// Where the section of a location starts among the words of the title
/// cell: two words after `Ausleihstelle:` (or at the third word where that
/// label is missing).
pub open spec fn section_start(ws: Seq<Seq<char>>) -> int {
    match word_position_from(ws, "Ausleihstelle:"@, 0) {
        Some(i) => i + 2,
        None => 2,
    }
}

/// The selector of the table rows of the account pages.
pub open spec fn rows_selector() -> Seq<char> {
    "tr.myresearch-result"@
}

/// The selector of the status note of a loan.
pub open spec fn status_selector() -> Seq<char> {
    "td[data-th=Titel] > div.alert-danger"@
}

/// The selector of the bold labels of a loan's title cell; the second names
/// the library.
pub open spec fn library_selector() -> Seq<char> {
    "td[data-th=Titel] > strong"@
}

/// The selector of the renewal note of a loan.
pub open spec fn renewal_note_selector() -> Seq<char> {
    "td[data-th=Verlängerungen] > div.alert-danger"@
}

/// The selector of a disabled renewal checkbox.
pub open spec fn disabled_selector() -> Seq<char> {
    "td[data-th=Selection] > input[disabled]"@
}

/// The selector of a renewal checkbox, whose value holds the barcode.
pub open spec fn renew_input_selector() -> Seq<char> {
    "td.checkbox > label > input[name=\"renewSelectedIDS[]\"]"@
}

/// The words of a loan's title cell.
pub open spec fn title_words(row: ElementId) -> Seq<Seq<char>> {
    words(texts_of(first_selected(row, column_selector("Titel"@)).unwrap()))
}

/// A loan's row can be read: it has an id with a PPN, the title, signature,
/// due date, renewal and reminder columns (the last two as small numbers),
/// at least two labels in the title cell, a section after the library, and,
/// where it can be renewed, a renewal checkbox whose value holds a barcode.
pub open spec fn loan_readable(row: ElementId) -> bool {
    &&& attribute_of(row, "id"@) matches Some(id) && has_substring(id, ":ppn:"@)
    &&& column_value(row, "Titel"@) is Some
    &&& selection_count(row, library_selector()) >= 2
    &&& section_start(title_words(row)) <= title_words(row).len()
    &&& column_value(row, "Signatur"@) is Some
    &&& column_value(row, "Rückgabe"@) is Some
    &&& column_value(row, "Verlängerungen"@) matches Some(v) && parse_in_range(v, -128, 127) is Some
    &&& column_value(row, "Mahnungen"@) matches Some(v) && parse_in_range(v, -128, 127) is Some
    &&& selection_count(row, disabled_selector()) == 0 ==> {
        &&& first_selected(row, renew_input_selector()) matches Some(input)
        &&& attribute_of(input, "value"@) matches Some(v) && has_substring(v, ":bar:"@)
    }
}

/// The loan that a readable row of the account page describes.
pub open spec fn loan_of(row: ElementId) -> CheckedOutView {
    let ppn = ppn_number(text_after(attribute_of(row, "id"@).unwrap(), ":ppn:"@).unwrap());
    let title = column_value(row, "Titel"@).unwrap();
    let status = status_of(note_of(row, status_selector()));
    let library = library_of(trimmed(text_or_empty(selected(row, library_selector(), 1))));
    let ws = title_words(row);
    let section = joined(ws.subrange(section_start(ws), ws.len() as int));
    let can_be_renewed = selection_count(row, disabled_selector()) == 0;
    let bar = if can_be_renewed {
        text_after(
            attribute_of(first_selected(row, renew_input_selector()).unwrap(), "value"@).unwrap(),
            ":bar:"@,
        ).unwrap()
    } else {
        Seq::empty()
    };
    CheckedOutView {
        volume: VolumeView {
            medium: MediumView { ppn, title },
            bar,
            signature: column_value(row, "Signatur"@).unwrap(),
            location: LocationView { library, section },
        },
        due_date: column_value(row, "Rückgabe"@).unwrap(),
        status,
        renewals: parse_in_range(column_value(row, "Verlängerungen"@).unwrap(), -128, 127).unwrap() as i8,
        renewal_msg: note_of(row, renewal_note_selector()),
        warnings: parse_in_range(column_value(row, "Mahnungen"@).unwrap(), -128, 127).unwrap() as i8,
        can_be_renewed,
    }
}

/// Reads one row of the account page; `None` where it cannot be read.
pub fn read_loan(loan: &Element) -> (res: Option<CheckedOut>)
    ensures
        res is Some <==> loan_readable(loan@),
        res matches Some(c) ==> c.deep_view() == loan_of(loan@),
{
    let id = match loan.attr("id") {
        Some(id) => id,
        None => return None,
    };
    let ppn = match after_marker(id.as_str(), ":ppn:") {
        Some(ppn) => to_ppn(ppn.as_str()),
        None => return None,
    };
    let title = match get_column_value(loan, "Titel") {
        Some(t) => t,
        None => return None,
    };
    let status_string = get_note(loan, "td[data-th=Titel] > div.alert-danger");
    let status = to_status(status_string.as_str());
    let labels = loan.select_all("td[data-th=Titel] > strong");
    assert(labels@.map_values(|e: Element| e@).len() == selection_count(
        loan@,
        library_selector(),
    ));
    if labels.len() < 2 {
        return None;
    }
    proof {
        assert(labels@.map_values(|e: Element| e@)[1] == labels@[1]@);
    }
    let library_string = trim(get_text_or_empty(&labels[1]).as_str());
    let library = to_library(library_string.as_str());
    let title_selector = column_selector_for("Titel");
    let title_cell = match loan.select_first(title_selector.as_str()) {
        Some(cell) => cell,
        None => return None,
    };
    let section_words = nonempty_trimmed(&title_cell.texts());
    let section_idx = match find_word(&section_words, "Ausleihstelle:") {
        Some(i) => i,
        None => 0,
    };
    if section_words.len() < 2 || section_idx > section_words.len() - 2 {
        return None;
    }
    let section = join_from(&section_words, section_idx + 2);
    let signature = match get_column_value(loan, "Signatur") {
        Some(t) => t,
        None => return None,
    };
    let due_date = match get_column_value(loan, "Rückgabe") {
        Some(t) => t,
        None => return None,
    };
    let renewals = match get_column_value(loan, "Verlängerungen") {
        Some(t) => match parse_i8(t.as_str()) {
            Some(n) => n,
            None => return None,
        },
        None => return None,
    };
    let renewal_msg = get_note(loan, "td[data-th=Verlängerungen] > div.alert-danger");
    let warnings = match get_column_value(loan, "Mahnungen") {
        Some(t) => match parse_i8(t.as_str()) {
            Some(n) => n,
            None => return None,
        },
        None => return None,
    };
    let disabled = loan.select_all("td[data-th=Selection] > input[disabled]");
    assert(disabled@.map_values(|e: Element| e@).len() == selection_count(
        loan@,
        disabled_selector(),
    ));
    let can_be_renewed = disabled.len() == 0;
    let volume_bar = if can_be_renewed {
        let input = match loan.select_first("td.checkbox > label > input[name=\"renewSelectedIDS[]\"]") {
            Some(input) => input,
            None => return None,
        };
        let uri = match input.attr("value") {
            Some(v) => v,
            None => return None,
        };
        match after_marker(uri.as_str(), ":bar:") {
            Some(bar) => bar,
            None => return None,
        }
    } else {
        String::new()
    };
    let location = Location { library, section };
    let medium = Medium { ppn, title };
    let volume = Volume { medium, bar: volume_bar, signature, location };
    Some(
        CheckedOut {
            volume,
            due_date,
            status,
            renewals,
            renewal_msg,
            warnings,
            can_be_renewed,
        },
    )
}


/// The answer to the account page `page`: 401 where the session is not
/// logged in; otherwise 200 with the loans of its rows, or `None` where a
/// row cannot be read.
pub open spec fn checked_out_answer(page: Seq<char>) -> Option<ApiResponseView<Seq<CheckedOutView>>> {
    if shows_login(page) {
        Some(answer(UNAUTHORIZED, Seq::empty(), invalid_token_msg()))
    } else {
        let rows = selection(page_scope(page), rows_selector());
        if forall|i: int| 0 <= i < rows.len() ==> loan_readable(#[trigger] rows[i]) {
            Some(answer(OK, rows.map_values(|row: ElementId| loan_of(row)), Seq::empty()))
        } else {
            None
        }
    }
}

/// Answers with the loans on the account page `page` (the text that the
/// catalogue's account page returned for the session); `None` where a row
/// cannot be read.
pub fn route(page: &str) -> (res: Option<ApiResponse<Vec<CheckedOut>>>)
    ensures
        res is Some <==> checked_out_answer(page@) is Some,
        res matches Some(r) ==> r.deep_view() == checked_out_answer(page@).unwrap(),
{
    let document = Document::parse(page);
    if !is_logged_in(&document) {
        let res = respond(UNAUTHORIZED, Vec::new(), "session_token is invalid.");
        assert(res.deep_view().result.data =~= Seq::<CheckedOutView>::empty());
        return Some(res);
    }
    let rows = document.select_all("tr.myresearch-result");
    let ghost ids = rows@.map_values(|e: Element| e@);
    let mut loans: Vec<CheckedOut> = Vec::new();
    let mut i: usize = 0;
    while i < rows.len()
        invariant
            i <= rows.len(),
            ids == rows@.map_values(|e: Element| e@),
            ids == selection(page_scope(page@), rows_selector()),
            !shows_login(page@),
            loans.len() == i,
            forall|k: int| 0 <= k < i ==> loan_readable(#[trigger] ids[k]),
            forall|k: int| 0 <= k < i ==> (#[trigger] loans@[k]).deep_view() == loan_of(ids[k]),
        decreases rows.len() - i,
    {
        match read_loan(&rows[i]) {
            Some(loan) => loans.push(loan),
            None => {
                assert(!loan_readable(ids[i as int]));
                return None;
            },
        }
        i = i + 1;
    }
    let res = respond(OK, loans, "");
    proof {
        reveal_strlit("");
        assert(res.deep_view().result.data =~= ids.map_values(|row: ElementId| loan_of(row)));
        assert(res.deep_view().result.msg =~= Seq::<char>::empty());
    }
    Some(res)
}

/// The answer to a request without a session token: 400, with no loans.
pub fn default_route() -> (res: ApiResponse<Vec<CheckedOut>>)
    ensures
        res.deep_view() == answer(BAD_REQUEST, Seq::<CheckedOutView>::empty(), missing_token_msg()),
{
    let res = respond(BAD_REQUEST, Vec::new(), "This route needs a session_token query parameter.");
    assert(res.deep_view().result.data =~= Seq::<CheckedOutView>::empty());
    res
}

/// The cookie to send to the catalogue for the session of `query`, or,
/// where the query carries no session token, the answer to give at once:
/// no request goes to the catalogue then.
pub fn request_for(query: &SessionTokenQuery) -> (res: Result<String, ApiResponse<Vec<CheckedOut>>>)
    ensures
        query.session_token matches Some(t) ==> (res matches Ok(c) && c@ == "VUFIND_SESSION="@ + t@),
        query.session_token is None ==> (res matches Err(r) && r.deep_view() == answer(BAD_REQUEST, Seq::<CheckedOutView>::empty(), missing_token_msg())),
{
    match &query.session_token {
        Some(t) => Ok(crate::routes::session_cookie(t.as_str())),
        None => Err(default_route()),
    }
}

} // verus!
