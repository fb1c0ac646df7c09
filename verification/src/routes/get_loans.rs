//! The loans route: the loans on the account page, each with its medium's
//! id, title and signature, its due date, renewal and reminder counts and
//! whether it can be renewed, answered with an `ApiResult`.

use vstd::prelude::*;
use crate::routes::{column_value, get_column_value, invalid_token_msg, missing_token_msg};
use crate::routes::get_checked_out::{disabled_selector, rows_selector};
use crate::scraping::html::{
    attribute_of,
    is_logged_in,
    page_scope,
    selection,
    selection_count,
    shows_login,
    Document,
    Element,
    ElementId,
    Select,
};
use crate::scraping::models::{ApiResult, ApiResultView, SessionTokenQuery};
use crate::text::{after_marker, has_substring, parse_i8, parse_in_range, text_after};

verus! {

/// Reads the medium id (the PPN) from a row id of the form
/// `...:ppn:<ppn>`: what follows the first `:ppn:`.
pub fn get_medium_id(id_attr: &str) -> (res: String)
    requires
        has_substring(id_attr@, ":ppn:"@),
    ensures
        text_after(id_attr@, ":ppn:"@) == Some(res@),
{
    match after_marker(id_attr, ":ppn:") {
        Some(id) => id,
        None => String::new(),
    }
}

/// The result for a request without a session token: no success, empty
/// data, and the message that the route needs a session token.
pub fn default_route() -> (res: ApiResult<String>)
    ensures
        !res.success,
        res.data@ == Seq::<char>::empty(),
        res.msg@ == missing_token_msg(),
{
    let msg = "This route needs a session_token query parameter.".to_owned();
    ApiResult { success: false, data: String::new(), msg }
}

/// A loaned medium as the loans route lists it: its id (the PPN), title and
/// signature.
pub struct LoanMedium {
    pub id: String,
    pub title: String,
    pub signature: String,
}

/// A loan as the loans route lists it.
pub struct Loan {
    pub medium: LoanMedium,
    pub due_date: String,
    pub renewals: i8,
    pub warnings: i8,
    pub can_be_renewed: bool,
}

/// The model of a `LoanMedium`.
pub struct LoanMediumView {
    pub id: Seq<char>,
    pub title: Seq<char>,
    pub signature: Seq<char>,
}

/// The model of a `Loan`.
pub struct LoanView {
    pub medium: LoanMediumView,
    pub due_date: Seq<char>,
    pub renewals: i8,
    pub warnings: i8,
    pub can_be_renewed: bool,
}

impl DeepView for LoanMedium {
    type V = LoanMediumView;

    open spec fn deep_view(&self) -> LoanMediumView {
        LoanMediumView { id: self.id@, title: self.title@, signature: self.signature@ }
    }
}

impl DeepView for Loan {
    type V = LoanView;

    open spec fn deep_view(&self) -> LoanView {
        LoanView {
            medium: self.medium.deep_view(),
            due_date: self.due_date@,
            renewals: self.renewals,
            warnings: self.warnings,
            can_be_renewed: self.can_be_renewed,
        }
    }
}

/// A row of the account page can be read as a loan: it has an id with a
/// PPN, the title, signature and due date columns, and the renewal and
/// reminder columns as small numbers.
pub open spec fn row_readable(row: ElementId) -> bool {
    &&& attribute_of(row, "id"@) matches Some(id) && has_substring(id, ":ppn:"@)
    &&& column_value(row, "Titel"@) is Some
    &&& column_value(row, "Signatur"@) is Some
    &&& column_value(row, "Rückgabe"@) is Some
    &&& column_value(row, "Verlängerungen"@) matches Some(v) && parse_in_range(v, -128, 127) is Some
    &&& column_value(row, "Mahnungen"@) matches Some(v) && parse_in_range(v, -128, 127) is Some
}

/// The loan that a readable row of the account page describes.
pub open spec fn row_loan(row: ElementId) -> LoanView {
    LoanView {
        medium: LoanMediumView {
            id: text_after(attribute_of(row, "id"@).unwrap(), ":ppn:"@).unwrap(),
            title: column_value(row, "Titel"@).unwrap(),
            signature: column_value(row, "Signatur"@).unwrap(),
        },
        due_date: column_value(row, "Rückgabe"@).unwrap(),
        renewals: parse_in_range(column_value(row, "Verlängerungen"@).unwrap(), -128, 127).unwrap() as i8,
        warnings: parse_in_range(column_value(row, "Mahnungen"@).unwrap(), -128, 127).unwrap() as i8,
        can_be_renewed: selection_count(row, disabled_selector()) == 0,
    }
}

/// Reads one row of the account page as a loan; `None` where it cannot be
/// read.
pub fn read_row(row: &Element) -> (res: Option<Loan>)
    ensures
        res is Some <==> row_readable(row@),
        res matches Some(l) ==> l.deep_view() == row_loan(row@),
{
    let id_attr = match row.attr("id") {
        Some(id) => id,
        None => return None,
    };
    let id = match after_marker(id_attr.as_str(), ":ppn:") {
        Some(id) => id,
        None => return None,
    };
    let title = match get_column_value(row, "Titel") {
        Some(t) => t,
        None => return None,
    };
    let signature = match get_column_value(row, "Signatur") {
        Some(t) => t,
        None => return None,
    };
    let due_date = match get_column_value(row, "Rückgabe") {
        Some(t) => t,
        None => return None,
    };
    let renewals = match get_column_value(row, "Verlängerungen") {
        Some(t) => match parse_i8(t.as_str()) {
            Some(n) => n,
            None => return None,
        },
        None => return None,
    };
    let warnings = match get_column_value(row, "Mahnungen") {
        Some(t) => match parse_i8(t.as_str()) {
            Some(n) => n,
            None => return None,
        },
        None => return None,
    };
    let disabled = row.select_all("td[data-th=Selection] > input[disabled]");
    assert(disabled@.map_values(|e: Element| e@).len() == selection_count(
        row@,
        disabled_selector(),
    ));
    let can_be_renewed = disabled.len() == 0;
    Some(
        Loan {
            medium: LoanMedium { id, title, signature },
            due_date,
            renewals,
            warnings,
            can_be_renewed,
        },
    )
}

/// The result for the account page `page`: no success and the invalid-token
/// message where the session is not logged in; otherwise success with the
/// loans of its rows, or `None` where a row cannot be read.
pub open spec fn loans_answer(page: Seq<char>) -> Option<ApiResultView<Seq<LoanView>>> {
    if shows_login(page) {
        Some(ApiResultView { success: false, data: Seq::empty(), msg: invalid_token_msg() })
    } else {
        let rows = selection(page_scope(page), rows_selector());
        if forall|i: int| 0 <= i < rows.len() ==> row_readable(#[trigger] rows[i]) {
            Some(
                ApiResultView {
                    success: true,
                    data: rows.map_values(|row: ElementId| row_loan(row)),
                    msg: Seq::empty(),
                },
            )
        } else {
            None
        }
    }
}

/// Answers with the loans on the account page `page` (the text that the
/// catalogue's account page returned for the session); `None` where a row
/// cannot be read.
pub fn route(page: &str) -> (res: Option<ApiResult<Vec<Loan>>>)
    ensures
        res is Some <==> loans_answer(page@) is Some,
        res matches Some(r) ==> r.deep_view() == loans_answer(page@).unwrap(),
{
    let document = Document::parse(page);
    if !is_logged_in(&document) {
        let res = ApiResult {
            success: false,
            data: Vec::new(),
            msg: "session_token is invalid.".to_owned(),
        };
        assert(res.deep_view().data =~= Seq::<LoanView>::empty());
        return Some(res);
    }
    let rows = document.select_all("tr.myresearch-result");
    let ghost ids = rows@.map_values(|e: Element| e@);
    let mut loans: Vec<Loan> = Vec::new();
    let mut i: usize = 0;
    while i < rows.len()
        invariant
            i <= rows.len(),
            ids == rows@.map_values(|e: Element| e@),
            ids == selection(page_scope(page@), rows_selector()),
            !shows_login(page@),
            loans.len() == i,
            forall|k: int| 0 <= k < i ==> row_readable(#[trigger] ids[k]),
            forall|k: int| 0 <= k < i ==> (#[trigger] loans@[k]).deep_view() == row_loan(ids[k]),
        decreases rows.len() - i,
    {
        match read_row(&rows[i]) {
            Some(loan) => loans.push(loan),
            None => {
                assert(!row_readable(ids[i as int]));
                return None;
            },
        }
        i = i + 1;
    }
    let res = ApiResult { success: true, data: loans, msg: String::new() };
    assert(res.deep_view().data =~= ids.map_values(|row: ElementId| row_loan(row)));
    Some(res)
}

/// The cookie to send to the catalogue for the session of `query`, or, where
/// the query carries no session token, the result to give at once: no
/// request goes to the catalogue then.
pub fn request_for(query: &SessionTokenQuery) -> (res: Result<String, ApiResult<String>>)
    ensures
        query.session_token matches Some(t) ==> (res matches Ok(c) && c@ == "VUFIND_SESSION="@ + t@),
        query.session_token is None ==> (res matches Err(r) && !r.success && r.data@ == Seq::<
            char,
        >::empty() && r.msg@ == missing_token_msg()),
{
    match &query.session_token {
        Some(t) => Ok(crate::routes::session_cookie(t.as_str())),
        None => Err(default_route()),
    }
}

} // verus!
