//! The data that the API hands out, and the queries it takes.

use vstd::prelude::*;

verus! {

/// A logged-in session of the catalogue.
pub struct Session {
    pub session_token: String,
    pub expiry: i64,
}

/// A title of the catalogue, by its PPN (the catalogue's record number).
pub struct Medium {
    pub ppn: i32,
    pub title: String,
}

/// One physical copy of a medium.
pub struct Volume {
    pub medium: Medium,
    pub bar: String,
    pub signature: String,
    pub location: Location,
}

/// The loan status that the account page shows for a checked-out volume.
#[derive(PartialEq, Eq, Structural, Clone, Copy, Debug)]
pub enum Status {
    PickupRack,
    Default,
    Other,
}

/// A volume checked out by the session's user.
pub struct CheckedOut {
    pub volume: Volume,
    pub due_date: String,
    pub status: Status,
    pub renewals: i8,
    pub renewal_msg: String,
    pub warnings: i8,
    pub can_be_renewed: bool,
}

/// A volume reserved by the session's user.
pub struct Reservation {
    pub volume: Volume,
    pub due_date: String,
}

/// A library of the university's library system.
pub struct Library {
    pub id: i32,
    pub name: String,
    pub filter: String,
}

/// Where a volume stands.
pub struct Location {
    pub library: Library,
    pub section: String,
}

/// The body of an API answer: whether the request succeeded, its data and a
/// message.
pub struct ApiResult<T> {
    pub success: bool,
    pub data: T,
    pub msg: String,
}

/// An API answer: the HTTP status and the body.
pub struct ApiResponse<T> {
    pub status: u16,
    pub result: ApiResult<T>,
}

/// The query of the routes that act for a logged-in user.
pub struct SessionTokenQuery {
    pub session_token: Option<String>,
}

/// The query of the search route.
pub struct SearchQuery {
    pub query: Option<String>,
    pub page: Option<i32>,
}

/// What identifies a volume to reserve.
pub struct ReservationData {
    pub ppn: String,
    pub doc_id: String,
    pub item_id: String,
    pub hash_key: String,
}

/// The body of an answer of the routes that answer with plain text, a
/// number, a session or reservations.
pub enum ApiResponseBody {
    Text(String),
    Number(i32),
    Session(Session),
    Reservations(Vec<Reservation>),
}

/// An answer of the routes that answer with an `ApiResponseBody`.
pub struct BodyResponse {
    pub status: u16,
    pub body: ApiResponseBody,
}

/// The query of the route that looks up a barcode.
pub struct BarcodeQuery {
    pub barcode: Option<i32>,
}

/// The login details of a user.
pub struct LoginData {
    pub username: String,
    pub password: String,
}

/// The reservations to cancel, by the ids that the reservations page gives
/// them.
pub struct CancelReservationData {
    pub to_cancel: Vec<String>,
}

// ------------------------------------------------------------------
// Mathematical models
// ------------------------------------------------------------------

/// The model of a `Session`.
pub struct SessionView {
    pub session_token: Seq<char>,
    pub expiry: i64,
}

/// The model of a `Medium`.
pub struct MediumView {
    pub ppn: i32,
    pub title: Seq<char>,
}

/// The model of a `Library`.
pub struct LibraryView {
    pub id: i32,
    pub name: Seq<char>,
    pub filter: Seq<char>,
}

/// The model of a `Location`.
pub struct LocationView {
    pub library: LibraryView,
    pub section: Seq<char>,
}

/// The model of a `Volume`.
pub struct VolumeView {
    pub medium: MediumView,
    pub bar: Seq<char>,
    pub signature: Seq<char>,
    pub location: LocationView,
}

/// The model of a `CheckedOut`.
pub struct CheckedOutView {
    pub volume: VolumeView,
    pub due_date: Seq<char>,
    pub status: Status,
    pub renewals: i8,
    pub renewal_msg: Seq<char>,
    pub warnings: i8,
    pub can_be_renewed: bool,
}

/// The model of a `Reservation`.
pub struct ReservationView {
    pub volume: VolumeView,
    pub due_date: Seq<char>,
}

/// The model of an `ApiResult`.
pub struct ApiResultView<V> {
    pub success: bool,
    pub data: V,
    pub msg: Seq<char>,
}

/// The model of an `ApiResponse`.
pub struct ApiResponseView<V> {
    pub status: u16,
    pub result: ApiResultView<V>,
}

/// The model of an `ApiResponseBody`.
pub enum ApiResponseBodyView {
    Text(Seq<char>),
    Number(i32),
    Session(SessionView),
    Reservations(Seq<ReservationView>),
}

/// The model of a `BodyResponse`.
pub struct BodyResponseView {
    pub status: u16,
    pub body: ApiResponseBodyView,
}

impl DeepView for Session {
    type V = SessionView;

    open spec fn deep_view(&self) -> SessionView {
        SessionView { session_token: self.session_token@, expiry: self.expiry }
    }
}

impl DeepView for Medium {
    type V = MediumView;

    open spec fn deep_view(&self) -> MediumView {
        MediumView { ppn: self.ppn, title: self.title@ }
    }
}

impl DeepView for Library {
    type V = LibraryView;

    open spec fn deep_view(&self) -> LibraryView {
        LibraryView { id: self.id, name: self.name@, filter: self.filter@ }
    }
}

impl DeepView for Location {
    type V = LocationView;

    open spec fn deep_view(&self) -> LocationView {
        LocationView { library: self.library.deep_view(), section: self.section@ }
    }
}

impl DeepView for Volume {
    type V = VolumeView;

    open spec fn deep_view(&self) -> VolumeView {
        VolumeView {
            medium: self.medium.deep_view(),
            bar: self.bar@,
            signature: self.signature@,
            location: self.location.deep_view(),
        }
    }
}

impl DeepView for CheckedOut {
    type V = CheckedOutView;

    open spec fn deep_view(&self) -> CheckedOutView {
        CheckedOutView {
            volume: self.volume.deep_view(),
            due_date: self.due_date@,
            status: self.status,
            renewals: self.renewals,
            renewal_msg: self.renewal_msg@,
            warnings: self.warnings,
            can_be_renewed: self.can_be_renewed,
        }
    }
}

impl DeepView for Reservation {
    type V = ReservationView;

    open spec fn deep_view(&self) -> ReservationView {
        ReservationView { volume: self.volume.deep_view(), due_date: self.due_date@ }
    }
}

impl<T: DeepView> DeepView for ApiResult<T> {
    type V = ApiResultView<T::V>;

    open spec fn deep_view(&self) -> ApiResultView<T::V> {
        ApiResultView { success: self.success, data: self.data.deep_view(), msg: self.msg@ }
    }
}

impl<T: DeepView> DeepView for ApiResponse<T> {
    type V = ApiResponseView<T::V>;

    open spec fn deep_view(&self) -> ApiResponseView<T::V> {
        ApiResponseView { status: self.status, result: self.result.deep_view() }
    }
}

impl DeepView for ApiResponseBody {
    type V = ApiResponseBodyView;

    open spec fn deep_view(&self) -> ApiResponseBodyView {
        match self {
            ApiResponseBody::Text(t) => ApiResponseBodyView::Text(t@),
            ApiResponseBody::Number(n) => ApiResponseBodyView::Number(*n),
            ApiResponseBody::Session(s) => ApiResponseBodyView::Session(s.deep_view()),
            ApiResponseBody::Reservations(r) => ApiResponseBodyView::Reservations(r.deep_view()),
        }
    }
}

impl DeepView for BodyResponse {
    type V = BodyResponseView;

    open spec fn deep_view(&self) -> BodyResponseView {
        BodyResponseView { status: self.status, body: self.body.deep_view() }
    }
}

// ------------------------------------------------------------------
// Loan status
// ------------------------------------------------------------------

/// The status that the account page's status line `s` stands for.
pub open spec fn status_of(s: Seq<char>) -> Status {
    if s == "Ausleihstatus: Abholregal"@ {
        Status::PickupRack
    } else if s.len() == 0 {
        Status::Default
    } else {
        Status::Other
    }
}

/// Reads the status line of a checked-out volume.
pub fn to_status(str: &str) -> (res: Status)
    ensures
        res == status_of(str@),
{
    if crate::text::same_text(str, "Ausleihstatus: Abholregal") {
        Status::PickupRack
    } else if str.unicode_len() == 0 {
        Status::Default
    } else {
        Status::Other
    }
}

// ------------------------------------------------------------------
// PPNs
// ------------------------------------------------------------------

/// The PPN that the text `t` gives a medium: its value where it is a
/// decimal `i32`, else 0.
pub open spec fn ppn_number(t: Seq<char>) -> i32 {
    match crate::text::parse_in_range(t, -0x8000_0000, 0x7fff_ffff) {
        Some(n) => n as i32,
        None => 0,
    }
}

/// Reads the PPN that the text `t` gives a medium.
pub fn to_ppn(t: &str) -> (res: i32)
    ensures
        res == ppn_number(t@),
{
    match crate::text::parse_i32(t) {
        Some(n) => n,
        None => 0,
    }
}

} // verus!
