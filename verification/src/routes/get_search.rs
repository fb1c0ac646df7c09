//! The catalogue search: the media that a search finds.

use vstd::prelude::*;
use crate::routes::{answer, get_text_or_empty, respond, text_or_empty, OK};
use crate::scraping::html::{
    attribute_of,
    page_scope,
    selection,
    Document,
    Element,
    ElementId,
    Select,
};
use crate::scraping::models::{ppn_number, to_ppn, ApiResponse, ApiResponseView, Medium, MediumView, SearchQuery};
use crate::text::{
    after_marker,
    chars_of,
    find,
    first_index,
    i32_to_text,
    int_text,
    text_after,
    trim,
    trimmed,
};

verus! {

/// The address of the catalogue's search for `query`, at result page
/// `page`.
pub open spec fn search_url(query: Seq<char>, page: Seq<char>) -> Seq<char> {
    "https://katalogplus.sub.uni-hamburg.de/vufind/Search/Results?lookfor="@ + query
        + "&page="@ + page + "&type=AllFields&searchbox=1"@
}

/// The search text of a query: empty where none is given.
pub open spec fn query_text(query: Option<Seq<char>>) -> Seq<char> {
    match query {
        Some(q) => q,
        None => Seq::empty(),
    }
}

/// The result page of a query: the first where none is given.
pub open spec fn page_text(page: Option<i32>) -> Seq<char> {
    match page {
        Some(p) => int_text(p as int),
        None => "1"@,
    }
}

/// The address of the catalogue's search that answers `query`.
pub fn results_url(query: &SearchQuery) -> (res: String)
    ensures
        res@ == search_url(
            query_text(
                match &query.query {
                    Some(q) => Some(q@),
                    None => None,
                },
            ),
            page_text(query.page),
        ),
{
    let mut res = "https://katalogplus.sub.uni-hamburg.de/vufind/Search/Results?lookfor=".to_owned();
    match &query.query {
        Some(q) => res.append(q.as_str()),
        None => {},
    }
    res.append("&page=");
    match query.page {
        Some(p) => {
            let text = i32_to_text(p);
            res.append(text.as_str());
        },
        None => res.append("1"),
    }
    res.append("&type=AllFields&searchbox=1");
    proof {
        reveal_strlit("");
    }
    res
}

/// The PPN in the address of a record page (`.../Record/<ppn>?...`): what
/// follows the first `Record/`, up to a `?`; empty where the address holds
/// no `Record/`.
pub open spec fn record_ppn(href: Seq<char>) -> Seq<char> {
    match text_after(href, "Record/"@) {
        Some(rest) => match first_index(rest, "?"@) {
            Some(i) => rest.subrange(0, i),
            None => rest,
        },
        None => Seq::empty(),
    }
}

/// Reads the PPN from the address of a record page.
pub fn get_medium_ppn_from_href(href: &str) -> (res: i32)
    ensures
        res == ppn_number(record_ppn(href@)),
{
    let text = match after_marker(href, "Record/") {
        Some(rest) => {
            let cs = chars_of(rest.as_str());
            let q = chars_of("?");
            match find(&cs, &q) {
                Some(i) => {
                    proof {
                        crate::text::lemma_first_index(rest@, "?"@);
                    }
                    rest.as_str().substring_char(0, i).to_owned()
                },
                None => rest,
            }
        },
        None => String::new(),
    };
    assert(text@ == record_ppn(href@));
    to_ppn(text.as_str())
}

/// The selector of the title links of the search results.
pub open spec fn result_links_selector() -> Seq<char> {
    "div[id^=result] a.title"@
}

/// The medium that a title link of the search results names.
pub open spec fn medium_of(link: ElementId) -> MediumView {
    let href = match attribute_of(link, "href"@) {
        Some(h) => h,
        None => Seq::empty(),
    };
    MediumView { ppn: ppn_number(record_ppn(href)), title: trimmed(text_or_empty(link)) }
}

/// Reads the medium that a title link names.
pub fn read_medium(link: &Element) -> (res: Medium)
    ensures
        res.deep_view() == medium_of(link@),
{
    let href = match link.attr("href") {
        Some(h) => h,
        None => String::new(),
    };
    let ppn = get_medium_ppn_from_href(href.as_str());
    let title = trim(get_text_or_empty(link).as_str());
    Medium { ppn, title }
}

/// The answer to the search results page `page`: 200, with the media of its
/// title links.
pub open spec fn search_answer(page: Seq<char>) -> ApiResponseView<Seq<MediumView>> {
    let links = selection(page_scope(page), result_links_selector());
    answer(OK, links.map_values(|l: ElementId| medium_of(l)), Seq::empty())
}

/// Answers with the media on the search results page `page`.
pub fn route(page: &str) -> (res: ApiResponse<Vec<Medium>>)
    ensures
        res.deep_view() == search_answer(page@),
{
    let document = Document::parse(page);
    let links = document.select_all("div[id^=result] a.title");
    let ghost ids = links@.map_values(|e: Element| e@);
    let mut media: Vec<Medium> = Vec::new();
    let mut i: usize = 0;
    while i < links.len()
        invariant
            i <= links.len(),
            ids == links@.map_values(|e: Element| e@),
            media.len() == i,
            forall|k: int| 0 <= k < i ==> (#[trigger] media@[k]).deep_view() == medium_of(ids[k]),
        decreases links.len() - i,
    {
        let medium = read_medium(&links[i]);
        media.push(medium);
        i = i + 1;
    }
    let res = respond(OK, media, "");
    proof {
        reveal_strlit("");
        assert(res.deep_view().result.data =~= ids.map_values(|l: ElementId| medium_of(l)));
        assert(res.deep_view().result.msg =~= Seq::<char>::empty());
    }
    res
}

} // verus!
