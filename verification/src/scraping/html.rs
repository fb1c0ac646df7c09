//! Access to parsed HTML pages through the `scraper` crate.
//!
//! A `Document` is identified by the text it was parsed from, an `Element`
//! by that text and the path of selections that reached it: each step of the
//! path is a CSS selector and the position of the element among that
//! selector's matches. The first step selects in the whole page, each later
//! one among the descendants of the element reached so far.

use vstd::prelude::*;

verus! {

#[verifier::external_type_specification]
#[verifier::external_body]
pub struct ExHtml(scraper::Html);

#[verifier::external_type_specification]
#[verifier::external_body]
pub struct ExElementRef<'a>(scraper::ElementRef<'a>);

#[verifier::external_type_specification]
#[verifier::external_body]
pub struct ExSelector(scraper::Selector);

/// One step of a selection path: a CSS selector and the position of the
/// element among its matches.
pub type Step = (Seq<char>, nat);

/// What identifies an element: the page text and the selection path. The
/// empty path stands for the page itself.
pub struct ElementId {
    pub source: Seq<char>,
    pub path: Seq<Step>,
}

/// Whether `Selector::parse` accepts the CSS selector list written `text`.
pub uninterp spec fn selector_parses(text: Seq<char>) -> bool;

/// How many elements of the page parsed from `source` `Html::select` yields
/// for the selector parsed from `selector`.
pub uninterp spec fn page_match_count(source: Seq<char>, selector: Seq<char>) -> nat;

/// How many descendants of the element reached by `path` in the page parsed
/// from `source` `ElementRef::select` yields for the selector `selector`.
pub uninterp spec fn element_match_count(
    source: Seq<char>,
    path: Seq<Step>,
    selector: Seq<char>,
) -> nat;

/// The text nodes below the element reached by `path` in the page parsed
/// from `source`, in the order of the parsed tree (`ElementRef::text`).
pub uninterp spec fn element_text_nodes(source: Seq<char>, path: Seq<Step>) -> Seq<Seq<char>>;

/// The value of the attribute `name` of the element reached by `path` in
/// the page parsed from `source` (`ElementRef::attr`).
pub uninterp spec fn element_attribute(
    source: Seq<char>,
    path: Seq<Step>,
    name: Seq<char>,
) -> Option<Seq<char>>;

/// The page identified by its text, as a selection scope.
pub open spec fn page_scope(source: Seq<char>) -> ElementId {
    ElementId { source, path: Seq::empty() }
}

/// How many elements a selection with `selector` yields in `scope`: none
/// where the selector does not parse.
pub open spec fn selection_count(scope: ElementId, selector: Seq<char>) -> nat {
    if !selector_parses(selector) {
        0
    } else if scope.path.len() == 0 {
        page_match_count(scope.source, selector)
    } else {
        element_match_count(scope.source, scope.path, selector)
    }
}

/// The `i`-th element that a selection with `selector` yields in `scope`.
pub open spec fn selected(scope: ElementId, selector: Seq<char>, i: nat) -> ElementId {
    ElementId { source: scope.source, path: scope.path.push((selector, i)) }
}

/// All elements that a selection with `selector` yields in `scope`.
pub open spec fn selection(scope: ElementId, selector: Seq<char>) -> Seq<ElementId> {
    Seq::new(selection_count(scope, selector), |i: int| selected(scope, selector, i as nat))
}

/// The first element that a selection with `selector` yields in `scope`.
pub open spec fn first_selected(scope: ElementId, selector: Seq<char>) -> Option<ElementId> {
    if selection_count(scope, selector) > 0 {
        Some(selected(scope, selector, 0))
    } else {
        None
    }
}

/// The text nodes below an element.
pub open spec fn texts_of(e: ElementId) -> Seq<Seq<char>> {
    element_text_nodes(e.source, e.path)
}

/// The first text node below an element, if there is one.
pub open spec fn first_text(e: ElementId) -> Option<Seq<char>> {
    if texts_of(e).len() > 0 {
        Some(texts_of(e)[0])
    } else {
        None
    }
}

/// The value of an element's attribute.
pub open spec fn attribute_of(e: ElementId, name: Seq<char>) -> Option<Seq<char>> {
    element_attribute(e.source, e.path, name)
}

/// A parsed CSS selector list.
pub struct CssSelector {
    selector: scraper::Selector,
    text: Ghost<Seq<char>>,
}

impl View for CssSelector {
    type V = Seq<char>;

    closed spec fn view(&self) -> Seq<char> {
        self.text@
    }
}

/// A parsed HTML page.
pub struct Document {
    html: scraper::Html,
    source: Ghost<Seq<char>>,
}

impl View for Document {
    type V = Seq<char>;

    closed spec fn view(&self) -> Seq<char> {
        self.source@
    }
}

/// An element of a parsed page.
pub struct Element<'a> {
    node: scraper::ElementRef<'a>,
    source: Ghost<Seq<char>>,
    path: Ghost<Seq<Step>>,
}

impl<'a> View for Element<'a> {
    type V = ElementId;

    closed spec fn view(&self) -> ElementId {
        ElementId { source: self.source@, path: self.path@ }
    }
}

impl<'a> Element<'a> {
    /// An element is always reached by at least one selection.
    #[verifier::type_invariant]
    spec fn reached(self) -> bool {
        self.path@.len() > 0
    }
}

/// Parses `text` as an HTML document (`scraper::Html::parse_document`).
/// Claimed: the result is the page of `text`; parsing never fails.
#[verifier::external_body]
fn parse_document(text: &str) -> (doc: Document)
    ensures
        doc@ == text@,
{
    Document { html: scraper::Html::parse_document(text), source: Ghost(text@) }
}

/// Parses the CSS selector list `text` (`scraper::Selector::parse`).
/// Claimed: it succeeds exactly where `selector_parses` holds of `text`, and
/// the result is the selector written `text`.
#[verifier::external_body]
fn parse_selector(text: &str) -> (res: Option<CssSelector>)
    ensures
        res is Some <==> selector_parses(text@),
        res matches Some(sel) ==> sel@ == text@,
{
    scraper::Selector::parse(text).ok().map(|selector| CssSelector { selector, text: Ghost(text@) })
}

/// The elements of `doc` that match `selector`, in the order in which the
/// parser created them
/// (`scraper::Html::select`, collected).
/// Claimed: their number is `page_match_count` of the page text and the
/// selector, and the i-th of them is identified by the path `[(selector, i)]`.
#[verifier::external_body]
fn page_select<'a>(doc: &'a Document, selector: &CssSelector) -> (res: Vec<Element<'a>>)
    ensures
        res.len() == page_match_count(doc@, selector@),
        forall|i: int|
            0 <= i < res.len() ==> (#[trigger] res@[i])@ == selected(
                page_scope(doc@),
                selector@,
                i as nat,
            ),
{
    doc.html.select(&selector.selector).enumerate().map(
        |(i, node)|
            Element { node, source: Ghost(doc@), path: Ghost(seq![(selector@, i as nat)]) },
    ).collect()
}

/// The descendants of `e` that match `selector`, in the order of the parsed tree
/// (`scraper::ElementRef::select`, collected).
/// Claimed: their number is `element_match_count` of `e` and the selector,
/// and the i-th of them is identified by `e`'s path extended by
/// `(selector, i)`.
#[verifier::external_body]
fn element_select<'a>(e: &Element<'a>, selector: &CssSelector) -> (res: Vec<Element<'a>>)
    ensures
        res.len() == element_match_count(e@.source, e@.path, selector@),
        forall|i: int|
            0 <= i < res.len() ==> (#[trigger] res@[i])@ == selected(e@, selector@, i as nat),
{
    e.node.select(&selector.selector).enumerate().map(
        |(i, node)|
            Element {
                node,
                source: Ghost(e@.source),
                path: Ghost(e@.path.push((selector@, i as nat))),
            },
    ).collect()
}

/// The text nodes below `e` (`scraper::ElementRef::text`, collected).
/// Claimed: they are `element_text_nodes` of `e`.
#[verifier::external_body]
fn element_texts(e: &Element) -> (res: Vec<String>)
    ensures
        res@.map_values(|t: String| t@) == element_text_nodes(e@.source, e@.path),
{
    e.node.text().map(|t| t.to_string()).collect()
}

/// The value of the attribute `name` of `e` (`scraper::ElementRef::attr`).
/// Claimed: it is `element_attribute` of `e` and `name`.
#[verifier::external_body]
fn element_attr(e: &Element, name: &str) -> (res: Option<String>)
    ensures
        res matches Some(v) ==> element_attribute(e@.source, e@.path, name@) == Some(v@),
        res is None ==> element_attribute(e@.source, e@.path, name@) is None,
{
    e.node.attr(name).map(|v| v.to_string())
}

impl Document {
    /// Parses `text` as an HTML page.
    pub fn parse(text: &str) -> (doc: Document)
        ensures
            doc@ == text@,
    {
        parse_document(text)
    }
}

/// Selecting elements by CSS selector, in a whole page or below an element.
pub trait Select {
    /// The scope in which this value selects.
    spec fn scope(&self) -> ElementId;

    /// The first element that matches `selection_string`, if any.
    fn select_first(&self, selection_string: &str) -> (res: Option<Element<'_>>)
        ensures
            res matches Some(e) ==> first_selected(self.scope(), selection_string@) == Some(e@),
            res is None ==> first_selected(self.scope(), selection_string@) is None,
    ;

    /// All elements that match `selection_string`, in the order in which
    /// scraper's `select` yields them: for a page, the order in which the
    /// parser created them; below an element, the order of the tree.
    fn select_all(&self, selection_string: &str) -> (res: Vec<Element<'_>>)
        ensures
            res@.map_values(|e: Element| e@) == selection(self.scope(), selection_string@),
    ;
}

impl Select for Document {
    open spec fn scope(&self) -> ElementId {
        page_scope(self@)
    }

    fn select_first(&self, selection_string: &str) -> (res: Option<Element<'_>>) {
        let mut all = self.select_all(selection_string);
        assert(all@.map_values(|e: Element| e@).len() == selection_count(
            self.scope(),
            selection_string@,
        ));
        if all.len() > 0 {
            assert(all@.map_values(|e: Element| e@)[0] == all@[0]@);
            assert(selection(self.scope(), selection_string@)[0] == selected(
                self.scope(),
                selection_string@,
                0,
            ));
            Some(all.remove(0))
        } else {
            None
        }
    }

    fn select_all(&self, selection_string: &str) -> (res: Vec<Element<'_>>) {
        match parse_selector(selection_string) {
            Some(selector) => {
                let res = page_select(self, &selector);
                assert(res@.map_values(|e: Element| e@) =~= selection(
                    self.scope(),
                    selection_string@,
                ));
                res
            },
            None => {
                let res: Vec<Element<'_>> = Vec::new();
                assert(res@.map_values(|e: Element| e@) =~= selection(
                    self.scope(),
                    selection_string@,
                ));
                res
            },
        }
    }
}

impl<'a> Select for Element<'a> {
    open spec fn scope(&self) -> ElementId {
        self@
    }

    fn select_first(&self, selection_string: &str) -> (res: Option<Element<'_>>) {
        let mut all = self.select_all(selection_string);
        assert(all@.map_values(|e: Element| e@).len() == selection_count(
            self.scope(),
            selection_string@,
        ));
        if all.len() > 0 {
            assert(all@.map_values(|e: Element| e@)[0] == all@[0]@);
            assert(selection(self.scope(), selection_string@)[0] == selected(
                self.scope(),
                selection_string@,
                0,
            ));
            Some(all.remove(0))
        } else {
            None
        }
    }

    fn select_all(&self, selection_string: &str) -> (res: Vec<Element<'_>>) {
        proof {
            use_type_invariant(self);
        }
        match parse_selector(selection_string) {
            Some(selector) => {
                let res = element_select(self, &selector);
                assert(res@.map_values(|e: Element| e@) =~= selection(
                    self.scope(),
                    selection_string@,
                ));
                res
            },
            None => {
                let res: Vec<Element<'_>> = Vec::new();
                assert(res@.map_values(|e: Element| e@) =~= selection(
                    self.scope(),
                    selection_string@,
                ));
                res
            },
        }
    }
}

impl<'a> Element<'a> {
    /// The text nodes below this element, in the order of the parsed tree.
    pub fn texts(&self) -> (res: Vec<String>)
        ensures
            res@.map_values(|t: String| t@) == texts_of(self@),
    {
        element_texts(self)
    }

    /// The first text node below this element, if there is one.
    pub fn first_text(&self) -> (res: Option<String>)
        ensures
            res matches Some(t) ==> first_text(self@) == Some(t@),
            res is None ==> first_text(self@) is None,
    {
        let mut all = element_texts(self);
        if all.len() > 0 {
            assert(all@.map_values(|t: String| t@)[0] == all@[0]@);
            Some(all.remove(0))
        } else {
            None
        }
    }

    /// The value of the attribute `name`, if the element has it.
    pub fn attr(&self, name: &str) -> (res: Option<String>)
        ensures
            res matches Some(v) ==> attribute_of(self@, name@) == Some(v@),
            res is None ==> attribute_of(self@, name@) is None,
    {
        element_attr(self, name)
    }
}

/// The page `page` is the catalogue's login page: its body carries the
/// class `template-name-login`.
pub open spec fn shows_login(page: Seq<char>) -> bool {
    selection_count(page_scope(page), "body.template-name-login"@) > 0
}

/// The page is one of a logged-in session: it is not the login page.
pub fn is_logged_in(document: &Document) -> (res: bool)
    ensures
        res == !shows_login(document@),
{
    let found = document.select_all("body.template-name-login");
    assert(found@.map_values(|e: Element| e@).len() == selection_count(
        page_scope(document@),
        "body.template-name-login"@,
    ));
    found.len() == 0
}

} // verus!
