//! The platform boundary: errors of the host environment, and the few
//! document-tree operations the core drives itself (the in-page UI overlay).
//! Each call into the host goes through one trusted wrapper; everything that
//! decides or composes is verified. Clock reading, context acquisition,
//! frame scheduling and fetching live in the hosting layer, which hands the
//! core plain values.

use vstd::prelude::*;

use wasm_bindgen::JsCast;

verus! {

/// Failures of the host environment. Environment-acquisition failures are
/// fatal to startup; in-page operations surface the host's refusal.
#[derive(Debug, Clone)]
pub enum GameError {
    /// No browsing-context window object exists.
    NoWindow,
    /// The window has no document.
    NoDocument,
    /// No element with the looked-up id exists in the document; carries that
    /// id.
    ElementNotFound(String),
    /// The canvas element is missing or is not a canvas.
    NoCanvas,
    /// The host refused an operation; carries its description.
    Platform(String),
}

impl GameError {
    /// A short description of the failure.
    pub fn message(&self) -> (m: &str)
        ensures
            self is NoWindow ==> m@ == "no window found"@,
            self is NoDocument ==> m@ == "no document found"@,
            self is ElementNotFound ==> m@ == "element not found"@,
            self is NoCanvas ==> m@ == "no canvas element found"@,
            self matches GameError::Platform(s) ==> m@ == s@,
    {
        match self {
            GameError::NoWindow => "no window found",
            GameError::NoDocument => "no document found",
            GameError::ElementNotFound(_) => "element not found",
            GameError::NoCanvas => "no canvas element found",
            GameError::Platform(s) => s.as_str(),
        }
    }
}

#[verifier::external_type_specification]
#[verifier::external_body]
pub struct ExWindow(web_sys::Window);

#[verifier::external_type_specification]
#[verifier::external_body]
pub struct ExDocument(web_sys::Document);

#[verifier::external_type_specification]
#[verifier::external_body]
pub struct ExElement(web_sys::Element);

#[verifier::external_type_specification]
#[verifier::external_body]
pub struct ExNode(web_sys::Node);

#[verifier::external_type_specification]
#[verifier::external_body]
pub struct ExHtmlElement(web_sys::HtmlElement);

#[verifier::external_type_specification]
#[verifier::external_body]
pub struct ExHtmlCanvasElement(web_sys::HtmlCanvasElement);

/// Relies on web_sys::Window::document: the window's document, if it has one.
#[verifier::external_body]
fn dom_document(w: &web_sys::Window) -> (r: Result<web_sys::Document, GameError>)
    ensures
        r is Err ==> r->Err_0 is NoDocument,
{
    w.document().ok_or(GameError::NoDocument)
}

/// Relies on web_sys::Document::get_element_by_id: the element with that id,
/// if the document has one.
#[verifier::external_body]
fn dom_element_by_id(d: &web_sys::Document, id: &str) -> (r: Option<web_sys::Element>) {
    d.get_element_by_id(id)
}

/// Relies on web_sys::Element::insert_adjacent_html: parses `html` and
/// inserts the nodes at `position` relative to the element.
#[verifier::external_body]
fn dom_insert_adjacent_html(el: &web_sys::Element, position: &str, html: &str) -> (r: Result<
    (),
    GameError,
>)
    ensures
        r is Err ==> r->Err_0 is Platform,
{
    match el.insert_adjacent_html(position, html) {
        Ok(u) => Ok(u),
        Err(err) => Err(GameError::Platform(format!("could not insert html {:#?}", err))),
    }
}

/// Relies on web_sys::Node::first_child: the element's first child node, if
/// it has any.
#[verifier::external_body]
fn dom_first_child(el: &web_sys::Element) -> (r: Option<web_sys::Node>) {
    el.first_child()
}

/// Relies on web_sys::Node::remove_child: detaches the child from the
/// element.
#[verifier::external_body]
fn dom_remove_child(el: &web_sys::Element, child: &web_sys::Node) -> (r: Result<(), GameError>)
    ensures
        r is Err ==> r->Err_0 is Platform,
{
    match el.remove_child(child) {
        Ok(_removed_child) => Ok(()),
        Err(err) => Err(GameError::Platform(format!("failed to remove child {:#?}", err))),
    }
}

/// Relies on wasm_bindgen::JsCast::dyn_into: the element as a canvas, if
/// that is its concrete type.
#[verifier::external_body]
fn dom_cast_canvas(el: web_sys::Element) -> (r: Result<web_sys::HtmlCanvasElement, GameError>)
    ensures
        r is Err ==> r->Err_0 is NoCanvas,
{
    match el.dyn_into::<web_sys::HtmlCanvasElement>() {
        Ok(canvas) => Ok(canvas),
        Err(_element) => Err(GameError::NoCanvas),
    }
}

/// Relies on wasm_bindgen::JsCast::dyn_into: the element as an HTML element,
/// if that is its concrete type.
#[verifier::external_body]
fn dom_cast_html_element(el: web_sys::Element) -> (r: Result<web_sys::HtmlElement, GameError>)
    ensures
        r is Err ==> r->Err_0 is Platform,
{
    match el.dyn_into::<web_sys::HtmlElement>() {
        Ok(html) => Ok(html),
        Err(element) => Err(
            GameError::Platform(format!("could not cast into HtmlElement {:#?}", element)),
        ),
    }
}

/// Relies on web_sys::HtmlElement::focus: gives the element keyboard focus.
#[verifier::external_body]
fn dom_focus(el: &web_sys::HtmlCanvasElement) -> (r: Result<(), GameError>)
    ensures
        r is Err ==> r->Err_0 is Platform,
{
    match el.focus() {
        Ok(u) => Ok(u),
        Err(err) => Err(GameError::Platform(format!("could not set focus {:#?}", err))),
    }
}

/// Access to the host browsing context.
pub struct Browser {}

impl Browser {
    /// Relies on web_sys::window: the browsing-context global, absent
    /// outside a browser.
    #[verifier::external_body]
    pub fn window() -> (r: Result<web_sys::Window, GameError>)
        ensures
            r is Err ==> r->Err_0 is NoWindow,
    {
        web_sys::window().ok_or(GameError::NoWindow)
    }

    /// The window's document.
    pub fn document() -> (r: Result<web_sys::Document, GameError>)
        ensures
            r is Err ==> r->Err_0 is NoWindow || r->Err_0 is NoDocument,
    {
        let w = Browser::window()?;
        dom_document(&w)
    }

    /// The canvas element the drawing surface is bound to.
    pub fn canvas() -> (r: Result<web_sys::HtmlCanvasElement, GameError>)
        ensures
            r is Err ==> r->Err_0 is NoWindow || r->Err_0 is NoDocument || r->Err_0 is NoCanvas,
    {
        let document = Browser::document()?;
        match dom_element_by_id(&document, "canvas") {
            Some(element) => dom_cast_canvas(element),
            None => Err(GameError::NoCanvas),
        }
    }
}

/// The in-page UI overlay element.
fn find_ui() -> (r: Result<web_sys::Element, GameError>)
    ensures
        r is Err ==> r->Err_0 is NoWindow || r->Err_0 is NoDocument || r->Err_0
            is ElementNotFound,
        r matches Err(GameError::ElementNotFound(s)) ==> s@ == "ui"@,
{
    let document = Browser::document()?;
    match dom_element_by_id(&document, "ui") {
        Some(element) => Ok(element),
        None => Err(GameError::ElementNotFound("ui".to_owned())),
    }
}

/// Inserts the given markup at the start of the UI overlay element.
pub fn draw_ui(html: &str) -> (r: Result<(), GameError>)
    ensures
        r is Err ==> r->Err_0 is NoWindow || r->Err_0 is NoDocument || r->Err_0
            is ElementNotFound || r->Err_0 is Platform,
        r matches Err(GameError::ElementNotFound(s)) ==> s@ == "ui"@,
{
    let ui = find_ui()?;
    dom_insert_adjacent_html(&ui, "afterbegin", html)
}

/// Removes the UI overlay's first child, if it has one, and returns focus to
/// the canvas; with no child the overlay is already hidden and nothing is
/// touched.
pub fn hide_ui() -> (r: Result<(), GameError>)
    ensures
        r is Err ==> r->Err_0 is NoWindow || r->Err_0 is NoDocument || r->Err_0
            is ElementNotFound || r->Err_0 is NoCanvas || r->Err_0 is Platform,
        r matches Err(GameError::ElementNotFound(s)) ==> s@ == "ui"@,
{
    let ui = find_ui()?;
    match dom_first_child(&ui) {
        Some(child) => {
            dom_remove_child(&ui, &child)?;
            let canvas = Browser::canvas()?;
            dom_focus(&canvas)
        },
        None => Ok(()),
    }
}

/// The HTML element with the given id. A missing element is reported by an
/// error naming the looked-up id.
pub fn find_html_element_by_id(id: &str) -> (r: Result<web_sys::HtmlElement, GameError>)
    ensures
        r is Err ==> r->Err_0 is NoWindow || r->Err_0 is NoDocument || r->Err_0
            is ElementNotFound || r->Err_0 is Platform,
        r matches Err(GameError::ElementNotFound(s)) ==> s@ == id@,
{
    let document = Browser::document()?;
    match dom_element_by_id(&document, id) {
        Some(element) => dom_cast_html_element(element),
        None => Err(GameError::ElementNotFound(id.to_owned())),
    }
}

} // verus!
