//! Bindings to the host browser: the window, the document tree and the
//! console. Each binding makes a single call into the host API, and the rest
//! of the crate is verified against what these bindings declare. The host's
//! handles are opaque here: nothing of what they point at is visible to the
//! verifier.

use vstd::prelude::*;

verus! {

#[verifier::external_type_specification]
#[verifier::external_body]
pub struct ExJsValue(wasm_bindgen::JsValue);

#[verifier::external_type_specification]
#[verifier::external_body]
pub struct ExWindow(web_sys::Window);

#[verifier::external_type_specification]
#[verifier::external_body]
pub struct ExDocument(web_sys::Document);

#[verifier::external_type_specification]
#[verifier::external_body]
pub struct ExElement(web_sys::Element);

#[verifier::external_type_specification]
#[verifier::external_body]
pub struct ExHtmlElement(web_sys::HtmlElement);

#[verifier::external_type_specification]
#[verifier::external_body]
pub struct ExNode(web_sys::Node);

#[verifier::external_type_specification]
#[verifier::external_body]
pub struct ExNodeList(web_sys::NodeList);

#[verifier::external_type_specification]
#[verifier::external_body]
pub struct ExJsonValue(serde_json::Value);

/// How many nodes a host node list holds. Of a live list this is no
/// function of the handle at all — the host may grow or shrink the list as
/// the tree changes — so no contract below applies the name to a bare
/// handle: the bindings speak only of lists inside [`StaticNodeList`], whose
/// one construction is `query_selector_all`, and the host documents that
/// list as static, its contents fixed when it is made.
pub uninterp spec fn node_list_len(list: web_sys::NodeList) -> nat;

/// A host node list known to be static. The only way to obtain one is
/// `query_selector_all`: the host fixes that list's contents at creation,
/// so its length is a function of the handle alone, and the bindings below
/// may say so. A live list — `childNodes`, say — can never get in here.
pub struct StaticNodeList {
    pub(crate) list: web_sys::NodeList,
}

impl StaticNodeList {
    /// How many nodes the list holds.
    pub closed spec fn spec_len(self) -> nat {
        node_list_len(self.list)
    }
}

/// Relies on the generated Clone for web_sys::HtmlElement: the clone is a
/// fresh handle to the same host element, not a copy of the element, and
/// nothing is claimed of it here.
pub assume_specification[ <web_sys::HtmlElement as core::clone::Clone>::clone ](
    e: &web_sys::HtmlElement,
) -> web_sys::HtmlElement;

/// Relies on web_sys::window. Aborts the whole program when no window
/// exists: running outside a page context is a startup fault, not a
/// recoverable condition.
#[verifier::external_body]
pub fn window() -> web_sys::Window {
    web_sys::window().expect("no window")
}

/// Relies on web_sys::Window::document. Aborts when the window carries no
/// document.
#[verifier::external_body]
fn window_document(w: &web_sys::Window) -> web_sys::Document {
    w.document().expect("no document")
}

/// The host document. A page without one aborts inside the binding.
pub fn document() -> web_sys::Document {
    window_document(&window())
}

/// Relies on web_sys::Document::body. Aborts when the document has no body.
#[verifier::external_body]
fn document_body(d: &web_sys::Document) -> web_sys::HtmlElement {
    d.body().expect("no have body")
}

/// The document's body element. A document without one aborts inside the
/// binding.
pub fn body() -> web_sys::HtmlElement {
    document_body(&document())
}

/// Relies on web_sys::Document::create_element. Aborts when the host rejects
/// the tag name.
#[verifier::external_body]
fn document_create_element(d: &web_sys::Document, tag: &str) -> web_sys::Element {
    d.create_element(tag)
        .expect(format!("no create element {}", tag).as_str())
}

/// A fresh, detached element with the given tag name. A rejected tag name
/// aborts inside the binding.
pub fn create_element(tag: &str) -> web_sys::Element {
    document_create_element(&document(), tag)
}

/// Relies on web_sys::Document::get_element_by_id: the element carrying that
/// id, when the document holds one.
#[verifier::external_body]
pub(crate) fn document_get_element_by_id(
    d: &web_sys::Document,
    id: &str,
) -> Option<web_sys::Element> {
    d.get_element_by_id(id)
}

/// Relies on the handle conversions web_sys::HtmlElement::from and
/// wasm_bindgen::JsValue::from: the result refers to the same host object,
/// reinterpreted as an HTML element without the host checking the kind.
#[verifier::external_body]
pub(crate) fn html_from_element(e: web_sys::Element) -> web_sys::HtmlElement {
    web_sys::HtmlElement::from(wasm_bindgen::JsValue::from(e))
}

/// Relies on the handle conversions web_sys::HtmlElement::from and
/// wasm_bindgen::JsValue::from: the result refers to the same host object,
/// reinterpreted as an HTML element without the host checking the kind.
#[verifier::external_body]
pub(crate) fn html_from_document(e: web_sys::Document) -> web_sys::HtmlElement {
    web_sys::HtmlElement::from(wasm_bindgen::JsValue::from(e))
}

/// Relies on the handle conversions web_sys::HtmlElement::from and
/// wasm_bindgen::JsValue::from: the result refers to the same host object,
/// reinterpreted as an HTML element without the host checking the kind.
#[verifier::external_body]
pub(crate) fn html_from_node(e: web_sys::Node) -> web_sys::HtmlElement {
    web_sys::HtmlElement::from(wasm_bindgen::JsValue::from(e))
}

/// Relies on web_sys::HtmlElement::from: the result refers to the same host
/// object, reinterpreted as an HTML element without the host checking the
/// kind.
#[verifier::external_body]
pub(crate) fn html_from_js(v: wasm_bindgen::JsValue) -> web_sys::HtmlElement {
    web_sys::HtmlElement::from(v)
}

/// Relies on web_sys::Node::append_child: asks the host to insert `child` as
/// the last child of `parent`; the host's refusal comes back as a value.
#[verifier::external_body]
pub(crate) fn append_child(
    parent: &web_sys::HtmlElement,
    child: &web_sys::HtmlElement,
) -> Result<(), wasm_bindgen::JsValue> {
    match parent.append_child(child) {
        Ok(_) => Ok(()),
        Err(e) => Err(e),
    }
}

/// Relies on web_sys::console::log: writes the host's refusal to the
/// console, as an array of one entry.
#[verifier::external_body]
pub(crate) fn log_js_error(e: &wasm_bindgen::JsValue) {
    web_sys::console::log(&js_sys::Array::from(e));
}

/// Relies on web_sys::Element::query_selector: the first descendant the host
/// matches against the selector, in document order. A selector the host
/// cannot parse aborts inside the binding.
#[verifier::external_body]
pub(crate) fn query_selector(
    e: &web_sys::HtmlElement,
    selectors: &str,
) -> Option<web_sys::Element> {
    e.query_selector(selectors).expect("query_selector error")
}

/// Relies on web_sys::Element::query_selector_all: the host's static list
/// of every matching descendant, in document order, fixed at creation. A
/// selector the host cannot parse aborts inside the binding.
#[verifier::external_body]
pub(crate) fn query_selector_all(e: &web_sys::HtmlElement, selectors: &str) -> StaticNodeList {
    StaticNodeList { list: e.query_selector_all(selectors).expect("query_selector error") }
}

/// Relies on web_sys::NodeList::length: how many nodes the list holds —
/// a fixed number, since only a static list can stand here.
#[verifier::external_body]
pub(crate) fn node_list_length(l: &StaticNodeList) -> (n: u32)
    ensures
        n as nat == node_list_len(l.list),
        n as nat == l.spec_len(),
{
    l.list.length()
}

/// Relies on web_sys::NodeList::item: the node at the index, present exactly
/// when the index falls short of the list's length — of a static list, the
/// same length that `node_list_length` reports.
#[verifier::external_body]
pub(crate) fn node_list_item(l: &StaticNodeList, index: u32) -> (r: Option<web_sys::Node>)
    ensures
        r is Some <==> (index as nat) < l.spec_len(),
{
    l.list.item(index)
}

/// Relies on web_sys::Node::set_text_content: replaces the element's whole
/// content with plain text, never parsed as markup.
#[verifier::external_body]
pub(crate) fn set_text_content(e: &web_sys::HtmlElement, txt: &str) {
    e.set_text_content(Some(txt));
}

/// Relies on web_sys::Element::set_id: sets the element's id attribute.
#[verifier::external_body]
pub(crate) fn set_id(e: &web_sys::HtmlElement, txt: &str) {
    e.set_id(txt);
}

/// Relies on web_sys::Element::set_class_name: sets the element's class
/// attribute.
#[verifier::external_body]
pub(crate) fn set_class_name(e: &web_sys::HtmlElement, txt: &str) {
    e.set_class_name(txt);
}

/// Relies on web_sys::Element::set_attribute. Aborts when the host rejects
/// the name or the value.
#[verifier::external_body]
pub(crate) fn set_attribute(e: &web_sys::HtmlElement, name: &str, txt: &str) {
    e.set_attribute(name, txt)
        .expect(format!("can not set attribute: {} {}", name, txt).as_str());
}

/// Relies on web_sys::Element::set_inner_html: replaces the element's
/// children with whatever the host parses out of the text as markup. The
/// text goes to the host unescaped and unsanitized.
#[verifier::external_body]
pub(crate) fn set_inner_html(e: &web_sys::HtmlElement, txt: &str) {
    e.set_inner_html(txt);
}

/// Relies on web_sys::HtmlElement::set_inner_text: replaces the element's
/// rendered text with the given text, never parsed as markup.
#[verifier::external_body]
pub(crate) fn set_inner_text(e: &web_sys::HtmlElement, txt: &str) {
    e.set_inner_text(txt);
}

/// Relies on serde_json's Display for Value: the value serialized as JSON
/// text.
#[verifier::external_body]
pub(crate) fn json_to_string(v: &serde_json::Value) -> String {
    v.to_string()
}

/// Relies on web_sys::console::log_1: writes one line of text to the host
/// console.
#[verifier::external_body]
pub(crate) fn console_log_str(s: &str) {
    web_sys::console::log_1(&wasm_bindgen::JsValue::from_str(s));
}

} // verus!
