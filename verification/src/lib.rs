//! A builder-style veneer over the host document tree.
//!
//! The library wraps host-owned element handles in [`Ele`], a small builder
//! for creating elements, setting their attributes and content, and querying
//! their descendants. The host document itself stays with the browser: every
//! call into it goes through the bindings in [`sys`], and what this crate
//! adds around those calls is verified.

use vstd::prelude::*;

pub mod sys;

verus! {

/// A calendar time: whole seconds past the epoch plus a nanosecond remainder.
#[derive(Clone, Copy, PartialEq, Eq, Debug)]
pub struct SysTime {
    pub secs: u64,
    pub nanos: u32,
}

impl SysTime {
    /// The nanosecond part never amounts to a full second.
    pub open spec fn wf(self) -> bool {
        self.nanos < 1_000_000_000
    }
}

/// Converts a high-resolution host timestamp, given as whole milliseconds
/// past the host's epoch, to a calendar time. Whatever stood below a whole
/// millisecond was already discarded when the timestamp was truncated to
/// an integer; here the milliseconds split exactly into seconds and
/// nanoseconds.
pub fn perf_to_system(amt: u64) -> (r: SysTime)
    ensures
        r.secs == amt / 1000,
        r.nanos == (amt % 1000) * 1_000_000,
        r.secs * 1000 + (r.nanos as u64) / 1_000_000 == amt,
        r.wf(),
{
    let secs: u64 = amt / 1_000;
    let nanos: u32 = ((amt % 1_000) as u32) * 1_000_000;
    SysTime { secs, nanos }
}

/// A handle to one element of the host document. The element itself is owned
/// by the host; the wrapper only carries the reference, and a clone is
/// another reference to the same element, not a copy of it. Every builder
/// method consumes the wrapper and hands the same handle back, so that calls
/// chain; a caller who wants to keep the handle clones it first.
#[derive(Debug, PartialEq, Clone)]
pub struct Ele {
    pub ele: web_sys::HtmlElement,
}

impl Ele {
    /// Wraps an element handle as it stands.
    pub fn from_html(e: web_sys::HtmlElement) -> (r: Ele)
        ensures
            r.ele == e,
    {
        Ele { ele: e }
    }

    /// Wraps a generic element handle, reinterpreted as an HTML element by
    /// convention: the host is not asked to check the kind.
    pub fn from_element(e: web_sys::Element) -> Ele {
        Ele { ele: sys::html_from_element(e) }
    }

    /// Wraps a document handle, reinterpreted as an HTML element by
    /// convention: the host is not asked to check the kind.
    pub fn from_document(e: web_sys::Document) -> Ele {
        Ele { ele: sys::html_from_document(e) }
    }

    /// Wraps a node handle, reinterpreted as an HTML element by convention:
    /// the host is not asked to check the kind.
    pub fn from_node(e: web_sys::Node) -> Ele {
        Ele { ele: sys::html_from_node(e) }
    }

    /// Wraps a bare host value, reinterpreted as an HTML element by
    /// convention: the host is not asked to check the kind.
    pub fn from_js(v: wasm_bindgen::JsValue) -> Ele {
        Ele { ele: sys::html_from_js(v) }
    }

    /// Wraps the outcome of a lookup: a wrapper exactly when an element was
    /// found.
    pub fn from_found(found: Option<web_sys::Element>) -> (r: Option<Ele>)
        ensures
            r is Some <==> found is Some,
    {
        match found {
            Some(e) => Some(Ele::from_element(e)),
            None => None,
        }
    }

    /// Asks the host to insert `node` as the last child of this element.
    /// When the host refuses the insertion, the refusal is written to the
    /// console and otherwise dropped: the caller gets the same handle back
    /// either way and cannot tell that nothing was inserted.
    pub fn append(self, node: &Ele) -> (r: Self)
        ensures
            r == self,
    {
        match sys::append_child(&self.ele, &node.ele) {
            Ok(_) => (),
            Err(e) => sys::log_js_error(&e),
        }
        self
    }

    /// The first descendant the host matches against the CSS selector, or
    /// nothing when none matches. A selector the host cannot parse aborts
    /// the whole program inside the binding.
    pub fn query_selector(self, txt: &str) -> Option<Ele> {
        Ele::from_found(sys::query_selector(&self.ele, txt))
    }

    /// Every descendant the host matches against the CSS selector, wrapped
    /// one by one in the order of the host's list; an empty list comes back
    /// as an empty vector. A selector the host cannot parse aborts the whole
    /// program inside the binding.
    pub fn query_selector_all(self, txt: &str) -> Vec<Ele> {
        let list = sys::query_selector_all(&self.ele, txt);
        from_node_list(&list)
    }

    /// Replaces the element's content with plain text, never parsed as
    /// markup, and hands the handle back.
    pub fn text(self, txt: &str) -> (r: Self)
        ensures
            r == self,
    {
        sys::set_text_content(&self.ele, txt);
        self
    }

    /// Sets the element's id attribute and hands the handle back.
    pub fn id(self, txt: &str) -> (r: Self)
        ensures
            r == self,
    {
        sys::set_id(&self.ele, txt);
        self
    }

    /// Sets the element's class attribute and hands the handle back.
    pub fn class(self, txt: &str) -> (r: Self)
        ensures
            r == self,
    {
        sys::set_class_name(&self.ele, txt);
        self
    }

    /// Sets an arbitrary attribute and hands the handle back. A name or
    /// value the host rejects aborts the whole program inside the binding.
    pub fn attr(self, name: &str, txt: &str) -> (r: Self)
        ensures
            r == self,
    {
        sys::set_attribute(&self.ele, name, txt);
        self
    }

    /// Replaces the element's children with whatever the host parses out of
    /// the text as markup, and hands the handle back. The text reaches the
    /// host unescaped: feeding it untrusted input is the caller's risk.
    pub fn inner_html(self, txt: &str) -> (r: Self)
        ensures
            r == self,
    {
        sys::set_inner_html(&self.ele, txt);
        self
    }

    /// Replaces the element's rendered text, never parsed as markup, and
    /// hands the handle back.
    pub fn inner_text(self, txt: &str) -> (r: Self)
        ensures
            r == self,
    {
        sys::set_inner_text(&self.ele, txt);
        self
    }
}

/// Wraps every entry of a static host node list, in the list's own order:
/// the result holds exactly as many wrappers as the list holds nodes.
pub fn from_node_list(list: &sys::StaticNodeList) -> (r: Vec<Ele>)
    ensures
        r@.len() == list.spec_len(),
{
    let n = sys::node_list_length(list);
    let mut out: Vec<Ele> = Vec::new();
    let mut i: u32 = 0;
    while i < n
        invariant
            n as nat == list.spec_len(),
            i <= n,
            out@.len() == i as nat,
        decreases n - i,
    {
        if let Some(node) = sys::node_list_item(list, i) {
            out.push(Ele::from_node(node));
        }
        i = i + 1;
    }
    out
}

/// A fresh, detached element with the given tag name, ready for chaining. A
/// tag name the host rejects aborts the whole program inside the binding.
pub fn tag(tag: &str) -> Ele {
    Ele::from_element(sys::create_element(tag))
}

/// The document's body element, wrapped. A page without a body aborts the
/// whole program inside the binding.
pub fn body() -> Ele {
    Ele::from_html(sys::body())
}

/// The host document itself, wrapped as an element by convention. A page
/// without a document aborts the whole program inside the binding.
pub fn document() -> Ele {
    Ele::from_document(sys::document())
}

/// The element carrying the given id, wrapped, when the document holds one.
pub fn get_element_by_id(id: &str) -> Option<Ele> {
    let d = sys::document();
    Ele::from_found(sys::document_get_element_by_id(&d, id))
}

/// Serializes the value as JSON text and writes it to the host console.
pub fn log(data: serde_json::Value) {
    let text = sys::json_to_string(&data);
    sys::console_log_str(text.as_str());
}

} // verus!
