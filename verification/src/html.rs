//! The document capability: read-only queries over a parsed HTML tree.
//!
//! The tree itself belongs to the `kuchiki` crate; this module declares
//! its node handle and gives each query the library relies on a trusted
//! contract. The tree is built once by [`parse_document`] and never
//! mutated by this library, so every query below is a pure function of
//! the node handle it is given; the uninterpreted functions
//! [`node_select`], [`node_text`] and [`node_attr`] name those results,
//! and the rest of the library is verified against them.

use vstd::prelude::*;

verus! {

#[verifier::external_type_specification]
#[verifier::external_body]
pub struct ExNodeRef(kuchiki::NodeRef);

/// The elements of the subtree of `n` (including `n` itself) that match
/// the selector list `sel`, in document order; what
/// `kuchiki::NodeRef::select` yields for a selector string that compiles.
pub uninterp spec fn node_select(n: kuchiki::NodeRef, sel: Seq<char>) -> Seq<kuchiki::NodeRef>;

/// The concatenation of all text-node values in the subtree of `n`, in
/// document order with nothing inserted between them; what
/// `kuchiki::NodeRef::text_contents` returns.
pub uninterp spec fn node_text(n: kuchiki::NodeRef) -> Seq<char>;

/// The value of the attribute named `name` on `n`, or `None` when `n` is
/// not an element or carries no such attribute; what looking `name` up in
/// `kuchiki`'s attribute map of `n` returns.
pub uninterp spec fn node_attr(n: kuchiki::NodeRef, name: Seq<char>) -> Option<Seq<char>>;

/// Whether `kuchiki::Selectors::compile` accepts the selector string:
/// a pure syntax check, a function of the string alone.
pub uninterp spec fn css_valid(sel: Seq<char>) -> bool;

/// Relies on `kuchiki::NodeRef::clone`: the clone of a reference-counted
/// handle is the same handle.
pub assume_specification[ <kuchiki::NodeRef as Clone>::clone ](
    n: &kuchiki::NodeRef,
) -> (r: kuchiki::NodeRef)
    ensures
        r == *n,
;

/// Relies on `kuchiki::NodeRef::select`, which fails exactly when
/// `kuchiki::Selectors::compile` rejects the selector string, and
/// otherwise yields the matching elements of the subtree in document
/// order.
#[verifier::external_body]
pub fn select_nodes(n: &kuchiki::NodeRef, sel: &str) -> (r: Option<Vec<kuchiki::NodeRef>>)
    ensures
        r is Some <==> css_valid(sel@),
        r matches Some(v) ==> v@ == node_select(*n, sel@),
{
    match n.select(sel) {
        Ok(iter) => Some(iter.map(|e| e.as_node().clone()).collect()),
        Err(()) => None,
    }
}

/// Relies on `kuchiki::Selectors::compile`: reports whether the selector
/// string is acceptable, without keeping the compiled form.
#[verifier::external_body]
pub fn selector_compiles(sel: &str) -> (r: bool)
    ensures
        r == css_valid(sel@),
{
    kuchiki::Selectors::compile(sel).is_ok()
}

/// Relies on `kuchiki::NodeRef::text_contents`: the concatenation of all
/// text nodes of the subtree, in document order, with no separators.
#[verifier::external_body]
pub fn text_contents(n: &kuchiki::NodeRef) -> (r: String)
    ensures
        r@ == node_text(*n),
{
    n.text_contents()
}

/// Relies on `kuchiki::Attributes::get` (reached through
/// `Node::as_element`): the attribute's value when the node is an element
/// that carries it, `None` otherwise.
#[verifier::external_body]
pub fn get_attribute(n: &kuchiki::NodeRef, name: &str) -> (r: Option<String>)
    ensures
        match r {
            Some(s) => node_attr(*n, name@) == Some(s@),
            None => node_attr(*n, name@) is None,
        },
{
    n.as_element().and_then(|e| e.attributes.borrow().get(name).map(String::from))
}

/// One child of a node, by kind: an element, a text node's contents, or
/// anything else (comments, doctypes and the like).
#[derive(Debug, Clone)]
pub enum HtmlNode {
    Element(kuchiki::NodeRef),
    Text(String),
    Other,
}

/// Relies on `kuchiki::NodeRef::children` and `kuchiki::NodeData`: hands
/// the direct children out in document order, one entry per child,
/// classified by the node-data variant. Nothing is promised of the
/// entries themselves; callers state what holds of any value they get.
#[verifier::external_body]
pub fn child_nodes(n: &kuchiki::NodeRef) -> (r: Vec<HtmlNode>)
{
    n.children()
        .map(|c| {
            if c.as_element().is_some() {
                HtmlNode::Element(c.clone())
            } else if let Some(text) = c.as_text() {
                HtmlNode::Text(text.borrow().clone())
            } else {
                HtmlNode::Other
            }
        })
        .collect()
}

/// Relies on `kuchiki::parse_html` (an `html5ever` parser): parses the
/// string as an HTML document and returns the root `<html>` element of
/// the resulting tree. Nothing is promised of the returned handle; the
/// decoding functions state what holds of any node they are given.
#[verifier::external_body]
pub fn parse_document(html: &str) -> (r: kuchiki::NodeRef)
{
    let doc = kuchiki::parse_html().one(html);
    doc.select_first("html").map(|e| e.as_node().clone()).unwrap_or(doc)
}

} // verus!

use kuchiki::traits::TendrilSink;
