//! Locating the target elements of a field: either a CSS selector run
//! against the source node's subtree, or the source node itself.

use vstd::prelude::*;
use crate::adjust::ExactlyOne;
use crate::html::{css_valid, node_select, select_nodes, selector_compiles};

verus! {

/// The selector string does not compile.
#[derive(Debug, Clone, PartialEq, Eq)]
pub struct ParseFailed;

impl ParseFailed {
    /// Writes the canonical message for this failure.
    pub fn render(&self) -> (r: String)
        ensures
            r@ == "failed to parse css selector"@,
    {
        String::from_str("failed to parse css selector")
    }
}

/// A field bound to a CSS selector.
#[derive(Debug, Clone, PartialEq, Eq)]
pub struct Select {
    pub selector: String,
}

impl Select {
    /// Validates a selector string: succeeds, keeping the string, if and
    /// only if the selector compiles.
    pub fn parse(s: &str) -> (r: Result<Select, ParseFailed>)
        ensures
            match r {
                Ok(sel) => css_valid(s@) && sel.selector@ == s@,
                Err(_) => !css_valid(s@),
            },
    {
        if selector_compiles(s) {
            Ok(Select { selector: String::from_str(s) })
        } else {
            Err(ParseFailed)
        }
    }

    /// Runs the selector against `n`'s subtree, returning the matching
    /// elements in document order; fails exactly when the selector
    /// string does not compile.
    pub fn select(&self, n: &kuchiki::NodeRef) -> (r: Result<Vec<kuchiki::NodeRef>, ParseFailed>)
        ensures
            match r {
                Ok(v) => css_valid(self.selector@) && v@ == node_select(*n, self.selector@),
                Err(_) => !css_valid(self.selector@),
            },
    {
        match select_nodes(n, self.selector.as_str()) {
            Some(v) => Ok(v),
            None => Err(ParseFailed),
        }
    }
}

/// A field bound to the source node itself.
#[derive(Debug, Clone, PartialEq, Eq)]
pub struct Root;

impl Root {
    /// Selecting from the root yields exactly the source node.
    pub fn select(&self, n: &kuchiki::NodeRef) -> (r: ExactlyOne<kuchiki::NodeRef>)
        ensures
            r.0 == *n,
    {
        ExactlyOne(n.clone())
    }
}

/// Validates a selector string, reporting failure with the canonical
/// message naming the string.
pub fn parse_selector(s: &str) -> (r: Result<Select, String>)
    ensures
        match r {
            Ok(sel) => css_valid(s@) && sel.selector@ == s@,
            Err(m) => !css_valid(s@) && m@ == "failed to parse css selector `"@ + s@ + "`"@,
        },
{
    if selector_compiles(s) {
        Ok(Select { selector: String::from_str(s) })
    } else {
        let mut m = String::from_str("failed to parse css selector `");
        m.append(s);
        m.append("`");
        Err(m)
    }
}

} // verus!
