//! Raw-value extraction: pulling a string out of one node, either its
//! inner text or the value of a named attribute. A field whose target is
//! a nested structure skips extraction and hands the node itself on.

use vstd::prelude::*;
use crate::adjust::Never;
use crate::html::{node_attr, node_text, get_attribute, text_contents};
use crate::text::spec_trim;

verus! {

/// The attribute asked for is not present on the target element.
#[derive(Debug, Clone, PartialEq, Eq)]
pub struct AttributeNotFound {
    pub name: String,
}

/// How to pull a raw string out of one matched node.
#[derive(Debug, Clone, PartialEq, Eq)]
pub enum ExtractionType {
    /// The concatenated descendant text, in document order.
    Text,
    /// The value of the named attribute.
    Attribute(String),
}

/// The mathematical model of an [`ExtractionType`].
pub ghost enum ExtractionTypeV {
    Text,
    Attribute(Seq<char>),
}

impl View for ExtractionType {
    type V = ExtractionTypeV;

    open spec fn view(&self) -> ExtractionTypeV {
        match self {
            ExtractionType::Text => ExtractionTypeV::Text,
            ExtractionType::Attribute(name) => ExtractionTypeV::Attribute(name@),
        }
    }
}

/// What extraction returns for a node: its inner text (which always
/// succeeds, possibly empty), or the named attribute's value, failing
/// with the attribute's name exactly when the node does not carry it.
pub open spec fn spec_extract(n: kuchiki::NodeRef, m: ExtractionTypeV) -> Result<
    Seq<char>,
    Seq<char>,
> {
    match m {
        ExtractionTypeV::Text => Ok(node_text(n)),
        ExtractionTypeV::Attribute(name) => match node_attr(n, name) {
            Some(v) => Ok(v),
            None => Err(name),
        },
    }
}

impl ExtractionType {
    /// Pulls the raw string out of `n` as this method directs.
    pub fn extract(&self, n: &kuchiki::NodeRef) -> (r: Result<String, AttributeNotFound>)
        ensures
            match r {
                Ok(s) => spec_extract(*n, self@) == Ok::<Seq<char>, Seq<char>>(s@),
                Err(e) => spec_extract(*n, self@) == Err::<Seq<char>, Seq<char>>(e.name@),
            },
    {
        match self {
            ExtractionType::Text => Ok(text_contents(n)),
            ExtractionType::Attribute(name) => match get_attribute(n, name.as_str()) {
                Some(v) => Ok(v),
                None => Err(AttributeNotFound { name: name.clone() }),
            },
        }
    }
}

/// Attribute extraction yields exactly the attribute's value when the
/// node carries it, and fails with the attribute's name when it does
/// not.
pub proof fn lemma_extract_attribute(n: kuchiki::NodeRef, name: Seq<char>)
    ensures
        node_attr(n, name) matches Some(v) ==> spec_extract(
            n,
            ExtractionTypeV::Attribute(name),
        ) == Ok::<Seq<char>, Seq<char>>(v),
        node_attr(n, name) is None ==> spec_extract(n, ExtractionTypeV::Attribute(name)) == Err::<
            Seq<char>,
            Seq<char>,
        >(name),
{
}

/// The extraction method for nested targets: the node passes through.
#[derive(Debug, Clone, PartialEq, Eq)]
pub struct NoOp;

impl NoOp {
    /// Returns the node unchanged; never fails.
    pub fn extract(&self, n: &kuchiki::NodeRef) -> (r: Result<kuchiki::NodeRef, Never>)
        ensures
            r == Ok::<kuchiki::NodeRef, Never>(*n),
    {
        Ok(n.clone())
    }
}

/// The extraction method for text targets: the concatenated descendant
/// text of the node.
#[derive(Debug, Clone, PartialEq, Eq)]
pub struct ExtractInnerText;

impl ExtractInnerText {
    /// Returns the node's inner text; never fails (the text may be empty).
    pub fn extract(&self, n: &kuchiki::NodeRef) -> (r: Result<String, Never>)
        ensures
            r matches Ok(s) && s@ == node_text(*n),
    {
        Ok(text_contents(n))
    }
}

/// The extraction method for attribute-bound targets.
#[derive(Debug, Clone, PartialEq, Eq)]
pub struct ExtractAttribute {
    pub name: String,
}

impl ExtractAttribute {
    /// Returns the named attribute's value, or [`AttributeNotFound`]
    /// exactly when the node does not carry it.
    pub fn extract(&self, n: &kuchiki::NodeRef) -> (r: Result<String, AttributeNotFound>)
        ensures
            match r {
                Ok(s) => node_attr(*n, self.name@) == Some(s@),
                Err(e) => node_attr(*n, self.name@) is None && e.name@ == self.name@,
            },
    {
        match get_attribute(n, self.name.as_str()) {
            Some(v) => Ok(v),
            None => Err(AttributeNotFound { name: self.name.clone() }),
        }
    }
}

/// No text node answered to the asked-for position.
#[derive(Debug, Clone, PartialEq, Eq, Structural)]
pub struct NotFound;

/// The `k`-th (0-based) text child whose contents is not all
/// whitespace, trimmed — or nothing, when there are fewer such
/// children.
pub open spec fn spec_nth_text(cs: Seq<crate::html::HtmlNode>, k: nat) -> Option<Seq<char>>
    decreases cs.len(),
{
    if cs.len() == 0 {
        None
    } else {
        match cs.first() {
            crate::html::HtmlNode::Text(t) => if spec_trim(t@).len() > 0 {
                if k == 0 {
                    Some(spec_trim(t@))
                } else {
                    spec_nth_text(cs.drop_first(), (k - 1) as nat)
                }
            } else {
                spec_nth_text(cs.drop_first(), k)
            },
            _ => spec_nth_text(cs.drop_first(), k),
        }
    }
}

/// Finds the `k`-th text child (0-based) whose contents is not all
/// whitespace, counting from position `i`, and returns it trimmed.
pub fn nth_text(children: &Vec<crate::html::HtmlNode>, i: usize, k: usize) -> (r: Result<
    String,
    NotFound,
>)
    requires
        i <= children@.len(),
    ensures
        match r {
            Ok(s) => spec_nth_text(children@.skip(i as int), k as nat) == Some(s@),
            Err(_) => spec_nth_text(children@.skip(i as int), k as nat) is None,
        },
    decreases children@.len() - i,
{
    if i == children.len() {
        proof {
            assert(children@.skip(i as int) =~= Seq::<crate::html::HtmlNode>::empty());
        }
        Err(NotFound)
    } else {
        proof {
            assert(children@.skip(i as int).first() == children@[i as int]);
            assert(children@.skip(i as int).drop_first() =~= children@.skip(i as int + 1));
        }
        match &children[i] {
            crate::html::HtmlNode::Text(t) => {
                let trimmed = crate::text::trim(t.as_str());
                if trimmed.as_str().unicode_len() > 0 {
                    if k == 0 {
                        Ok(trimmed)
                    } else {
                        nth_text(children, i + 1, k - 1)
                    }
                } else {
                    nth_text(children, i + 1, k)
                }
            },
            _ => nth_text(children, i + 1, k),
        }
    }
}

/// The extraction method that takes the `k`-th non-blank text child of
/// the node, trimmed.
#[derive(Debug, Clone, PartialEq, Eq, Structural)]
pub struct ExtractNthText(pub usize);

impl ExtractNthText {
    /// Returns the node's `k`-th non-blank text child, trimmed, or
    /// [`NotFound`] when the node has fewer such children.
    pub fn extract(&self, n: &kuchiki::NodeRef) -> (r: Result<String, NotFound>)
        ensures
            exists|cs: Seq<crate::html::HtmlNode>| #[trigger] spec_nth_text(cs, self.0 as nat)
                == (match r {
                Ok(s) => Some(s@),
                Err(_) => None::<Seq<char>>,
            }),
    {
        let children = crate::html::child_nodes(n);
        let r = nth_text(&children, 0, self.0);
        proof {
            assert(children@.skip(0) =~= children@);
            assert(spec_nth_text(children@, self.0 as nat) == (match r {
                Ok(s) => Some(s@),
                Err(_) => None::<Seq<char>>,
            }));
        }
        r
    }
}

} // verus!
