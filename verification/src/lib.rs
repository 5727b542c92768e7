//! A declarative engine that decodes a parsed HTML document tree into
//! strongly-typed values, driven by static per-field specifications:
//! how to find nodes, how many are expected, how to pull a raw value out
//! of each, and how to parse that raw value into a target value.

pub mod adjust;
pub mod decode;
pub mod display;
pub mod element_selector;
pub mod error;
pub mod extract;
pub mod html;
pub mod text;
pub mod traverse;

use vstd::prelude::*;
use crate::decode::{
    spec_decode_struct, struct_wf, StructSpec, StructV, StructValue, check_struct, from_html,
};
use crate::error::{ErrorV, ParseError};
use crate::extract::{spec_extract, AttributeNotFound, ExtractionType};

verus! {

/// Whether `r` is what decoding `s` against the root node `root`
/// returns.
pub open spec fn parse_result_matches(
    root: kuchiki::NodeRef,
    s: StructSpec,
    r: Result<StructValue, ParseError>,
) -> bool {
    match r {
        Ok(v) => spec_decode_struct(root, s) == Ok::<StructV, ErrorV>(v@),
        Err(e) => spec_decode_struct(root, s) == Err::<StructV, ErrorV>(e@),
    }
}

/// Parses the HTML string and decodes the given struct specification
/// against the document's root element. A specification with a selector
/// that does not compile is rejected up front; otherwise the result is
/// exactly what the decode of the specification against the parsed
/// root returns.
pub fn parse(html: &str, s: &StructSpec) -> (r: Result<StructValue, ParseError>)
    ensures
        !struct_wf(*s) ==> (r matches Err(e) && e@ == (ErrorV::Root {
            message: "failed to parse css selector"@,
            cause: None,
        })),
        struct_wf(*s) ==> exists|root: kuchiki::NodeRef| parse_result_matches(root, *s, r),
{
    if !check_struct(s) {
        return Err(ParseError::Root {
            message: String::from_str("failed to parse css selector"),
            cause: None,
        });
    }
    let root = crate::html::parse_document(html);
    let r = from_html(&root, s);
    proof {
        assert(parse_result_matches(root, *s, r));
    }
    r
}

/// Extracts one raw string from the document's root element, as the
/// given extraction method directs: the root's inner text, or the value
/// of an attribute of the root.
pub fn parse_with_args(html: &str, args: &ExtractionType) -> (r: Result<String, AttributeNotFound>)
    ensures
        exists|root: kuchiki::NodeRef| #[trigger] spec_extract(root, args@) == (match r {
            Ok(s) => Ok::<Seq<char>, Seq<char>>(s@),
            Err(e) => Err::<Seq<char>, Seq<char>>(e.name@),
        }),
{
    let root = crate::html::parse_document(html);
    let r = args.extract(&root);
    proof {
        assert(spec_extract(root, args@) == (match r {
            Ok(s) => Ok::<Seq<char>, Seq<char>>(s@),
            Err(e) => Err::<Seq<char>, Seq<char>>(e.name@),
        }));
    }
    r
}

/// Decoding is deterministic: the decode of a node against a
/// specification is a function, so two results of decoding the same
/// node with the same specification are the same value — the same
/// typed result or the same located error.
pub proof fn lemma_decode_deterministic(
    n: kuchiki::NodeRef,
    s: StructSpec,
    r1: Result<StructV, ErrorV>,
    r2: Result<StructV, ErrorV>,
)
    requires
        r1 == spec_decode_struct(n, s),
        r2 == spec_decode_struct(n, s),
    ensures
        r1 == r2,
{
}

} // verus!
