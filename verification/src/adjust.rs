//! Cardinality adjustment: turning the sequence of nodes matched by a
//! selector into the shape a field requires (exactly one, at most one,
//! exactly `n`, or any number), validating the count.

use vstd::prelude::*;

verus! {

/// An error for operations that cannot fail: no value of it is ever
/// constructed, so a `Result` with this error type is always `Ok`.
#[derive(Debug, PartialEq, Eq)]
pub struct Never(());

/// A container of exactly one value, the result of a `Single` adjustment.
#[derive(Debug, Clone, PartialEq, Eq)]
pub struct ExactlyOne<T>(pub T);

/// The cardinality contract of a field.
#[derive(Debug, Clone, Copy, PartialEq, Eq, Structural)]
pub enum Shape {
    /// Exactly one matched node.
    Single,
    /// Zero or one matched node.
    Optional,
    /// Exactly the given number of matched nodes.
    Array(usize),
    /// Any number of matched nodes, in document order.
    List,
}

/// Failure to adjust a node sequence to exactly one element.
#[derive(Debug, Clone, PartialEq, Eq, Structural)]
pub enum VecToSingleError {
    TooManyElements { found: usize },
    NoElements,
}

/// Failure to adjust a node sequence to a fixed number of elements.
#[derive(Debug, Clone, PartialEq, Eq, Structural)]
pub enum VecToArrayError {
    ElementNumberUnmatched { expected: usize, found: usize },
}

/// Failure to adjust a node sequence to zero or one element.
#[derive(Debug, Clone, PartialEq, Eq, Structural)]
pub enum VecToOptionError {
    TooManyElements { found: usize },
}

/// Any of the three cardinality failures, tagged by the shape that was asked for.
#[derive(Debug, Clone, PartialEq, Eq, Structural)]
pub enum CardinalityError {
    Single(VecToSingleError),
    Optional(VecToOptionError),
    Array(VecToArrayError),
}

/// A value already adjusted to its shape (ghost model).
pub ghost enum Adjusted<N> {
    One(N),
    Opt(Option<N>),
    Many(Seq<N>),
}

/// What adjustment returns for a matched sequence and a shape:
/// `Single` demands exactly one element, `Optional` at most one,
/// `Array(n)` exactly `n`, and `List` accepts the sequence unchanged,
/// preserving document order. Nothing is ever reordered or deduplicated.
pub open spec fn spec_adjust<N>(nodes: Seq<N>, shape: Shape) -> Result<Adjusted<N>, CardinalityError> {
    match shape {
        Shape::Single => {
            if nodes.len() == 1 {
                Ok(Adjusted::One(nodes[0]))
            } else if nodes.len() == 0 {
                Err(CardinalityError::Single(VecToSingleError::NoElements))
            } else {
                Err(CardinalityError::Single(VecToSingleError::TooManyElements {
                    found: nodes.len() as usize,
                }))
            }
        },
        Shape::Optional => {
            if nodes.len() == 0 {
                Ok(Adjusted::Opt(None))
            } else if nodes.len() == 1 {
                Ok(Adjusted::Opt(Some(nodes[0])))
            } else {
                Err(CardinalityError::Optional(VecToOptionError::TooManyElements {
                    found: nodes.len() as usize,
                }))
            }
        },
        Shape::Array(n) => {
            if nodes.len() == n {
                Ok(Adjusted::Many(nodes))
            } else {
                Err(CardinalityError::Array(VecToArrayError::ElementNumberUnmatched {
                    expected: n,
                    found: nodes.len() as usize,
                }))
            }
        },
        Shape::List => Ok(Adjusted::Many(nodes)),
    }
}

/// Adjusting a value that is already a single element always succeeds
/// and returns it unchanged.
pub fn try_adjust<N>(n: N) -> (r: Result<N, Never>)
    ensures
        r == Ok::<N, Never>(n),
{
    Ok(n)
}

/// Adjusts a node sequence to exactly one element: succeeds if and only
/// if the sequence has length one, returning its only element.
pub fn vec_to_single<N>(v: Vec<N>) -> (r: Result<N, VecToSingleError>)
    ensures
        match r {
            Ok(n) => v@.len() == 1 && n == v@[0],
            Err(e) => v@.len() != 1 && e == (if v@.len() == 0 {
                VecToSingleError::NoElements
            } else {
                VecToSingleError::TooManyElements { found: v@.len() as usize }
            }),
        },
{
    let mut v = v;
    if v.len() > 1 {
        Err(VecToSingleError::TooManyElements { found: v.len() })
    } else {
        match v.pop() {
            Some(n) => Ok(n),
            None => Err(VecToSingleError::NoElements),
        }
    }
}

/// Adjusts a node sequence to zero or one element: succeeds if and only
/// if the sequence has at most one element.
pub fn vec_to_option<N>(v: Vec<N>) -> (r: Result<Option<N>, VecToOptionError>)
    ensures
        match r {
            Ok(o) => v@.len() <= 1 && (match o {
                Some(n) => v@.len() == 1 && n == v@[0],
                None => v@.len() == 0,
            }),
            Err(e) => v@.len() > 1 && e == (VecToOptionError::TooManyElements {
                found: v@.len() as usize,
            }),
        },
{
    let mut v = v;
    if v.len() > 1 {
        Err(VecToOptionError::TooManyElements { found: v.len() })
    } else {
        Ok(v.pop())
    }
}

/// Adjusts a node sequence to exactly `expected` elements: succeeds if
/// and only if the length matches, returning the sequence unchanged and
/// in the same order.
pub fn vec_to_array<N>(v: Vec<N>, expected: usize) -> (r: Result<Vec<N>, VecToArrayError>)
    ensures
        match r {
            Ok(w) => v@.len() == expected && w@ == v@,
            Err(e) => v@.len() != expected && e == (VecToArrayError::ElementNumberUnmatched {
                expected,
                found: v@.len() as usize,
            }),
        },
{
    if v.len() == expected {
        Ok(v)
    } else {
        Err(VecToArrayError::ElementNumberUnmatched { expected, found: v.len() })
    }
}

/// For every node sequence `s`, adjusting to `Single` succeeds if and
/// only if `s` has exactly one element, and then returns `s[0]`.
pub proof fn lemma_adjust_single<N>(s: Seq<N>)
    ensures
        spec_adjust(s, Shape::Single) is Ok <==> s.len() == 1,
        s.len() == 1 ==> spec_adjust(s, Shape::Single) == Ok::<Adjusted<N>, CardinalityError>(
            Adjusted::One(s[0]),
        ),
{
}

/// For every node sequence `s` and every `n`, adjusting to `Array(n)`
/// succeeds if and only if `s` has exactly `n` elements, and then
/// returns the sequence unchanged.
pub proof fn lemma_adjust_array<N>(s: Seq<N>, n: usize)
    ensures
        spec_adjust(s, Shape::Array(n)) is Ok <==> s.len() == n,
        s.len() == n ==> spec_adjust(s, Shape::Array(n)) == Ok::<Adjusted<N>, CardinalityError>(
            Adjusted::Many(s),
        ),
{
}

/// An empty match is a success for `Optional` (yielding `None`) and a
/// `NoElements` failure for `Single`.
pub proof fn lemma_adjust_empty<N>(s: Seq<N>)
    requires
        s.len() == 0,
    ensures
        spec_adjust(s, Shape::Optional) == Ok::<Adjusted<N>, CardinalityError>(Adjusted::Opt(None)),
        spec_adjust(s, Shape::Single) == Err::<Adjusted<N>, CardinalityError>(
            CardinalityError::Single(VecToSingleError::NoElements),
        ),
{
}

} // verus!
