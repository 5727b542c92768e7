//! Shape-polymorphic traversal: lifting a fallible per-element function
//! over a container — exactly one value, an optional value, or a list —
//! short-circuiting on the first failure. The list forms report either
//! the failure alone or the failure with the index of the first failing
//! element.

use vstd::prelude::*;
use crate::adjust::ExactlyOne;

verus! {

/// A container of exactly one value.
#[derive(Debug, Clone, PartialEq, Eq)]
pub struct Identity<T>(pub T);

/// A pair of a positional context and a value.
#[derive(Debug, Clone, PartialEq, Eq)]
pub struct Tuple<T, U>(pub T, pub U);

/// The position of an element within a list.
#[derive(Debug, Clone, Copy, PartialEq, Eq, Structural)]
pub struct ListIndex(pub usize);

/// The context of an element that has no position: a single or optional
/// value.
#[derive(Debug, Clone, Copy, PartialEq, Eq, Structural)]
pub struct NoContext;

/// The failure of one list element, with its index.
#[derive(Debug, Clone, PartialEq, Eq)]
pub struct ListElementError<E> {
    pub index: usize,
    pub error: E,
}

impl ListIndex {
    /// Writes the index frame as `[i]`.
    pub fn render(&self) -> (r: String)
        ensures
            r@ == "["@ + crate::display::spec_digits(self.0 as nat) + "]"@,
    {
        let mut s = String::from_str("[");
        s.append(crate::display::usize_to_string(self.0).as_str());
        s.append("]");
        s
    }
}

/// Whether `f` can return success on the `j`-th element of `v`.
pub open spec fn ok_at<A, B, E, F: Fn(A) -> Result<B, E>>(f: F, v: Seq<A>, j: int) -> bool {
    exists|b: B| call_ensures(f, (v[j],), Ok(b))
}

/// Whether a traversal of `v` by `f` can fail first at index `i` with
/// error `e`: the element there can fail with `e`, and every element
/// before it succeeded.
pub open spec fn first_failure<A, B, E, F: Fn(A) -> Result<B, E>>(
    f: F,
    v: Seq<A>,
    i: int,
    e: E,
) -> bool {
    &&& 0 <= i < v.len()
    &&& call_ensures(f, (v[i],), Err::<B, E>(e))
    &&& forall|j: int| 0 <= j < i ==> ok_at(f, v, j)
}


/// Applies `f` to the value inside the identity container.
pub fn fmap_identity<A, B, F: FnOnce(A) -> B>(a: Identity<A>, f: F) -> (r: Identity<B>)
    requires
        call_requires(f, (a.0,)),
    ensures
        call_ensures(f, (a.0,), r.0),
{
    Identity(f(a.0))
}

/// Pairs every element with its position, keeping order and length.
pub fn enumerate_vec<A: Copy>(v: Vec<A>) -> (r: Vec<Tuple<ListIndex, A>>)
    ensures
        r@.len() == v@.len(),
        forall|i: int|
            0 <= i < v@.len() ==> #[trigger] r@[i] == Tuple(ListIndex(i as usize), v@[i]),
{
    let mut out: Vec<Tuple<ListIndex, A>> = Vec::new();
    let mut i: usize = 0;
    while i < v.len()
        invariant
            i <= v@.len(),
            out@.len() == i,
            forall|k: int| 0 <= k < i ==> #[trigger] out@[k] == Tuple(ListIndex(k as usize), v@[k]),
        decreases v@.len() - i,
    {
        out.push(Tuple(ListIndex(i), v[i]));
        i += 1;
    }
    out
}

/// Applies `f` to the only element.
pub fn fmap_one<A, B, F: FnOnce(A) -> B>(a: ExactlyOne<A>, f: F) -> (r: ExactlyOne<B>)
    requires
        call_requires(f, (a.0,)),
    ensures
        call_ensures(f, (a.0,), r.0),
{
    ExactlyOne(f(a.0))
}

/// Applies `f` under the `Some`, if any.
pub fn fmap_option<A, B, F: FnOnce(A) -> B>(o: Option<A>, f: F) -> (r: Option<B>)
    requires
        o matches Some(a) ==> call_requires(f, (a,)),
    ensures
        match o {
            Some(a) => r matches Some(b) && call_ensures(f, (a,), b),
            None => r is None,
        },
{
    match o {
        Some(a) => Some(f(a)),
        None => None,
    }
}

/// Applies `f` to every element, keeping order and length.
pub fn fmap_vec<A: Copy, B, F: Fn(A) -> B>(v: Vec<A>, f: F) -> (r: Vec<B>)
    requires
        forall|i: int| 0 <= i < v@.len() ==> call_requires(f, (v@[i],)),
    ensures
        r@.len() == v@.len(),
        forall|i: int| 0 <= i < v@.len() ==> call_ensures(f, (v@[i],), #[trigger] r@[i]),
{
    let mut out: Vec<B> = Vec::new();
    let mut i: usize = 0;
    while i < v.len()
        invariant
            forall|k: int| 0 <= k < v@.len() ==> call_requires(f, (v@[k],)),
            i <= v@.len(),
            out@.len() == i,
            forall|k: int| 0 <= k < i ==> call_ensures(f, (v@[k],), #[trigger] out@[k]),
        decreases v@.len() - i,
    {
        out.push(f(v[i]));
        i += 1;
    }
    out
}

/// Applies `f` to every element together with its position, keeping
/// order and length.
pub fn fmap_with_context<A: Copy, B, F: Fn(ListIndex, A) -> B>(v: Vec<A>, f: F) -> (r: Vec<B>)
    requires
        forall|i: int| 0 <= i < v@.len() ==> call_requires(f, (ListIndex(i as usize), v@[i])),
    ensures
        r@.len() == v@.len(),
        forall|i: int|
            0 <= i < v@.len() ==> call_ensures(f, (ListIndex(i as usize), v@[i]), #[trigger] r@[i]),
{
    let mut out: Vec<B> = Vec::new();
    let mut i: usize = 0;
    while i < v.len()
        invariant
            forall|k: int| 0 <= k < v@.len() ==> call_requires(f, (ListIndex(k as usize), v@[k])),
            i <= v@.len(),
            out@.len() == i,
            forall|k: int|
                0 <= k < i ==> call_ensures(f, (ListIndex(k as usize), v@[k]), #[trigger] out@[k]),
        decreases v@.len() - i,
    {
        out.push(f(ListIndex(i), v[i]));
        i += 1;
    }
    out
}

/// Applies the fallible `f` to the only element.
pub fn traverse_one<A, B, E, F: FnOnce(A) -> Result<B, E>>(a: ExactlyOne<A>, f: F) -> (r: Result<
    ExactlyOne<B>,
    E,
>)
    requires
        call_requires(f, (a.0,)),
    ensures
        match r {
            Ok(b) => call_ensures(f, (a.0,), Ok(b.0)),
            Err(e) => call_ensures(f, (a.0,), Err(e)),
        },
{
    match f(a.0) {
        Ok(b) => Ok(ExactlyOne(b)),
        Err(e) => Err(e),
    }
}

/// Applies the fallible `f` under the `Some`, if any; `None`
/// short-circuits to `None` without invoking `f`.
pub fn traverse_option<A, B, E, F: FnOnce(A) -> Result<B, E>>(o: Option<A>, f: F) -> (r: Result<
    Option<B>,
    E,
>)
    requires
        o matches Some(a) ==> call_requires(f, (a,)),
    ensures
        match o {
            Some(a) => match r {
                Ok(ob) => ob matches Some(b) && call_ensures(f, (a,), Ok(b)),
                Err(e) => call_ensures(f, (a,), Err(e)),
            },
            None => r matches Ok(ob) && ob is None,
        },
{
    match o {
        Some(a) => match f(a) {
            Ok(b) => Ok(Some(b)),
            Err(e) => Err(e),
        },
        None => Ok(None),
    }
}

/// Applies the fallible `f` to the elements left to right, stopping at
/// the first failure: every element before it succeeded, and later
/// elements are never evaluated.
pub fn traverse_vec<A: Copy, B, E, F: Fn(A) -> Result<B, E>>(v: Vec<A>, f: F) -> (r: Result<
    Vec<B>,
    E,
>)
    requires
        forall|i: int| 0 <= i < v@.len() ==> call_requires(f, (v@[i],)),
    ensures
        r matches Ok(out) ==> out@.len() == v@.len() && (forall|i: int|
            0 <= i < v@.len() ==> call_ensures(f, (v@[i],), Ok(#[trigger] out@[i]))),
        r matches Err(e) ==> exists|i: int| #![trigger v@[i]] first_failure(f, v@, i, e),
{
    let mut out: Vec<B> = Vec::new();
    let mut i: usize = 0;
    while i < v.len()
        invariant
            forall|k: int| 0 <= k < v@.len() ==> call_requires(f, (v@[k],)),
            i <= v@.len(),
            out@.len() == i,
            forall|k: int| 0 <= k < i ==> call_ensures(f, (v@[k],), Ok(#[trigger] out@[k])),
        decreases v@.len() - i,
    {
        match f(v[i]) {
            Ok(b) => {
                out.push(b);
            },
            Err(e) => {
                proof {
                    assert forall|j: int| 0 <= j < i implies ok_at(f, v@, j) by {
                        assert(call_ensures(f, (v@[j],), Ok::<B, E>(out@[j])));
                    }
                    assert(first_failure(f, v@, i as int, e));
                }
                return Err(e);
            },
        }
        i += 1;
    }
    Ok(out)
}

/// Applies the fallible `f` to the elements left to right; the first
/// failure stops the traversal and is reported with its index. Every
/// element before the reported index succeeded, and later elements are
/// never evaluated.
pub fn try_map_vec<A: Copy, B, E, F: Fn(A) -> Result<B, E>>(v: Vec<A>, f: F) -> (r: Result<
    Vec<B>,
    ListElementError<E>,
>)
    requires
        forall|i: int| 0 <= i < v@.len() ==> call_requires(f, (v@[i],)),
    ensures
        match r {
            Ok(out) => out@.len() == v@.len() && (forall|i: int|
                0 <= i < v@.len() ==> call_ensures(f, (v@[i],), Ok(#[trigger] out@[i]))),
            Err(le) => {
                &&& (le.index as int) < v@.len()
                &&& call_ensures(f, (v@[le.index as int],), Err::<B, E>(le.error))
                &&& forall|j: int| 0 <= j < le.index as int ==> ok_at(f, v@, j)
            },
        },
{
    let mut out: Vec<B> = Vec::new();
    let mut i: usize = 0;
    while i < v.len()
        invariant
            forall|k: int| 0 <= k < v@.len() ==> call_requires(f, (v@[k],)),
            i <= v@.len(),
            out@.len() == i,
            forall|k: int| 0 <= k < i ==> call_ensures(f, (v@[k],), Ok(#[trigger] out@[k])),
        decreases v@.len() - i,
    {
        match f(v[i]) {
            Ok(b) => {
                out.push(b);
            },
            Err(e) => {
                proof {
                    assert forall|j: int| 0 <= j < i implies ok_at(f, v@, j) by {
                        assert(call_ensures(f, (v@[j],), Ok::<B, E>(out@[j])));
                    }
                }
                return Err(ListElementError { index: i, error: e });
            },
        }
        i += 1;
    }
    Ok(out)
}

/// Applies the fallible `f` under the `Some`, reporting a failure with
/// no index (an optional value has no position).
pub fn try_map_option<A, B, E, F: FnOnce(A) -> Result<B, E>>(o: Option<A>, f: F) -> (r: Result<
    Option<B>,
    E,
>)
    requires
        o matches Some(a) ==> call_requires(f, (a,)),
    ensures
        match o {
            Some(a) => match r {
                Ok(ob) => ob matches Some(b) && call_ensures(f, (a,), Ok(b)),
                Err(e) => call_ensures(f, (a,), Err(e)),
            },
            None => r matches Ok(ob) && ob is None,
        },
{
    traverse_option(o, f)
}

} // verus!
