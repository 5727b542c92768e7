//! Rendering numbers for human-readable messages: the decimal digits of
//! an unsigned integer, as a specification-level character sequence and
//! as an executable `String` proved to match it.

use vstd::prelude::*;
use crate::adjust::{CardinalityError, VecToArrayError, VecToOptionError, VecToSingleError};
use crate::extract::AttributeNotFound;
use crate::text::FromTextError;

verus! {

/// The character for one decimal digit.
pub open spec fn digit_char(d: nat) -> char {
    if d == 0 {
        '0'
    } else if d == 1 {
        '1'
    } else if d == 2 {
        '2'
    } else if d == 3 {
        '3'
    } else if d == 4 {
        '4'
    } else if d == 5 {
        '5'
    } else if d == 6 {
        '6'
    } else if d == 7 {
        '7'
    } else if d == 8 {
        '8'
    } else {
        '9'
    }
}

/// The decimal digits of `n`, most significant first, with no sign and
/// no leading zero (except for `n == 0` itself).
pub open spec fn spec_digits(n: nat) -> Seq<char>
    decreases n,
{
    if n < 10 {
        seq![digit_char(n)]
    } else {
        spec_digits(n / 10) + seq![digit_char(n % 10)]
    }
}

fn digit_to_str(d: u64) -> (r: &'static str)
    requires
        d < 10,
    ensures
        r@ == seq![digit_char(d as nat)],
{
    proof {
        reveal_strlit("0");
        reveal_strlit("1");
        reveal_strlit("2");
        reveal_strlit("3");
        reveal_strlit("4");
        reveal_strlit("5");
        reveal_strlit("6");
        reveal_strlit("7");
        reveal_strlit("8");
        reveal_strlit("9");
    }
    let r = if d == 0 {
        "0"
    } else if d == 1 {
        "1"
    } else if d == 2 {
        "2"
    } else if d == 3 {
        "3"
    } else if d == 4 {
        "4"
    } else if d == 5 {
        "5"
    } else if d == 6 {
        "6"
    } else if d == 7 {
        "7"
    } else if d == 8 {
        "8"
    } else {
        "9"
    };
    proof {
        assert(r@ =~= seq![digit_char(d as nat)]);
    }
    r
}

/// Writes `n` in decimal.
pub fn u64_to_string(n: u64) -> (r: String)
    ensures
        r@ == spec_digits(n as nat),
    decreases n,
{
    if n < 10 {
        String::from_str(digit_to_str(n))
    } else {
        let mut s = u64_to_string(n / 10);
        s.append(digit_to_str(n % 10));
        proof {
            assert(s@ =~= spec_digits(n as nat));
        }
        s
    }
}

/// Writes `n` in decimal.
pub fn usize_to_string(n: usize) -> (r: String)
    ensures
        r@ == spec_digits(n as nat),
{
    u64_to_string(n as u64)
}

/// The canonical message for a failed `Single` adjustment.
pub open spec fn vec_to_single_msg(e: VecToSingleError) -> Seq<char> {
    match e {
        VecToSingleError::NoElements => "expected exactly one element, but no elements found"@,
        VecToSingleError::TooManyElements { found } => "expected exactly one element, but found "@
            + spec_digits(found as nat) + " elements"@,
    }
}

/// The canonical message for a failed `Optional` adjustment.
pub open spec fn vec_to_option_msg(e: VecToOptionError) -> Seq<char> {
    match e {
        VecToOptionError::TooManyElements { found } => "expected 0 or 1 element, but found "@
            + spec_digits(found as nat) + " elements"@,
    }
}

/// The canonical message for a failed `Array` adjustment.
pub open spec fn vec_to_array_msg(e: VecToArrayError) -> Seq<char> {
    match e {
        VecToArrayError::ElementNumberUnmatched { expected, found } => "expected exactly "@
            + spec_digits(expected as nat) + " elements, but found "@ + spec_digits(found as nat)
            + " elements"@,
    }
}

/// The canonical message for any cardinality failure.
pub open spec fn cardinality_msg(e: CardinalityError) -> Seq<char> {
    match e {
        CardinalityError::Single(e) => vec_to_single_msg(e),
        CardinalityError::Optional(e) => vec_to_option_msg(e),
        CardinalityError::Array(e) => vec_to_array_msg(e),
    }
}

/// The canonical message for a missing attribute.
pub open spec fn attribute_not_found_msg(name: Seq<char>) -> Seq<char> {
    "an attribute `"@ + name + "` not found in the target element"@
}

/// The message for a failed leaf parse.
pub open spec fn from_text_msg(e: FromTextError) -> Seq<char> {
    match e {
        FromTextError::Empty => "cannot parse integer from empty string"@,
        FromTextError::InvalidDigit => "invalid digit found in string"@,
        FromTextError::PosOverflow => "number too large to fit in target type"@,
        FromTextError::NegOverflow => "number too small to fit in target type"@,
        FromTextError::InvalidBool => "provided string was not `true` or `false`"@,
    }
}

impl VecToSingleError {
    /// Writes the canonical message for this failure.
    pub fn render(&self) -> (r: String)
        ensures
            r@ == vec_to_single_msg(*self),
    {
        match self {
            VecToSingleError::NoElements => String::from_str(
                "expected exactly one element, but no elements found",
            ),
            VecToSingleError::TooManyElements { found } => {
                let mut s = String::from_str("expected exactly one element, but found ");
                s.append(usize_to_string(*found).as_str());
                s.append(" elements");
                s
            },
        }
    }
}

impl VecToOptionError {
    /// Writes the canonical message for this failure.
    pub fn render(&self) -> (r: String)
        ensures
            r@ == vec_to_option_msg(*self),
    {
        match self {
            VecToOptionError::TooManyElements { found } => {
                let mut s = String::from_str("expected 0 or 1 element, but found ");
                s.append(usize_to_string(*found).as_str());
                s.append(" elements");
                s
            },
        }
    }
}

impl VecToArrayError {
    /// Writes the canonical message for this failure.
    pub fn render(&self) -> (r: String)
        ensures
            r@ == vec_to_array_msg(*self),
    {
        match self {
            VecToArrayError::ElementNumberUnmatched { expected, found } => {
                let mut s = String::from_str("expected exactly ");
                s.append(usize_to_string(*expected).as_str());
                s.append(" elements, but found ");
                s.append(usize_to_string(*found).as_str());
                s.append(" elements");
                s
            },
        }
    }
}

impl CardinalityError {
    /// Writes the canonical message for this failure.
    pub fn render(&self) -> (r: String)
        ensures
            r@ == cardinality_msg(*self),
    {
        match self {
            CardinalityError::Single(e) => e.render(),
            CardinalityError::Optional(e) => e.render(),
            CardinalityError::Array(e) => e.render(),
        }
    }
}

impl AttributeNotFound {
    /// Writes the canonical message for this failure.
    pub fn render(&self) -> (r: String)
        ensures
            r@ == attribute_not_found_msg(self.name@),
    {
        let mut s = String::from_str("an attribute `");
        s.append(self.name.as_str());
        s.append("` not found in the target element");
        s
    }
}

impl FromTextError {
    /// Writes the message for this failure.
    pub fn render(&self) -> (r: String)
        ensures
            r@ == from_text_msg(*self),
    {
        match self {
            FromTextError::Empty => String::from_str("cannot parse integer from empty string"),
            FromTextError::InvalidDigit => String::from_str("invalid digit found in string"),
            FromTextError::PosOverflow => String::from_str(
                "number too large to fit in target type",
            ),
            FromTextError::NegOverflow => String::from_str(
                "number too small to fit in target type",
            ),
            FromTextError::InvalidBool => String::from_str(
                "provided string was not `true` or `false`",
            ),
        }
    }
}

} // verus!
