//! Leaf textual parsing: turning the raw string pulled out of a node
//! into a typed leaf value. Each built-in parser is specified exactly:
//! the contract says for which strings it succeeds, what value it
//! returns, and which error each rejected string produces.

use vstd::prelude::*;

verus! {

/// Why a raw string could not be parsed into a leaf value.
#[derive(Debug, Clone, PartialEq, Eq, Structural)]
pub enum FromTextError {
    /// An integer was asked of the empty string.
    Empty,
    /// A character that is not a decimal digit (or a misplaced sign).
    InvalidDigit,
    /// The number does not fit in the target type (too large).
    PosOverflow,
    /// The number does not fit in the target type (too small).
    NegOverflow,
    /// The string is neither `true` nor `false`.
    InvalidBool,
}

/// Whether `c` is a decimal digit (`'0'` through `'9'`).
pub open spec fn is_digit(c: char) -> bool {
    48 <= c as u32 && c as u32 <= 57
}

/// The numeric value of a decimal digit.
pub open spec fn digit_val(c: char) -> nat {
    (c as u32 - 48) as nat
}

/// Whether every character of `s` is a decimal digit.
pub open spec fn all_digits(s: Seq<char>) -> bool {
    forall|i: int| 0 <= i < s.len() ==> is_digit(#[trigger] s[i])
}

/// The value of a digit string read in base ten.
pub open spec fn str_to_nat(s: Seq<char>) -> nat
    decreases s.len(),
{
    if s.len() == 0 {
        0
    } else {
        str_to_nat(s.drop_last()) * 10 + digit_val(s.last())
    }
}

/// What parsing an unsigned 64-bit integer returns: the base-ten value
/// of the string when it is a non-empty, all-digit string whose value
/// fits, and the first applicable error otherwise.
pub open spec fn spec_parse_u64(s: Seq<char>) -> Result<u64, FromTextError> {
    if s.len() == 0 {
        Err(FromTextError::Empty)
    } else if !all_digits(s) {
        Err(FromTextError::InvalidDigit)
    } else if str_to_nat(s) > u64::MAX {
        Err(FromTextError::PosOverflow)
    } else {
        Ok(str_to_nat(s) as u64)
    }
}

/// What parsing a signed 64-bit integer returns: an optional leading
/// `'-'` followed by a non-empty digit string, with the value negated
/// when the sign is present.
pub open spec fn spec_parse_i64(s: Seq<char>) -> Result<i64, FromTextError> {
    if s.len() > 0 && s[0] == '-' {
        let mag = s.drop_first();
        if mag.len() == 0 {
            Err(FromTextError::Empty)
        } else if !all_digits(mag) {
            Err(FromTextError::InvalidDigit)
        } else if str_to_nat(mag) > 0x8000_0000_0000_0000 {
            Err(FromTextError::NegOverflow)
        } else {
            Ok((-(str_to_nat(mag) as int)) as i64)
        }
    } else {
        if s.len() == 0 {
            Err(FromTextError::Empty)
        } else if !all_digits(s) {
            Err(FromTextError::InvalidDigit)
        } else if str_to_nat(s) > i64::MAX {
            Err(FromTextError::PosOverflow)
        } else {
            Ok(str_to_nat(s) as i64)
        }
    }
}

/// What parsing a boolean returns: exactly the strings `true` and
/// `false` are accepted.
pub open spec fn spec_parse_bool(s: Seq<char>) -> Result<bool, FromTextError> {
    if s == "true"@ {
        Ok(true)
    } else if s == "false"@ {
        Ok(false)
    } else {
        Err(FromTextError::InvalidBool)
    }
}

/// Appending digits never shrinks the value a digit string denotes.
proof fn lemma_str_to_nat_prefix(s: Seq<char>, i: int)
    requires
        0 <= i <= s.len(),
    ensures
        str_to_nat(s.take(i)) <= str_to_nat(s),
    decreases s.len() - i,
{
    if i < s.len() {
        assert(s.take(i + 1).drop_last() =~= s.take(i));
        assert(str_to_nat(s.take(i + 1)) == str_to_nat(s.take(i)) * 10 + digit_val(
            s.take(i + 1).last(),
        ));
        assert(str_to_nat(s.take(i)) <= str_to_nat(s.take(i)) * 10) by (nonlinear_arith);
        lemma_str_to_nat_prefix(s, i + 1);
    } else {
        assert(s.take(i) =~= s);
    }
}

/// Whether `c` is one of the ASCII whitespace characters this library
/// trims.
pub open spec fn is_space(c: char) -> bool {
    c == ' ' || c == '\t' || c == '\n' || c == '\r'
}

/// `s` without its leading whitespace.
pub open spec fn trim_front(s: Seq<char>) -> Seq<char>
    decreases s.len(),
{
    if s.len() > 0 && is_space(s.first()) {
        trim_front(s.drop_first())
    } else {
        s
    }
}

/// `s` without its trailing whitespace.
pub open spec fn trim_back(s: Seq<char>) -> Seq<char>
    decreases s.len(),
{
    if s.len() > 0 && is_space(s.last()) {
        trim_back(s.drop_last())
    } else {
        s
    }
}

/// `s` without leading and trailing whitespace.
pub open spec fn spec_trim(s: Seq<char>) -> Seq<char> {
    trim_back(trim_front(s))
}

/// Dropping the leading whitespace keeps exactly the part after the
/// first non-whitespace character.
proof fn lemma_trim_front(s: Seq<char>, a: int)
    requires
        0 <= a <= s.len(),
        forall|j: int| 0 <= j < a ==> is_space(#[trigger] s[j]),
        a < s.len() ==> !is_space(s[a]),
    ensures
        trim_front(s) =~= s.skip(a),
    decreases a,
{
    if a == 0 {
        assert(s.skip(0) =~= s);
    } else {
        assert(is_space(s.first()));
        lemma_trim_front(s.drop_first(), a - 1);
        assert(s.drop_first().skip(a - 1) =~= s.skip(a));
    }
}

/// Dropping the trailing whitespace keeps exactly the part before the
/// last non-whitespace character.
proof fn lemma_trim_back(s: Seq<char>, b: int)
    requires
        0 <= b <= s.len(),
        forall|j: int| b <= j < s.len() ==> is_space(#[trigger] s[j]),
        b > 0 ==> !is_space(s[b - 1]),
    ensures
        trim_back(s) =~= s.take(b),
    decreases s.len() - b,
{
    if b == s.len() {
        assert(s.take(b) =~= s);
    } else {
        assert(is_space(s.last()));
        lemma_trim_back(s.drop_last(), b);
        assert(s.drop_last().take(b) =~= s.take(b));
    }
}

/// Whether `c` is one of the whitespace characters this library trims.
pub fn is_space_char(c: char) -> (r: bool)
    ensures
        r == is_space(c),
{
    c == ' ' || c == '\t' || c == '\n' || c == '\r'
}

/// Removes leading and trailing ASCII whitespace.
pub fn trim(s: &str) -> (r: String)
    ensures
        r@ == spec_trim(s@),
{
    let len = s.unicode_len();
    let mut a: usize = 0;
    while a < len && is_space_char(s.get_char(a))
        invariant
            a <= len,
            len == s@.len(),
            forall|j: int| 0 <= j < a ==> is_space(#[trigger] s@[j]),
        decreases len - a,
    {
        a += 1;
    }
    if a == len {
        proof {
            lemma_trim_front(s@, a as int);
            assert(s@.skip(a as int) =~= Seq::<char>::empty());
        }
        return String::new();
    }
    let mut b: usize = len;
    while b > a && is_space_char(s.get_char(b - 1))
        invariant
            a <= b <= len,
            len == s@.len(),
            forall|j: int| b <= j < len ==> is_space(#[trigger] s@[j]),
        decreases b,
    {
        b -= 1;
    }
    let t = s.substring_char(a, b);
    proof {
        lemma_trim_front(s@, a as int);
        if b == a {
            assert(!is_space(s@[a as int]));
            assert(is_space(s@[a as int]));
        }
        lemma_trim_back(s@.skip(a as int), b - a);
        assert(s@.skip(a as int).take(b - a) =~= s@.subrange(a as int, b as int));
    }
    String::from_str(t)
}

/// Character equality of two strings, for comparing against keywords.
pub fn str_eq(a: &str, b: &str) -> (r: bool)
    ensures
        r == (a@ == b@),
{
    let alen = a.unicode_len();
    let blen = b.unicode_len();
    if alen != blen {
        assert(a@ != b@);
        return false;
    }
    let mut i: usize = 0;
    while i < alen
        invariant
            i <= alen,
            alen == a@.len(),
            alen == b@.len(),
            forall|j: int| 0 <= j < i ==> a@[j] == b@[j],
        decreases alen - i,
    {
        if a.get_char(i) != b.get_char(i) {
            return false;
        }
        i += 1;
    }
    proof {
        assert(a@ =~= b@);
    }
    true
}

/// Parses a non-empty all-digit string as an unsigned 64-bit integer.
pub fn parse_u64(s: &str) -> (r: Result<u64, FromTextError>)
    ensures
        r == spec_parse_u64(s@),
{
    let len = s.unicode_len();
    if len == 0 {
        return Err(FromTextError::Empty);
    }
    // First pass: every character must be a digit.
    let mut i: usize = 0;
    while i < len
        invariant
            i <= len,
            len == s@.len(),
            forall|j: int| 0 <= j < i ==> is_digit(#[trigger] s@[j]),
        decreases len - i,
    {
        let c = s.get_char(i);
        let u = c as u32;
        if u < 48 || u > 57 {
            assert(!all_digits(s@));
            return Err(FromTextError::InvalidDigit);
        }
        i += 1;
    }
    assert(all_digits(s@));
    // Second pass: accumulate, watching for overflow.
    let mut acc: u64 = 0;
    let mut i: usize = 0;
    while i < len
        invariant
            i <= len,
            len == s@.len(),
            all_digits(s@),
            acc as nat == str_to_nat(s@.take(i as int)),
        decreases len - i,
    {
        let c = s.get_char(i);
        let d = (c as u32 - 48) as u64;
        if acc > (u64::MAX - d) / 10 {
            proof {
                assert(str_to_nat(s@.take(i as int + 1)) == acc as nat * 10 + d as nat) by {
                    assert(s@.take(i as int + 1).drop_last() =~= s@.take(i as int));
                };
                assert(acc as nat * 10 + d as nat > u64::MAX) by (nonlinear_arith)
                    requires
                        acc > (u64::MAX - d) / 10,
                        d < 10,
                ;
                lemma_str_to_nat_prefix(s@, i as int + 1);
                assert(s@.take(s@.len() as int) =~= s@);
            }
            return Err(FromTextError::PosOverflow);
        }
        proof {
            assert(acc as nat * 10 + d as nat <= u64::MAX) by (nonlinear_arith)
                requires
                    acc <= (u64::MAX - d) / 10,
                    d < 10,
            ;
            assert(s@.take(i as int + 1).drop_last() =~= s@.take(i as int));
        }
        acc = acc * 10 + d;
        i += 1;
    }
    proof {
        assert(s@.take(len as int) =~= s@);
    }
    Ok(acc)
}

/// Parses a signed 64-bit integer: an optional leading `'-'`, then a
/// non-empty all-digit string.
pub fn parse_i64(s: &str) -> (r: Result<i64, FromTextError>)
    ensures
        r == spec_parse_i64(s@),
{
    let len = s.unicode_len();
    if len > 0 && s.get_char(0) == '-' {
        let mag = s.substring_char(1, len);
        proof {
            assert(mag@ =~= s@.drop_first());
        }
        match parse_u64(mag) {
            Ok(v) => {
                if v > 0x8000_0000_0000_0000u64 {
                    Err(FromTextError::NegOverflow)
                } else if v == 0x8000_0000_0000_0000u64 {
                    Ok(i64::MIN)
                } else {
                    Ok(-(v as i64))
                }
            },
            Err(FromTextError::PosOverflow) => Err(FromTextError::NegOverflow),
            Err(e) => Err(e),
        }
    } else {
        match parse_u64(s) {
            Ok(v) => {
                if v > i64::MAX as u64 {
                    Err(FromTextError::PosOverflow)
                } else {
                    Ok(v as i64)
                }
            },
            Err(e) => Err(e),
        }
    }
}

/// Parses a boolean: exactly `true` and `false` are accepted.
pub fn parse_bool(s: &str) -> (r: Result<bool, FromTextError>)
    ensures
        r == spec_parse_bool(s@),
{
    if str_eq(s, "true") {
        Ok(true)
    } else if str_eq(s, "false") {
        Ok(false)
    } else {
        Err(FromTextError::InvalidBool)
    }
}

/// The pluggable textual-parse capability: a type that can be read from
/// the raw string extracted out of a node. Each implementation states,
/// in `from_text_post`, exactly which strings it accepts and what value
/// each one yields.
pub trait FromText: Sized {
    /// What `from_text` returns for a given string.
    spec fn from_text_post(s: Seq<char>, r: Result<Self, FromTextError>) -> bool;

    /// Parses the raw string.
    fn from_text(s: &str) -> (r: Result<Self, FromTextError>)
        ensures
            Self::from_text_post(s@, r),
    ;
}

impl FromText for String {
    /// Every string is accepted, unchanged.
    open spec fn from_text_post(s: Seq<char>, r: Result<String, FromTextError>) -> bool {
        r matches Ok(v) && v@ == s
    }

    fn from_text(s: &str) -> (r: Result<String, FromTextError>) {
        Ok(String::from_str(s))
    }
}

impl FromText for u64 {
    open spec fn from_text_post(s: Seq<char>, r: Result<u64, FromTextError>) -> bool {
        r == spec_parse_u64(s)
    }

    fn from_text(s: &str) -> (r: Result<u64, FromTextError>) {
        parse_u64(s)
    }
}

impl FromText for i64 {
    open spec fn from_text_post(s: Seq<char>, r: Result<i64, FromTextError>) -> bool {
        r == spec_parse_i64(s)
    }

    fn from_text(s: &str) -> (r: Result<i64, FromTextError>) {
        parse_i64(s)
    }
}

impl FromText for bool {
    open spec fn from_text_post(s: Seq<char>, r: Result<bool, FromTextError>) -> bool {
        r == spec_parse_bool(s)
    }

    fn from_text(s: &str) -> (r: Result<bool, FromTextError>) {
        parse_bool(s)
    }
}

} // verus!
