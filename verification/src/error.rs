//! The error model: a recursively composed, contextualized description
//! of the exact place a decode failed. An error is built bottom-up — the
//! innermost failure first — and wrapped outward with one frame per
//! struct field and one per list index as the call stack returns.

use vstd::prelude::*;

verus! {

/// One frame of an error path: a list index, or a struct field together
/// with the selector (or attribute name) that located it.
#[derive(Debug, Clone, PartialEq, Eq)]
pub enum Position {
    Index(usize),
    Struct { selector: Option<String>, field_name: String },
}

/// The mathematical model of a [`Position`].
pub ghost enum PositionV {
    Index(usize),
    Struct { selector: Option<Seq<char>>, field_name: Seq<char> },
}

impl View for Position {
    type V = PositionV;

    open spec fn view(&self) -> PositionV {
        match self {
            Position::Index(i) => PositionV::Index(*i),
            Position::Struct { selector, field_name } => PositionV::Struct {
                selector: match selector {
                    Some(s) => Some(s@),
                    None => None,
                },
                field_name: field_name@,
            },
        }
    }
}

/// A located decode failure: a leaf message with an optional cause, or
/// an inner failure wrapped with the frame where it happened.
#[derive(Debug, PartialEq, Eq)]
pub enum ParseError {
    Root { message: String, cause: Option<String> },
    Child { position: Position, error: Box<ParseError> },
}

/// The mathematical model of a [`ParseError`].
pub ghost enum ErrorV {
    Root { message: Seq<char>, cause: Option<Seq<char>> },
    Child { position: PositionV, error: Box<ErrorV> },
}

/// The mathematical model of a [`ParseError`], frame by frame.
pub open spec fn error_view(e: ParseError) -> ErrorV
    decreases e,
{
    match e {
        ParseError::Root { message, cause } => ErrorV::Root {
            message: message@,
            cause: match cause {
                Some(c) => Some(c@),
                None => None,
            },
        },
        ParseError::Child { position, error } => ErrorV::Child {
            position: position@,
            error: Box::new(error_view(*error)),
        },
    }
}

impl View for ParseError {
    type V = ErrorV;

    open spec fn view(&self) -> ErrorV {
        error_view(*self)
    }
}

/// How a position renders: `[i]` for an index, and for a struct field
/// the field name followed by its selector in parentheses, the
/// parentheses omitted when there is no selector.
pub open spec fn spec_render_position(p: PositionV) -> Seq<char> {
    match p {
        PositionV::Index(i) => "["@ + crate::display::spec_digits(i as nat) + "]"@,
        PositionV::Struct { selector, field_name } => match selector {
            Some(s) => field_name + "("@ + s + ")"@,
            None => field_name,
        },
    }
}

/// How an error path renders: a leaf message (with `: cause` appended
/// when a cause is present), and `position -> inner` for each frame.
pub open spec fn spec_render_error(e: ErrorV) -> Seq<char>
    decreases e,
{
    match e {
        ErrorV::Root { message, cause } => match cause {
            Some(c) => message + ": "@ + c,
            None => message,
        },
        ErrorV::Child { position, error } => spec_render_position(position) + " -> "@
            + spec_render_error(*error),
    }
}

impl Position {
    /// Writes the frame as it appears in a rendered error path.
    pub fn render(&self) -> (r: String)
        ensures
            r@ == spec_render_position(self@),
    {
        match self {
            Position::Index(i) => {
                let mut s = String::from_str("[");
                s.append(crate::display::usize_to_string(*i).as_str());
                s.append("]");
                s
            },
            Position::Struct { selector, field_name } => {
                let mut s = String::from_str(field_name.as_str());
                match selector {
                    Some(sel) => {
                        s.append("(");
                        s.append(sel.as_str());
                        s.append(")");
                        s
                    },
                    None => s,
                }
            },
        }
    }
}

/// The failure of one named field, the form in which a caller that
/// assembles a struct by hand reports it.
#[derive(Debug, PartialEq, Eq)]
pub struct FieldError {
    pub field_name: String,
    pub error: Box<ParseError>,
}

impl FieldError {
    /// Writes the field's name, then the error path behind it.
    pub fn render(&self) -> (r: String)
        ensures
            r@ == self.field_name@ + ": "@ + spec_render_error(error_view(*self.error)),
    {
        let mut s = String::from_str(self.field_name.as_str());
        s.append(": ");
        s.append(self.error.render().as_str());
        s
    }
}

/// Why one field failed: the matched nodes did not fit the field's
/// shape, or an element of them would not decode.
#[derive(Debug, PartialEq, Eq)]
pub enum StructErrorCause {
    StructureUnmatched(crate::adjust::CardinalityError),
    ParseError(ParseError),
}

/// One field's failure together with the frame that locates it: the
/// flat, single-field form of an error path.
#[derive(Debug, PartialEq, Eq)]
pub struct StructFieldError {
    pub selector: Option<String>,
    pub field_name: String,
    pub error: StructErrorCause,
}

/// The error path a single field's failure unrolls to.
pub open spec fn struct_field_error_path(e: StructFieldError) -> ErrorV {
    ErrorV::Child {
        position: PositionV::Struct {
            selector: match e.selector {
                Some(s) => Some(s@),
                None => None,
            },
            field_name: e.field_name@,
        },
        error: Box::new(
            match e.error {
                StructErrorCause::StructureUnmatched(ce) => ErrorV::Root {
                    message: crate::display::cardinality_msg(ce),
                    cause: None,
                },
                StructErrorCause::ParseError(pe) => error_view(pe),
            },
        ),
    }
}

impl StructFieldError {
    /// Unrolls this failure into the equivalent error path.
    pub fn into_error(self) -> (r: ParseError)
        ensures
            r@ == struct_field_error_path(self),
    {
        let cause = match self.error {
            StructErrorCause::StructureUnmatched(ce) => ParseError::Root {
                message: ce.render(),
                cause: None,
            },
            StructErrorCause::ParseError(pe) => pe,
        };
        ParseError::Child {
            position: Position::Struct {
                selector: self.selector,
                field_name: self.field_name,
            },
            error: Box::new(cause),
        }
    }

    /// Writes this failure as its error path renders.
    pub fn render(self) -> (r: String)
        ensures
            r@ == spec_render_error(struct_field_error_path(self)),
    {
        self.into_error().render()
    }
}

/// The failure of extracting a raw string from a node and parsing it
/// into a leaf value: the extraction failed, or the text would not
/// parse.
#[derive(Debug, PartialEq, Eq)]
pub enum FromHtmlTextError {
    ExtractionFailed(crate::extract::AttributeNotFound),
    TextParseError(crate::text::FromTextError),
}

impl FromHtmlTextError {
    /// Writes the message of the failing stage.
    pub fn render(&self) -> (r: String)
        ensures
            match self {
                FromHtmlTextError::ExtractionFailed(a) => r@
                    == crate::display::attribute_not_found_msg(a.name@),
                FromHtmlTextError::TextParseError(e) => r@ == crate::display::from_text_msg(*e),
            },
    {
        match self {
            FromHtmlTextError::ExtractionFailed(a) => a.render(),
            FromHtmlTextError::TextParseError(e) => e.render(),
        }
    }
}

impl ParseError {
    /// Writes the whole error path, innermost failure last.
    pub fn render(&self) -> (r: String)
        ensures
            r@ == spec_render_error(self@),
        decreases self,
    {
        match self {
            ParseError::Root { message, cause } => {
                let mut s = String::from_str(message.as_str());
                match cause {
                    Some(c) => {
                        s.append(": ");
                        s.append(c.as_str());
                        s
                    },
                    None => s,
                }
            },
            ParseError::Child { position, error } => {
                let mut s = position.render();
                s.append(" -> ");
                s.append(error.render().as_str());
                s
            },
        }
    }
}

} // verus!
