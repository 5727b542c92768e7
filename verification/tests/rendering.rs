use h2s::adjust::CardinalityError;
use h2s::adjust::VecToSingleError;
use h2s::display::{u64_to_string, usize_to_string};
use h2s::error::{
    FieldError, FromHtmlTextError, ParseError, Position, StructErrorCause, StructFieldError,
};
use h2s::extract::AttributeNotFound;
use h2s::text::FromTextError;

#[test]
fn position() {
    let case = vec![
        (Position::Index(3), "[3]"),
        (
            Position::Struct {
                selector: Some(".a > .b".to_string()),
                field_name: "bar".to_string(),
            },
            "bar(.a > .b)",
        ),
        (Position::Struct { selector: None, field_name: "bar".to_string() }, "bar"),
    ];

    for (p, msg) in case {
        assert_eq!(p.render().as_str(), msg);
    }
}

#[test]
fn parse_error() {
    let case = vec![
        // root
        (
            ParseError::Root { message: "foo".to_string(), cause: None },
            "foo".to_string(),
        ),
        (
            ParseError::Root { message: "foo".to_string(), cause: Some("bar".to_string()) },
            "foo: bar".to_string(),
        ),
        // child
        (
            ParseError::Child {
                position: Position::Index(3),
                error: Box::new(ParseError::Root {
                    message: "foo".to_string(),
                    cause: Some("bar".to_string()),
                }),
            },
            "[3] -> foo: bar".to_string(),
        ),
    ];

    for (e, msg) in case {
        assert_eq!(e.render(), msg);
    }
}

#[test]
fn decimal_rendering() {
    assert_eq!(u64_to_string(0).as_str(), "0");
    assert_eq!(u64_to_string(7).as_str(), "7");
    assert_eq!(u64_to_string(1234567890).as_str(), "1234567890");
    assert_eq!(u64_to_string(u64::MAX).as_str(), "18446744073709551615");
    assert_eq!(usize_to_string(42).as_str(), "42");
}

#[test]
fn attribute_not_found_rendering() {
    assert_eq!(
        AttributeNotFound { name: "class".to_string() }.render(),
        "an attribute `class` not found in the target element"
    );
}

#[test]
fn field_error_rendering() {
    let e = FieldError {
        field_name: "title".to_string(),
        error: Box::new(ParseError::Root { message: "foo".to_string(), cause: None }),
    };
    assert_eq!(e.render(), "title: foo");
}

#[test]
fn struct_field_error_rendering() {
    let e = StructFieldError {
        selector: Some("h2".to_string()),
        field_name: "bad".to_string(),
        error: StructErrorCause::StructureUnmatched(CardinalityError::Single(
            VecToSingleError::NoElements,
        )),
    };
    assert_eq!(
        e.render(),
        "bad(h2) -> expected exactly one element, but no elements found"
    );

    let e = StructFieldError {
        selector: None,
        field_name: "count".to_string(),
        error: StructErrorCause::ParseError(ParseError::Root {
            message: "invalid digit found in string".to_string(),
            cause: None,
        }),
    };
    assert_eq!(e.render(), "count -> invalid digit found in string");
}

#[test]
fn from_html_text_error_rendering() {
    assert_eq!(
        FromHtmlTextError::ExtractionFailed(AttributeNotFound { name: "href".to_string() })
            .render(),
        "an attribute `href` not found in the target element"
    );
    assert_eq!(
        FromHtmlTextError::TextParseError(FromTextError::InvalidDigit).render(),
        "invalid digit found in string"
    );
}
