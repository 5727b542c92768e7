use h2s::adjust::Shape;
use h2s::decode::{
    check_struct, from_html, process_field, FieldData, FieldSpec, LeafKind, StructSpec,
    StructValue, TargetKind, TypedValue,
};
use h2s::extract::ExtractionType;
use h2s::decode::{default_extraction_method, extraction_method};
use h2s::html::parse_document;
use h2s::parse;

fn leaf_field(
    name: &str,
    selector: Option<&str>,
    extraction: ExtractionType,
    shape: Shape,
    kind: LeafKind,
) -> FieldSpec {
    FieldSpec {
        field_name: name.to_string(),
        selector: selector.map(|s| s.to_string()),
        extraction,
        shape,
        target: TargetKind::Leaf(kind),
    }
}

fn text_field(name: &str, selector: &str, shape: Shape, kind: LeafKind) -> FieldSpec {
    leaf_field(name, Some(selector), ExtractionType::Text, shape, kind)
}

const SCENARIO_DOC: &str = r#"<div><h1 class="t">Title</h1><p>1</p><p>2</p></div>"#;

#[test]
fn scenario_single_and_list() {
    let spec = StructSpec {
        fields: vec![
            text_field("title", "h1.t", Shape::Single, LeafKind::Str),
            text_field("nums", "p", Shape::List, LeafKind::UInt),
        ],
    };
    let v = parse(SCENARIO_DOC, &spec).unwrap();
    assert_eq!(
        v,
        StructValue {
            fields: vec![
                FieldData::One(TypedValue::Str("Title".to_string())),
                FieldData::Many(vec![TypedValue::UInt(1), TypedValue::UInt(2)]),
            ],
        }
    );
}

#[test]
fn scenario_missing_single() {
    let spec = StructSpec {
        fields: vec![text_field("bad", "h2", Shape::Single, LeafKind::Str)],
    };
    let e = parse(SCENARIO_DOC, &spec).unwrap_err();
    assert_eq!(
        e.render(),
        "bad(h2) -> expected exactly one element, but no elements found"
    );
}

#[test]
fn scenario_nested_attribute_error() {
    let article = StructSpec {
        fields: vec![leaf_field(
            "author",
            None,
            ExtractionType::Attribute("data-author".to_string()),
            Shape::Single,
            LeafKind::Str,
        )],
    };
    let outer = StructSpec {
        fields: vec![FieldSpec {
            field_name: "article".to_string(),
            selector: None,
            extraction: ExtractionType::Text,
            shape: Shape::Single,
            target: TargetKind::Nested(article),
        }],
    };
    let e = parse("<html><body></body></html>", &outer).unwrap_err();
    assert_eq!(
        e.render(),
        "article -> author(data-author) -> an attribute `data-author` not found in the target element"
    );
}

#[test]
fn decoding_is_deterministic() {
    let spec = || StructSpec {
        fields: vec![
            text_field("title", "h1.t", Shape::Single, LeafKind::Str),
            text_field("nums", "p", Shape::List, LeafKind::UInt),
        ],
    };
    let root = parse_document(SCENARIO_DOC);
    assert_eq!(from_html(&root, &spec()), from_html(&root, &spec()));

    let bad = || StructSpec {
        fields: vec![text_field("bad", "h2", Shape::Single, LeafKind::Str)],
    };
    assert_eq!(from_html(&root, &bad()), from_html(&root, &bad()));
}

#[test]
fn optional_semantics() {
    let root = parse_document(SCENARIO_DOC);
    let absent_opt = text_field("maybe", "h2", Shape::Optional, LeafKind::Str);
    assert_eq!(process_field(&root, &absent_opt), Ok(FieldData::Opt(None)));

    let present_opt = text_field("maybe", "h1.t", Shape::Optional, LeafKind::Str);
    assert_eq!(
        process_field(&root, &present_opt),
        Ok(FieldData::Opt(Some(TypedValue::Str("Title".to_string()))))
    );

    let absent_single = text_field("must", "h2", Shape::Single, LeafKind::Str);
    assert_eq!(
        process_field(&root, &absent_single).unwrap_err().render(),
        "must(h2) -> expected exactly one element, but no elements found"
    );

    let too_many_opt = text_field("maybe", "p", Shape::Optional, LeafKind::Str);
    assert_eq!(
        process_field(&root, &too_many_opt).unwrap_err().render(),
        "maybe(p) -> expected 0 or 1 element, but found 2 elements"
    );
}

#[test]
fn array_semantics() {
    let root = parse_document(SCENARIO_DOC);
    let two = text_field("nums", "p", Shape::Array(2), LeafKind::UInt);
    assert_eq!(
        process_field(&root, &two),
        Ok(FieldData::Many(vec![TypedValue::UInt(1), TypedValue::UInt(2)]))
    );

    let three = text_field("nums", "p", Shape::Array(3), LeafKind::UInt);
    assert_eq!(
        process_field(&root, &three).unwrap_err().render(),
        "nums(p) -> expected exactly 3 elements, but found 2 elements"
    );
}

#[test]
fn fail_fast_reports_the_first_failing_index() {
    // The second and third items both fail to parse; only the second
    // (index 1) is reported.
    let root = parse_document("<div><p>1</p><p>x</p><p>y</p></div>");
    let nums = text_field("nums", "p", Shape::List, LeafKind::UInt);
    assert_eq!(
        process_field(&root, &nums).unwrap_err().render(),
        "nums(p) -> [1] -> invalid digit found in string"
    );
}

#[test]
fn from_html_vec() {
    let root = parse_document("<div><p>a</p><p>b</p></div>");
    let items = text_field("items", "p", Shape::List, LeafKind::Str);
    assert_eq!(
        process_field(&root, &items),
        Ok(FieldData::Many(vec![
            TypedValue::Str("a".to_string()),
            TypedValue::Str("b".to_string()),
        ])),
        "the method is applied for each items of the vec"
    );

    let root = parse_document("<div><p>1</p><p>err</p></div>");
    let nums = text_field("nums", "p", Shape::List, LeafKind::UInt);
    assert_eq!(
        process_field(&root, &nums).unwrap_err().render(),
        "nums(p) -> [1] -> invalid digit found in string",
        "returned error if one of the vec items fails to apply"
    );
}

#[test]
fn from_html_option() {
    let root = parse_document("<div><p>ok</p></div>");
    let present = text_field("maybe", "p", Shape::Optional, LeafKind::Str);
    assert_eq!(
        process_field(&root, &present),
        Ok(FieldData::Opt(Some(TypedValue::Str("ok".to_string())))),
        "the method is applied for is present"
    );

    let absent = text_field("maybe", "span", Shape::Optional, LeafKind::Str);
    assert_eq!(
        process_field(&root, &absent),
        Ok(FieldData::Opt(None)),
        "returned none if none"
    );

    let root = parse_document("<div><p>err</p></div>");
    let bad = text_field("maybe", "p", Shape::Optional, LeafKind::UInt);
    assert_eq!(
        process_field(&root, &bad).unwrap_err().render(),
        "maybe(p) -> invalid digit found in string",
        "returned error if failed to apply"
    );
}

#[test]
fn from_text() {
    assert_eq!(
        h2s::parse_with_args("<html><div>ok!</div></html>", &ExtractionType::Text),
        Ok("ok!".to_string()),
        "the extraction result is returned"
    );
}

#[test]
fn attribute_of_the_root_element() {
    assert_eq!(
        h2s::parse_with_args(
            r#"<html lang="en"><body></body></html>"#,
            &ExtractionType::Attribute("lang".to_string()),
        ),
        Ok("en".to_string())
    );
    assert_eq!(
        h2s::parse_with_args(
            "<html><body></body></html>",
            &ExtractionType::Attribute("lang".to_string()),
        )
        .unwrap_err()
        .render(),
        "an attribute `lang` not found in the target element"
    );
}

#[test]
fn invalid_selector_is_rejected_up_front() {
    let spec = StructSpec {
        fields: vec![text_field("bad", ":invalid:", Shape::Single, LeafKind::Str)],
    };
    assert!(!check_struct(&spec));
    assert_eq!(
        parse("<html></html>", &spec).unwrap_err().render(),
        "failed to parse css selector"
    );
}

#[test]
fn nested_struct_decoding() {
    let inner = || StructSpec {
        fields: vec![text_field("v", "span", Shape::Single, LeafKind::Str)],
    };
    let outer = StructSpec {
        fields: vec![
            FieldSpec {
                field_name: "b".to_string(),
                selector: Some(".b".to_string()),
                extraction: ExtractionType::Text,
                shape: Shape::Single,
                target: TargetKind::Nested(inner()),
            },
            FieldSpec {
                field_name: "c".to_string(),
                selector: Some(".c".to_string()),
                extraction: ExtractionType::Text,
                shape: Shape::List,
                target: TargetKind::Nested(inner()),
            },
        ],
    };
    let html = r#"
<html><body>
<div class="b"><span>bvalue</span></div>
<div class="c"><span>cvalue1</span></div>
<div class="c"><span>cvalue2</span></div>
</body></html>
    "#;
    let sv = |s: &str| TypedValue::Struct(StructValue {
        fields: vec![FieldData::One(TypedValue::Str(s.to_string()))],
    });
    assert_eq!(
        parse(html, &outer).unwrap(),
        StructValue {
            fields: vec![
                FieldData::One(sv("bvalue")),
                FieldData::Many(vec![sv("cvalue1"), sv("cvalue2")]),
            ],
        }
    );
}

#[test]
fn leaf_kinds_and_builders() {
    let em = extraction_method(ExtractionType::Attribute("id".to_string()));
    let f = FieldSpec::new(
        "id".to_string(),
        Some("div".to_string()),
        Shape::Single,
        TargetKind::Leaf(LeafKind::Str),
        em,
    );
    let root = parse_document(r#"<html><div id="x">7</div></html>"#);
    assert_eq!(
        process_field(&root, &f),
        Ok(FieldData::One(TypedValue::Str("x".to_string())))
    );

    let em = default_extraction_method(&TargetKind::Leaf(LeafKind::Int));
    let f = FieldSpec::new(
        "n".to_string(),
        Some("div".to_string()),
        Shape::Single,
        TargetKind::Leaf(LeafKind::Int),
        em,
    );
    assert_eq!(process_field(&root, &f), Ok(FieldData::One(TypedValue::Int(7))));

    let root = parse_document("<html><div>true</div></html>");
    let f = text_field("flag", "div", Shape::Single, LeafKind::Bool);
    assert_eq!(process_field(&root, &f), Ok(FieldData::One(TypedValue::Bool(true))));
}
