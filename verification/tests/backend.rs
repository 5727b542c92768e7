use h2s::element_selector::{parse_selector, ParseFailed, Select};
use h2s::extract::ExtractAttribute;
use h2s::html::{get_attribute, parse_document, text_contents, HtmlNode};

#[test]
fn scraper_selector() {
    assert!(Select::parse("div > .a").is_ok());
    assert_eq!(Select::parse(":invalid:").unwrap_err(), ParseFailed);
}

#[test]
fn html_backend_selector() {
    assert_eq!(parse_selector("div > .a").unwrap().selector, "div > .a");
    assert_eq!(
        parse_selector(":invalid:").unwrap_err(),
        "failed to parse css selector `:invalid:`".to_string()
    );
}

#[test]
fn scraper_select() {
    let root = parse_document(
        r#"
<!DOCTYPE html>
<html>
<body>
<div class="a">
    <span>1</span>
    <span>2</span>
    <span>3</span>
</div>

<div class="b">
    <span>4</span>
</div>

<span>5</span>
</body>
</html>
        "#,
    );
    let sel = Select { selector: "div.a > span".to_string() };
    let a_span = sel.select(&root).unwrap();
    assert_eq!(
        a_span.iter().map(|e| e.to_string()).collect::<Vec<_>>(),
        (1..=3).map(|s| format!("<span>{s}</span>")).collect::<Vec<_>>(),
    );

    // nested select
    let b = &Select { selector: ".b".to_string() }.select(&root).unwrap()[0];
    let b_span = Select { selector: "span".to_string() }.select(b).unwrap();
    assert_eq!(b_span.len(), 1);
    assert_eq!(b_span[0].to_string(), "<span>4</span>".to_string());
}

#[test]
fn html_backend_select() {
    let root = parse_document(
        r#"
<!DOCTYPE html>
<html>
<body>
<div class="a">
    <span>1</span>
    <span>2</span>
    <span>3</span>
</div>

<div class="b">
    <span>4</span>
</div>

<span>5</span>
</body>
</html>
        "#,
    );
    let sel = parse_selector("div.a > span").unwrap();
    let a_span = sel.select(&root).unwrap();
    assert_eq!(
        a_span.iter().map(|e| e.to_string()).collect::<Vec<_>>(),
        (1..=3).map(|s| format!("<span>{s}</span>")).collect::<Vec<_>>(),
    );

    let b = &parse_selector(".b").unwrap().select(&root).unwrap()[0];
    let b_span = parse_selector("span").unwrap().select(b).unwrap();
    assert_eq!(b_span.len(), 1);
    assert_eq!(b_span[0].to_string(), "<span>4</span>".to_string());
}

#[test]
fn scraper_text_contents() {
    // Inner text is the concatenation of the descendant text nodes in
    // document order, with nothing inserted between them.
    let root = parse_document("<html><div>a<div>b</div><div>c</div></div></html>");
    assert_eq!(text_contents(&root), "abc");
}

#[test]
fn html_backend_text_contents() {
    let root = parse_document("<html><div>a<div>b</div><div>c</div></div></html>");
    let div = Select { selector: "div".to_string() }.select(&root).unwrap();
    assert_eq!(text_contents(&div[0]), "abc");
}

#[test]
fn scraper_get_attribute() {
    let root = parse_document(r#"<html><div id="foo" class="bar" /></html>"#);
    let elem = &Select { selector: "div".to_string() }.select(&root).unwrap()[0];
    assert_eq!(get_attribute(elem, "id").unwrap(), "foo");
    assert_eq!(get_attribute(elem, "class").unwrap(), "bar");
}

#[test]
fn html_backend_get_attribute() {
    let root = parse_document(r#"<html><div id="foo" class="bar" /></html>"#);
    let elem = &Select { selector: "div".to_string() }.select(&root).unwrap()[0];
    assert_eq!(
        ExtractAttribute { name: "id".to_string() }.extract(elem).unwrap(),
        "foo"
    );
    assert_eq!(
        ExtractAttribute { name: "class".to_string() }.extract(elem).unwrap(),
        "bar"
    );
}

#[test]
fn child_nodes() {
    let root = parse_document("<div><div>a<div></div></div>b<div>c</div>d</div>");
    let outer = &Select { selector: "div".to_string() }.select(&root).unwrap()[0];
    assert_eq!(
        h2s::html::child_nodes(outer)
            .into_iter()
            .map(|n| match n {
                HtmlNode::Text(text) => text,
                HtmlNode::Element(elem) => format!("elem-{}", text_contents(&elem)),
                _ => panic!("unexpected node type: {:?}", n),
            })
            .collect::<Vec<_>>(),
        vec!["elem-a", "b", "elem-c", "d"]
            .into_iter()
            .map(|a| a.to_string())
            .collect::<Vec<_>>()
    );
}
