use cproject::document::{
    collect_texts, lookup, lookup_optional_text, lookup_text, parse_toml, Node,
};

fn text(s: &str) -> Node {
    Node::Text(s.to_string())
}

fn field(key: &str, value: Node) -> (String, Node) {
    (key.to_string(), value)
}

#[test]
fn a_document_is_parsed_into_its_tree() {
    let source = "a = 1\ns = \"x\"\n[b]\nc = [true, 1.5, 1979-05-27T07:32:00Z, [\"n\"], { k = \"v\" }]\n";
    let tree = parse_toml(source).unwrap();
    assert_eq!(
        tree,
        Node::Table(vec![
            field("a", Node::Integer(1)),
            field("s", text("x")),
            field(
                "b",
                Node::Table(vec![field(
                    "c",
                    Node::Array(vec![
                        Node::Boolean(true),
                        Node::Float,
                        Node::Datetime,
                        Node::Array(vec![text("n")]),
                        Node::Table(vec![field("k", text("v"))]),
                    ]),
                )]),
            ),
        ])
    );
}

#[test]
fn the_empty_document_is_the_empty_table() {
    assert_eq!(parse_toml(""), Ok(Node::Table(vec![])));
    assert_eq!(parse_toml("# nothing\n"), Ok(Node::Table(vec![])));
}

#[test]
fn fields_keep_the_order_of_the_document() {
    let tree = parse_toml("z = 1\na = 2\nm = 3\n").unwrap();
    assert_eq!(
        tree,
        Node::Table(vec![
            field("z", Node::Integer(1)),
            field("a", Node::Integer(2)),
            field("m", Node::Integer(3)),
        ])
    );
}

#[test]
fn malformed_text_gives_the_message_of_the_parser() {
    for source in ["a = ", "[a", "a = 1\na = 2", "= 1", "a = \"unterminated"] {
        let message = parse_toml(source).unwrap_err();
        assert!(!message.is_empty(), "{source}");
    }
}

#[test]
fn lookup_finds_the_first_field_of_a_key() {
    let fields = vec![
        field("a", Node::Integer(1)),
        field("b", text("x")),
        field("a", Node::Integer(2)),
    ];
    assert_eq!(lookup(&fields, "a"), Some(&Node::Integer(1)));
    assert_eq!(lookup(&fields, "b"), Some(&text("x")));
    assert_eq!(lookup(&fields, "c"), None);
    assert_eq!(lookup(&fields, ""), None);
    assert_eq!(lookup(&vec![], "a"), None);
}

#[test]
fn lookup_text_wants_a_text() {
    let fields = vec![field("a", Node::Integer(1)), field("b", text("x"))];
    assert_eq!(lookup_text(&fields, "b"), Some("x".to_string()));
    assert_eq!(lookup_text(&fields, "a"), None);
    assert_eq!(lookup_text(&fields, "c"), None);
    assert_eq!(lookup_optional_text(&fields, "b"), Ok(Some("x".to_string())));
    assert_eq!(lookup_optional_text(&fields, "c"), Ok(None));
    assert_eq!(lookup_optional_text(&fields, "a"), Err(()));
}

#[test]
fn collect_texts_wants_every_item_to_be_a_text() {
    assert_eq!(collect_texts(&vec![]), Some(vec![]));
    assert_eq!(
        collect_texts(&vec![text("a"), text(""), text("b")]),
        Some(vec!["a".to_string(), String::new(), "b".to_string()])
    );
    assert_eq!(collect_texts(&vec![text("a"), Node::Boolean(false)]), None);
    assert_eq!(collect_texts(&vec![Node::Array(vec![text("a")])]), None);
}
