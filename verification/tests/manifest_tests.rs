use cproject::document::Node;
use cproject::error::Error;
use cproject::manifest::{Manifest, VariableSpec};

const FULL: &str = r#"
description = "A C++ application"
unknown = 3

[variables.license]
prompt = "License"
default = "MIT"

[variables.author]
prompt = "Author"

[hooks.post_create]
commands = ["git init", "echo {{name}}"]
"#;

#[test]
fn parse_reads_every_section() {
    let manifest = Manifest::parse(FULL).unwrap();
    assert_eq!(manifest.description, "A C++ application");
    assert_eq!(
        manifest.variables,
        vec![
            VariableSpec {
                key: "license".to_string(),
                prompt: "License".to_string(),
                default: Some("MIT".to_string()),
            },
            VariableSpec { key: "author".to_string(), prompt: "Author".to_string(), default: None },
        ]
    );
    assert_eq!(manifest.hooks, vec!["git init".to_string(), "echo {{name}}".to_string()]);
}

#[test]
fn variables_keep_the_order_of_the_file() {
    let text = "description = \"d\"\n[variables]\nzeta = { prompt = \"z\" }\nalpha = { prompt = \"a\" }\nmid = { prompt = \"m\" }\n";
    let manifest = Manifest::parse(text).unwrap();
    let keys: Vec<&str> = manifest.variables.iter().map(|v| v.key.as_str()).collect();
    assert_eq!(keys, vec!["zeta", "alpha", "mid"]);
}

#[test]
fn only_the_description_is_required() {
    let manifest = Manifest::parse("description = \"\"").unwrap();
    assert_eq!(manifest.description, "");
    assert!(manifest.variables.is_empty());
    assert!(manifest.hooks.is_empty());
}

#[test]
fn empty_sections_are_accepted() {
    let manifest = Manifest::parse("description = \"d\"\n[variables]\n[hooks]\n").unwrap();
    assert!(manifest.variables.is_empty());
    assert!(manifest.hooks.is_empty());
    let manifest = Manifest::parse("description = \"d\"\n[hooks.post_create]\n").unwrap();
    assert!(manifest.hooks.is_empty());
}

#[test]
fn the_hooks_group_may_be_spelled_with_a_hyphen() {
    let text = "description = \"d\"\n[hooks.post-create]\ncommands = [\"make\"]\n";
    assert_eq!(Manifest::parse(text).unwrap().hooks, vec!["make".to_string()]);
    let both = "description = \"d\"\n[hooks.post-create]\ncommands = [\"b\"]\n[hooks.post_create]\ncommands = [\"a\"]\n";
    assert_eq!(Manifest::parse(both).unwrap().hooks, vec!["a".to_string()]);
}

#[test]
fn malformed_toml_is_invalid() {
    for text in ["description = ", "[variables", "description = \"a\"\ndescription = \"b\""] {
        assert!(matches!(Manifest::parse(text), Err(Error::ManifestInvalid { .. })), "{text}");
    }
}

#[test]
fn a_missing_description_is_invalid() {
    assert!(matches!(Manifest::parse(""), Err(Error::ManifestInvalid { .. })));
    assert!(matches!(Manifest::parse("[variables]\n"), Err(Error::ManifestInvalid { .. })));
}

#[test]
fn fields_of_the_wrong_type_are_invalid() {
    let cases = [
        "description = 3",
        "description = \"d\"\nvariables = \"x\"",
        "description = \"d\"\n[variables]\nx = \"prompt\"",
        "description = \"d\"\n[variables.x]\ndefault = \"d\"",
        "description = \"d\"\n[variables.x]\nprompt = 1",
        "description = \"d\"\n[variables.x]\nprompt = \"p\"\ndefault = 1",
        "description = \"d\"\nhooks = []",
        "description = \"d\"\n[hooks]\npost_create = 1",
        "description = \"d\"\n[hooks.post_create]\ncommands = \"make\"",
        "description = \"d\"\n[hooks.post_create]\ncommands = [\"make\", 2]",
        "description = \"d\"\n[hooks.post_create]\ncommands = [1.5]",
        "description = \"d\"\n[hooks.post_create]\ncommands = [1979-05-27]",
        "description = \"d\"\n[hooks.post_create]\ncommands = [true]",
    ];
    for text in cases {
        assert!(matches!(Manifest::parse(text), Err(Error::ManifestInvalid { .. })), "{text}");
    }
}

#[test]
fn from_document_reads_a_tree_built_by_hand() {
    let document = Node::Table(vec![
        ("description".to_string(), Node::Text("d".to_string())),
        (
            "variables".to_string(),
            Node::Table(vec![(
                "k".to_string(),
                Node::Table(vec![
                    ("prompt".to_string(), Node::Text("p".to_string())),
                    ("extra".to_string(), Node::Integer(1)),
                ]),
            )]),
        ),
        (
            "hooks".to_string(),
            Node::Table(vec![(
                "post_create".to_string(),
                Node::Table(vec![(
                    "commands".to_string(),
                    Node::Array(vec![Node::Text("a".to_string())]),
                )]),
            )]),
        ),
    ]);
    let manifest = Manifest::from_document(&document).unwrap();
    assert_eq!(manifest.description, "d");
    assert_eq!(
        manifest.variables,
        vec![VariableSpec { key: "k".to_string(), prompt: "p".to_string(), default: None }]
    );
    assert_eq!(manifest.hooks, vec!["a".to_string()]);
}

#[test]
fn from_document_rejects_what_is_no_table() {
    for document in [
        Node::Text("description".to_string()),
        Node::Array(vec![]),
        Node::Integer(1),
        Node::Boolean(true),
        Node::Float,
        Node::Datetime,
    ] {
        assert!(matches!(Manifest::from_document(&document), Err(Error::ManifestInvalid { .. })));
    }
}

#[test]
fn the_first_field_of_a_key_counts() {
    let document = Node::Table(vec![
        ("description".to_string(), Node::Text("first".to_string())),
        ("description".to_string(), Node::Integer(2)),
    ]);
    assert_eq!(Manifest::from_document(&document).unwrap().description, "first");
}

#[test]
fn an_invalid_manifest_says_what_is_wrong() {
    let error = Manifest::from_document(&Node::Integer(1)).unwrap_err();
    assert_eq!(error, Error::ManifestInvalid { reason: "the document is not a table".to_string() });
    let error = Manifest::parse("title = \"x\"").unwrap_err();
    assert_eq!(
        error.message(),
        "Failed to parse archetype.toml: missing field `description`, or it is no text"
    );
}
