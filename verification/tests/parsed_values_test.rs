use flint_build::config::build_yaml::{options_from_document, JsonSerializableOptions};
use flint_build::config::flint::FlintConfig;
use flint_build::config::project::combine;
use flint_build::config::pubspec::Pubspec;
use flint_build::config::yaml::YamlNode;
use flint_build::error::{FlintError, ParseError};
use flint_build::parser::dart_file::{check_syntax, classes_from_matches, enums_from_matches};
use flint_build::parser::syntax::{Capture, SyntaxNode};

fn text(s: &str) -> YamlNode {
    YamlNode::Text(s.to_string())
}

fn mapping(entries: Vec<(&str, YamlNode)>) -> YamlNode {
    YamlNode::Mapping(entries.into_iter().map(|(k, v)| (text(k), v)).collect())
}

fn node(kind: &str, text: &str, start: usize, row: usize, column: usize, children: Vec<SyntaxNode>) -> SyntaxNode {
    let has_error = children.iter().any(|c| c.has_error || c.is_error || c.is_missing);
    SyntaxNode {
        kind: kind.to_string(),
        text: text.to_string(),
        start_byte: start,
        end_byte: start + text.len(),
        row,
        column,
        is_error: false,
        is_missing: false,
        has_error,
        children,
    }
}

fn capture(name: &str, node: SyntaxNode) -> Capture {
    Capture { name: name.to_string(), node }
}

#[test]
fn build_yaml_document_with_options() {
    let doc = mapping(vec![(
        "targets",
        mapping(vec![(
            "$default",
            mapping(vec![(
                "builders",
                mapping(vec![(
                    "json_serializable",
                    mapping(vec![(
                        "options",
                        mapping(vec![
                            ("field_rename", text("snake")),
                            ("any_map", YamlNode::Bool(true)),
                            ("explicit_to_json", YamlNode::Bool(true)),
                        ]),
                    )]),
                )]),
            )]),
        )]),
    )]);
    let options = options_from_document(&doc).unwrap().unwrap();
    assert_eq!(
        options,
        JsonSerializableOptions {
            enabled: true,
            field_rename: Some("snake".to_string()),
            explicit_to_json: Some(true),
            create_factory: None,
            create_to_json: None,
            include_if_null: None,
            unsupported: vec!["any_map".to_string()],
        }
    );
}

#[test]
fn build_yaml_document_without_builder_or_with_wrong_shape() {
    assert_eq!(options_from_document(&YamlNode::Null).unwrap(), None);
    let doc = mapping(vec![("targets", text("oops"))]);
    assert!(options_from_document(&doc).is_err());
    let bad_bool = mapping(vec![(
        "targets",
        mapping(vec![(
            "$default",
            mapping(vec![(
                "builders",
                mapping(vec![(
                    "json_serializable",
                    mapping(vec![("options", mapping(vec![("create_factory", text("maybe"))]))]),
                )]),
            )]),
        )]),
    )]);
    let err = options_from_document(&bad_bool).unwrap_err();
    assert_eq!(err.message, "build.yaml: json_serializable option 'create_factory' must be true or false");
}

#[test]
fn pubspec_document() {
    let doc = mapping(vec![
        ("name", text("app")),
        ("dev_dependencies", mapping(vec![("json_serializable", text("^6.0.0"))])),
    ]);
    let pubspec = Pubspec::from_document(&doc).unwrap();
    assert_eq!(pubspec.name, "app");
    assert!(pubspec.depends_on("json_serializable"));
    assert!(!pubspec.depends_on("json_annotation"));

    let err = Pubspec::from_document(&text("just text")).unwrap_err();
    assert_eq!(err.message, "Failed to parse pubspec.yaml format");
    assert_eq!(err.detail.as_deref(), Some("pubspec.yaml: expected a mapping with a string `name`"));
}

#[test]
fn flint_document() {
    let doc = mapping(vec![("plugins", mapping(vec![("flint_json", YamlNode::Null)]))]);
    let config = FlintConfig::from_document(&doc).unwrap();
    let plugins = config.plugins.unwrap();
    let flint_json = plugins.get("flint_json").unwrap();
    assert_eq!(flint_json.class_annotations, vec!["@JsonSerializable".to_string()]);
    assert_eq!(flint_json.field_annotations, vec!["@JsonKey".to_string()]);

    assert!(FlintConfig::from_document(&YamlNode::Null).unwrap().plugins.is_none());
    let err = FlintConfig::from_document(&mapping(vec![("plugins", text("x"))])).unwrap_err();
    assert_eq!(err.message, "flint.yaml: expected a mapping with an optional 'plugins' mapping");
}

fn pubspec_with(json_serializable: bool) -> Pubspec {
    Pubspec {
        name: "app".to_string(),
        dependencies: None,
        dev_dependencies: if json_serializable { Some(vec!["json_serializable".to_string()]) } else { None },
    }
}

#[test]
fn combining_parsed_configs() {
    let config = combine(None, None, &pubspec_with(true)).unwrap();
    assert_eq!(
        config.notes,
        vec!["No flint.yaml found; enabling flint_json because pubspec.yaml depends on json_serializable.".to_string()]
    );
    assert!(config.flint.plugins.unwrap().contains_key("flint_json"));

    let err = combine(None, None, &pubspec_with(false)).unwrap_err();
    assert_eq!(
        err.message,
        "No flint.yaml found, and this project doesn't use json_serializable. Create a flint.yaml to configure your plugins."
    );

    let options = JsonSerializableOptions {
        enabled: true,
        field_rename: Some("kebab".to_string()),
        explicit_to_json: None,
        create_factory: None,
        create_to_json: None,
        include_if_null: None,
        unsupported: vec!["any_map".to_string()],
    };
    let config = combine(None, Some(options), &pubspec_with(false)).unwrap();
    assert_eq!(
        config.notes,
        vec![
            "No flint.yaml found; enabling flint_json because json_serializable is configured in build.yaml.".to_string(),
            "Using json_serializable options from build.yaml: field_rename.".to_string(),
        ]
    );
    assert_eq!(
        config.warnings,
        vec!["build.yaml: json_serializable option 'any_map' is not supported by Flint and was ignored.".to_string()]
    );
    let plugins = config.flint.plugins.unwrap();
    assert_eq!(plugins.get("flint_json").unwrap().field_rename.as_deref(), Some("kebab"));
}

#[test]
fn syntax_error_is_reported_at_the_first_error_node() {
    let content = "class A {\n    x y z\n}";
    let mut bad = node("ERROR", "y", 16, 1, 6, vec![]);
    bad.is_error = true;
    let body = node("class_body", "{\n    x y z\n}", 8, 0, 8, vec![bad]);
    let root = node("program", content, 0, 0, 0, vec![body]);
    match check_syntax("a.dart", content, &root) {
        Some(ParseError::Syntax(FlintError::Syntax { file, line, column, source_line, pointer })) => {
            assert_eq!(file, "a.dart");
            assert_eq!(line, 2);
            assert_eq!(column, 7);
            assert_eq!(source_line, "    x y z");
            assert_eq!(pointer, "      ^");
        },
        other => panic!("expected a syntax error, got {:?}", other),
    }
    let clean = node("program", "class A {}", 0, 0, 0, vec![]);
    assert!(check_syntax("a.dart", "class A {}", &clean).is_none());
}

#[test]
fn classes_and_enums_from_query_matches() {
    let class_decl = node("class_definition", "class User {}", 20, 1, 0, vec![]);
    let first = vec![
        capture("annotation_name", node("identifier", "JsonSerializable", 1, 0, 1, vec![])),
        capture("class_name", node("identifier", "User", 26, 1, 6, vec![])),
        capture("class_decl", class_decl),
    ];
    let repeated = vec![
        capture("class_name", node("identifier", "User", 26, 1, 6, vec![])),
        capture("class_decl", node("class_definition", "class User {}", 20, 1, 0, vec![])),
    ];
    let classes = classes_from_matches(&vec![first, repeated]);
    assert_eq!(classes.len(), 1);
    assert_eq!(classes[0].name, "User");
    assert!(classes[0].metadata.contains_key("JsonSerializable"));
    assert!(classes[0].fields.is_empty());

    let no_body = vec![capture("enum_name", node("identifier", "Status", 5, 0, 5, vec![]))];
    assert!(enums_from_matches(&vec![no_body]).is_empty());
}
