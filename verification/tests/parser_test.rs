use flint_build::error::ParseError;
use flint_build::parser::dart_file::{extract_classes, extract_enums, parse_dart_type, parse_source};
use flint_build::parser::dart_types::TypeKind;

#[test]
fn test_extract_classes() {
    let code = r#"
            @JsonSerializable()
            class ApiResponse<T, U> {
                final T data;
                @MyConverter()
                final DateTime date;
            }
        "#;
    let classes = extract_classes(code).unwrap();

    assert_eq!(classes.len(), 1);
    let class = &classes[0];
    assert_eq!(class.name, "ApiResponse");
    assert_eq!(class.type_parameters, vec!["T", "U"]);
    assert_eq!(class.fields.len(), 2);

    assert_eq!(class.fields[0].name, "data");
    assert_eq!(
        class.fields[0].dart_type.kind,
        TypeKind::Custom("T".to_string())
    );

    assert_eq!(class.fields[1].name, "date");
    assert_eq!(class.fields[1].dart_type.kind, TypeKind::DateTime);
    assert!(class.fields[1].metadata.contains_key("MyConverter"));
}

#[test]
fn test_extract_enums() {
    let code = r#"
            @JsonEnum()
            enum UserStatus {
                pending,
                @JsonValue("active_status")
                active,
                suspended,
            }
        "#;
    let enums = extract_enums(code).unwrap();

    assert_eq!(enums.len(), 1);
    let status = &enums[0];
    assert_eq!(status.name, "UserStatus");
    assert_eq!(status.annotations, vec!["JsonEnum".to_string()]);
    assert_eq!(status.values.len(), 3);

    assert_eq!(status.values[0].name, "pending");
    assert_eq!(status.values[0].value, None);

    assert_eq!(status.values[1].name, "active");
    assert_eq!(status.values[1].value, Some("active_status".to_string()));

    assert_eq!(status.values[2].name, "suspended");
    assert_eq!(status.values[2].value, None);
}

#[test]
fn annotation_arguments_become_metadata() {
    let code = r#"
@JsonSerializable(explicitToJson: true)
class User {
  @JsonKey(name: 'user_id', defaultValue: 0)
  final int? id;
  final List<String>? tags;
}
"#;
    let parsed = parse_source("user.dart", code).unwrap();
    assert_eq!(parsed.classes.len(), 1);
    let class = &parsed.classes[0];
    assert_eq!(class.metadata.get("JsonSerializable").map(|s| s.as_str()), Some(""));
    assert_eq!(class.metadata.get("explicitToJson").map(|s| s.as_str()), Some("true"));
    let id = &class.fields[0];
    assert_eq!(id.name, "id");
    assert!(id.dart_type.is_nullable);
    assert_eq!(id.dart_type.kind, TypeKind::Int);
    assert_eq!(id.metadata.get("name").map(|s| s.as_str()), Some("'user_id'"));
    assert_eq!(id.metadata.get("defaultValue").map(|s| s.as_str()), Some("0"));
    assert!(id.is_final);
    let tags = &class.fields[1];
    assert_eq!(tags.dart_type.to_string(), "List<String>?");
}

#[test]
fn syntax_errors_point_at_the_first_error() {
    let code = "class User {\n  final int id\n}\n";
    match parse_source("lib/user.dart", code) {
        Err(ParseError::Syntax(e)) => {
            let message = ParseError::Syntax(e).to_string();
            assert!(message.starts_with("Syntax Error in lib/user.dart at line "));
            assert!(message.ends_with("^\n"));
        }
        other => panic!("expected a syntax error, got {:?}", other.map(|p| p.classes.len())),
    }
}

#[test]
fn parse_dart_type_reads_written_types() {
    let t = parse_dart_type("Map<String, int?>", true);
    assert_eq!(t.to_string(), "Map<String, int?>?");
    let t = parse_dart_type(" List<DateTime> ", false);
    assert_eq!(t.to_string(), "List<DateTime>");
    assert_eq!(parse_dart_type("MyClass", false).kind, TypeKind::Custom("MyClass".to_string()));
}

#[test]
fn each_class_declaration_is_read_once() {
    let code = "@JsonSerializable()\nclass A {\n  final int x;\n}\n\n@JsonSerializable()\nclass B<T> {\n  final T y;\n}\n";
    let classes = extract_classes(code).unwrap();
    let names: Vec<&str> = classes.iter().map(|c| c.name.as_str()).collect();
    assert_eq!(names, vec!["A", "B"]);
}

#[test]
fn test_parse() {
    let code = r#"
        @JsonSerializable()
        class ApiResponse<T, U> {
            final T data;
            @MyConverter()
            final DateTime date;
        }
    "#;
    let mut parser = tree_sitter::Parser::new();
    parser.set_language(&tree_sitter_dart::LANGUAGE.into()).unwrap();
    let tree = parser.parse(code, None).unwrap();
    println!("{}", tree.root_node().to_sexp());
    assert!(!tree.root_node().has_error());
    assert!(parse_source("test.dart", code).is_ok());
}
