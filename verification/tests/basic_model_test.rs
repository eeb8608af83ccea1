use flint_build::basic::dart_file::{parse_dart_type, parse_field, parse_source};
use flint_build::basic::dart_types::{DartClass, DartField, DartType};
use flint_build::basic::json_code::generate_json_code;

#[test]
fn basic_fields_are_read_from_declaration_text() {
    let f = parse_field("final String? name;").unwrap();
    assert_eq!(f.name, "name");
    assert_eq!(f.dart_type, DartType::String);
    assert!(f.is_nullable);
    assert!(f.is_final);

    let f = parse_field("int count;").unwrap();
    assert_eq!(f.name, "count");
    assert_eq!(f.dart_type, DartType::Int);
    assert!(!f.is_nullable);
    assert!(!f.is_final);

    assert!(parse_field("int").is_none());
    assert!(parse_field("static final int a = 1;").is_none());
    assert_eq!(parse_dart_type("Address??"), DartType::Custom("Address".to_string()));
}

#[test]
fn basic_type_text() {
    let t = DartType::MapType(
        Box::new(DartType::String),
        Box::new(DartType::List(Box::new(DartType::DateTime))),
    );
    assert_eq!(t.to_string(), "Map<String, List<DateTime>>");
}

#[test]
fn basic_json_code() {
    let class = DartClass {
        name: "User".to_string(),
        fields: vec![
            DartField {
                name: "id".to_string(),
                dart_type: DartType::Int,
                is_nullable: false,
                is_final: true,
            },
            DartField {
                name: "nick".to_string(),
                dart_type: DartType::String,
                is_nullable: true,
                is_final: true,
            },
        ],
    };
    let expected = "User _$UserFromJson(Map<String, dynamic> json) => User(\n      id: json['id'] as int,\n      nick: json['nick'] as String?,\n    );\n\nMap<String, dynamic> _$UserToJson(User instance) => <String, dynamic>{\n      'id': instance.id,\n      'nick': instance.nick,\n    };\n";
    assert_eq!(generate_json_code(&class), expected);
}

#[test]
fn basic_parse_keeps_marked_classes() {
    let code = "@JsonSerializable()\nclass User {\n  final String name;\n  int? age;\n}\n\n@immutable\nclass Other {\n  final int x;\n}\n";
    let classes = parse_source(code).unwrap();
    assert_eq!(classes.len(), 1);
    assert_eq!(classes[0].name, "User");
    assert_eq!(classes[0].fields.len(), 2);
    assert_eq!(classes[0].fields[1].name, "age");
    assert!(classes[0].fields[1].is_nullable);
}
