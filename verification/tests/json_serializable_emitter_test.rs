use flint_build::generators::json_serializable::emitter::{
    generate_from_json_expression, generate_full_file, generate_to_json_expression,
};
use flint_build::generators::TemplateSource;
use flint_build::parser::dart_types::{DartClass, DartField, DartType, Metadata, TypeKind};

#[test]
fn nested_classes_call_to_json() {
    let t = DartType {
        kind: TypeKind::Custom("Address".to_string()),
        is_nullable: true,
    };
    assert_eq!(generate_to_json_expression(&t, "instance.a"), "instance.a?.toJson()");
    assert_eq!(
        generate_from_json_expression(&t, "json['a']"),
        "json['a'] == null ? null : Address.fromJson(json['a'] as Map<String, dynamic>)"
    );
}

#[test]
fn fields_use_their_name_metadata_as_written() {
    let mut metadata = Metadata::new();
    metadata.insert("name".to_string(), "'user_id'".to_string());
    let field = DartField {
        name: "id".to_string(),
        dart_type: DartType { kind: TypeKind::Int, is_nullable: false },
        is_final: true,
        from_json_expr: None,
        to_json_expr: None,
        metadata,
        converter: None,
    };
    let class = DartClass {
        name: "User".to_string(),
        fields: vec![field],
        metadata: Metadata::new(),
        type_parameters: vec![],
    };
    let job = generate_full_file("user.dart", vec![class]);
    assert_eq!(job.template_name, "json_serializable");
    assert!(matches!(&job.source, Some(TemplateSource::File(p)) if p == "src/templates/json_serializable.tera"));
    let f = &job.parsed_file.classes[0].fields[0];
    assert_eq!(f.from_json_expr.as_deref(), Some("(json[''user_id''] as num).toInt()"));
    assert_eq!(f.to_json_expr.as_deref(), Some("instance.id"));
}
