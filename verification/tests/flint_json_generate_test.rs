use flint_build::config::flint::PluginConfig;
use flint_build::generators::flint_json::emitter::{
    generate_full_file, generate_from_json_expression, generate_to_json_expression, FlintJsonGenerator,
};
use flint_build::generators::generic::GenericTeraGenerator;
use flint_build::generators::{Generator, TemplateSource};
use flint_build::parser::dart_types::{
    DartClass, DartEnum, DartEnumValue, DartField, DartType, Metadata, ParsedFile, TypeKind,
};

fn metadata(entries: &[(&str, &str)]) -> Metadata {
    let mut m = Metadata::new();
    for (k, v) in entries {
        m.insert(k.to_string(), v.to_string());
    }
    m
}

fn field(name: &str, kind: TypeKind, is_nullable: bool) -> DartField {
    DartField {
        name: name.to_string(),
        dart_type: DartType { kind, is_nullable },
        is_final: true,
        from_json_expr: None,
        to_json_expr: None,
        metadata: Metadata::new(),
        converter: None,
    }
}

fn user_file(class_metadata: &[(&str, &str)], fields: Vec<DartField>) -> ParsedFile {
    let mut m = metadata(&[("JsonSerializable", "")]);
    for (key, value) in class_metadata {
        m.insert(key.to_string(), value.to_string());
    }
    ParsedFile {
        classes: vec![DartClass {
            name: "User".to_string(),
            fields,
            metadata: m,
            type_parameters: vec![],
        }],
        enums: vec![],
    }
}

#[test]
fn test_custom_converters() {
    let field = DartField {
        name: "createdAt".to_string(),
        dart_type: DartType {
            kind: TypeKind::Custom("DateTime".to_string()),
            is_nullable: false,
        },
        is_final: true,
        from_json_expr: None,
        to_json_expr: None,
        metadata: metadata(&[("MyDateTimeConverter", "")]),
        converter: None,
    };
    let class = DartClass {
        name: "User".to_string(),
        fields: vec![field],
        metadata: metadata(&[("JsonSerializable", "")]),
        type_parameters: vec![],
    };
    let parsed_file = ParsedFile {
        classes: vec![class],
        enums: vec![],
    };
    let job = generate_full_file(
        "user.dart",
        parsed_file,
        &PluginConfig {
            class_annotations: vec!["@JsonSerializable".to_string()],
            enum_annotations: vec![],
            field_annotations: vec![],
            variant_annotations: vec![],
            field_rename: None,
            converters: Some(vec!["@MyDateTimeConverter".to_string()]),
            template_path: None,
            ..Default::default()
        },
    );
    let from = job.parsed_file.classes[0].fields[0].from_json_expr.clone().unwrap();
    assert!(from.contains("const MyDateTimeConverter().fromJson"));
}

#[test]
fn test_explicit_to_json() {
    let field = field("address", TypeKind::Custom("Address".to_string()), true);
    let class = DartClass {
        name: "User".to_string(),
        fields: vec![field],
        metadata: metadata(&[("JsonSerializable", ""), ("explicitToJson", "true")]),
        type_parameters: vec![],
    };
    let parsed_file = ParsedFile {
        classes: vec![class],
        enums: vec![],
    };
    let job = generate_full_file(
        "user.dart",
        parsed_file,
        &PluginConfig {
            class_annotations: vec!["@JsonSerializable".to_string()],
            enum_annotations: vec![],
            field_annotations: vec![],
            variant_annotations: vec![],
            field_rename: None,
            converters: None,
            template_path: None,
            ..Default::default()
        },
    );
    let to = job.parsed_file.classes[0].fields[0].to_json_expr.clone().unwrap();
    assert!(to.contains("address?.toJson()"));
}

#[test]
fn test_plugin_defaults_apply_unless_annotation_overrides() {
    let plugin = PluginConfig {
        class_annotations: vec!["@JsonSerializable".to_string()],
        explicit_to_json: Some(true),
        create_factory: Some(false),
        ..Default::default()
    };
    let address = || field("address", TypeKind::Custom("Address".to_string()), false);

    let job = generate_full_file("user.dart", user_file(&[], vec![address()]), &plugin);
    let class = &job.parsed_file.classes[0];
    assert_eq!(
        class.fields[0].to_json_expr.as_deref(),
        Some("instance.address.toJson()")
    );
    assert_eq!(class.metadata.get("createFactory").map(|s| s.as_str()), Some("false"));

    let overridden = user_file(
        &[("explicitToJson", "false"), ("createFactory", "true")],
        vec![address()],
    );
    let job = generate_full_file("user.dart", overridden, &plugin);
    let class = &job.parsed_file.classes[0];
    assert_eq!(class.fields[0].to_json_expr.as_deref(), Some("instance.address"));
    assert_eq!(class.metadata.get("createFactory").map(|s| s.as_str()), Some("true"));
}

#[test]
fn test_include_if_null_default_only_applies_to_nullable_fields() {
    let fields = || {
        vec![
            field("id", TypeKind::Int, false),
            field("nickname", TypeKind::String, true),
        ]
    };
    let base = PluginConfig {
        class_annotations: vec!["@JsonSerializable".to_string()],
        ..Default::default()
    };
    let from_plugin = PluginConfig {
        include_if_null: Some(false),
        ..base.clone()
    };
    let from_class = user_file(&[("includeIfNull", "false")], fields());

    for job in [
        generate_full_file("user.dart", user_file(&[], fields()), &from_plugin),
        generate_full_file("user.dart", from_class, &base),
    ] {
        let class = &job.parsed_file.classes[0];
        assert_eq!(
            class.fields[1].metadata.get("includeIfNull").map(|s| s.as_str()),
            Some("false")
        );
        assert!(!class.fields[0].metadata.contains_key("includeIfNull"));
    }

    let job = generate_full_file("user.dart", user_file(&[], fields()), &base);
    let class = &job.parsed_file.classes[0];
    assert!(!class.fields[0].metadata.contains_key("includeIfNull"));
    assert!(!class.fields[1].metadata.contains_key("includeIfNull"));
}

#[test]
fn only_annotated_declarations_are_generated_in_order() {
    let plain = DartClass {
        name: "Plain".to_string(),
        fields: vec![],
        metadata: metadata(&[("immutable", "")]),
        type_parameters: vec![],
    };
    let first = DartClass {
        name: "First".to_string(),
        fields: vec![],
        metadata: metadata(&[("JsonSerializable", "")]),
        type_parameters: vec![],
    };
    let second = DartClass {
        name: "Second".to_string(),
        fields: vec![],
        metadata: metadata(&[("Other", ""), ("JsonSerializable", "")]),
        type_parameters: vec![],
    };
    let status = DartEnum {
        name: "Status".to_string(),
        annotations: vec!["@@JsonEnum".to_string()],
        values: vec![DartEnumValue { name: "on".to_string(), value: None }],
    };
    let other = DartEnum {
        name: "Other".to_string(),
        annotations: vec!["Plain".to_string()],
        values: vec![],
    };
    let parsed = ParsedFile {
        classes: vec![plain, first, second],
        enums: vec![other, status],
    };
    let plugin = PluginConfig {
        class_annotations: vec!["@JsonSerializable".to_string()],
        enum_annotations: vec!["@JsonEnum".to_string()],
        template_path: Some("t.tera".to_string()),
        ..Default::default()
    };
    let job = FlintJsonGenerator.generate("m.dart", parsed, &plugin);
    let names: Vec<&str> = job.parsed_file.classes.iter().map(|c| c.name.as_str()).collect();
    assert_eq!(names, vec!["First", "Second"]);
    assert_eq!(job.parsed_file.enums.len(), 1);
    assert_eq!(job.parsed_file.enums[0].name, "Status");
    assert_eq!(job.template_name, "flint_json");
    assert_eq!(job.filename, "m.dart");
    assert!(matches!(&job.source, Some(TemplateSource::File(p)) if p == "t.tera"));
}

#[test]
fn built_in_template_without_template_path() {
    let plugin = PluginConfig {
        class_annotations: vec!["@JsonSerializable".to_string()],
        ..Default::default()
    };
    let job = generate_full_file("user.dart", user_file(&[], vec![]), &plugin);
    assert!(matches!(&job.source, Some(TemplateSource::BuiltIn(n)) if n == "flint_json"));
}

#[test]
fn generic_generator_keeps_declarations_as_parsed() {
    let generator = GenericTeraGenerator {
        plugin_name: "describe".to_string(),
    };
    let plugin = PluginConfig {
        class_annotations: vec!["@JsonSerializable".to_string()],
        ..Default::default()
    };
    let job = generator.generate(
        "user.dart",
        user_file(&[], vec![field("id", TypeKind::Int, false)]),
        &plugin,
    );
    assert_eq!(job.template_name, "describe");
    assert!(job.source.is_none());
    assert_eq!(job.parsed_file.classes.len(), 1);
    assert_eq!(job.parsed_file.classes[0].fields[0].from_json_expr, None);
}

#[test]
fn from_json_expressions() {
    let enums = vec!["Status".to_string()];
    let tps = vec!["T".to_string()];
    let t = |kind: TypeKind, is_nullable: bool| DartType { kind, is_nullable };
    assert_eq!(
        generate_from_json_expression(&t(TypeKind::String, true), "json['a']", &enums, &tps),
        "json['a'] as String?"
    );
    assert_eq!(
        generate_from_json_expression(&t(TypeKind::Int, true), "json['a']", &enums, &tps),
        "json['a'] == null ? null : (json['a'] as num).toInt()"
    );
    assert_eq!(
        generate_from_json_expression(
            &t(TypeKind::List(Box::new(t(TypeKind::DateTime, false))), false),
            "json['a']",
            &enums,
            &tps
        ),
        "(json['a'] as List<dynamic>).map((e) => DateTime.parse(e as String)).toList()"
    );
    assert_eq!(
        generate_from_json_expression(&t(TypeKind::Custom("Status".to_string()), false), "v", &enums, &tps),
        "_$StatusEnumMap.entries.firstWhere((e) => e.value == v).key"
    );
    assert_eq!(
        generate_from_json_expression(&t(TypeKind::Custom("T".to_string()), false), "v", &enums, &tps),
        "fromJsonT(v as Object?)"
    );
    assert_eq!(
        generate_from_json_expression(
            &t(
                TypeKind::MapType(
                    Box::new(t(TypeKind::String, false)),
                    Box::new(t(TypeKind::Custom("Address".to_string()), false))
                ),
                false
            ),
            "v",
            &enums,
            &tps
        ),
        "(v as Map<String, dynamic>).map((k, v) => MapEntry(k as String, Address.fromJson(v as Map<String, dynamic>)))"
    );
}

#[test]
fn to_json_expressions() {
    let enums = vec!["Status".to_string()];
    let tps = vec!["T".to_string()];
    let t = |kind: TypeKind, is_nullable: bool| DartType { kind, is_nullable };
    assert_eq!(
        generate_to_json_expression(&t(TypeKind::DateTime, true), "instance.d", false, &enums, &tps),
        "instance.d?.toIso8601String()"
    );
    assert_eq!(
        generate_to_json_expression(&t(TypeKind::Custom("Status".to_string()), false), "x", false, &enums, &tps),
        "_$StatusEnumMap[x]"
    );
    assert_eq!(
        generate_to_json_expression(&t(TypeKind::Custom("T".to_string()), false), "x", false, &enums, &tps),
        "toJsonT(x)"
    );
    assert_eq!(
        generate_to_json_expression(&t(TypeKind::Custom("A".to_string()), false), "x", false, &enums, &tps),
        "x"
    );
    assert_eq!(
        generate_to_json_expression(
            &t(TypeKind::List(Box::new(t(TypeKind::Custom("A".to_string()), false))), true),
            "x",
            true,
            &enums,
            &tps
        ),
        "x?.map((elem) => elem.toJson()).toList()"
    );
}

#[test]
fn test_generic_generator_execution() {
    let class = DartClass {
        name: "MockUser".to_string(),
        fields: vec![],
        metadata: metadata(&[("MockAnnotation", "")]),
        type_parameters: vec![],
    };
    let dart_enum = DartEnum {
        name: "MockEnum".to_string(),
        annotations: vec!["@MockEnumAnnotation".to_string()],
        values: vec![],
    };
    let parsed_file = ParsedFile {
        classes: vec![class],
        enums: vec![dart_enum],
    };
    let config = PluginConfig {
        class_annotations: vec!["@MockAnnotation".to_string()],
        enum_annotations: vec!["@MockEnumAnnotation".to_string()],
        field_annotations: vec![],
        variant_annotations: vec![],
        field_rename: None,
        converters: None,
        template_path: Some("mock_template.tera".to_string()),
        ..Default::default()
    };
    let generator = GenericTeraGenerator {
        plugin_name: "mock_plugin".to_string(),
    };
    let job = generator.generate("mock.dart", parsed_file, &config);
    // The template "Hello {{ classes[0].name }} and {{ enums[0].name }}!" is rendered from
    // this context, which gives "Hello MockUser and MockEnum!".
    assert_eq!(job.template_name, "mock_plugin");
    assert!(matches!(&job.source, Some(TemplateSource::File(p)) if p == "mock_template.tera"));
    assert_eq!(job.filename, "mock.dart");
    assert_eq!(job.parsed_file.classes[0].name, "MockUser");
    assert_eq!(job.parsed_file.enums[0].name, "MockEnum");
}
