use flint_build::config::flint::FieldRename;
use flint_build::config::flint::PluginConfig;
use flint_build::generators::flint_json::emitter::extract_field_name;
use flint_build::parser::dart_types::{DartField, DartType, Metadata, TypeKind};

#[test]
fn test_extract_field_name_casing() {
    let make_field = |name: &str| DartField {
        name: name.to_string(),
        dart_type: DartType {
            kind: TypeKind::String,
            is_nullable: false,
        },
        is_final: true,
        from_json_expr: None,
        to_json_expr: None,
        metadata: Metadata::new(),
        converter: None,
    };

    let mut field = make_field("myCamelCaseField");
    let mut config = PluginConfig {
        class_annotations: vec![],
        enum_annotations: vec![],
        field_annotations: vec![],
        variant_annotations: vec![],
        field_rename: Some("snake_case".to_string()),
        converters: None,
        template_path: None,
        ..Default::default()
    };
    assert_eq!(
        extract_field_name(&mut field, &config),
        "my_camel_case_field"
    );

    field = make_field("myCamelCaseField");
    config.field_rename = Some("screaming_snake".to_string());
    assert_eq!(
        extract_field_name(&mut field, &config),
        "MY_CAMEL_CASE_FIELD"
    );

    field = make_field("myCamelCaseField");
    config.field_rename = Some("kebab".to_string());
    assert_eq!(
        extract_field_name(&mut field, &config),
        "my-camel-case-field"
    );

    field = make_field("myCamelCaseField");
    config.field_rename = Some("pascal".to_string());
    assert_eq!(extract_field_name(&mut field, &config), "MyCamelCaseField");

    field = make_field("myCamelCaseField");
    config.field_rename = Some("pascal_case".to_string());
    assert_eq!(extract_field_name(&mut field, &config), "MyCamelCaseField");

    field = make_field("myCamelCaseField");
    config.field_rename = Some("camel".to_string());
    assert_eq!(extract_field_name(&mut field, &config), "myCamelCaseField");

    field = make_field("myCamelCaseField");
    config.field_rename = Some("camel_case".to_string());
    assert_eq!(extract_field_name(&mut field, &config), "myCamelCaseField");

    field = make_field("myCamelCaseField");
    config.field_rename = Some("screaming_kebab".to_string());
    assert_eq!(
        extract_field_name(&mut field, &config),
        "MY-CAMEL-CASE-FIELD"
    );

    field = make_field("myCamelCaseField");
    config.field_rename = Some("screaming_kebab_case".to_string());
    assert_eq!(
        extract_field_name(&mut field, &config),
        "MY-CAMEL-CASE-FIELD"
    );

    field = make_field("myCamelCaseField");
    config.field_rename = Some("lower_camel".to_string());
    assert_eq!(extract_field_name(&mut field, &config), "myCamelCaseField");

    field = make_field("myCamelCaseField");
    config.field_rename = Some("lower_camel_case".to_string());
    assert_eq!(extract_field_name(&mut field, &config), "myCamelCaseField");

    field = make_field("myCamelCaseField");
    field
        .metadata
        .insert("name".to_string(), "\"explicitName\"".to_string());
    config.field_rename = Some("snake".to_string());
    assert_eq!(extract_field_name(&mut field, &config), "explicitName");
}

#[test]
fn camel_renames_like_field_rename_apply() {
    let make_field = |name: &str| DartField {
        name: name.to_string(),
        dart_type: DartType { kind: TypeKind::String, is_nullable: false },
        is_final: true,
        from_json_expr: None,
        to_json_expr: None,
        metadata: Metadata::new(),
        converter: None,
    };
    for value in ["none", "snake", "kebab", "pascal", "camel", "lower_camel", "screaming_snake"] {
        let mut field = make_field("user_id");
        let config = PluginConfig { field_rename: Some(value.to_string()), ..Default::default() };
        let expected = FieldRename::parse_name(value).unwrap().apply("user_id");
        assert_eq!(extract_field_name(&mut field, &config), expected);
    }
    let mut field = make_field("user_id");
    let config = PluginConfig { field_rename: Some("camel".to_string()), ..Default::default() };
    assert_eq!(extract_field_name(&mut field, &config), "userId");
}
