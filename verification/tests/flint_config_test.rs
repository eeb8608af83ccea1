use flint_build::config::flint::{FieldRename, FlintConfig};

#[test]
fn test_parse_valid_flint_config() {
    let yaml = r#"
            plugins:
              flint_json:
                class_annotations: ["@FlintModel"]
                field_annotations: ["@JsonKey"]
                enum_annotations: ["@JsonEnum"]
                variant_annotations: ["@JsonValue"]
                field_rename: "snake_case"
        "#;
    let config = FlintConfig::from_str(yaml).unwrap();
    let plugins = config.plugins.unwrap();

    assert!(plugins.contains_key("flint_json"));
    let plugin = plugins.get("flint_json").unwrap();
    assert_eq!(plugin.class_annotations, vec!["@FlintModel".to_string()]);
    assert_eq!(
        plugin.field_rename.as_deref().map(|s| s.parse::<FieldRename>().unwrap()),
        Some(FieldRename::Snake)
    );
}

#[test]
fn test_parse_simplified_flint_config() {
    let yaml = r#"
            plugins:
              flint_json:
        "#;
    let config = FlintConfig::from_str(yaml).unwrap();
    let plugins = config.plugins.unwrap();

    assert!(plugins.contains_key("flint_json"));
    let plugin = plugins.get("flint_json").unwrap();
    assert_eq!(
        plugin.class_annotations,
        vec!["@JsonSerializable".to_string()]
    );
    assert_eq!(plugin.field_annotations, vec!["@JsonKey".to_string()]);
    assert_eq!(plugin.enum_annotations, vec!["@JsonEnum".to_string()]);
    assert_eq!(plugin.variant_annotations, vec!["@JsonValue".to_string()]);
    assert_eq!(plugin.template_path, None);
}

#[test]
fn test_parse_invalid_flint_config() {
    let yaml = r#"
            plugins:
              flint_json:
                class_annotations: "should_be_a_list_not_a_string"
        "#;
    assert!(FlintConfig::from_str(yaml).is_err());
}

#[test]
fn test_field_rename_strategies() {
    let rename = |strategy: &str, name: &str| strategy.parse::<FieldRename>().unwrap().apply(name);

    assert_eq!(rename("none", "myFieldName"), "myFieldName");
    assert_eq!(rename("camel", "user_id"), "userId");
    assert_eq!(rename("camel_case", "myFieldName"), "myFieldName");
    assert_eq!(rename("lower_camel", "UserId"), "userId");
    assert_eq!(rename("pascal", "myFieldName"), "MyFieldName");
    assert_eq!(rename("snake", "myFieldName"), "my_field_name");
}

#[test]
fn test_unknown_field_rename_is_an_error() {
    let error = "snak".parse::<FieldRename>().unwrap_err().to_string();
    assert!(error.contains("unknown field_rename 'snak'"));

    let yaml = "plugins:\n  flint_json:\n    field_rename: snak\n";
    assert!(FlintConfig::from_str(yaml).is_err());
}
