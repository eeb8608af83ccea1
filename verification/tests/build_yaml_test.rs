use flint_build::config::build_yaml::{parse, JsonSerializableOptions};

#[test]
fn test_parse_supported_options() {
    let yaml = r#"
            targets:
              $default:
                builders:
                  json_serializable:
                    options:
                      field_rename: screamingSnake
                      explicit_to_json: true
                      create_factory: false
                      create_to_json: true
                      include_if_null: false
                      generic_argument_factories: true
        "#;
    let options = parse(yaml).unwrap().unwrap();
    assert_eq!(
        options,
        JsonSerializableOptions {
            enabled: true,
            field_rename: Some("screaming_snake".to_string()),
            explicit_to_json: Some(true),
            create_factory: Some(false),
            create_to_json: Some(true),
            include_if_null: Some(false),
            unsupported: vec![],
        }
    );
}

#[test]
fn test_parse_fully_qualified_builder_key_and_enabled() {
    let yaml = r#"
            targets:
              $default:
                builders:
                  json_serializable:json_serializable:
                    enabled: false
        "#;
    let options = parse(yaml).unwrap().unwrap();
    assert!(!options.enabled);
    assert_eq!(options.field_rename, None);
}

#[test]
fn test_parse_builder_without_options() {
    let yaml = r#"
            targets:
              $default:
                builders:
                  json_serializable:
        "#;
    let options = parse(yaml).unwrap().unwrap();
    assert!(options.enabled);
    assert!(options.unsupported.is_empty());
}

#[test]
fn test_parse_without_json_serializable() {
    assert_eq!(parse("").unwrap(), None);
    assert_eq!(parse("targets:\n").unwrap(), None);
    let yaml = r#"
            targets:
              $default:
                builders:
                  freezed:
                    options:
                      copy_with: false
        "#;
    assert_eq!(parse(yaml).unwrap(), None);
}

#[test]
fn test_parse_reports_unsupported_options_only_when_set() {
    let yaml = r#"
            targets:
              $default:
                builders:
                  json_serializable:
                    options:
                      any_map: true
                      checked: false
                      constructor: ""
                      disallow_unrecognized_keys: true
        "#;
    let options = parse(yaml).unwrap().unwrap();
    assert_eq!(
        options.unsupported,
        vec![
            "any_map".to_string(),
            "disallow_unrecognized_keys".to_string()
        ]
    );
}

#[test]
fn test_parse_rejects_invalid_values() {
    let wrong_type = r#"
            targets:
              $default:
                builders:
                  json_serializable:
                    options:
                      explicit_to_json: "yes"
        "#;
    assert!(parse(wrong_type).is_err());

    let unknown_rename = r#"
            targets:
              $default:
                builders:
                  json_serializable:
                    options:
                      field_rename: camel
        "#;
    assert!(parse(unknown_rename).is_err());
}

#[test]
fn unsupported_options_come_sorted_by_name() {
    let yaml = "targets:\n  $default:\n    builders:\n      json_serializable:\n        options:\n          zeta: 1\n          alpha: yes\n          mid: [1]\n          beta: false\n";
    let options = parse(yaml).unwrap().unwrap();
    assert_eq!(
        options.unsupported,
        vec!["alpha".to_string(), "mid".to_string(), "zeta".to_string()]
    );
}

#[test]
fn wrong_option_types_name_the_option() {
    let yaml = "targets:\n  $default:\n    builders:\n      json_serializable:\n        options:\n          create_to_json: 3\n";
    let error = parse(yaml).unwrap_err();
    assert_eq!(
        error.to_string(),
        "build.yaml: json_serializable option 'create_to_json' must be true or false"
    );
    let yaml = "targets:\n  $default:\n    builders:\n      json_serializable:\n        options:\n          field_rename: camel\n";
    let error = parse(yaml).unwrap_err();
    assert_eq!(
        error.to_string(),
        "build.yaml: json_serializable option 'field_rename' must be one of none, kebab, snake, pascal, screamingSnake"
    );
}

#[test]
fn field_rename_names_map_to_flint_names() {
    for (given, expected) in [
        ("none", "none"),
        ("kebab", "kebab"),
        ("snake", "snake"),
        ("pascal", "pascal"),
        ("screamingSnake", "screaming_snake"),
    ] {
        let yaml = format!(
            "targets:\n  $default:\n    builders:\n      json_serializable:\n        options:\n          field_rename: {}\n",
            given
        );
        let options = parse(&yaml).unwrap().unwrap();
        assert_eq!(options.field_rename, Some(expected.to_string()));
    }
}

#[test]
fn builder_keys_are_looked_up_in_order() {
    let yaml = "targets:\n  $default:\n    builders:\n      json_serializable|json_serializable:\n        enabled: false\n      json_serializable:\n        options:\n          explicit_to_json: true\n";
    let options = parse(yaml).unwrap().unwrap();
    assert!(options.enabled);
    assert_eq!(options.explicit_to_json, Some(true));
}

#[test]
fn malformed_build_yaml_is_an_error() {
    assert!(parse("targets: [oops").is_err());
    assert!(parse("targets: 3\n").is_err());
    assert!(parse("- a\n- b\n").is_err());
    assert!(parse("targets:\n  other:\n    builders: 4\n").is_err());
}
