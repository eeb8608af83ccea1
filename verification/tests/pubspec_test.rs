use flint_build::config::pubspec::Pubspec;

#[test]
fn test_parse_valid_pubspec() {
    let yaml = r#"
            name: flint_example
            version: 1.0.0
        "#;
    let pubspec = Pubspec::from_str(yaml).unwrap();
    assert_eq!(pubspec.name, "flint_example");
    assert!(!pubspec.depends_on("json_serializable"));
}

#[test]
fn test_depends_on() {
    let yaml = r#"
            name: app
            dependencies:
              json_annotation: ^4.9.0
            dev_dependencies:
              json_serializable:
                path: ../json_serializable
        "#;
    let pubspec = Pubspec::from_str(yaml).unwrap();
    assert!(pubspec.depends_on("json_annotation"));
    assert!(pubspec.depends_on("json_serializable"));
    assert!(!pubspec.depends_on("build_runner"));

    let empty_sections =
        Pubspec::from_str("name: app\ndependencies:\ndev_dependencies:\n").unwrap();
    assert!(!empty_sections.depends_on("json_serializable"));
}

#[test]
fn test_parse_invalid_pubspec() {
    let yaml = r#"
            name: [unclosed_brackets
        "#;
    assert!(Pubspec::from_str(yaml).is_err());
}

#[test]
fn pubspec_without_a_name_is_an_error() {
    let error = Pubspec::from_str("version: 1.0.0\n").unwrap_err();
    assert_eq!(error.to_string(), "Failed to parse pubspec.yaml format");
    assert!(Pubspec::from_str("").is_err());
}
