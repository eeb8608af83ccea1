use flint_build::config::flint::PluginConfig;
use flint_build::config::pubspec::Pubspec;
use flint_build::config::{resolve, ProjectConfig};

const BUILD_YAML: &str = r#"
        targets:
          $default:
            builders:
              json_serializable:
                options:
                  field_rename: snake
                  explicit_to_json: true
                  any_map: true
    "#;

fn pubspec(with_json_serializable: bool) -> Pubspec {
    let deps = if with_json_serializable {
        "dev_dependencies:\n  json_serializable: ^6.0.0\n"
    } else {
        ""
    };
    Pubspec::from_str(&format!("name: app\n{deps}")).unwrap()
}

fn flint_json(config: &ProjectConfig) -> &PluginConfig {
    config.flint.plugins.as_ref().unwrap().get("flint_json").unwrap()
}

#[test]
fn test_no_config_files_uses_pubspec_dependency() {
    let config = resolve(None, None, &pubspec(true)).unwrap();
    assert_eq!(
        flint_json(&config).class_annotations,
        vec!["@JsonSerializable".to_string()]
    );
    assert!(config.notes[0].contains("pubspec.yaml"));

    assert!(resolve(None, None, &pubspec(false)).is_err());
}

#[test]
fn test_build_yaml_alone_enables_and_configures_flint_json() {
    let config = resolve(None, Some(BUILD_YAML), &pubspec(false)).unwrap();
    let plugin = flint_json(&config);
    assert_eq!(plugin.field_rename, Some("snake".to_string()));
    assert_eq!(plugin.explicit_to_json, Some(true));
    assert_eq!(config.notes.len(), 2);
    assert_eq!(config.warnings.len(), 1);
    assert!(config.warnings[0].contains("any_map"));
}

#[test]
fn test_build_yaml_disabled_builder_is_respected() {
    let build_yaml = r#"
            targets:
              $default:
                builders:
                  json_serializable:
                    enabled: false
        "#;
    let error = resolve(None, Some(build_yaml), &pubspec(true)).unwrap_err();
    assert!(error.to_string().contains("disabled in build.yaml"));
}

#[test]
fn test_flint_yaml_overrides_build_yaml() {
    let flint_yaml = "plugins:\n  flint_json:\n    field_rename: kebab\n";
    let config = resolve(Some(flint_yaml), Some(BUILD_YAML), &pubspec(true)).unwrap();
    let plugin = flint_json(&config);
    assert_eq!(plugin.field_rename, Some("kebab".to_string()));
    assert_eq!(plugin.explicit_to_json, Some(true));
    assert_eq!(
        config.notes,
        vec!["Using json_serializable options from build.yaml: explicit_to_json.".to_string()]
    );
}

#[test]
fn test_flint_yaml_without_flint_json_ignores_build_yaml() {
    let flint_yaml = "plugins:\n  custom:\n    template_path: t.tera\n";
    let config = resolve(Some(flint_yaml), Some(BUILD_YAML), &pubspec(true)).unwrap();
    assert!(
        !config
            .flint
            .plugins
            .as_ref()
            .unwrap()
            .contains_key("flint_json")
    );
    assert!(config.notes.is_empty() && config.warnings.is_empty());
}

#[test]
fn test_invalid_build_yaml_is_an_error() {
    assert!(resolve(None, Some("targets: [oops"), &pubspec(true)).is_err());
}

#[test]
fn resolve_messages_are_exact() {
    let config = resolve(None, Some(BUILD_YAML), &pubspec(false)).unwrap();
    assert_eq!(
        config.notes,
        vec![
            "No flint.yaml found; enabling flint_json because json_serializable is configured in build.yaml.".to_string(),
            "Using json_serializable options from build.yaml: field_rename, explicit_to_json.".to_string(),
        ]
    );
    assert_eq!(
        config.warnings,
        vec!["build.yaml: json_serializable option 'any_map' is not supported by Flint and was ignored.".to_string()]
    );
    let error = resolve(None, None, &pubspec(false)).unwrap_err();
    assert_eq!(
        error.to_string(),
        "No flint.yaml found, and this project doesn't use json_serializable. Create a flint.yaml to configure your plugins."
    );
    let error = resolve(Some("plugins: 3\n"), None, &pubspec(true)).unwrap_err();
    assert_eq!(error.to_string(), "Failed to parse flint.yaml");
    assert!(error.detail.is_some());
    let error = resolve(None, Some("targets: [oops"), &pubspec(true)).unwrap_err();
    assert_eq!(error.to_string(), "Failed to parse build.yaml");
}
