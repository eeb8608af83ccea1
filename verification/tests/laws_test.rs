use flint_build::config::pubspec::Pubspec;
use flint_build::config::resolve;
use flint_build::generators::flint_json::emitter::generate_full_file;
use flint_build::generators::flint_json::emitter::generate_to_json_expression;
use flint_build::parser::dart_types::ParsedFile;
use flint_build::config::build_yaml::JsonSerializableOptions;
use flint_build::config::flint::{FlintConfig, PluginConfig};
use flint_build::generators::flint_json::emitter::apply_plugin_defaults;
use flint_build::named_map::NamedMap;
use flint_build::parser::dart_file::parse_dart_type;
use flint_build::parser::dart_types::{DartClass, DartField, DartType, Metadata, TypeKind};

#[test]
fn plugin_defaults_twice_are_defaults_once() {
    let mut metadata = Metadata::new();
    metadata.insert("JsonSerializable".to_string(), String::new());
    metadata.insert("createFactory".to_string(), "true".to_string());
    let mut class = DartClass {
        name: "User".to_string(),
        fields: vec![DartField {
            name: "nick".to_string(),
            dart_type: DartType { kind: TypeKind::String, is_nullable: true },
            is_final: true,
            from_json_expr: None,
            to_json_expr: None,
            metadata: Metadata::new(),
            converter: None,
        }],
        metadata,
        type_parameters: vec![],
    };
    let plugin = PluginConfig {
        explicit_to_json: Some(true),
        create_factory: Some(false),
        include_if_null: Some(false),
        ..Default::default()
    };
    apply_plugin_defaults(&mut class, &plugin);
    let once: Vec<(String, String)> = (0..class.metadata.len())
        .map(|i| {
            let (k, v) = class.metadata.entry(i);
            (k.clone(), v.clone())
        })
        .collect();
    apply_plugin_defaults(&mut class, &plugin);
    let twice: Vec<(String, String)> = (0..class.metadata.len())
        .map(|i| {
            let (k, v) = class.metadata.entry(i);
            (k.clone(), v.clone())
        })
        .collect();
    assert_eq!(once, twice);
    assert_eq!(class.metadata.get("createFactory").map(|s| s.as_str()), Some("true"));
    assert_eq!(class.metadata.get("explicitToJson").map(|s| s.as_str()), Some("true"));
    assert_eq!(
        class.fields[0].metadata.get("includeIfNull").map(|s| s.as_str()),
        Some("false")
    );
}

#[test]
fn build_yaml_fills_only_what_is_unset() {
    let mut plugin = PluginConfig {
        field_rename: Some("kebab".to_string()),
        ..Default::default()
    };
    let options = JsonSerializableOptions {
        enabled: true,
        field_rename: Some("snake".to_string()),
        explicit_to_json: Some(true),
        create_factory: None,
        create_to_json: None,
        include_if_null: Some(false),
        unsupported: vec![],
    };
    assert_eq!(plugin.apply_build_yaml(&options), vec!["explicit_to_json", "include_if_null"]);
    assert_eq!(plugin.field_rename, Some("kebab".to_string()));
    assert_eq!(plugin.explicit_to_json, Some(true));
    assert!(plugin.apply_build_yaml(&options).is_empty());
}

#[test]
fn builtin_defaults_twice_are_defaults_once() {
    let mut config = FlintConfig::from_str("plugins:\n  flint_json:\n    enum_annotations: [\"@Only\"]\n").unwrap();
    config.apply_builtin_defaults();
    let plugins: &NamedMap<PluginConfig> = config.plugins.as_ref().unwrap();
    let plugin = plugins.get("flint_json").unwrap();
    assert_eq!(plugin.enum_annotations, vec!["@Only".to_string()]);
    assert_eq!(plugin.class_annotations, vec!["@JsonSerializable".to_string()]);
}

#[test]
fn written_types_read_back() {
    for text in ["String", "int?", "List<DateTime?>", "Map<String, List<int>>?", "MyClass"] {
        let nullable = text.ends_with('?');
        let t = parse_dart_type(text.trim_end_matches('?'), nullable);
        assert_eq!(t.to_string(), text);
    }
}

#[test]
fn unannotated_declarations_do_not_change_the_job() {
    let class = |name: &str, annotation: &str| {
        let mut metadata = Metadata::new();
        metadata.insert(annotation.to_string(), String::new());
        DartClass {
            name: name.to_string(),
            fields: vec![DartField {
                name: "id".to_string(),
                dart_type: DartType { kind: TypeKind::Int, is_nullable: false },
                is_final: true,
                from_json_expr: None,
                to_json_expr: None,
                metadata: Metadata::new(),
                converter: None,
            }],
            metadata,
            type_parameters: vec![],
        }
    };
    let plugin = PluginConfig {
        class_annotations: vec!["@JsonSerializable".to_string()],
        ..Default::default()
    };
    let full = ParsedFile {
        classes: vec![class("Helper", "Other"), class("User", "JsonSerializable")],
        enums: vec![],
    };
    let annotated = ParsedFile { classes: vec![class("User", "JsonSerializable")], enums: vec![] };
    let a = generate_full_file("user.dart", full, &plugin);
    let b = generate_full_file("user.dart", annotated, &plugin);
    assert_eq!(a.parsed_file.classes.len(), 1);
    assert_eq!(a.parsed_file.classes[0].name, b.parsed_file.classes[0].name);
    assert_eq!(
        a.parsed_file.classes[0].fields[0].from_json_expr,
        b.parsed_file.classes[0].fields[0].from_json_expr
    );
    assert_eq!(
        a.parsed_file.classes[0].fields[0].to_json_expr,
        b.parsed_file.classes[0].fields[0].to_json_expr
    );
}

#[test]
fn explicit_to_json_only_matters_for_nested_classes() {
    let enums = vec!["Status".to_string()];
    let tps = vec!["T".to_string()];
    let t = |kind: TypeKind| DartType { kind, is_nullable: true };
    let basics = || vec![TypeKind::String, TypeKind::Int, TypeKind::Double, TypeKind::Bool];
    for kind in basics() {
        assert_eq!(generate_to_json_expression(&t(kind), "instance.a", true, &enums, &tps), "instance.a");
    }
    for kind in basics() {
        assert_eq!(generate_to_json_expression(&t(kind), "instance.a", false, &enums, &tps), "instance.a");
    }
    let list_of_status = t(TypeKind::List(Box::new(t(TypeKind::Custom("Status".to_string())))));
    assert_eq!(
        generate_to_json_expression(&list_of_status, "instance.a", true, &enums, &tps),
        generate_to_json_expression(&list_of_status, "instance.a", false, &enums, &tps)
    );
    let address = t(TypeKind::Custom("Address".to_string()));
    assert_ne!(
        generate_to_json_expression(&address, "instance.a", true, &enums, &tps),
        generate_to_json_expression(&address, "instance.a", false, &enums, &tps)
    );
}

#[test]
fn resolve_fails_exactly_when_nothing_enables_a_build() {
    let pubspec = |json: bool| Pubspec {
        name: "app".to_string(),
        dependencies: if json { Some(vec!["json_serializable".to_string()]) } else { None },
        dev_dependencies: None,
    };
    let disabled = "targets:\n  $default:\n    builders:\n      json_serializable:\n        enabled: false\n";
    assert!(resolve(None, None, &pubspec(false)).is_err());
    assert!(resolve(None, None, &pubspec(true)).is_ok());
    assert!(resolve(None, Some(disabled), &pubspec(true)).is_err());
    assert!(resolve(None, Some("targets: [oops"), &pubspec(true)).is_err());
    assert!(resolve(Some("plugins: [oops"), None, &pubspec(true)).is_err());
    assert!(resolve(Some("plugins:\n  custom:\n"), Some(disabled), &pubspec(false)).is_ok());
}
