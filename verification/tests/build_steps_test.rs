use flint_build::generators::generic::GenericTeraGenerator;
use flint_build::builder::{build_summary, choose_generator, compares_ages, has_declarations, GeneratorChoice};
use flint_build::config::flint::PluginConfig;
use flint_build::discovery::{generated_file_name, is_dart_source_file, is_generated_file};
use flint_build::generators::flint_json::emitter::FlintJsonGenerator;
use flint_build::generators::Generator;
use flint_build::parser::dart_types::ParsedFile;
use flint_build::registry::PluginRegistry;

#[test]
fn dart_sources_and_generated_files() {
    assert!(is_dart_source_file("main.dart"));
    assert!(is_dart_source_file("user.model.dart"));
    assert!(!is_dart_source_file("user.model.g.dart"));
    assert!(!is_dart_source_file("README.md"));
    assert!(!is_dart_source_file(".dart"));
    assert!(is_generated_file("user.model.g.dart"));
    assert!(!is_generated_file("user.model.dart"));
    assert!(!is_generated_file("notes.g.txt"));
    assert_eq!(generated_file_name("user.model.dart"), "user.model.g.dart");
    assert!(is_generated_file(&generated_file_name("main.dart")));
}

#[test]
fn generators_are_chosen_by_name_then_template() {
    let mut registry = PluginRegistry::new();
    registry.register("flint_json", Box::new(FlintJsonGenerator));
    let plain = PluginConfig::default();
    let templated = PluginConfig {
        template_path: Some("t.tera".to_string()),
        ..Default::default()
    };
    assert_eq!(choose_generator(&registry, "flint_json", &plain), GeneratorChoice::Registered);
    assert_eq!(choose_generator(&registry, "describe", &templated), GeneratorChoice::Template);
    assert_eq!(choose_generator(&registry, "describe", &plain), GeneratorChoice::Unknown);
    assert!(registry.get("flint_json").is_some());
    assert!(registry.get("describe").is_none());
}

#[test]
fn build_decisions() {
    assert!(compares_ages(true, false));
    assert!(!compares_ages(true, true));
    assert!(!compares_ages(false, false));
    let empty = ParsedFile { classes: vec![], enums: vec![] };
    assert!(!has_declarations(&empty));
    assert_eq!(build_summary(0), "No annotations found. Nothing to build.");
    assert_eq!(build_summary(12), "Built 12");
}

#[test]
fn test_find_dart_and_generated_files() {
    // The directory walk itself is the application's; the library decides which files count.
    let names = ["main.dart", "user.model.dart", "user.model.g.dart", "README.md"];

    let dart_files: Vec<String> = names
        .iter()
        .filter(|n| is_dart_source_file(n))
        .map(|n| n.to_string())
        .collect();
    assert_eq!(dart_files.len(), 2);
    assert!(dart_files.contains(&"main.dart".to_string()));
    assert!(dart_files.contains(&"user.model.dart".to_string()));
    assert!(!dart_files.contains(&"user.model.g.dart".to_string()));

    let generated_files: Vec<String> = names
        .iter()
        .filter(|n| is_generated_file(n))
        .map(|n| n.to_string())
        .collect();
    assert_eq!(generated_files.len(), 1);
    assert_eq!(generated_files[0], "user.model.g.dart");
}

#[test]
fn registering_again_replaces_and_keeps_others() {
    let mut registry = PluginRegistry::new();
    assert!(registry.get("flint_json").is_none());
    registry.register("flint_json", Box::new(FlintJsonGenerator));
    registry.register("json_serializable", Box::new(FlintJsonGenerator));
    registry.register("flint_json", Box::new(FlintJsonGenerator));
    assert!(registry.get("flint_json").is_some());
    assert!(registry.get("json_serializable").is_some());
    assert!(registry.get("other").is_none());
}

#[test]
fn get_finds_the_last_generator_registered_under_a_name() {
    let mut registry = PluginRegistry::new();
    registry.register("custom", Box::new(GenericTeraGenerator { plugin_name: "first".to_string() }));
    registry.register("flint_json", Box::new(FlintJsonGenerator));
    registry.register("custom", Box::new(GenericTeraGenerator { plugin_name: "second".to_string() }));
    let empty = || ParsedFile { classes: vec![], enums: vec![] };
    let job = registry
        .get("custom")
        .unwrap()
        .generator
        .generate("a.dart", empty(), &PluginConfig::default());
    assert_eq!(job.template_name, "second");
    let job = registry
        .get("flint_json")
        .unwrap()
        .generator
        .generate("a.dart", empty(), &PluginConfig::default());
    assert_eq!(job.template_name, "flint_json");
    assert!(PluginRegistry::new().get("custom").is_none());
}
