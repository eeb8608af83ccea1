//! The decisions a build makes for each plugin and each file.
use vstd::prelude::*;

use crate::config::flint::PluginConfig;
use crate::parser::dart_types::ParsedFile;
use crate::registry::PluginRegistry;
use crate::text::{concat, decimal, decimal_string};

verus! {

broadcast use vstd::string::group_string_axioms;

/// Which generator runs a plugin.
#[derive(Debug, PartialEq, Eq, Structural)]
pub enum GeneratorChoice {
    /// The generator registered under the plugin's name.
    Registered,
    /// The generic generator with the plugin's own template.
    Template,
    /// None: the plugin is unknown and names no template.
    Unknown,
}

/// The registered generator when there is one; else the generic generator when the plugin
/// names a template; else none.
pub fn choose_generator(registry: &PluginRegistry, plugin_name: &str, plugin: &PluginConfig) -> (r: GeneratorChoice)
    ensures
        r == if registry@.contains_key(plugin_name@) {
            GeneratorChoice::Registered
        } else if plugin.template_path is Some {
            GeneratorChoice::Template
        } else {
            GeneratorChoice::Unknown
        },
{
    match registry.get(plugin_name) {
        Some(_) => GeneratorChoice::Registered,
        None => if plugin.template_path.is_some() {
            GeneratorChoice::Template
        } else {
            GeneratorChoice::Unknown
        },
    }
}

/// Whether an existing output's age decides if a file is skipped: only when the output
/// exists and conflicting outputs are kept.
pub fn compares_ages(output_exists: bool, delete_conflicting_outputs: bool) -> (r: bool)
    ensures
        r == (output_exists && !delete_conflicting_outputs),
{
    output_exists && !delete_conflicting_outputs
}

/// Whether a parsed file gives anything to generate: a class or an enum.
pub fn has_declarations(parsed_file: &ParsedFile) -> (r: bool)
    ensures
        r == (parsed_file.classes@.len() > 0 || parsed_file.enums@.len() > 0),
{
    parsed_file.classes.len() > 0 || parsed_file.enums.len() > 0
}

/// The message that ends a build that generated `total` files.
pub open spec fn summary_text(total: nat) -> Seq<char> {
    if total == 0 {
        "No annotations found. Nothing to build."@
    } else {
        "Built "@ + decimal(total)
    }
}

/// The message that ends a build that generated `total` files (see `summary_text`).
pub fn build_summary(total: usize) -> (r: String)
    ensures
        r@ == summary_text(total as nat),
{
    if total == 0 {
        "No annotations found. Nothing to build.".to_string()
    } else {
        concat("Built ", decimal_string(total).as_str())
    }
}

} // verus!
