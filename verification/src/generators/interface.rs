//! What a generator hands over to be rendered.
use vstd::prelude::*;

use crate::config::flint::PluginConfig;
use crate::parser::dart_types::ParsedFile;

verus! {

/// Which template renders a generator's output.
#[derive(Debug)]
pub enum TemplateSource {
    /// The template that ships with the named built-in generator.
    BuiltIn(String),
    /// A template file, by path.
    File(String),
}

/// A template to render, and the context it is rendered with: `filename`, `classes`, `enums`.
#[derive(Debug)]
pub struct RenderJob {
    /// The name the template is registered under.
    pub template_name: String,
    /// Where the template comes from; `None` when there is none to load.
    pub source: Option<TemplateSource>,
    pub filename: String,
    pub parsed_file: ParsedFile,
}

/// The template source of a generator with a built-in template: the plugin's template file
/// when it names one, else the built-in template `builtin`.
pub open spec fn builtin_or_file(source: Option<TemplateSource>, template_path: Option<String>, builtin: Seq<char>) -> bool {
    match template_path {
        Some(p) => source matches Some(TemplateSource::File(f)) && f@ == p@,
        None => source matches Some(TemplateSource::BuiltIn(n)) && n@ == builtin,
    }
}

/// The template source of a generator without a built-in template: the plugin's template
/// file, or none.
pub open spec fn file_if_any(source: Option<TemplateSource>, template_path: Option<String>) -> bool {
    match template_path {
        Some(p) => source matches Some(TemplateSource::File(f)) && f@ == p@,
        None => source is None,
    }
}

/// A code generator: selects and prepares the declarations of one source file and names the
/// template that renders them.
pub trait Generator: Send + Sync {
    fn generate(&self, filename: &str, parsed_file: ParsedFile, plugin: &PluginConfig) -> RenderJob;
}

} // verus!
