//! A generator for user plugins: the selected declarations, rendered by the plugin's template.
use vstd::prelude::*;

use crate::config::flint::PluginConfig;
use crate::generators::interface::{file_if_any, Generator, RenderJob, TemplateSource};
use crate::generators::selection::{select_declarations, selects_class, selects_enum};
use crate::parser::dart_types::ParsedFile;
use crate::text::{copy_str, names_of};

verus! {

/// Renders the plugin's own template, registered under the plugin's name.
pub struct GenericTeraGenerator {
    pub plugin_name: String,
}

/// What a user plugin hands to the template engine: its template file under the plugin's
/// name (none when the plugin names no file), the file name, and the selected classes and
/// enums as parsed.
pub open spec fn generic_job(
    plugin_name: Seq<char>,
    filename: Seq<char>,
    parsed_file: ParsedFile,
    plugin: PluginConfig,
    r: RenderJob,
) -> bool {
    &&& r.template_name@ == plugin_name
    &&& file_if_any(r.source, plugin.template_path)
    &&& r.filename@ == filename
    &&& r.parsed_file.classes@ == parsed_file.classes@.filter(selects_class(names_of(plugin.class_annotations@)))
    &&& r.parsed_file.enums@ == parsed_file.enums@.filter(selects_enum(names_of(plugin.enum_annotations@)))
}

impl Generator for GenericTeraGenerator {
    fn generate(&self, filename: &str, parsed_file: ParsedFile, plugin: &PluginConfig) -> (r: RenderJob)
        ensures
            generic_job(self.plugin_name@, filename@, parsed_file, *plugin, r),
    {
        let selected = select_declarations(parsed_file, &plugin.class_annotations, &plugin.enum_annotations);
        let source = match &plugin.template_path {
            Some(path) => Some(TemplateSource::File(copy_str(path.as_str()))),
            None => None,
        };
        RenderJob {
            template_name: copy_str(self.plugin_name.as_str()),
            source,
            filename: copy_str(filename),
            parsed_file: selected,
        }
    }
}

} // verus!
