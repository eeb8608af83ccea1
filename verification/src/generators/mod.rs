pub mod flint_json;
pub mod generic;
pub mod interface;
pub mod json_serializable;
pub mod selection;

pub use interface::{Generator, RenderJob, TemplateSource};
