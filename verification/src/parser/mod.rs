pub mod dart_file;
pub mod dart_types;
pub mod syntax;
pub mod type_laws;
