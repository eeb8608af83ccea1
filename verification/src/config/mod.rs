pub mod build_yaml;
pub mod flint;
pub mod project;
pub mod pubspec;
pub mod yaml;

pub use project::{resolve, ProjectConfig};
