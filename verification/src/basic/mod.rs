//! The basic model of Dart classes: each field with a plain type and a nullability flag,
//! read from the source text of its declaration, and `fromJson` / `toJson` code written
//! directly from it.
pub mod dart_file;
pub mod dart_types;
pub mod json_code;
