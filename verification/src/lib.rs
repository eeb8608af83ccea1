use vstd::prelude::*;

pub mod basic;
pub mod builder;
pub mod casing;
pub mod config;
pub mod discovery;
pub mod error;
pub mod generators;
pub mod laws;
pub mod named_map;
pub mod parser;
pub mod registry;
pub mod text;

verus! {

} // verus!
