//! Dart types, fields and classes of the basic model.
use vstd::prelude::*;

use crate::text::concat;

verus! {

broadcast use vstd::string::group_string_axioms;

/// A Dart type; nullability is the field's.
#[derive(Debug, PartialEq)]
pub enum DartType {
    String,
    Int,
    Double,
    Bool,
    DateTime,
    List(Box<DartType>),
    MapType(Box<DartType>, Box<DartType>),
    Custom(String),
}

/// A field: its name, type, whether `?` marks the type, and whether it is `final`.
#[derive(Debug)]
pub struct DartField {
    pub name: String,
    pub dart_type: DartType,
    pub is_nullable: bool,
    pub is_final: bool,
}

/// A class and its fields.
#[derive(Debug)]
pub struct DartClass {
    pub name: String,
    pub fields: Vec<DartField>,
}

/// The mathematical value of a `DartType`.
pub enum BasicType {
    String,
    Int,
    Double,
    Bool,
    DateTime,
    List(Box<BasicType>),
    MapType(Box<BasicType>, Box<BasicType>),
    Custom(Seq<char>),
}

pub open spec fn basic_type(t: DartType) -> BasicType
    decreases t,
{
    match t {
        DartType::String => BasicType::String,
        DartType::Int => BasicType::Int,
        DartType::Double => BasicType::Double,
        DartType::Bool => BasicType::Bool,
        DartType::DateTime => BasicType::DateTime,
        DartType::List(inner) => BasicType::List(Box::new(basic_type(*inner))),
        DartType::MapType(k, v) => BasicType::MapType(Box::new(basic_type(*k)), Box::new(basic_type(*v))),
        DartType::Custom(name) => BasicType::Custom(name@),
    }
}

impl View for DartType {
    type V = BasicType;

    open spec fn view(&self) -> BasicType {
        basic_type(*self)
    }
}

/// How a type is written in Dart: `List<String>`, `Map<String, int>`, `MyClass`.
pub open spec fn basic_type_text(t: BasicType) -> Seq<char>
    decreases t,
{
    match t {
        BasicType::String => "String"@,
        BasicType::Int => "int"@,
        BasicType::Double => "double"@,
        BasicType::Bool => "bool"@,
        BasicType::DateTime => "DateTime"@,
        BasicType::List(inner) => "List<"@ + basic_type_text(*inner) + ">"@,
        BasicType::MapType(k, v) => "Map<"@ + basic_type_text(*k) + ", "@ + basic_type_text(*v) + ">"@,
        BasicType::Custom(name) => name,
    }
}

impl DartType {
    /// The Dart source text of this type, as `Display` writes it.
    pub fn to_string(&self) -> (r: String)
        ensures
            r@ == basic_type_text(self@),
        decreases self,
    {
        match self {
            DartType::String => "String".to_string(),
            DartType::Int => "int".to_string(),
            DartType::Double => "double".to_string(),
            DartType::Bool => "bool".to_string(),
            DartType::DateTime => "DateTime".to_string(),
            DartType::List(inner) => {
                let a = concat("List<", inner.to_string().as_str());
                concat(a.as_str(), ">")
            },
            DartType::MapType(k, v) => {
                let a = concat("Map<", k.to_string().as_str());
                let b = concat(a.as_str(), ", ");
                let c = concat(b.as_str(), v.to_string().as_str());
                concat(c.as_str(), ">")
            },
            DartType::Custom(name) => name.clone(),
        }
    }
}

} // verus!
