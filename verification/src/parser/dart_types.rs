//! The parsed model of a Dart source file.
use vstd::prelude::*;

pub use crate::named_map::Metadata;

verus! {

broadcast use vstd::string::group_string_axioms;

/// The kind of a Dart type that the generators know about.
#[derive(Debug, PartialEq)]
pub enum TypeKind {
    String,
    Int,
    Double,
    Bool,
    DateTime,
    List(Box<DartType>),
    MapType(Box<DartType>, Box<DartType>),
    Custom(String),
}

/// A Dart type and whether it is nullable.
#[derive(Debug, PartialEq)]
pub struct DartType {
    pub kind: TypeKind,
    pub is_nullable: bool,
}

/// A field of a Dart class, with the JSON expressions a generator fills in.
#[derive(Debug)]
pub struct DartField {
    pub name: String,
    pub dart_type: DartType,
    pub is_final: bool,
    pub from_json_expr: Option<String>,
    pub to_json_expr: Option<String>,
    pub metadata: Metadata,
    pub converter: Option<String>,
}

/// A Dart class: its fields, its annotations and named annotation arguments, and its type
/// parameters.
#[derive(Debug)]
pub struct DartClass {
    pub name: String,
    pub fields: Vec<DartField>,
    pub metadata: Metadata,
    pub type_parameters: Vec<String>,
}

/// One constant of a Dart enum and its `@JsonValue` value, if any.
#[derive(Debug)]
pub struct DartEnumValue {
    pub name: String,
    pub value: Option<String>,
}

/// A Dart enum with its annotation names and constants.
#[derive(Debug)]
pub struct DartEnum {
    pub name: String,
    pub annotations: Vec<String>,
    pub values: Vec<DartEnumValue>,
}

/// The classes and enums of one Dart file.
#[derive(Debug)]
pub struct ParsedFile {
    pub classes: Vec<DartClass>,
    pub enums: Vec<DartEnum>,
}

/// The mathematical value of a `TypeKind`.
pub enum TypeKindView {
    String,
    Int,
    Double,
    Bool,
    DateTime,
    List(Box<DartTypeView>),
    MapType(Box<DartTypeView>, Box<DartTypeView>),
    Custom(Seq<char>),
}

/// The mathematical value of a `DartType`.
pub struct DartTypeView {
    pub kind: TypeKindView,
    pub is_nullable: bool,
}

pub open spec fn type_view(t: DartType) -> DartTypeView
    decreases t,
{
    DartTypeView { kind: kind_view(t.kind), is_nullable: t.is_nullable }
}

pub open spec fn kind_view(k: TypeKind) -> TypeKindView
    decreases k,
{
    match k {
        TypeKind::String => TypeKindView::String,
        TypeKind::Int => TypeKindView::Int,
        TypeKind::Double => TypeKindView::Double,
        TypeKind::Bool => TypeKindView::Bool,
        TypeKind::DateTime => TypeKindView::DateTime,
        TypeKind::List(inner) => TypeKindView::List(Box::new(type_view(*inner))),
        TypeKind::MapType(k, v) => TypeKindView::MapType(Box::new(type_view(*k)), Box::new(type_view(*v))),
        TypeKind::Custom(name) => TypeKindView::Custom(name@),
    }
}

impl View for DartType {
    type V = DartTypeView;

    open spec fn view(&self) -> DartTypeView {
        type_view(*self)
    }
}

/// How a type is written in Dart source: `List<String?>`, `Map<String, int>?`, `MyClass`.
pub open spec fn type_text(t: DartTypeView) -> Seq<char>
    decreases t,
{
    kind_text(t.kind) + if t.is_nullable { seq!['?'] } else { Seq::empty() }
}

pub open spec fn kind_text(k: TypeKindView) -> Seq<char>
    decreases k,
{
    match k {
        TypeKindView::String => seq!['S', 't', 'r', 'i', 'n', 'g'],
        TypeKindView::Int => seq!['i', 'n', 't'],
        TypeKindView::Double => seq!['d', 'o', 'u', 'b', 'l', 'e'],
        TypeKindView::Bool => seq!['b', 'o', 'o', 'l'],
        TypeKindView::DateTime => seq!['D', 'a', 't', 'e', 'T', 'i', 'm', 'e'],
        TypeKindView::List(inner) => seq!['L', 'i', 's', 't', '<'] + type_text(*inner) + seq!['>'],
        TypeKindView::MapType(k, v) => seq!['M', 'a', 'p', '<'] + type_text(*k) + seq![',', ' ']
            + type_text(*v) + seq!['>'],
        TypeKindView::Custom(name) => name,
    }
}

impl DartType {
    /// The Dart source text of this type, as `Display` writes it.
    pub fn to_string(&self) -> (r: String)
        ensures
            r@ == type_text(self@),
        decreases self,
    {
        let mut r = self.kind.to_string();
        if self.is_nullable {
            proof { reveal_strlit("?"); }
            r.append("?");
        }
        proof {
            assert(r@ == type_text(self@));
        }
        r
    }
}

impl TypeKind {
    /// The Dart source text of this kind (without a nullability mark).
    pub fn to_string(&self) -> (r: String)
        ensures
            r@ == kind_text(kind_view(*self)),
        decreases self,
    {
        match self {
            TypeKind::String => {
                proof { reveal_strlit("String"); }
                "String".to_string()
            },
            TypeKind::Int => {
                proof { reveal_strlit("int"); }
                "int".to_string()
            },
            TypeKind::Double => {
                proof { reveal_strlit("double"); }
                "double".to_string()
            },
            TypeKind::Bool => {
                proof { reveal_strlit("bool"); }
                "bool".to_string()
            },
            TypeKind::DateTime => {
                proof { reveal_strlit("DateTime"); }
                "DateTime".to_string()
            },
            TypeKind::List(inner) => {
                proof { reveal_strlit("List<"); reveal_strlit(">"); }
                let mut r = "List<".to_string();
                let i = inner.to_string();
                r.append(i.as_str());
                r.append(">");
                r
            },
            TypeKind::MapType(k, v) => {
                proof { reveal_strlit("Map<"); reveal_strlit(", "); reveal_strlit(">"); }
                let mut r = "Map<".to_string();
                let ks = k.to_string();
                let vs = v.to_string();
                r.append(ks.as_str());
                r.append(", ");
                r.append(vs.as_str());
                r.append(">");
                r
            },
            TypeKind::Custom(name) => name.clone(),
        }
    }
}

} // verus!
