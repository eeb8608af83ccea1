//! Word-case conversions of identifiers, done by the `heck` crate.
use vstd::prelude::*;

use heck::{
    ToKebabCase, ToLowerCamelCase, ToShoutyKebabCase, ToShoutySnakeCase, ToSnakeCase,
    ToUpperCamelCase,
};

verus! {

/// What `heck::ToSnakeCase::to_snake_case` returns for a text: `myFieldName` → `my_field_name`.
pub uninterp spec fn snake_case(s: Seq<char>) -> Seq<char>;

/// What `heck::ToShoutySnakeCase::to_shouty_snake_case` returns: `myFieldName` → `MY_FIELD_NAME`.
pub uninterp spec fn shouty_snake_case(s: Seq<char>) -> Seq<char>;

/// What `heck::ToKebabCase::to_kebab_case` returns: `myFieldName` → `my-field-name`.
pub uninterp spec fn kebab_case(s: Seq<char>) -> Seq<char>;

/// What `heck::ToShoutyKebabCase::to_shouty_kebab_case` returns: `myFieldName` → `MY-FIELD-NAME`.
pub uninterp spec fn shouty_kebab_case(s: Seq<char>) -> Seq<char>;

/// What `heck::ToUpperCamelCase::to_upper_camel_case` returns (`to_pascal_case` delegates to
/// it): `myFieldName` → `MyFieldName`.
pub uninterp spec fn upper_camel_case(s: Seq<char>) -> Seq<char>;

/// What `heck::ToLowerCamelCase::to_lower_camel_case` returns: `user_id` → `userId`.
pub uninterp spec fn lower_camel_case(s: Seq<char>) -> Seq<char>;

/// Calls `heck`'s `to_snake_case`; the result is `snake_case` of the input, a function of
/// the input alone (heck's word-splitting rules are not restated here).
#[verifier::external_body]
pub(crate) fn to_snake_case(s: &str) -> (r: String)
    ensures
        r@ == snake_case(s@),
{
    s.to_snake_case()
}

/// Calls `heck`'s `to_shouty_snake_case`; the result is `shouty_snake_case` of the input.
#[verifier::external_body]
pub(crate) fn to_shouty_snake_case(s: &str) -> (r: String)
    ensures
        r@ == shouty_snake_case(s@),
{
    s.to_shouty_snake_case()
}

/// Calls `heck`'s `to_kebab_case`; the result is `kebab_case` of the input.
#[verifier::external_body]
pub(crate) fn to_kebab_case(s: &str) -> (r: String)
    ensures
        r@ == kebab_case(s@),
{
    s.to_kebab_case()
}

/// Calls `heck`'s `to_shouty_kebab_case`; the result is `shouty_kebab_case` of the input.
#[verifier::external_body]
pub(crate) fn to_shouty_kebab_case(s: &str) -> (r: String)
    ensures
        r@ == shouty_kebab_case(s@),
{
    s.to_shouty_kebab_case()
}

/// Calls `heck`'s `to_upper_camel_case` (what `to_pascal_case` calls); the result is
/// `upper_camel_case` of the input.
#[verifier::external_body]
pub(crate) fn to_upper_camel_case(s: &str) -> (r: String)
    ensures
        r@ == upper_camel_case(s@),
{
    s.to_upper_camel_case()
}

/// Calls `heck`'s `to_lower_camel_case`; the result is `lower_camel_case` of the input.
#[verifier::external_body]
pub(crate) fn to_lower_camel_case(s: &str) -> (r: String)
    ensures
        r@ == lower_camel_case(s@),
{
    s.to_lower_camel_case()
}

} // verus!
