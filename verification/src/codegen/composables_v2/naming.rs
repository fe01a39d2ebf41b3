//! Naming helpers for the composables generator.
use vstd::prelude::*;
use vstd::string::*;
use crate::codegen::naming::{pascal_case, pascal_case_spec};
use crate::codegen::structs_naming::{type_stem_for_resource, type_stem_spec};
use crate::state::ResourceState;
use crate::text::owned;

verus! {

/// Singular type stem honouring `singular_override` (`users` -> `User`).
pub fn singular_pascal(resource: &ResourceState) -> (r: String)
    ensures
        r@ == type_stem_spec(*resource),
{
    type_stem_for_resource(resource)
}

/// Plural PascalCase stem from the (already plural) table name
/// (`user_accounts` -> `UserAccounts`).
pub fn plural_pascal(table: &str) -> (r: String)
    ensures
        r@ == pascal_case_spec(table@),
{
    pascal_case(table)
}

/// Bus event prefix: the table name.
pub fn bus_prefix(table: &str) -> (r: String)
    ensures
        r@ == table@,
{
    owned(table)
}

/// Emitted file stem: the table name.
pub fn file_stem(table: &str) -> (r: String)
    ensures
        r@ == table@,
{
    owned(table)
}

} // verus!
