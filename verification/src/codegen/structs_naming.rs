//! Rust/TS type names derived from a resource.
use vstd::prelude::*;
use vstd::string::*;
use crate::codegen::naming::{pascal_case, pascal_case_spec, singularize, singularize_spec};
use crate::state::ResourceState;

verus! {

/// The singular PascalCase type stem of a resource: the singular override
/// when set, else the singular of the table name (`users` -> `User`).
pub open spec fn type_stem_spec(r: ResourceState) -> Seq<char> {
    match r.singular_override {
        Some(s) => pascal_case_spec(s@),
        None => pascal_case_spec(singularize_spec(r.name@)),
    }
}

pub fn type_stem_for_resource(resource: &ResourceState) -> (r: String)
    ensures
        r@ == type_stem_spec(*resource),
{
    match &resource.singular_override {
        Some(s) => pascal_case(s.as_str()),
        None => {
            let singular = singularize(resource.name.as_str());
            pascal_case(singular.as_str())
        },
    }
}

/// Name of the generated list-filter struct (`UserFilter`).
pub fn filter_struct_name_for_resource(resource: &ResourceState) -> (r: String)
    ensures
        r@ == type_stem_spec(*resource) + "Filter"@,
{
    let mut s = type_stem_for_resource(resource);
    s.append("Filter");
    s
}

} // verus!
