//! Admin CRUD menu component.
use vstd::prelude::*;
use crate::codegen::flows::file_pairs;
use crate::codegen::leptos_admin::render::{collect_entries, entries_spec, menu_spec, render_admin_crud_menu};
use crate::codegen::pipeline::{at_level, resources_at_level};
use crate::state::{GenLevel, ResourceState};
use crate::text::owned;

verus! {

/// Files a generator run wrote and files it left unchanged.
pub struct EmitReport {
    pub written: Vec<String>,
    pub skipped: Vec<String>,
}

impl EmitReport {
    pub fn new() -> (r: Self)
        ensures
            r.written@.len() == 0,
            r.skipped@.len() == 0,
    {
        EmitReport { written: Vec::new(), skipped: Vec::new() }
    }
}


pub const ADMIN_BARREL: &'static str = "pub mod admin_crud_menu;\n\npub use admin_crud_menu::AdminCrudMenu;\n";

/// The files of `views/components/generated/admin/`: the CRUD menu over
/// the resources generated to pages, and its barrel.
pub open spec fn plan_spec(rs: Seq<ResourceState>) -> Seq<(Seq<char>, Seq<char>)> {
    seq![
        ("admin_crud_menu.rs"@, menu_spec(entries_spec(at_level(rs, GenLevel::Pages)))),
        ("mod.rs"@, ADMIN_BARREL@),
    ]
}

/// The files the admin menu pass writes, bodies without markers.
pub fn plan_files(resources: Vec<ResourceState>) -> (r: Vec<(String, String)>)
    ensures
        file_pairs(r@) == plan_spec(resources@),
{
    let kept = resources_at_level(resources, GenLevel::Pages);
    let entries = collect_entries(kept.as_slice());
    let menu = render_admin_crud_menu(entries.as_slice());
    let mut out: Vec<(String, String)> = Vec::new();
    out.push((owned("admin_crud_menu.rs"), menu));
    out.push((owned("mod.rs"), owned(ADMIN_BARREL)));
    assert(file_pairs(out@) =~= plan_spec(resources@));
    out
}

} // verus!
