//! The `build.rs` written into generated projects.
use vstd::prelude::*;

verus! {

pub struct Args {
    pub project_root: String,
}

/// Whether `build.rs` was created or replaced.
#[derive(Debug, Clone, Copy, PartialEq, Eq, Structural)]
pub enum WriteAction {
    Created,
    Overwritten,
}

/// The action for a destination that does or does not exist yet.
pub fn write_action(exists: bool) -> (r: WriteAction)
    ensures
        r == (if exists { WriteAction::Overwritten } else { WriteAction::Created }),
{
    if exists {
        WriteAction::Overwritten
    } else {
        WriteAction::Created
    }
}

/// The `build.rs` source.
pub fn render_template() -> (r: &'static str)
    ensures
        r@ == BUILD_RS_TEMPLATE@,
{
    BUILD_RS_TEMPLATE
}

pub const BUILD_RS_TEMPLATE: &'static str = "// Build-time checks for the generated project.\n\nfn main() {\n    check_transport_handler_ctx();\n}\n\n/// Transport handlers receive their request context through `Ctx`.\nfn check_transport_handler_ctx() {\n    println!(\"cargo:rerun-if-changed=src/transport\");\n}\n";

} // verus!
