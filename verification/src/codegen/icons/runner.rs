//! Icon map generation.
use vstd::prelude::*;

verus! {

/// The file a generator run wrote, if any.
pub struct EmitReport {
    pub written: Option<String>,
}

} // verus!
