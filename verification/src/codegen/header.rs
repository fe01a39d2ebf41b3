//! The headers that open generated files: which state file a file was
//! generated from, and the hash of that file's contents at the time.
use vstd::prelude::*;
use crate::error::BlastError;
use crate::text::owned;

verus! {

/// The application state file, relative to the project root.
pub const APP_STATE_FILE: &'static str = "storage/blast/state/app.ron";

/// The database schema, relative to the project root.
pub const SCHEMA_FILE: &'static str = "src/database/schema.rs";

/// `// AUTO-GENERATED from <source> @ <hash>`, then a line saying the file
/// is not to be edited, then a blank line.
pub open spec fn marker_spec(source: Seq<char>, hash: Seq<char>) -> Seq<char> {
    "// AUTO-GENERATED from "@ + source + " @ "@ + hash + "\n//\n// Do not edit by hand.\n\n"@
}

/// The state file of one resource, relative to the project root.
pub open spec fn resource_state_file(table: Seq<char>) -> Seq<char> {
    "storage/blast/state/resources/"@ + table + ".ron"@
}

fn marker(source: &str, hash: &str) -> (r: String)
    ensures
        r@ == marker_spec(source@, hash@),
{
    let mut out = owned("// AUTO-GENERATED from ");
    out.append(source);
    out.append(" @ ");
    out.append(hash);
    out.append("\n//\n// Do not edit by hand.\n\n");
    out
}

/// The header of a file generated from a migration's state: enum modules
/// carry no inline header, so it is empty.
pub fn marker_for_state_file(project_root: &str, state_path: &str) -> (r: Result<String, BlastError>)
    ensures
        r matches Ok(s) && s@.len() == 0,
{
    Ok(String::new())
}

/// The header of a file generated from one resource; `hash` is the hash of
/// that resource's state file.
pub fn marker_for_resource(project_root: &str, table: &str, hash: &str) -> (r: Result<String, BlastError>)
    ensures
        r matches Ok(s) && s@ == marker_spec(resource_state_file(table@), hash@),
{
    let mut source = owned("storage/blast/state/resources/");
    source.append(table);
    source.append(".ron");
    Ok(marker(source.as_str(), hash))
}

/// The header of a file generated from the application state; `hash` is the
/// hash of the application state file.
pub fn marker_for_app(project_root: &str, hash: &str) -> (r: Result<String, BlastError>)
    ensures
        r matches Ok(s) && s@ == marker_spec(APP_STATE_FILE@, hash@),
{
    Ok(marker(APP_STATE_FILE, hash))
}

/// The header of a file generated from the database schema; `hash` is the
/// hash of the schema file.
pub fn marker_for_schema(project_root: &str, hash: &str) -> (r: Result<String, BlastError>)
    ensures
        r matches Ok(s) && s@ == marker_spec(SCHEMA_FILE@, hash@),
{
    Ok(marker(SCHEMA_FILE, hash))
}

} // verus!
