//! Decisions behind building a release and packing it into an archive.
use vstd::prelude::*;
use crate::error::BlastError;
use crate::text::owned;

verus! {

/// The release build command, as reported when it fails.
pub const BUILD_COMMAND: &'static str = "cargo leptos build --release --precompress";

/// The error for a release build that exited with a failure status.
pub fn build_failed() -> (r: BlastError)
    ensures
        r matches BlastError::Subprocess { cmd, detail } && cmd@ == BUILD_COMMAND@
            && detail@ == "cargo leptos exited with non-zero status"@,
{
    BlastError::Subprocess { cmd: owned(BUILD_COMMAND), detail: owned("cargo leptos exited with non-zero status") }
}

/// The error for an archiver that exited with a failure status.
pub fn tar_failed() -> (r: BlastError)
    ensures
        r matches BlastError::Subprocess { cmd, detail } && cmd@ == "tar"@ && detail@ == "tar exited with non-zero status"@,
{
    BlastError::Subprocess { cmd: owned("tar"), detail: owned("tar exited with non-zero status") }
}

/// `release-<project>-<timestamp>.tar.gz`.
pub fn release_archive_name(project: &str, timestamp: &str) -> (r: String)
    ensures
        r@ == "release-"@ + project@ + "-"@ + timestamp@ + ".tar.gz"@,
{
    let mut out = owned("release-");
    out.append(project);
    out.append("-");
    out.append(timestamp);
    out.append(".tar.gz");
    out
}

/// The project's systemd unit, relative to the project directory.
pub fn service_unit_path(project: &str) -> (r: String)
    ensures
        r@ == "deploy/systemd/"@ + project@ + ".service"@,
{
    let mut out = owned("deploy/systemd/");
    out.append(project);
    out.append(".service");
    out
}

/// A release can be packed only once both the binary and the WASM bundle
/// exist; the error names the first one missing and where it was looked for.
pub fn check_release_inputs(binary_exists: bool, binary_at: &str, site_exists: bool, site_at: &str) -> (r: Result<
    (),
    BlastError,
>)
    ensures
        match r {
            Ok(()) => binary_exists && site_exists,
            Err(BlastError::NotFound(m)) => if !binary_exists {
                m@ == "release binary not found at "@ + binary_at@ + "; run `blast build` first"@
            } else {
                !site_exists && m@ == "WASM bundle not found at "@ + site_at@
                    + "; run `blast build` first (cargo leptos build --release)"@
            },
            Err(_) => false,
        },
{
    if !binary_exists {
        let mut m = owned("release binary not found at ");
        m.append(binary_at);
        m.append("; run `blast build` first");
        return Err(BlastError::NotFound(m));
    }
    if !site_exists {
        let mut m = owned("WASM bundle not found at ");
        m.append(site_at);
        m.append("; run `blast build` first (cargo leptos build --release)");
        return Err(BlastError::NotFound(m));
    }
    Ok(())
}

pub open spec fn tar_args_spec(archive: Seq<char>, project: Seq<char>, env_example: bool, service: bool) -> Seq<
    Seq<char>,
> {
    seq!["-czf"@, archive, "target/release/"@ + project, "target/site"@]
        + (if env_example { seq![".env.example"@] } else { Seq::empty() })
        + (if service { seq!["deploy/systemd/"@ + project + ".service"@] } else { Seq::empty() })
}

/// The archiver's arguments: the archive, the release binary, the WASM
/// bundle, then `.env.example` and the systemd unit where they exist.
pub fn package_tar_args(archive: &str, project: &str, env_example: bool, service: bool) -> (r: Vec<String>)
    ensures
        crate::text::views(r@) == tar_args_spec(archive@, project@, env_example, service),
{
    let mut out: Vec<String> = Vec::new();
    out.push(owned("-czf"));
    out.push(owned(archive));
    let mut bin = owned("target/release/");
    bin.append(project);
    out.push(bin);
    out.push(owned("target/site"));
    let ghost base = crate::text::views(out@);
    assert(base =~= seq!["-czf"@, archive@, "target/release/"@ + project@, "target/site"@]);
    if env_example {
        out.push(owned(".env.example"));
    }
    let ghost mid = crate::text::views(out@);
    assert(mid =~= base + (if env_example { seq![".env.example"@] } else { Seq::<Seq<char>>::empty() }));
    if service {
        out.push(service_unit_path(project));
    }
    assert(crate::text::views(out@) =~= tar_args_spec(archive@, project@, env_example, service));
    out
}

} // verus!
