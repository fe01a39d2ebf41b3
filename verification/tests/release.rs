use blast::error::BlastError;
use blast::release::{
    build_failed, check_release_inputs, package_tar_args, release_archive_name, service_unit_path, tar_failed,
    BUILD_COMMAND,
};

#[test]
fn archive_name_has_project_and_timestamp() {
    assert_eq!(release_archive_name("shop", "20240102030405"), "release-shop-20240102030405.tar.gz");
}

#[test]
fn tar_args_include_optional_files() {
    assert_eq!(
        package_tar_args("/p/release.tar.gz", "shop", false, false),
        vec!["-czf", "/p/release.tar.gz", "target/release/shop", "target/site"]
    );
    assert_eq!(
        package_tar_args("a.tgz", "shop", true, true),
        vec!["-czf", "a.tgz", "target/release/shop", "target/site", ".env.example", "deploy/systemd/shop.service"]
    );
    assert_eq!(service_unit_path("shop"), "deploy/systemd/shop.service");
}

#[test]
fn missing_binary_reported_first() {
    match check_release_inputs(false, "/p/target/release/shop", false, "/p/target/site") {
        Err(BlastError::NotFound(m)) => {
            assert_eq!(m, "release binary not found at /p/target/release/shop; run `blast build` first")
        }
        other => panic!("unexpected: {other:?}"),
    }
    match check_release_inputs(true, "b", false, "/p/target/site") {
        Err(BlastError::NotFound(m)) => assert_eq!(
            m,
            "WASM bundle not found at /p/target/site; run `blast build` first (cargo leptos build --release)"
        ),
        other => panic!("unexpected: {other:?}"),
    }
    assert!(check_release_inputs(true, "b", true, "s").is_ok());
}

#[test]
fn subprocess_failures() {
    match build_failed() {
        BlastError::Subprocess { cmd, detail } => {
            assert_eq!(cmd, BUILD_COMMAND);
            assert_eq!(cmd, "cargo leptos build --release --precompress");
            assert_eq!(detail, "cargo leptos exited with non-zero status");
        }
        other => panic!("unexpected: {other:?}"),
    }
    match tar_failed() {
        BlastError::Subprocess { cmd, detail } => {
            assert_eq!(cmd, "tar");
            assert_eq!(detail, "tar exited with non-zero status");
        }
        other => panic!("unexpected: {other:?}"),
    }
}
