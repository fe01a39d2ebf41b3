use blast::codegen::auth_emitter::runner::{auth_files, barrel_plan, merge_barrel};

const MARKER: &str = "// AUTO-GENERATED from storage/blast/state/app.ron @ abc\n\n";

#[test]
fn auth_files_carry_marker_except_stylesheet() {
    let files = auth_files(false, MARKER);
    assert_eq!(files.len(), 21);
    for (path, body) in &files {
        if path.ends_with(".scss") {
            assert!(!body.starts_with("// AUTO-GENERATED"), "scss must not carry the marker");
        } else {
            assert!(body.starts_with(MARKER), "missing marker in {path}");
        }
    }
    let users = &files.iter().find(|(p, _)| p == "src/structs/generated/users.rs").unwrap().1;
    assert!(users.contains("pub struct User {"));
    assert!(users.contains("pub struct NewUser {"));
    assert!(users.contains("pub struct UserPublic {"));
}

#[test]
fn users_primer_leaves_users_modules_alone() {
    let files = auth_files(true, MARKER);
    assert_eq!(files.len(), 19);
    assert!(files.iter().all(|(p, _)| p != "src/structs/generated/users.rs" && p != "src/models/generated/users.rs"));
    let plan = barrel_plan(true);
    assert_eq!(plan.len(), 5);
    assert!(!plan[0].1.contains(&"pub use users::{NewUser, User};".to_string()));
    assert!(plan[0].1.contains(&"pub mod auth;".to_string()));
}

#[test]
fn structs_barrel_plan_has_reexports() {
    let plan = barrel_plan(false);
    assert_eq!(plan.len(), 6);
    let (path, entries) = &plan[0];
    assert_eq!(path, "src/structs/generated/mod.rs");
    for needle in ["pub mod auth;", "pub mod enums;", "pub mod users;", "pub use users::UserPublic;", "pub use users::{NewUser, User};", "#[cfg(not(target_arch = \"wasm32\"))]", "pub use enums::UserRole;"] {
        assert!(entries.contains(&needle.to_string()), "missing {needle}");
    }
}

#[test]
fn merge_preserves_existing_and_is_idempotent() {
    let existing = Some("// marker\npub mod posts;".to_string());
    let entries = vec!["pub mod auth;".to_string()];
    let first = merge_barrel(&existing, MARKER, &entries).expect("first merge writes");
    assert_eq!(first, "// marker\npub mod posts;\npub mod auth;\n");
    assert!(merge_barrel(&Some(first.clone()), MARKER, &entries).is_none());
    assert_eq!(first.matches("pub mod auth;").count(), 1);
}

#[test]
fn merge_into_missing_barrel_starts_with_marker() {
    let entries = vec!["pub mod auth;".to_string(), "pub mod enums;".to_string()];
    assert_eq!(merge_barrel(&None, MARKER, &entries).unwrap(), format!("{MARKER}pub mod auth;\npub mod enums;\n"));
}

#[test]
fn merge_matches_trimmed_lines() {
    let existing = Some("  pub mod auth;  \r\n".to_string());
    let entries = vec!["pub mod auth;".to_string(), "pub mod me;".to_string()];
    assert_eq!(merge_barrel(&existing, MARKER, &entries).unwrap(), "  pub mod auth;  \r\npub mod me;\n");
}

#[test]
fn extends_existing_barrel_idempotently() {
    let seeded = "// AUTO-GENERATED from storage/blast/state/app.ron @ deadbeef\n//\n// Do not edit by hand.\n\npub mod posts;\n".to_string();
    let entries = vec!["pub mod auth;".to_string()];
    let body = merge_barrel(&Some(seeded), "", &entries).expect("first run extends");
    assert!(body.contains("pub mod posts;"), "must preserve existing entry");
    assert!(body.contains("pub mod auth;"), "must add auth entry");
    assert!(merge_barrel(&Some(body.clone()), "", &entries).is_none(), "second run changes nothing");
    assert_eq!(body.matches("pub mod auth;").count(), 1);
}

#[test]
fn emits_all_auth_files_with_markers() {
    let files = auth_files(false, MARKER);
    let expected_files = [
        "src/structs/generated/users.rs",
        "src/structs/generated/auth/login.rs",
        "src/structs/generated/auth/register.rs",
        "src/structs/generated/auth/mod.rs",
        "src/models/generated/users.rs",
        "src/routines/generated/auth/login.rs",
        "src/routines/generated/auth/register.rs",
        "src/routines/generated/auth/logout.rs",
        "src/routines/generated/auth/me.rs",
        "src/routines/generated/auth/mod.rs",
        "src/flows/generated/auth/login.rs",
        "src/flows/generated/auth/register.rs",
        "src/flows/generated/auth/logout.rs",
        "src/flows/generated/auth/me.rs",
        "src/flows/generated/auth/mod.rs",
        "src/transport/http/generated/auth.rs",
        "src/transport/leptos/pages/generated/login.rs",
        "src/transport/leptos/pages/generated/register.rs",
        "src/transport/leptos/pages/generated/logout.rs",
        "src/transport/leptos/pages/generated/profile.rs",
        "src/transport/leptos/pages/generated/profile.module.scss",
    ];
    for rel in expected_files {
        assert!(files.iter().any(|(p, _)| p == rel), "missing emitted file: {rel}");
    }
    let users = files.iter().find(|(p, _)| p == "src/structs/generated/users.rs").expect("users.rs");
    assert!(users.1.starts_with("// AUTO-GENERATED from "), "missing marker: {}", users.1);
}

#[test]
fn skips_users_files_when_primer_present() {
    let files = auth_files(true, MARKER);
    assert!(!files.iter().any(|(p, _)| p == "src/structs/generated/users.rs"));
    assert!(!files.iter().any(|(p, _)| p == "src/models/generated/users.rs"));
    let plan = barrel_plan(true);
    let structs = &plan.iter().find(|(p, _)| p == "src/structs/generated/mod.rs").expect("structs barrel").1;
    let merged = merge_barrel(&None, MARKER, structs).expect("new barrel");
    assert!(merged.contains("pub mod auth;"), "auth still required: {merged}");
    assert!(!merged.contains("pub use users::{NewUser, User};"), "must not re-export NewUser: {merged}");
}

#[test]
fn leptos_pages_barrel_emits_flat_auth_modules_and_reexports() {
    let plan = barrel_plan(false);
    let pages = &plan.iter().find(|(p, _)| p == "src/transport/leptos/pages/generated/mod.rs").expect("pages barrel").1;
    let body = merge_barrel(&None, MARKER, pages).expect("new barrel");
    for needle in [
        "pub mod login;",
        "pub mod logout;",
        "pub mod profile;",
        "pub mod register;",
        "pub use login::LoginPage;",
        "pub use logout::LogoutPage;",
        "pub use profile::ProfilePage;",
        "pub use register::RegisterPage;",
    ] {
        assert!(body.contains(needle), "pages barrel missing {needle}: {body}");
    }
}

#[test]
fn structs_barrel_includes_use_reexports() {
    let plan = barrel_plan(false);
    let structs = &plan.iter().find(|(p, _)| p == "src/structs/generated/mod.rs").expect("structs barrel").1;
    let body = merge_barrel(&None, MARKER, structs).expect("new barrel");
    assert!(body.contains("pub mod auth;"), "structs barrel must declare auth: {body}");
    assert!(body.contains("pub mod enums;"), "structs barrel must declare enums: {body}");
    assert!(body.contains("pub mod users;"), "structs barrel must declare users: {body}");
    assert!(body.contains("pub use users::UserPublic;"), "must re-export UserPublic: {body}");
    assert!(body.contains("pub use users::{NewUser, User};"), "must re-export native-only user types: {body}");
    assert!(body.contains("#[cfg(not(target_arch = \"wasm32\"))]"), "must cfg-gate native types: {body}");
    assert!(body.contains("pub use enums::UserRole;"), "must re-export UserRole: {body}");
}

#[test]
fn auth_paths_are_distinct_and_barrel_entries_single_lines() {
    for primer in [false, true] {
        let mut paths: Vec<String> = auth_files(primer, "// m\n").into_iter().map(|(p, _)| p).collect();
        let plan = barrel_plan(primer);
        for (p, entries) in &plan {
            paths.push(p.clone());
            for e in entries {
                assert!(!e.contains('\n') && !e.ends_with('\r'));
            }
        }
        let mut sorted = paths.clone();
        sorted.sort();
        sorted.dedup();
        assert_eq!(sorted.len(), paths.len());
    }
}

#[test]
fn second_auth_run_changes_no_barrel() {
    let marker = "// AUTO-GENERATED\n\n";
    for (_, entries) in barrel_plan(true) {
        let first = merge_barrel(&Some("pub mod existing;".to_string()), marker, &entries).expect("extended");
        assert!(first.starts_with("pub mod existing;\n"));
        assert_eq!(merge_barrel(&Some(first), marker, &entries), None);
    }
}
