use blast::codegen::enums::meta::{EnumMeta, VariantMeta};
use blast::codegen::enums::render::{enum_type_name, render_enum_file, variant_name};
use blast::codegen::enums::runner::{emit_targets, merge_scans, plan_files, render_barrel};
use blast::codegen::enums::scan::{
    enums_declared_in, enums_from_captures, existing_user_enums, parse_enums_in_sql, strip_line_comments, ParsedEnum,
};
use blast::codegen::naming::pascalize;
use blast::error::BlastError;

fn fixture(name: &str, variants: &[&str]) -> ParsedEnum {
    ParsedEnum {
        name: name.to_string(),
        variants: variants.iter().map(|v| v.to_string()).collect(),
        source_file: "/tmp/fake_up.sql".to_string(),
    }
}

#[test]
fn enum_type_name_pascal_cases_snake() {
    assert_eq!(enum_type_name("user_role"), "UserRole");
    assert_eq!(enum_type_name("status"), "Status");
    assert_eq!(enum_type_name("post_publish_state"), "PostPublishState");
}

#[test]
fn variant_name_pascal_cases_each_variant() {
    assert_eq!(variant_name("admin"), "Admin");
    assert_eq!(variant_name("in_progress"), "InProgress");
    assert_eq!(variant_name("OPEN"), "Open");
}

#[test]
fn pascalize_drops_punctuation_and_splits_on_spaces() {
    assert_eq!(pascalize("in progress"), "InProgress");
    assert_eq!(pascalize("a.b-c"), "AbC");
    assert_eq!(pascalize(""), "");
}

#[test]
fn render_emits_expected_top_level_shape() {
    let p = fixture("user_role", &["admin", "member"]);
    let body = render_enum_file(&p, &EnumMeta::empty(&p.name));
    assert!(body.contains("use crate::database::schema::sql_types::UserRole as UserRoleSqlType;"));
    assert!(body.contains("use crate::meltdown::*;"));
    assert!(body.contains("diesel(sql_type = UserRoleSqlType)"));
    assert!(body.contains("pub enum UserRole {"));
    assert!(body.contains("    Admin,"));
    assert!(body.contains("    Member,"));
    assert!(body.contains("#[cfg_attr(not(target_arch = \"wasm32\"), derive(AsExpression, FromSqlRow))]"));
}

#[test]
fn render_emits_as_str_match() {
    let p = fixture("user_role", &["admin", "member"]);
    let body = render_enum_file(&p, &EnumMeta::empty(&p.name));
    assert!(body.contains("UserRole::Admin => \"admin\""));
    assert!(body.contains("UserRole::Member => \"member\""));
}

#[test]
fn render_emits_parse_match() {
    let p = fixture("user_role", &["admin", "member"]);
    let body = render_enum_file(&p, &EnumMeta::empty(&p.name));
    assert!(body.contains("\"admin\" => Ok(UserRole::Admin)"));
    assert!(body.contains("\"member\" => Ok(UserRole::Member)"));
    assert!(body.contains("MeltDown::validation_failed(format!(\"unknown user_role: {}\", other))"));
}

#[test]
fn render_emits_from_sql_and_to_sql() {
    let p = fixture("user_role", &["admin", "member"]);
    let body = render_enum_file(&p, &EnumMeta::empty(&p.name));
    assert!(body.contains("impl FromSql<UserRoleSqlType, Pg> for UserRole"));
    assert!(body.contains("b\"admin\" => Ok(UserRole::Admin)"));
    assert!(body.contains("impl ToSql<UserRoleSqlType, Pg> for UserRole"));
    assert!(body.contains("out.write_all(self.as_str().as_bytes())?;"));
}

#[test]
fn render_handles_multi_word_variants() {
    let p = fixture("status", &["in_progress", "done"]);
    let body = render_enum_file(&p, &EnumMeta::empty(&p.name));
    assert!(body.contains("Status::InProgress => \"in_progress\""));
    assert!(body.contains("\"in_progress\" => Ok(Status::InProgress)"));
    assert!(body.contains("b\"in_progress\" => Ok(Status::InProgress)"));
}

#[test]
fn render_escapes_quotes_in_variant_strings() {
    let p = fixture("kind", &["a\"b", "c"]);
    let body = render_enum_file(&p, &EnumMeta::empty(&p.name));
    assert!(body.contains("\"a\\\"b\""));
}

#[test]
fn render_round_trip_byte_stable() {
    let p = fixture("user_role", &["admin", "member"]);
    let a = render_enum_file(&p, &EnumMeta::empty(&p.name));
    let b = render_enum_file(&p, &EnumMeta::empty(&p.name));
    assert_eq!(a, b);
}

#[test]
fn render_emits_options_const_with_pascal_fallback_when_no_meta() {
    let p = fixture("user_role", &["admin", "member"]);
    let body = render_enum_file(&p, &EnumMeta::empty(&p.name));
    assert!(body.contains("pub const OPTIONS: &'static [(UserRole, &'static str, Option<&'static str>)]"));
    assert!(body.contains("(UserRole::Admin, \"Admin\", None)"));
    assert!(body.contains("(UserRole::Member, \"Member\", None)"));
}

#[test]
fn render_emits_options_with_metadata_label_and_category() {
    let p = fixture("feature_kind", &["abs", "esp"]);
    let mut meta = EnumMeta::empty(&p.name);
    meta.insert(
        "abs".to_string(),
        VariantMeta {
            label: "ABS".to_string(),
            category: Some("Siguranță".to_string()),
        },
    );
    meta.insert(
        "esp".to_string(),
        VariantMeta {
            label: "ESP".to_string(),
            category: Some("Siguranță".to_string()),
        },
    );
    let body = render_enum_file(&p, &meta);
    assert!(body.contains("(FeatureKind::Abs, \"ABS\", Some(\"Siguranță\"))"));
    assert!(body.contains("(FeatureKind::Esp, \"ESP\", Some(\"Siguranță\"))"));
}

#[test]
fn render_emits_enum_options_trait_impl() {
    let p = fixture("user_role", &["admin", "member"]);
    let body = render_enum_file(&p, &EnumMeta::empty(&p.name));
    assert!(body.contains("impl crate::structs::vendored::enum_options::EnumOptions for UserRole"));
    assert!(body.contains("UserRole::OPTIONS"));
}

#[test]
fn meta_insert_then_lookup_returns_value() {
    let mut meta = EnumMeta::empty("k");
    meta.insert("a".to_string(), VariantMeta { label: "A".to_string(), category: None });
    meta.insert("a".to_string(), VariantMeta { label: "B".to_string(), category: None });
    assert_eq!(meta.lookup("a").map(|m| m.label.clone()), Some("B".to_string()));
    assert_eq!(meta.variants.len(), 1);
    assert!(meta.lookup("b").is_none());
}

#[test]
fn parses_simple_create_type() {
    let body = "CREATE TYPE user_role AS ENUM ('admin', 'member');";
    let parsed = parse_enums_in_sql(body, "/tmp/up.sql").expect("parse");
    assert_eq!(parsed.len(), 1);
    assert_eq!(parsed[0].name, "user_role");
    assert_eq!(parsed[0].variants, vec!["admin", "member"]);
}

#[test]
fn case_insensitive_keywords() {
    let body = "create Type my_enum As enum ('a','b');";
    let parsed = parse_enums_in_sql(body, "/tmp/up.sql").expect("parse");
    assert_eq!(parsed.len(), 1);
    assert_eq!(parsed[0].name, "my_enum");
    assert_eq!(parsed[0].variants, vec!["a", "b"]);
}

#[test]
fn multiline_statement_with_trailing_comma_tolerated() {
    let body = "CREATE TYPE\n  status\nAS ENUM (\n  'open',\n  'closed',\n  'archived'\n);";
    let parsed = parse_enums_in_sql(body, "/tmp/up.sql").expect("parse");
    assert_eq!(parsed[0].variants, vec!["open", "closed", "archived"]);
}

#[test]
fn ignores_line_comments() {
    let body = "-- top comment\nCREATE TYPE x AS ENUM ('a' -- inline\n, 'b');";
    let parsed = parse_enums_in_sql(body, "/tmp/up.sql").expect("parse");
    assert_eq!(parsed[0].variants, vec!["a", "b"]);
}

#[test]
fn doubled_single_quote_escapes() {
    let body = "CREATE TYPE x AS ENUM ('a''b', 'c');";
    let parsed = parse_enums_in_sql(body, "/tmp/up.sql").expect("parse");
    assert_eq!(parsed[0].variants, vec!["a'b", "c"]);
}

#[test]
fn multiple_create_types_in_one_file() {
    let body = "CREATE TYPE r AS ENUM ('a');\nCREATE TYPE s AS ENUM ('b','c');";
    let parsed = parse_enums_in_sql(body, "/tmp/up.sql").expect("parse");
    assert_eq!(parsed.len(), 2);
    assert_eq!(parsed[0].name, "r");
    assert_eq!(parsed[1].name, "s");
}

#[test]
fn empty_variant_list_is_error() {
    let body = "CREATE TYPE x AS ENUM ();";
    let res = parse_enums_in_sql(body, "/tmp/up.sql");
    assert!(res.is_err());
}

#[test]
fn unquoted_variant_is_error() {
    let res = parse_enums_in_sql("CREATE TYPE x AS ENUM (a, 'b');", "/tmp/up.sql");
    assert!(matches!(res, Err(BlastError::Invalid(_))));
}

#[test]
fn unterminated_variant_is_error() {
    let caps = vec![(Some("x".to_string()), Some("'a".to_string()))];
    assert!(matches!(enums_from_captures(caps, "/tmp/up.sql"), Err(BlastError::Invalid(_))));
}

#[test]
fn missing_group_is_error() {
    let caps = vec![(None, Some("'a'".to_string()))];
    assert!(matches!(enums_from_captures(caps, "/tmp/up.sql"), Err(BlastError::Invalid(_))));
}

#[test]
fn captures_record_source_and_trim_name() {
    let caps = vec![(Some("  x ".to_string()), Some("'a', 'b'".to_string()))];
    let parsed = enums_from_captures(caps, "/m/up.sql").expect("parse");
    assert_eq!(parsed[0].name, "x");
    assert_eq!(parsed[0].source_file, "/m/up.sql");
}

#[test]
fn strip_keeps_dashes_inside_quotes() {
    assert_eq!(strip_line_comments("a 'x--y' -- c\r\nb"), "a 'x--y' \nb\n");
    assert_eq!(strip_line_comments(""), "");
    assert_eq!(strip_line_comments("\n"), "\n");
}

#[test]
fn project_scan_finds_enums_across_migrations() {
    let a = parse_enums_in_sql("CREATE TYPE user_role AS ENUM ('admin','member');", "/m/a/up.sql").unwrap();
    let b = parse_enums_in_sql("CREATE TYPE post_status AS ENUM ('draft','live','hidden');", "/m/b/up.sql").unwrap();
    let report = merge_scans(&vec![a, b]);
    assert_eq!(report.enums.len(), 2);
    let names: Vec<&str> = report.enums.iter().map(|e| e.name.as_str()).collect();
    assert_eq!(names, vec!["post_status", "user_role"]);
}

#[test]
fn project_scan_records_duplicates() {
    let a = parse_enums_in_sql("CREATE TYPE x AS ENUM ('a','b');", "/m/a/up.sql").unwrap();
    let b = parse_enums_in_sql("CREATE TYPE x AS ENUM ('c');", "/m/b/up.sql").unwrap();
    let report = merge_scans(&vec![a, b]);
    assert_eq!(report.enums.len(), 1);
    assert_eq!(report.enums[0].variants, vec!["a", "b"]);
    assert_eq!(report.enums[0].source_file, "/m/a/up.sql");
    assert_eq!(report.duplicates, vec!["x".to_string()]);
}

#[test]
fn project_scan_handles_missing_dir() {
    let report = merge_scans(&Vec::new());
    assert!(report.enums.is_empty());
    assert!(report.duplicates.is_empty());
}

#[test]
fn hand_written_enums_are_found_and_skipped() {
    let sources = vec![
        "pub enum UserRole { Admin }\npub enum Zed {}".to_string(),
        "struct X; pub  enum Alpha { A }\n// pub enum lower {}".to_string(),
    ];
    let found = existing_user_enums(&sources).unwrap();
    assert_eq!(found, vec!["Alpha".to_string(), "UserRole".to_string(), "Zed".to_string()]);
    assert_eq!(enums_declared_in("pub enum A {} pub enum B {}").unwrap(), vec!["A", "B"]);
    let enums = vec![fixture("user_role", &["admin"]), fixture("post_status", &["draft"])];
    let targets = emit_targets(&enums, &found);
    assert_eq!(targets.len(), 1);
    assert_eq!(targets[0].name, "post_status");
}

#[test]
fn enums_barrel_lists_modules_then_reexports() {
    let enums = vec![fixture("user_role", &["admin"]), fixture("post_status", &["draft"])];
    assert_eq!(
        render_barrel(&enums),
        "pub mod post_status;\npub mod user_role;\n\npub use post_status::PostStatus;\npub use user_role::UserRole;\n"
    );
}

#[test]
fn emits_nothing_when_no_migrations_exist() {
    let report = merge_scans(&Vec::new());
    let targets = emit_targets(&report.enums, &Vec::new());
    assert!(targets.is_empty());
}

#[test]
fn emits_per_enum_file_and_barrel() {
    let sql = "CREATE TYPE user_role AS ENUM ('admin', 'member');\nCREATE TYPE post_status AS ENUM ('draft', 'published');\n";
    let parsed = parse_enums_in_sql(sql, "/m/2026-01-01/up.sql").unwrap();
    let report = merge_scans(&vec![parsed]);
    let targets = emit_targets(&report.enums, &Vec::new());
    assert_eq!(targets.len(), 2);
    let role = targets.iter().find(|e| e.name == "user_role").expect("user_role");
    let role_body = render_enum_file(role, &EnumMeta::empty("user_role"));
    assert!(!role_body.starts_with("// AUTO-GENERATED"), "no inline marker");
    assert!(role_body.contains("pub enum UserRole {"));
    let barrel_body = render_barrel(&targets);
    assert!(barrel_body.contains("pub mod user_role;"));
    assert!(barrel_body.contains("pub mod post_status;"));
    assert!(barrel_body.contains("pub use user_role::UserRole;"));
    assert!(barrel_body.contains("pub use post_status::PostStatus;"));
}

#[test]
fn renders_role_shape_matching_phase_1_canonical_fixture() {
    let body = render_enum_file(&fixture("user_role", &["admin", "member"]), &EnumMeta::empty("user_role"));
    assert!(body.contains("use crate::database::schema::sql_types::UserRole as UserRoleSqlType;"));
    assert!(body.contains("use crate::meltdown::*;"));
    assert!(body.contains("#[derive(Debug, Clone, Copy, PartialEq, Eq, Hash, Serialize, Deserialize)]"));
    assert!(body.contains("#[cfg_attr(not(target_arch = \"wasm32\"), derive(AsExpression, FromSqlRow))]"));
    assert!(body.contains("diesel(sql_type = UserRoleSqlType)"));
    assert!(body.contains("pub enum UserRole {"));
    assert!(body.contains("    Admin,"));
    assert!(body.contains("    Member,"));
    assert!(body.contains("UserRole::Admin => \"admin\""));
    assert!(body.contains("\"admin\" => Ok(UserRole::Admin)"));
    assert!(body.contains("impl FromSql<UserRoleSqlType, Pg> for UserRole"));
    assert!(body.contains("b\"admin\" => Ok(UserRole::Admin)"));
    assert!(body.contains("impl ToSql<UserRoleSqlType, Pg> for UserRole"));
}

#[test]
fn skips_emission_when_hand_written_enum_already_exists() {
    let sources = vec!["pub enum Role {\n    Admin,\n    Member,\n}\n".to_string(), "pub enum UserRole {\n    Admin,\n    Member,\n}\n".to_string()];
    let found = existing_user_enums(&sources).unwrap();
    let targets = emit_targets(&vec![fixture("user_role", &["admin", "member"])], &found);
    assert!(targets.is_empty(), "codegen should skip emission when UserRole already exists");
}

#[test]
fn plan_names_modules_after_sql_types_then_barrel() {
    let targets = vec![fixture("user_role", &["admin"]), fixture("post_status", &["draft"])];
    let files = plan_files(&targets, &Vec::new());
    assert_eq!(files.len(), 3);
    assert_eq!(files[0].0, "user_role.rs");
    assert_eq!(files[0].1, render_enum_file(&targets[0], &EnumMeta::empty("user_role")));
    assert_eq!(files[1].0, "post_status.rs");
    assert_eq!(files[2].0, "mod.rs");
    assert_eq!(files[2].1, render_barrel(&targets));
}

#[test]
fn plan_uses_first_metadata_for_each_enum() {
    let targets = vec![fixture("feature_kind", &["abs"])];
    let mut first = EnumMeta::empty("feature_kind");
    first.insert("abs".to_string(), VariantMeta { label: "ABS".to_string(), category: None });
    let mut second = EnumMeta::empty("feature_kind");
    second.insert("abs".to_string(), VariantMeta { label: "Other".to_string(), category: None });
    let other = EnumMeta::empty("user_role");
    let files = plan_files(&targets, &vec![other, first, second]);
    assert!(files[0].1.contains("(FeatureKind::Abs, \"ABS\", None)"), "{}", files[0].1);
    assert!(!files[0].1.contains("\"Other\""));
}
