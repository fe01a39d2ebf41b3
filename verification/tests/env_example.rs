use blast::codegen::env_example::{convert_line, env_example_file, env_marker, render};
use blast::state::app::{EnvSpecState, EnvVarSpec};

fn three_vars() -> EnvSpecState {
    EnvSpecState {
        vars: vec![
            (
                "DATABASE_URL".to_string(),
                EnvVarSpec {
                    default: "postgres://localhost/myapp".to_string(),
                    comment: Some("Postgres connection string".to_string()),
                    sensitive: false,
                },
            ),
            (
                "SESSION_SIGNING_KEY".to_string(),
                EnvVarSpec {
                    default: "".to_string(),
                    comment: Some("32-byte hex secret for session tokens".to_string()),
                    sensitive: true,
                },
            ),
            ("APP_PORT".to_string(), EnvVarSpec { default: "8080".to_string(), comment: None, sensitive: false }),
        ],
    }
}

#[test]
fn sensitive_var_shows_changeme_not_default() {
    let spec = EnvSpecState {
        vars: vec![(
            "SECRET".to_string(),
            EnvVarSpec { default: "actual-secret-value".to_string(), comment: None, sensitive: true },
        )],
    };
    let rendered = render(&spec);
    assert!(rendered.contains("SECRET=<changeme>"));
    assert!(!rendered.contains("actual-secret-value"));
}

#[test]
fn env_example_has_three_vars_and_shell_header() {
    let marker = "// AUTO-GENERATED from storage/blast/state/app.ron @ abc\n//\n// Do not edit by hand.\n\n";
    let content = env_example_file(&Some(three_vars()), marker).expect("file");
    assert!(content.starts_with("# AUTO-GENERATED from storage/blast/state/app.ron @ abc\n#\n# Do not edit by hand.\n\n"));
    assert!(content.contains("# Postgres connection string\nDATABASE_URL=postgres://localhost/myapp"));
    assert!(content.contains("# 32-byte hex secret for session tokens\nSESSION_SIGNING_KEY=<changeme>"));
    assert!(content.contains("APP_PORT=8080"));
}

#[test]
fn no_spec_or_empty_spec_writes_nothing() {
    assert!(env_example_file(&None, "// m\n").is_none());
    assert!(env_example_file(&Some(EnvSpecState { vars: Vec::new() }), "// m\n").is_none());
}

#[test]
fn marker_lines_become_shell_comments() {
    assert_eq!(convert_line("// hello"), "# hello");
    assert_eq!(convert_line("//"), "#");
    assert_eq!(convert_line("plain"), "plain");
    assert_eq!(env_marker("// a\r\n//\n"), "# a\n#\n");
}
