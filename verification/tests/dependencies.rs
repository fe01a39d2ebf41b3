use blast::cargo::{
    check_matches, check_search_term, crate_choice, dependency_choices, list_description, search_url,
    selected_dependencies, DependencySpec, NO_MATCHING_CRATES, NO_SEARCH_TERM,
};

#[test]
fn search_url_embeds_query() {
    assert_eq!(search_url("serde"), "https://crates.io/api/v1/crates?q=serde&per_page=50");
}

#[test]
fn empty_search_term_refused() {
    assert_eq!(check_search_term(""), Err(NO_SEARCH_TERM.to_string()));
    assert_eq!(check_search_term("tokio"), Ok(()));
    assert_eq!(NO_SEARCH_TERM, "No search term provided");
}

#[test]
fn empty_search_result_refused() {
    assert_eq!(check_matches(0), Err(NO_MATCHING_CRATES.to_string()));
    assert_eq!(check_matches(3), Ok(()));
}

#[test]
fn short_descriptions_kept() {
    let d = "a".repeat(60);
    assert_eq!(list_description(&d), d);
    assert_eq!(list_description(""), "");
}

#[test]
fn long_descriptions_cut_at_fifty_seven_bytes() {
    let d = "b".repeat(61);
    let shown = list_description(&d);
    assert_eq!(shown, format!("{}...", "b".repeat(57)));
}

#[test]
fn long_multibyte_description_cut_on_boundary() {
    // 55 ASCII bytes, then 'é' (2 bytes) ends exactly at byte 57.
    let d = format!("{}é{}", "c".repeat(55), "d".repeat(10));
    let shown = list_description(&d);
    assert_eq!(shown, format!("{}é...", "c".repeat(55)));
    assert_eq!(shown.len(), 60);
}

#[test]
fn listed_descriptions_fit_in_sixty_bytes() {
    for n in 0..120 {
        let d = "x".repeat(n);
        assert!(list_description(&d).len() <= 60, "length {n}");
    }
}

#[test]
fn crate_choice_line() {
    assert_eq!(
        crate_choice("serde", "1.0.200", "12.3M", Some("A serialization framework")),
        "serde v1.0.200 (12.3M downloads) - A serialization framework"
    );
    assert_eq!(crate_choice("x", "0.1.0", "12", None), "x v0.1.0 (12 downloads) - No description");
}

#[test]
fn dependency_choice_lines() {
    let deps = vec![
        ("serde".to_string(), DependencySpec::Version("1".to_string())),
        ("syn".to_string(), DependencySpec::Detailed(Some("2".to_string()))),
        ("local".to_string(), DependencySpec::Detailed(None)),
        ("odd".to_string(), DependencySpec::Other),
    ];
    assert_eq!(
        dependency_choices(&deps),
        vec![
            "serde (1)".to_string(),
            "syn (2)".to_string(),
            "local (complex dependency)".to_string(),
            "odd (unknown version)".to_string(),
        ]
    );
}

#[test]
fn selections_pick_names_in_order() {
    let names = vec!["a".to_string(), "b".to_string(), "c".to_string()];
    assert_eq!(selected_dependencies(&names, &vec![2, 0]), vec!["c".to_string(), "a".to_string()]);
    assert!(selected_dependencies(&names, &vec![]).is_empty());
}

#[test]
fn manifest_lists_dependencies_in_order() {
    let text = "[package]\nname = \"x\"\n\n[dependencies]\nserde = \"1\"\nsyn = { version = \"2\", features = [\"full\"] }\nlocal = { path = \"../l\" }\n";
    let deps = blast::cargo::manifest_dependencies(text).expect("toml");
    let names: Vec<&str> = deps.iter().map(|(n, _)| n.as_str()).collect();
    assert_eq!(names.len(), 3);
    assert_eq!(
        dependency_choices(&deps).into_iter().collect::<std::collections::BTreeSet<_>>(),
        ["local (complex dependency)", "serde (1)", "syn (2)"].iter().map(|s| s.to_string()).collect()
    );
    assert!(blast::cargo::manifest_dependencies("[package]\nname = \"x\"\n").unwrap().is_empty());
    assert!(blast::cargo::manifest_dependencies("not = toml = at all").is_err());
}

#[test]
fn manifest_gains_a_dependency() {
    let text = "[package]\nname = \"x\"\n\n[dependencies]\nserde = \"1\"\n";
    let updated = blast::cargo::manifest_with_dependency(text, "regex", "1.10").expect("written");
    let deps = blast::cargo::manifest_dependencies(&updated).unwrap();
    assert!(deps.iter().any(|(n, s)| n == "regex" && matches!(s, DependencySpec::Version(v) if v == "1.10")));
    assert!(deps.iter().any(|(n, _)| n == "serde"));
    assert!(updated.contains("name = \"x\""));
    let created = blast::cargo::manifest_with_dependency("[package]\nname = \"y\"\n", "log", "0.4").unwrap();
    assert_eq!(blast::cargo::manifest_dependencies(&created).unwrap().len(), 1);
}

#[test]
fn manifest_loses_dependencies() {
    let text = "[dependencies]\nserde = \"1\"\nsyn = \"2\"\nlog = \"0.4\"\n";
    let updated = blast::cargo::manifest_without(text, &vec!["syn".to_string(), "missing".to_string()]).unwrap();
    let names: Vec<String> = blast::cargo::manifest_dependencies(&updated).unwrap().into_iter().map(|(n, _)| n).collect();
    assert!(names.contains(&"serde".to_string()) && names.contains(&"log".to_string()));
    assert!(!names.contains(&"syn".to_string()));
    match blast::cargo::manifest_without("[package]\nname = \"x\"\n", &vec!["serde".to_string()]) {
        Err(blast::error::BlastError::Invalid(m)) => assert_eq!(m, "No dependencies found in Cargo.toml"),
        other => panic!("unexpected: {other:?}"),
    }
}

#[test]
fn manifest_edits_keep_the_other_entries() {
    let text = "[package]\nname = \"x\"\nversion = \"0.3.0\"\n\n[features]\nfast = []\n\n[dependencies]\nserde = \"1\"\nsyn = { features = [\"full\"], version = \"2\" }\n";
    let added = blast::cargo::manifest_with_dependency(text, "regex", "1.10").unwrap();
    let removed = blast::cargo::manifest_without(&added, &vec!["serde".to_string()]).unwrap();
    for out in [&added, &removed] {
        let t: toml::Table = toml::from_str(out).unwrap();
        assert_eq!(t["package"]["name"].as_str(), Some("x"));
        assert_eq!(t["package"]["version"].as_str(), Some("0.3.0"));
        assert!(t["features"]["fast"].as_array().unwrap().is_empty());
    }
    let deps = blast::cargo::manifest_dependencies(&removed).unwrap();
    let names: Vec<&str> = deps.iter().map(|(n, _)| n.as_str()).collect();
    assert!(names.contains(&"regex") && names.contains(&"syn") && !names.contains(&"serde"));
    assert!(deps.iter().any(|(n, s)| n == "syn" && matches!(s, DependencySpec::Detailed(Some(v)) if v == "2")));
}

#[test]
fn manifest_with_non_table_dependencies_gets_a_table() {
    let text = "dependencies = 3\n[package]\nname = \"z\"\n";
    let updated = blast::cargo::manifest_with_dependency(text, "log", "0.4").unwrap();
    let deps = blast::cargo::manifest_dependencies(&updated).unwrap();
    assert_eq!(deps.len(), 1);
    assert!(matches!(&deps[0].1, DependencySpec::Version(v) if v == "0.4"));
    assert!(updated.contains("name = \"z\""));
}
