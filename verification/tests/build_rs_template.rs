use blast::codegen::build_rs_template::{render_template, write_action, WriteAction};

#[test]
fn render_template_is_nonempty() {
    let src = render_template();
    assert!(!src.is_empty());
    assert!(src.contains("fn main()"));
    assert!(src.contains("check_transport_handler_ctx"));
}

#[test]
fn render_template_has_no_stale_detection() {
    let src = render_template();
    assert!(!src.contains("AUTO-GENERATED"), "stale-detection removed");
    assert!(!src.contains("blake3"), "no hash-checking remains");
    assert!(!src.contains("WATCHED_DIRS"), "no walk-and-check anymore");
}

#[test]
fn write_action_reports_created_then_overwritten() {
    assert_eq!(write_action(false), WriteAction::Created);
    assert_eq!(write_action(true), WriteAction::Overwritten);
}
