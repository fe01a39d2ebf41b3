use blast::codegen::leptos_forms::selects::{emit_select, find_one_of_options};
use blast::state::{FieldKind, FieldState, FieldVariant, SqlType, ValidatorRule};

fn field(validators: Vec<ValidatorRule>) -> FieldState {
    FieldState {
        sql_type: SqlType::new("Varchar"),
        variants: vec![FieldVariant::Db],
        nullable: false,
        primary_key: false,
        validators,
        kind: FieldKind::Plain,
    }
}

#[test]
fn first_one_of_rule_gives_the_options() {
    let f = field(vec![
        ValidatorRule::Named("email".to_string()),
        ValidatorRule::OneOf(vec!["a".to_string(), "b".to_string()]),
        ValidatorRule::OneOf(vec!["c".to_string()]),
    ]);
    assert_eq!(find_one_of_options(&f), Some(&vec!["a".to_string(), "b".to_string()]));
    assert_eq!(find_one_of_options(&field(Vec::new())), None);
}

#[test]
fn select_escapes_values_and_labels() {
    let mut out = String::from("<x>\n");
    emit_select(&mut out, "status", &vec![("a\"b".to_string(), "A \\ B".to_string())]);
    assert_eq!(
        out,
        "<x>\n                <select prop:value=move || status.get() on:change=move |ev| status.set(event_target_value(&ev))>\n                    <option value=\"a\\\"b\">\"A \\\\ B\"</option>\n                </select>\n"
    );
}
