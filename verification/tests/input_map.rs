use blast::codegen::components::input_map::{
    calendar_show_time, calendar_time_only, enum_meta, enum_options_const_name, enum_type_alias, is_bool, is_calendar,
    is_json, is_number, primevue_component,
};
use blast::codegen::enums::scan::ParsedEnum;
use blast::state::SqlType;

fn enums_fixture() -> Vec<ParsedEnum> {
    vec![ParsedEnum {
        name: "user_role".to_string(),
        variants: vec!["admin".to_string(), "member".to_string()],
        source_file: "/tmp/dummy.sql".to_string(),
    }]
}

#[test]
fn maps_text_to_input_text() {
    let enums: Vec<ParsedEnum> = Vec::new();
    assert_eq!(primevue_component(&SqlType::new("Varchar"), &enums), "InputText");
    assert_eq!(primevue_component(&SqlType::new("text"), &enums), "InputText");
    assert_eq!(primevue_component(&SqlType::new("Uuid"), &enums), "InputText");
}

#[test]
fn maps_bool_to_checkbox() {
    let enums: Vec<ParsedEnum> = Vec::new();
    assert_eq!(primevue_component(&SqlType::new("Bool"), &enums), "Checkbox");
    assert_eq!(primevue_component(&SqlType::new("BOOLEAN"), &enums), "Checkbox");
    assert!(is_bool(&SqlType::new("Bool")));
}

#[test]
fn maps_numeric_to_input_number() {
    let enums: Vec<ParsedEnum> = Vec::new();
    assert_eq!(primevue_component(&SqlType::new("Int4"), &enums), "InputNumber");
    assert_eq!(primevue_component(&SqlType::new("Int8"), &enums), "InputNumber");
    assert_eq!(primevue_component(&SqlType::new("Float4"), &enums), "InputNumber");
    assert_eq!(primevue_component(&SqlType::new("Numeric"), &enums), "InputNumber");
    assert!(is_number(&SqlType::new("Int8")));
}

#[test]
fn maps_temporal_to_calendar() {
    let enums: Vec<ParsedEnum> = Vec::new();
    assert_eq!(primevue_component(&SqlType::new("Timestamp"), &enums), "Calendar");
    assert_eq!(primevue_component(&SqlType::new("Timestamptz"), &enums), "Calendar");
    assert_eq!(primevue_component(&SqlType::new("Date"), &enums), "Calendar");
    assert_eq!(primevue_component(&SqlType::new("Time"), &enums), "Calendar");
    assert!(is_calendar(&SqlType::new("Timestamptz")));
    assert!(calendar_show_time(&SqlType::new("Timestamptz")));
    assert!(!calendar_show_time(&SqlType::new("Date")));
    assert!(calendar_time_only(&SqlType::new("Time")));
}

#[test]
fn maps_json_to_textarea() {
    let enums: Vec<ParsedEnum> = Vec::new();
    assert_eq!(primevue_component(&SqlType::new("Jsonb"), &enums), "Textarea");
    assert!(is_json(&SqlType::new("Json")));
}

#[test]
fn unknown_falls_back_to_input_text() {
    let enums: Vec<ParsedEnum> = Vec::new();
    assert_eq!(primevue_component(&SqlType::new("custom_domain"), &enums), "InputText");
}

#[test]
fn enum_type_alias_pascal_cases_snake() {
    assert_eq!(enum_type_alias("user_role"), "UserRole");
    assert_eq!(enum_type_alias("task_status"), "TaskStatus");
    assert_eq!(enum_type_alias("priority"), "Priority");
}

#[test]
fn enum_type_alias_handles_kebab_and_uppercase_input() {
    assert_eq!(enum_type_alias("user-role"), "UserRole");
    assert_eq!(enum_type_alias("USER_ROLE"), "UserRole");
}

#[test]
fn enum_options_const_name_screams_snake() {
    assert_eq!(enum_options_const_name("user_role"), "USER_ROLE_VALUES");
    assert_eq!(enum_options_const_name("priority"), "PRIORITY_VALUES");
    assert_eq!(enum_options_const_name("task-status"), "TASK_STATUS_VALUES");
}

#[test]
fn enum_options_const_name_keeps_existing_suffix() {
    assert_eq!(enum_options_const_name("role_values"), "ROLE_VALUES");
}

#[test]
fn enum_meta_returns_none_for_plain_sql_types() {
    let enums: Vec<ParsedEnum> = Vec::new();
    assert!(enum_meta(&SqlType::new("Varchar"), &enums).is_none());
    assert!(enum_meta(&SqlType::new("Int8"), &enums).is_none());
    assert!(enum_meta(&SqlType::new("Bool"), &enums).is_none());
}

#[test]
fn enum_meta_matches_pascalized_diesel_form() {
    let enums = enums_fixture();
    let hit = enum_meta(&SqlType::new("UserRole"), &enums).expect("match by pascalized name");
    assert_eq!(hit.0, "user_role");
    assert_eq!(hit.1, vec!["admin".to_string(), "member".to_string()]);
}

#[test]
fn enum_meta_matches_raw_snake_case_form() {
    let enums = enums_fixture();
    let hit = enum_meta(&SqlType::new("user_role"), &enums).expect("match by snake_case name");
    assert_eq!(hit.0, "user_role");
}

#[test]
fn enum_meta_misses_when_no_match() {
    let enums = enums_fixture();
    assert!(enum_meta(&SqlType::new("Varchar"), &enums).is_none());
    assert!(enum_meta(&SqlType::new("OtherEnum"), &enums).is_none());
}

#[test]
fn primevue_component_uses_dropdown_when_enum_matches() {
    let enums = enums_fixture();
    assert_eq!(primevue_component(&SqlType::new("UserRole"), &enums), "Dropdown");
    assert_eq!(primevue_component(&SqlType::new("user_role"), &enums), "Dropdown");
}

#[test]
fn input_kinds_never_overlap() {
    for name in ["Bool", "boolean", "Int8", "double precision", "Numeric", "Date", "Timestamptz", "Time", "Jsonb", "Text", "Uuid"] {
        let sql = blast::state::SqlType::new(name);
        let hits = [is_bool(&sql), is_number(&sql), is_calendar(&sql), is_json(&sql)].iter().filter(|b| **b).count();
        assert!(hits <= 1, "{name}");
    }
}
