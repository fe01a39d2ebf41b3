//! SQL type -> PrimeVue input component mapping for the Vue form generator.
use vstd::prelude::*;
use vstd::string::*;
use crate::codegen::enums::scan::ParsedEnum;
use crate::codegen::naming::{pascalize, pascalize_spec};
use crate::codegen::sql::{sql_key, sql_lower, sql_is_bool, sql_is_number, sql_is_temporal, sql_is_json, sql_is_timestamp, sql_is_timestamptz, sql_is_time};
use crate::state::SqlType;
use crate::text::{clone_strings, eq_ignore_ascii_case, lower_seq, str_eq, views};

verus! {

/// Index of the first parsed enum whose PascalCase name or raw name equals
/// the SQL type exactly.
pub open spec fn enum_meta_index(enums: Seq<ParsedEnum>, sql: Seq<char>) -> Option<int>
    decreases enums.len(),
{
    if enums.len() == 0 {
        None
    } else if pascalize_spec(enums[0].name@) == sql || enums[0].name@ == sql {
        Some(0)
    } else {
        match enum_meta_index(enums.drop_first(), sql) {
            Some(i) => Some(i + 1),
            None => None,
        }
    }
}

pub proof fn lemma_enum_meta_index_bound(enums: Seq<ParsedEnum>, sql: Seq<char>)
    ensures
        enum_meta_index(enums, sql) matches Some(i) ==> 0 <= i < enums.len(),
    decreases enums.len(),
{
    if enums.len() > 0 {
        lemma_enum_meta_index_bound(enums.drop_first(), sql);
    }
}

/// (name, variants) of the enum matching `sql`.
pub open spec fn enum_meta_spec(enums: Seq<ParsedEnum>, sql: Seq<char>) -> Option<(Seq<char>, Seq<Seq<char>>)> {
    match enum_meta_index(enums, sql) {
        Some(i) => Some((enums[i].name@, views(enums[i].variants@))),
        None => None,
    }
}

pub open spec fn primevue_spec(sql: Seq<char>, enums: Seq<ParsedEnum>) -> Seq<char> {
    let l = lower_seq(sql);
    if enum_meta_index(enums, sql) is Some {
        "Dropdown"@
    } else if crate::codegen::sql::is_bool(l) {
        "Checkbox"@
    } else if crate::codegen::sql::is_number(l) {
        "InputNumber"@
    } else if crate::codegen::sql::is_temporal(l) {
        "Calendar"@
    } else if crate::codegen::sql::is_json(l) {
        "Textarea"@
    } else {
        "InputText"@
    }
}

fn find_enum_meta(sql: &SqlType, enums: &[ParsedEnum]) -> (r: Option<usize>)
    ensures
        match r {
            Some(i) => enum_meta_index(enums@, sql@) == Some(i as int) && i < enums@.len(),
            None => enum_meta_index(enums@, sql@) is None,
        },
{
    let target = sql.as_str();
    let mut i: usize = 0;
    assert(enums@.skip(0) =~= enums@);
    while i < enums.len()
        invariant
            i <= enums@.len(),
            target@ == sql@,
            enum_meta_index(enums@, sql@) == match enum_meta_index(enums@.skip(i as int), sql@) {
                Some(k) => Some(k + i),
                None => None,
            },
        decreases enums@.len() - i,
    {
        assert(enums@.skip(i as int).drop_first() =~= enums@.skip(i + 1));
        assert(enums@.skip(i as int)[0] == enums@[i as int]);
        let p = pascalize(enums[i].name.as_str());
        if str_eq(p.as_str(), target) || str_eq(enums[i].name.as_str(), target) {
            return Some(i);
        }
        i = i + 1;
    }
    None
}

/// (name, variants) of the parsed enum that a SQL type refers to, by its
/// PascalCase (Diesel) form or its raw snake_case form.
pub fn enum_meta(sql: &SqlType, enums: &[ParsedEnum]) -> (r: Option<(String, Vec<String>)>)
    ensures
        match r {
            Some((n, vs)) => enum_meta_spec(enums@, sql@) == Some((n@, views(vs@))),
            None => enum_meta_spec(enums@, sql@) is None,
        },
{
    match find_enum_meta(sql, enums) {
        Some(i) => Some((enums[i].name.clone(), clone_strings(&enums[i].variants))),
        None => None,
    }
}

/// The PrimeVue component used to edit a column of this SQL type.
pub fn primevue_component(sql: &SqlType, enums: &[ParsedEnum]) -> (r: &'static str)
    ensures
        r@ == primevue_spec(sql@, enums@),
{
    if find_enum_meta(sql, enums).is_some() {
        return "Dropdown";
    }
    let lowered = sql_lower(sql);
    let l = lowered.as_str();
    if sql_is_bool(l) {
        "Checkbox"
    } else if sql_is_number(l) {
        "InputNumber"
    } else if sql_is_temporal(l) {
        "Calendar"
    } else if sql_is_json(l) {
        "Textarea"
    } else {
        "InputText"
    }
}

pub use crate::codegen::naming::enum_type_alias;
pub use crate::codegen::naming::enum_options_const_name;

pub fn is_calendar(sql: &SqlType) -> (r: bool)
    ensures
        r == crate::codegen::sql::is_temporal(sql_key(*sql)),
{
    let lowered = sql_lower(sql);
    sql_is_temporal(lowered.as_str())
}

pub fn calendar_show_time(sql: &SqlType) -> (r: bool)
    ensures
        r == (crate::codegen::sql::is_timestamp(sql_key(*sql)) || crate::codegen::sql::is_timestamptz(sql_key(*sql)) || crate::codegen::sql::is_time(sql_key(*sql))),
{
    let lowered = sql_lower(sql);
    let l = lowered.as_str();
    sql_is_timestamp(l) || sql_is_timestamptz(l) || sql_is_time(l)
}

pub fn calendar_time_only(sql: &SqlType) -> (r: bool)
    ensures
        r == (sql_key(*sql) == lower_seq("time"@)),
{
    eq_ignore_ascii_case(sql.as_str(), "time")
}

pub fn is_number(sql: &SqlType) -> (r: bool)
    ensures
        r == crate::codegen::sql::is_number(sql_key(*sql)),
{
    let lowered = sql_lower(sql);
    sql_is_number(lowered.as_str())
}

pub fn is_bool(sql: &SqlType) -> (r: bool)
    ensures
        r == crate::codegen::sql::is_bool(sql_key(*sql)),
{
    let lowered = sql_lower(sql);
    sql_is_bool(lowered.as_str())
}

pub fn is_json(sql: &SqlType) -> (r: bool)
    ensures
        r == crate::codegen::sql::is_json(sql_key(*sql)),
{
    let lowered = sql_lower(sql);
    sql_is_json(lowered.as_str())
}


/// At most one of `is_bool`, `is_number`, `is_calendar` and `is_json` holds
/// of a SQL type, so the component picked for a field does not depend on
/// the order in which they are tested.
pub proof fn lemma_input_tests_exclusive(sql: SqlType)
    ensures
        !(crate::codegen::sql::is_bool(sql_key(sql)) && crate::codegen::sql::is_number(sql_key(sql))),
        !(crate::codegen::sql::is_bool(sql_key(sql)) && crate::codegen::sql::is_temporal(sql_key(sql))),
        !(crate::codegen::sql::is_bool(sql_key(sql)) && crate::codegen::sql::is_json(sql_key(sql))),
        !(crate::codegen::sql::is_number(sql_key(sql)) && crate::codegen::sql::is_temporal(sql_key(sql))),
        !(crate::codegen::sql::is_number(sql_key(sql)) && crate::codegen::sql::is_json(sql_key(sql))),
        !(crate::codegen::sql::is_temporal(sql_key(sql)) && crate::codegen::sql::is_json(sql_key(sql))),
{
    crate::codegen::sql::lemma_input_kinds_exclusive(sql_key(sql));
}

} // verus!
