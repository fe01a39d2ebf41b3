//! Leptos create/edit form components and their data-layer stubs.
use vstd::prelude::*;
use vstd::string::*;
use crate::codegen::enums::scan::ParsedEnum;
use crate::codegen::naming::{pascalize, pascalize_spec, pretty_label, pretty_label_spec};
use crate::codegen::sql::{
    is_bool, is_date, is_decimal, is_f32, is_f64, is_int16, is_int32, is_int64, is_json, is_number, is_text,
    is_time, is_timestamp, is_timestamptz, is_uuid, is_bytea, sql_is_bool, sql_is_bytea, sql_is_date,
    sql_is_decimal, sql_is_f32, sql_is_f64, sql_is_int16, sql_is_int32, sql_is_int64, sql_is_json,
    sql_is_number, sql_is_text, sql_is_time, sql_is_timestamp, sql_is_timestamptz, sql_is_uuid, sql_key,
    sql_lower,
};
use crate::codegen::structs_naming::{type_stem_for_resource, type_stem_spec};
use crate::state::{Field, FieldKind, FieldState, FieldVariant, ResourceState, SqlType, Verb};
use crate::text::{
    concat_map, eq_ignore_ascii_case, escape_double_quoted, escape_dq, lemma_concat_map_all,
    lemma_concat_map_step, lower_seq, owned, seq_contains, seq_ends_with, sort_dedup_strings,
    sort_strings, sorted_distinct, str_contains, str_ends_with, str_eq, to_ascii_lower, views, lex,
};

verus! {

// ---------------------------------------------------------------------------
// Field classification
// ---------------------------------------------------------------------------

/// Hidden and session-filled fields have no input in the create form.
pub open spec fn hidden_spec(f: FieldState) -> bool {
    f.kind == FieldKind::Hidden || f.kind is FromSession
}

/// True when a field has no UI representation in the create form.
pub fn is_hidden_kind(field: &FieldState) -> (r: bool)
    ensures
        r == hidden_spec(*field),
{
    match field.kind {
        FieldKind::Hidden => true,
        FieldKind::FromSession(_) => true,
        _ => false,
    }
}

/// True when a field renders as a `<textarea>`.
pub fn is_textarea_kind(field: &FieldState) -> (r: bool)
    ensures
        r == (field.kind == FieldKind::Textarea),
{
    match field.kind {
        FieldKind::Textarea => true,
        _ => false,
    }
}

/// Index of the first parsed enum whose PascalCase name equals the SQL
/// type, ignoring ASCII case.
pub open spec fn form_enum_index(enums: Seq<ParsedEnum>, sql: Seq<char>) -> Option<int>
    decreases enums.len(),
{
    if enums.len() == 0 {
        None
    } else if lower_seq(pascalize_spec(enums[0].name@)) == lower_seq(sql) {
        Some(0)
    } else {
        match form_enum_index(enums.drop_first(), sql) {
            Some(i) => Some(i + 1),
            None => None,
        }
    }
}

pub proof fn lemma_form_enum_index_bound(enums: Seq<ParsedEnum>, sql: Seq<char>)
    ensures
        form_enum_index(enums, sql) matches Some(i) ==> 0 <= i < enums.len(),
    decreases enums.len(),
{
    if enums.len() > 0 {
        lemma_form_enum_index_bound(enums.drop_first(), sql);
    }
}

fn find_enum_index(field: &FieldState, enums: &[ParsedEnum]) -> (r: Option<usize>)
    ensures
        match r {
            Some(i) => form_enum_index(enums@, field.sql_type@) == Some(i as int) && i < enums@.len(),
            None => form_enum_index(enums@, field.sql_type@) is None,
        },
{
    let want = to_ascii_lower(field.sql_type.as_str());
    let mut i: usize = 0;
    assert(enums@.skip(0) =~= enums@);
    while i < enums.len()
        invariant
            i <= enums@.len(),
            want@ == lower_seq(field.sql_type@),
            form_enum_index(enums@, field.sql_type@) == match form_enum_index(enums@.skip(i as int), field.sql_type@) {
                Some(k) => Some(k + i),
                None => None,
            },
        decreases enums@.len() - i,
    {
        assert(enums@.skip(i as int).drop_first() =~= enums@.skip(i + 1));
        assert(enums@.skip(i as int)[0] == enums@[i as int]);
        let p = pascalize(enums[i].name.as_str());
        let lp = to_ascii_lower(p.as_str());
        if str_eq(lp.as_str(), want.as_str()) {
            return Some(i);
        }
        i = i + 1;
    }
    None
}

/// The parsed enum a field's SQL type refers to (case-insensitive match on
/// the PascalCase enum name).
pub fn find_enum_for_field<'e>(field: &FieldState, enums: &'e [ParsedEnum]) -> (r: Option<&'e ParsedEnum>)
    ensures
        match r {
            Some(p) => exists|i: int| form_enum_index(enums@, field.sql_type@) == Some(i) && 0 <= i < enums@.len() && enums@[i] == *p,
            None => form_enum_index(enums@, field.sql_type@) is None,
        },
{
    match find_enum_index(field, enums) {
        Some(i) => Some(&enums[i]),
        None => None,
    }
}

/// Index of the first primary-key field.
pub open spec fn pk_index(fields: Seq<Field>) -> Option<int>
    decreases fields.len(),
{
    if fields.len() == 0 {
        None
    } else if fields[0].1.primary_key {
        Some(0)
    } else {
        match pk_index(fields.drop_first()) {
            Some(i) => Some(i + 1),
            None => None,
        }
    }
}

pub proof fn lemma_pk_index_bound(fields: Seq<Field>)
    ensures
        pk_index(fields) matches Some(i) ==> 0 <= i < fields.len() && fields[i].1.primary_key,
    decreases fields.len(),
{
    if fields.len() > 0 {
        lemma_pk_index_bound(fields.drop_first());
    }
}

/// The first field marked as primary key.
pub fn primary_key_field(resource: &ResourceState) -> (r: Option<&Field>)
    ensures
        match r {
            Some(f) => pk_index(resource.fields@) matches Some(i) && 0 <= i < resource.fields@.len()
                && resource.fields@[i] == *f,
            None => pk_index(resource.fields@) is None,
        },
{
    let mut i: usize = 0;
    assert(resource.fields@.skip(0) =~= resource.fields@);
    while i < resource.fields.len()
        invariant
            i <= resource.fields@.len(),
            pk_index(resource.fields@) == match pk_index(resource.fields@.skip(i as int)) {
                Some(k) => Some(k + i),
                None => None,
            },
        decreases resource.fields@.len() - i,
    {
        assert(resource.fields@.skip(i as int).drop_first() =~= resource.fields@.skip(i + 1));
        assert(resource.fields@.skip(i as int)[0] == resource.fields@[i as int]);
        if resource.fields[i].1.primary_key {
            return Some(&resource.fields[i]);
        }
        i = i + 1;
    }
    None
}

/// Rust type of a SQL type.
pub open spec fn rust_base_spec(l: Seq<char>) -> Seq<char> {
    if is_bool(l) {
        "bool"@
    } else if is_int16(l) {
        "i16"@
    } else if is_int32(l) {
        "i32"@
    } else if is_int64(l) {
        "i64"@
    } else if is_f32(l) {
        "f32"@
    } else if is_f64(l) {
        "f64"@
    } else if is_decimal(l) {
        "rust_decimal::Decimal"@
    } else if is_text(l) {
        "String"@
    } else if is_uuid(l) {
        "uuid::Uuid"@
    } else if is_bytea(l) {
        "Vec<u8>"@
    } else if is_timestamp(l) {
        "chrono::NaiveDateTime"@
    } else if is_timestamptz(l) {
        "chrono::DateTime<chrono::Utc>"@
    } else if is_date(l) {
        "chrono::NaiveDate"@
    } else if is_time(l) {
        "chrono::NaiveTime"@
    } else if is_json(l) {
        "serde_json::Value"@
    } else {
        "String"@
    }
}

pub open spec fn map_sql_to_rust_spec(sql: SqlType, nullable: bool) -> Seq<char> {
    if nullable {
        "Option<"@ + rust_base_spec(sql_key(sql)) + ">"@
    } else {
        rust_base_spec(sql_key(sql))
    }
}

fn rust_base(l: &str) -> (r: &'static str)
    ensures
        r@ == rust_base_spec(l@),
{
    if sql_is_bool(l) {
        "bool"
    } else if sql_is_int16(l) {
        "i16"
    } else if sql_is_int32(l) {
        "i32"
    } else if sql_is_int64(l) {
        "i64"
    } else if sql_is_f32(l) {
        "f32"
    } else if sql_is_f64(l) {
        "f64"
    } else if sql_is_decimal(l) {
        "rust_decimal::Decimal"
    } else if sql_is_text(l) {
        "String"
    } else if sql_is_uuid(l) {
        "uuid::Uuid"
    } else if sql_is_bytea(l) {
        "Vec<u8>"
    } else if sql_is_timestamp(l) {
        "chrono::NaiveDateTime"
    } else if sql_is_timestamptz(l) {
        "chrono::DateTime<chrono::Utc>"
    } else if sql_is_date(l) {
        "chrono::NaiveDate"
    } else if sql_is_time(l) {
        "chrono::NaiveTime"
    } else if sql_is_json(l) {
        "serde_json::Value"
    } else {
        "String"
    }
}

/// Rust type of a column, wrapped in `Option` when nullable.
pub fn map_sql_to_rust(sql: &SqlType, nullable: bool) -> (r: String)
    ensures
        r@ == map_sql_to_rust_spec(*sql, nullable),
{
    let lowered = sql_lower(sql);
    let base = rust_base(lowered.as_str());
    if nullable {
        let mut s = owned("Option<");
        s.append(base);
        s.append(">");
        s
    } else {
        owned(base)
    }
}

/// Rust type of the primary key (`i64` when there is none).
pub open spec fn pk_rust_spec(fields: Seq<Field>) -> Seq<char> {
    match pk_index(fields) {
        Some(i) => map_sql_to_rust_spec(fields[i].1.sql_type, false),
        None => "i64"@,
    }
}

pub fn pk_rust_type(resource: &ResourceState) -> (r: String)
    ensures
        r@ == pk_rust_spec(resource.fields@),
{
    match primary_key_field(resource) {
        Some(f) => map_sql_to_rust(&f.1.sql_type, false),
        None => owned("i64"),
    }
}

/// Name of the primary key field (`id` when there is none).
pub open spec fn pk_name_spec(fields: Seq<Field>) -> Seq<char> {
    match pk_index(fields) {
        Some(i) => fields[i].0@,
        None => "id"@,
    }
}

fn pk_field_name(resource: &ResourceState) -> (r: String)
    ensures
        r@ == pk_name_spec(resource.fields@),
{
    match primary_key_field(resource) {
        Some(f) => owned(f.0.as_str()),
        None => owned("id"),
    }
}

pub open spec fn derefs(v: Seq<&Field>) -> Seq<Field> {
    v.map_values(|x: &Field| *x)
}

/// Fields of the given struct variant, in order.
pub open spec fn variant_fields(fields: Seq<Field>, v: FieldVariant) -> Seq<Field>
    decreases fields.len(),
{
    if fields.len() == 0 {
        seq![]
    } else if fields.last().1.in_variant(v) {
        variant_fields(fields.drop_last(), v).push(fields.last())
    } else {
        variant_fields(fields.drop_last(), v)
    }
}

/// Fields that are not the primary key, in order.
pub open spec fn non_pk(fields: Seq<Field>) -> Seq<Field>
    decreases fields.len(),
{
    if fields.len() == 0 {
        seq![]
    } else if !fields.last().1.primary_key {
        non_pk(fields.drop_last()).push(fields.last())
    } else {
        non_pk(fields.drop_last())
    }
}

/// `resource.fields` restricted to one struct variant.
pub fn fields_for_variant<'a>(resource: &'a ResourceState, variant: FieldVariant) -> (r: Vec<&'a Field>)
    ensures
        derefs(r@) == variant_fields(resource.fields@, variant),
{
    let mut out: Vec<&'a Field> = Vec::new();
    let mut i: usize = 0;
    assert(resource.fields@.take(0) =~= Seq::<Field>::empty());
    assert(derefs(out@) =~= Seq::<Field>::empty());
    while i < resource.fields.len()
        invariant
            i <= resource.fields.len(),
            derefs(out@) == variant_fields(resource.fields@.take(i as int), variant),
        decreases resource.fields.len() - i,
    {
        let ghost t = resource.fields@.take(i + 1);
        assert(t.drop_last() =~= resource.fields@.take(i as int));
        assert(t.last() == resource.fields@[i as int]);
        let f = &resource.fields[i];
        if f.1.has_variant(variant) {
            let ghost before = derefs(out@);
            out.push(f);
            assert(derefs(out@) =~= before.push(*f));
        }
        i = i + 1;
    }
    assert(resource.fields@.take(resource.fields.len() as int) =~= resource.fields@);
    out
}

pub(crate) fn drop_primary_key<'a>(v: Vec<&'a Field>) -> (r: Vec<&'a Field>)
    ensures
        derefs(r@) == non_pk(derefs(v@)),
{
    let mut out: Vec<&'a Field> = Vec::new();
    let mut i: usize = 0;
    assert(derefs(v@).take(0) =~= Seq::<Field>::empty());
    assert(derefs(out@) =~= Seq::<Field>::empty());
    while i < v.len()
        invariant
            i <= v.len(),
            derefs(out@) == non_pk(derefs(v@).take(i as int)),
        decreases v.len() - i,
    {
        let ghost t = derefs(v@).take(i + 1);
        assert(t.drop_last() =~= derefs(v@).take(i as int));
        assert(t.last() == *v@[i as int]);
        let f = v[i];
        if !f.1.primary_key {
            let ghost before = derefs(out@);
            out.push(f);
            assert(derefs(out@) =~= before.push(*f));
        }
        i = i + 1;
    }
    assert(derefs(v@).take(v.len() as int) =~= derefs(v@));
    out
}

/// How a field is entered in a form.
#[derive(Debug, Clone, Copy, PartialEq, Eq, Structural)]
pub enum InputKind {
    TextLine,
    Number,
    Datetime,
    Date,
    Bool,
    Textarea,
    Enum,
}

pub open spec fn classify_spec(f: FieldState, enums: Seq<ParsedEnum>) -> InputKind {
    let l = sql_key(f.sql_type);
    if f.kind == FieldKind::Textarea {
        InputKind::Textarea
    } else if form_enum_index(enums, f.sql_type@) is Some {
        InputKind::Enum
    } else if is_bool(l) {
        InputKind::Bool
    } else if is_number(l) {
        InputKind::Number
    } else if is_timestamp(l) || is_timestamptz(l) {
        InputKind::Datetime
    } else if is_date(l) {
        InputKind::Date
    } else if is_json(l) {
        InputKind::Textarea
    } else {
        InputKind::TextLine
    }
}

/// The input widget kind for a field.
pub fn classify_input(field: &FieldState, enums: &[ParsedEnum]) -> (r: InputKind)
    ensures
        r == classify_spec(*field, enums@),
{
    if is_textarea_kind(field) {
        return InputKind::Textarea;
    }
    if find_enum_index(field, enums).is_some() {
        return InputKind::Enum;
    }
    let lowered = sql_lower(&field.sql_type);
    let l = lowered.as_str();
    if sql_is_bool(l) {
        InputKind::Bool
    } else if sql_is_number(l) {
        InputKind::Number
    } else if sql_is_timestamp(l) || sql_is_timestamptz(l) {
        InputKind::Datetime
    } else if sql_is_date(l) {
        InputKind::Date
    } else if sql_is_json(l) {
        InputKind::Textarea
    } else {
        InputKind::TextLine
    }
}

pub open spec fn password_spec(name: Seq<char>) -> bool {
    seq_contains(lower_seq(name), "password"@) || lower_seq(name) == "pwd"@
}

pub fn looks_like_password(name: &str) -> (r: bool)
    ensures
        r == password_spec(name@),
{
    let lowered = to_ascii_lower(name);
    str_contains(lowered.as_str(), "password") || str_eq(lowered.as_str(), "pwd")
}

pub open spec fn email_spec(name: Seq<char>) -> bool {
    lower_seq(name) == lower_seq("email"@)
}

pub fn looks_like_email(name: &str) -> (r: bool)
    ensures
        r == email_spec(name@),
{
    eq_ignore_ascii_case(name, "email")
}

pub open spec fn url_spec(name: Seq<char>) -> bool {
    let l = lower_seq(name);
    l == "url"@ || seq_ends_with(l, "_url"@) || seq_contains(l, "homepage"@) || seq_contains(l, "website"@)
}

pub fn looks_like_url(name: &str) -> (r: bool)
    ensures
        r == url_spec(name@),
{
    let lowered = to_ascii_lower(name);
    let l = lowered.as_str();
    str_eq(l, "url") || str_ends_with(l, "_url") || str_contains(l, "homepage") || str_contains(l, "website")
}

fn field_has_rules(field: &FieldState) -> (r: bool)
    ensures
        r == (field.validators@.len() > 0),
{
    field.validators.len() > 0
}

/// Some visible text-line field carries validation rules.
pub open spec fn textline_with_rules(fs: Seq<Field>, enums: Seq<ParsedEnum>) -> bool {
    exists|i: int|
        0 <= i < fs.len() && !hidden_spec((#[trigger] fs[i]).1) && fs[i].1.validators@.len() > 0
            && classify_spec(fs[i].1, enums) == InputKind::TextLine
}

fn any_textline_with_rules(fields: &Vec<&Field>, enums: &[ParsedEnum]) -> (r: bool)
    ensures
        r == textline_with_rules(derefs(fields@), enums@),
{
    let ghost fs = derefs(fields@);
    let mut i: usize = 0;
    while i < fields.len()
        invariant
            i <= fields.len(),
            fs == derefs(fields@),
            forall|k: int|
                0 <= k < i ==> !(!hidden_spec((#[trigger] fs[k]).1) && fs[k].1.validators@.len() > 0
                    && classify_spec(fs[k].1, enums@) == InputKind::TextLine),
        decreases fields.len() - i,
    {
        let f = fields[i];
        assert(fs[i as int] == *f);
        if !is_hidden_kind(&f.1) && field_has_rules(&f.1) && classify_input(&f.1, enums) == InputKind::TextLine {
            return true;
        }
        i = i + 1;
    }
    false
}

pub open spec fn number_target_spec(l: Seq<char>) -> Seq<char> {
    if is_int16(l) {
        "i16"@
    } else if is_int32(l) {
        "i32"@
    } else if is_int64(l) {
        "i64"@
    } else if is_f32(l) {
        "f32"@
    } else if is_f64(l) {
        "f64"@
    } else {
        "i64"@
    }
}

fn number_target(field: &FieldState) -> (r: &'static str)
    ensures
        r@ == number_target_spec(sql_key(field.sql_type)),
{
    let lowered = sql_lower(&field.sql_type);
    let l = lowered.as_str();
    if sql_is_int16(l) {
        "i16"
    } else if sql_is_int32(l) {
        "i32"
    } else if sql_is_int64(l) {
        "i64"
    } else if sql_is_f32(l) {
        "f32"
    } else if sql_is_f64(l) {
        "f64"
    } else {
        "i64"
    }
}

// ---------------------------------------------------------------------------
// Per-field pieces
// ---------------------------------------------------------------------------

pub open spec fn signal_decl_spec(name: Seq<char>, f: FieldState, enums: Seq<ParsedEnum>) -> Seq<char> {
    if classify_spec(f, enums) == InputKind::Bool {
        "    let "@
            + name
            + " = RwSignal::new(false);\n"@
    } else {
        "    let "@
            + name
            + ": RwSignal<String> = RwSignal::new(String::new());\n"@
    }
}

fn render_signal_decl(name: &str, field: &FieldState, enums: &[ParsedEnum]) -> (r: String)
    ensures
        r@ == signal_decl_spec(name@, *field, enums@),
{
    if classify_input(field, enums) == InputKind::Bool {
            let mut out = owned("    let ");
            out.append(name);
            out.append(" = RwSignal::new(false);\n");
        out
    } else {
            let mut out = owned("    let ");
            out.append(name);
            out.append(": RwSignal<String> = RwSignal::new(String::new());\n");
        out
    }
}

pub open spec fn nul_init_spec(name: Seq<char>, nullable: bool, expr: Seq<char>) -> Seq<char> {
    if nullable {
        "    let "@
            + name
            + ": RwSignal<String> = RwSignal::new(match &initial."@
            + name
            + " { Some(v) => "@
            + expr
            + ", None => String::new() });\n"@
    } else {
        "    let "@
            + name
            + ": RwSignal<String> = RwSignal::new({ let v = &initial."@
            + name
            + "; "@
            + expr
            + " });\n"@
    }
}

fn nul_init(name: &str, nullable: bool, expr: &str) -> (r: String)
    ensures
        r@ == nul_init_spec(name@, nullable, expr@),
{
    if nullable {
            let mut out = owned("    let ");
            out.append(name);
            out.append(": RwSignal<String> = RwSignal::new(match &initial.");
            out.append(name);
            out.append(" { Some(v) => ");
            out.append(expr);
            out.append(", None => String::new() });\n");
        out
    } else {
            let mut out = owned("    let ");
            out.append(name);
            out.append(": RwSignal<String> = RwSignal::new({ let v = &initial.");
            out.append(name);
            out.append("; ");
            out.append(expr);
            out.append(" });\n");
        out
    }
}

pub open spec fn signal_init_spec(name: Seq<char>, f: FieldState, enums: Seq<ParsedEnum>) -> Seq<char> {
    let l = sql_key(f.sql_type);
    match classify_spec(f, enums) {
        InputKind::Bool => "    let "@
            + name
            + " = RwSignal::new(initial."@
            + name
            + ");\n"@,
        InputKind::Number => nul_init_spec(name, f.nullable, "v.to_string()"@),
        InputKind::Datetime => if l == "timestamptz"@ {
            nul_init_spec(name, f.nullable, "v.to_rfc3339()"@)
        } else {
            nul_init_spec(name, f.nullable, "v.format(\"%Y-%m-%dT%H:%M:%S\").to_string()"@)
        },
        InputKind::Date => nul_init_spec(name, f.nullable, "v.format(\"%Y-%m-%d\").to_string()"@),
        InputKind::Enum => "    let "@
            + name
            + ": RwSignal<String> = RwSignal::new(initial."@
            + name
            + ".as_str().to_string());\n"@,
        _ => if l == "uuid"@ {
            "    let "@
            + name
            + ": RwSignal<String> = RwSignal::new(initial."@
            + name
            + ".to_string());\n"@
        } else if l == "json"@ || l == "jsonb"@ {
            "    let "@
            + name
            + ": RwSignal<String> = RwSignal::new(match ::serde_json::to_string(&initial."@
            + name
            + ") { Ok(s) => s, Err(parse_err) => { crate::cata_log!(Debug, format!(\"json initial serialize failed: {}\", parse_err)); String::new() } });\n"@
        } else if f.nullable {
            "    let "@
            + name
            + ": RwSignal<String> = RwSignal::new(match &initial."@
            + name
            + " { Some(s) => s.clone(), None => String::new() });\n"@
        } else {
            "    let "@
            + name
            + ": RwSignal<String> = RwSignal::new(initial."@
            + name
            + ".clone());\n"@
        },
    }
}

fn render_signal_decl_initialized(name: &str, field: &FieldState, enums: &[ParsedEnum]) -> (r: String)
    ensures
        r@ == signal_init_spec(name@, *field, enums@),
{
    let kind = classify_input(field, enums);
    let lowered = sql_lower(&field.sql_type);
    let l = lowered.as_str();
    match kind {
        InputKind::Bool => {
            let mut out = owned("    let ");
            out.append(name);
            out.append(" = RwSignal::new(initial.");
            out.append(name);
            out.append(");\n");
            out
        },
        InputKind::Number => nul_init(name, field.nullable, "v.to_string()"),
        InputKind::Datetime => if str_eq(l, "timestamptz") {
            nul_init(name, field.nullable, "v.to_rfc3339()")
        } else {
            nul_init(name, field.nullable, "v.format(\"%Y-%m-%dT%H:%M:%S\").to_string()")
        },
        InputKind::Date => nul_init(name, field.nullable, "v.format(\"%Y-%m-%d\").to_string()"),
        InputKind::Enum => {
            let mut out = owned("    let ");
            out.append(name);
            out.append(": RwSignal<String> = RwSignal::new(initial.");
            out.append(name);
            out.append(".as_str().to_string());\n");
            out
        },
        _ => if str_eq(l, "uuid") {
            let mut out = owned("    let ");
            out.append(name);
            out.append(": RwSignal<String> = RwSignal::new(initial.");
            out.append(name);
            out.append(".to_string());\n");
            out
        } else if str_eq(l, "json") || str_eq(l, "jsonb") {
            let mut out = owned("    let ");
            out.append(name);
            out.append(": RwSignal<String> = RwSignal::new(match ::serde_json::to_string(&initial.");
            out.append(name);
            out.append(") { Ok(s) => s, Err(parse_err) => { crate::cata_log!(Debug, format!(\"json initial serialize failed: {}\", parse_err)); String::new() } });\n");
            out
        } else if field.nullable {
            let mut out = owned("    let ");
            out.append(name);
            out.append(": RwSignal<String> = RwSignal::new(match &initial.");
            out.append(name);
            out.append(" { Some(s) => s.clone(), None => String::new() });\n");
            out
        } else {
            let mut out = owned("    let ");
            out.append(name);
            out.append(": RwSignal<String> = RwSignal::new(initial.");
            out.append(name);
            out.append(".clone());\n");
            out
        },
    }
}

/// The `let <name>_val` binding that parses one field's input.
pub open spec fn parse_let_spec(name: Seq<char>, f: FieldState, enums: Seq<ParsedEnum>) -> Seq<char> {
    let l = sql_key(f.sql_type);
    if hidden_spec(f) {
        match classify_spec(f, enums) {
            InputKind::Bool => "            let "@
            + name
            + "_val: bool = false;\n"@,
            InputKind::Number => "            let "@
            + name
            + "_val: "@
            + number_target_spec(l)
            + " = 0;\n"@,
            InputKind::Datetime => if l == "timestamptz"@ {
                "            let "@
            + name
            + "_val: chrono::DateTime<chrono::Utc> = chrono::Utc::now();\n"@
            } else {
                "            let "@
            + name
            + "_val: chrono::NaiveDateTime = chrono::Utc::now().naive_utc();\n"@
            },
            InputKind::Date => "            let "@
            + name
            + "_val: chrono::NaiveDate = chrono::Utc::now().date_naive();\n"@,
            InputKind::Enum => match form_enum_index(enums, f.sql_type@) {
                Some(i) => "            let "@
            + name
            + "_val: "@
            + pascalize_spec(enums[i].name@)
            + " = ::std::default::Default::default();\n"@,
                None => "            let "@
            + name
            + "_val: String = String::new();\n"@,
            },
            _ => if l == "uuid"@ {
                "            let "@
            + name
            + "_val: uuid::Uuid = uuid::Uuid::nil();\n"@
            } else if l == "json"@ || l == "jsonb"@ {
                "            let "@
            + name
            + "_val: serde_json::Value = serde_json::Value::Null;\n"@
            } else {
                "            let "@
            + name
            + "_val: String = String::new();\n"@
            },
        }
    } else {
        match classify_spec(f, enums) {
            InputKind::Bool => "            let "@
            + name
            + "_val: bool = "@
            + name
            + ".get_untracked();\n"@,
            InputKind::Number => "            let "@
            + name
            + "_raw: String = "@
            + name
            + ".get_untracked();\n            let "@
            + name
            + "_val: "@
            + number_target_spec(l)
            + " = match "@
            + name
            + "_raw.parse::<"@
            + number_target_spec(l)
            + ">() {\n                Ok(v) => v,\n                Err(parse_err) => return Err(MeltDown::validation_failed_field(\""@
            + name
            + "\", format!(\"must be a number: {}\", parse_err))),\n            };\n"@,
            InputKind::Datetime => if l == "timestamptz"@ {
                "            let "@
            + name
            + "_raw: String = "@
            + name
            + ".get_untracked();\n            let "@
            + name
            + "_val: chrono::DateTime<chrono::Utc> = match chrono::DateTime::parse_from_rfc3339(&"@
            + name
            + "_raw) {\n                Ok(v) => v.with_timezone(&chrono::Utc),\n                Err(parse_err) => return Err(MeltDown::validation_failed_field(\""@
            + name
            + "\", format!(\"must be a valid RFC3339 datetime: {}\", parse_err))),\n            };\n"@
            } else {
                "            let "@
            + name
            + "_raw: String = "@
            + name
            + ".get_untracked();\n            let "@
            + name
            + "_val: chrono::NaiveDateTime = match chrono::NaiveDateTime::parse_from_str(&"@
            + name
            + "_raw, \"%Y-%m-%dT%H:%M:%S\") {\n                Ok(v) => v,\n                Err(parse_err) => return Err(MeltDown::validation_failed_field(\""@
            + name
            + "\", format!(\"must be a valid datetime: {}\", parse_err))),\n            };\n"@
            },
            InputKind::Date => "            let "@
            + name
            + "_raw: String = "@
            + name
            + ".get_untracked();\n            let "@
            + name
            + "_val: chrono::NaiveDate = match chrono::NaiveDate::parse_from_str(&"@
            + name
            + "_raw, \"%Y-%m-%d\") {\n                Ok(v) => v,\n                Err(parse_err) => return Err(MeltDown::validation_failed_field(\""@
            + name
            + "\", format!(\"must be a valid date: {}\", parse_err))),\n            };\n"@,
            InputKind::Enum => match form_enum_index(enums, f.sql_type@) {
                Some(i) => "            let "@
            + name
            + "_raw: String = "@
            + name
            + ".get_untracked();\n            let "@
            + name
            + "_val: "@
            + pascalize_spec(enums[i].name@)
            + " = match "@
            + pascalize_spec(enums[i].name@)
            + "::parse(&"@
            + name
            + "_raw) {\n                Ok(v) => v,\n                Err(parse_err) => return Err(MeltDown::validation_failed_field(\""@
            + name
            + "\", format!(\"invalid "@
            + pascalize_spec(enums[i].name@)
            + ": {}\", parse_err))),\n            };\n"@,
                None => "            let "@
            + name
            + "_val: String = "@
            + name
            + ".get_untracked();\n"@,
            },
            _ => if l == "uuid"@ {
                "            let "@
            + name
            + "_raw: String = "@
            + name
            + ".get_untracked();\n            let "@
            + name
            + "_val: uuid::Uuid = match uuid::Uuid::parse_str(&"@
            + name
            + "_raw) {\n                Ok(v) => v,\n                Err(parse_err) => return Err(MeltDown::validation_failed_field(\""@
            + name
            + "\", format!(\"must be a valid UUID: {}\", parse_err))),\n            };\n"@
            } else if l == "json"@ || l == "jsonb"@ {
                "            let "@
            + name
            + "_raw: String = "@
            + name
            + ".get_untracked();\n            let "@
            + name
            + "_val: serde_json::Value = match serde_json::from_str::<serde_json::Value>(&"@
            + name
            + "_raw) {\n                Ok(v) => v,\n                Err(parse_err) => return Err(MeltDown::validation_failed_field(\""@
            + name
            + "\", format!(\"must be valid JSON: {}\", parse_err))),\n            };\n"@
            } else {
                "            let "@
            + name
            + "_val: String = "@
            + name
            + ".get_untracked();\n"@
            },
        }
    }
}

fn render_field_parse_let(name: &str, field: &FieldState, enums: &[ParsedEnum]) -> (r: String)
    ensures
        r@ == parse_let_spec(name@, *field, enums@),
{
    let lowered = sql_lower(&field.sql_type);
    let l = lowered.as_str();
    let kind = classify_input(field, enums);
    if is_hidden_kind(field) {
        match kind {
            InputKind::Bool => {
            let mut out = owned("            let ");
            out.append(name);
            out.append("_val: bool = false;\n");
                out
            },
            InputKind::Number => {
                let target = number_target(field);
            let mut out = owned("            let ");
            out.append(name);
            out.append("_val: ");
            out.append(target);
            out.append(" = 0;\n");
                out
            },
            InputKind::Datetime => if str_eq(l, "timestamptz") {
            let mut out = owned("            let ");
            out.append(name);
            out.append("_val: chrono::DateTime<chrono::Utc> = chrono::Utc::now();\n");
                out
            } else {
            let mut out = owned("            let ");
            out.append(name);
            out.append("_val: chrono::NaiveDateTime = chrono::Utc::now().naive_utc();\n");
                out
            },
            InputKind::Date => {
            let mut out = owned("            let ");
            out.append(name);
            out.append("_val: chrono::NaiveDate = chrono::Utc::now().date_naive();\n");
                out
            },
            InputKind::Enum => match find_enum_index(field, enums) {
                Some(i) => {
                    let ty = pascalize(enums[i].name.as_str());
            let mut out = owned("            let ");
            out.append(name);
            out.append("_val: ");
            out.append(ty.as_str());
            out.append(" = ::std::default::Default::default();\n");
                    out
                },
                None => {
            let mut out = owned("            let ");
            out.append(name);
            out.append("_val: String = String::new();\n");
                    out
                },
            },
            _ => if str_eq(l, "uuid") {
            let mut out = owned("            let ");
            out.append(name);
            out.append("_val: uuid::Uuid = uuid::Uuid::nil();\n");
                out
            } else if str_eq(l, "json") || str_eq(l, "jsonb") {
            let mut out = owned("            let ");
            out.append(name);
            out.append("_val: serde_json::Value = serde_json::Value::Null;\n");
                out
            } else {
            let mut out = owned("            let ");
            out.append(name);
            out.append("_val: String = String::new();\n");
                out
            },
        }
    } else {
        match kind {
            InputKind::Bool => {
            let mut out = owned("            let ");
            out.append(name);
            out.append("_val: bool = ");
            out.append(name);
            out.append(".get_untracked();\n");
                out
            },
            InputKind::Number => {
                let target = number_target(field);
            let mut out = owned("            let ");
            out.append(name);
            out.append("_raw: String = ");
            out.append(name);
            out.append(".get_untracked();\n            let ");
            out.append(name);
            out.append("_val: ");
            out.append(target);
            out.append(" = match ");
            out.append(name);
            out.append("_raw.parse::<");
            out.append(target);
            out.append(">() {\n                Ok(v) => v,\n                Err(parse_err) => return Err(MeltDown::validation_failed_field(\"");
            out.append(name);
            out.append("\", format!(\"must be a number: {}\", parse_err))),\n            };\n");
                out
            },
            InputKind::Datetime => if str_eq(l, "timestamptz") {
            let mut out = owned("            let ");
            out.append(name);
            out.append("_raw: String = ");
            out.append(name);
            out.append(".get_untracked();\n            let ");
            out.append(name);
            out.append("_val: chrono::DateTime<chrono::Utc> = match chrono::DateTime::parse_from_rfc3339(&");
            out.append(name);
            out.append("_raw) {\n                Ok(v) => v.with_timezone(&chrono::Utc),\n                Err(parse_err) => return Err(MeltDown::validation_failed_field(\"");
            out.append(name);
            out.append("\", format!(\"must be a valid RFC3339 datetime: {}\", parse_err))),\n            };\n");
                out
            } else {
            let mut out = owned("            let ");
            out.append(name);
            out.append("_raw: String = ");
            out.append(name);
            out.append(".get_untracked();\n            let ");
            out.append(name);
            out.append("_val: chrono::NaiveDateTime = match chrono::NaiveDateTime::parse_from_str(&");
            out.append(name);
            out.append("_raw, \"%Y-%m-%dT%H:%M:%S\") {\n                Ok(v) => v,\n                Err(parse_err) => return Err(MeltDown::validation_failed_field(\"");
            out.append(name);
            out.append("\", format!(\"must be a valid datetime: {}\", parse_err))),\n            };\n");
                out
            },
            InputKind::Date => {
            let mut out = owned("            let ");
            out.append(name);
            out.append("_raw: String = ");
            out.append(name);
            out.append(".get_untracked();\n            let ");
            out.append(name);
            out.append("_val: chrono::NaiveDate = match chrono::NaiveDate::parse_from_str(&");
            out.append(name);
            out.append("_raw, \"%Y-%m-%d\") {\n                Ok(v) => v,\n                Err(parse_err) => return Err(MeltDown::validation_failed_field(\"");
            out.append(name);
            out.append("\", format!(\"must be a valid date: {}\", parse_err))),\n            };\n");
                out
            },
            InputKind::Enum => match find_enum_index(field, enums) {
                Some(i) => {
                    let ty = pascalize(enums[i].name.as_str());
            let mut out = owned("            let ");
            out.append(name);
            out.append("_raw: String = ");
            out.append(name);
            out.append(".get_untracked();\n            let ");
            out.append(name);
            out.append("_val: ");
            out.append(ty.as_str());
            out.append(" = match ");
            out.append(ty.as_str());
            out.append("::parse(&");
            out.append(name);
            out.append("_raw) {\n                Ok(v) => v,\n                Err(parse_err) => return Err(MeltDown::validation_failed_field(\"");
            out.append(name);
            out.append("\", format!(\"invalid ");
            out.append(ty.as_str());
            out.append(": {}\", parse_err))),\n            };\n");
                    out
                },
                None => {
            let mut out = owned("            let ");
            out.append(name);
            out.append("_val: String = ");
            out.append(name);
            out.append(".get_untracked();\n");
                    out
                },
            },
            _ => if str_eq(l, "uuid") {
            let mut out = owned("            let ");
            out.append(name);
            out.append("_raw: String = ");
            out.append(name);
            out.append(".get_untracked();\n            let ");
            out.append(name);
            out.append("_val: uuid::Uuid = match uuid::Uuid::parse_str(&");
            out.append(name);
            out.append("_raw) {\n                Ok(v) => v,\n                Err(parse_err) => return Err(MeltDown::validation_failed_field(\"");
            out.append(name);
            out.append("\", format!(\"must be a valid UUID: {}\", parse_err))),\n            };\n");
                out
            } else if str_eq(l, "json") || str_eq(l, "jsonb") {
            let mut out = owned("            let ");
            out.append(name);
            out.append("_raw: String = ");
            out.append(name);
            out.append(".get_untracked();\n            let ");
            out.append(name);
            out.append("_val: serde_json::Value = match serde_json::from_str::<serde_json::Value>(&");
            out.append(name);
            out.append("_raw) {\n                Ok(v) => v,\n                Err(parse_err) => return Err(MeltDown::validation_failed_field(\"");
            out.append(name);
            out.append("\", format!(\"must be valid JSON: {}\", parse_err))),\n            };\n");
                out
            } else {
            let mut out = owned("            let ");
            out.append(name);
            out.append("_val: String = ");
            out.append(name);
            out.append(".get_untracked();\n");
                out
            },
        }
    }
}

pub open spec fn struct_assign_spec(name: Seq<char>, f: FieldState, is_patch: bool) -> Seq<char> {
    if is_patch || f.nullable {
        "                "@
            + name
            + ": Some("@
            + name
            + "_val),\n"@
    } else {
        "                "@
            + name
            + ": "@
            + name
            + "_val,\n"@
    }
}

fn render_field_struct_assign(name: &str, field: &FieldState, is_patch: bool) -> (r: String)
    ensures
        r@ == struct_assign_spec(name@, *field, is_patch),
{
    if is_patch || field.nullable {
            let mut out = owned("                ");
            out.append(name);
            out.append(": Some(");
            out.append(name);
            out.append("_val),\n");
        out
    } else {
            let mut out = owned("                ");
            out.append(name);
            out.append(": ");
            out.append(name);
            out.append("_val,\n");
        out
    }
}

/// The `<option>` lines of an enum `<select>`.
pub open spec fn option_line() -> spec_fn(String) -> Seq<char> {
    |v: String| "                    <option value=\""@
            + escape_dq(v@)
            + "\">\""@
            + escape_dq(v@)
            + "\"</option>\n"@
}

fn option_lines(variants: &Vec<String>) -> (r: String)
    ensures
        r@ == concat_map(variants@, option_line()),
{
    let mut out = String::new();
    let mut i: usize = 0;
    assert(variants@.take(0) =~= Seq::<String>::empty());
    while i < variants.len()
        invariant
            i <= variants.len(),
            out@ == concat_map(variants@.take(i as int), option_line()),
        decreases variants.len() - i,
    {
        let e = escape_double_quoted(variants[i].as_str());
        let ghost before = out@;
        let v = &variants[i];
        out.append("                    <option value=\"");
        out.append(e.as_str());
        out.append("\">\"");
        out.append(e.as_str());
        out.append("\"</option>\n");
        proof {
            lemma_concat_map_step(variants@, i as int, option_line());
        }
        i = i + 1;
    }
    proof {
        lemma_concat_map_all(variants@, option_line());
    }
    out
}

/// `type` attribute of a plain text input, from the field name.
pub open spec fn html_type_spec(name: Seq<char>) -> Seq<char> {
    if password_spec(name) {
        "password"@
    } else if email_spec(name) {
        "email"@
    } else if url_spec(name) {
        "url"@
    } else {
        "text"@
    }
}

fn html_type(name: &str) -> (r: &'static str)
    ensures
        r@ == html_type_spec(name@),
{
    if looks_like_password(name) {
        "password"
    } else if looks_like_email(name) {
        "email"
    } else if looks_like_url(name) {
        "url"
    } else {
        "text"
    }
}

/// A text-line field whose lower-cased name contains `password`, or is
/// `pwd`, gets an input of type `password`: the `type` of a plain input, the
/// `input_type` of a validated one.
pub proof fn lemma_password_fields_are_masked(name: Seq<char>, f: FieldState, enums: Seq<ParsedEnum>, dto: Seq<char>)
    requires
        seq_contains(lower_seq(name), "password"@) || lower_seq(name) == "pwd"@,
        classify_spec(f, enums) == InputKind::TextLine,
    ensures
        html_type_spec(name) == "password"@,
        f.validators@.len() == 0 ==> seq_contains(widget_spec(name, f, enums, dto), "type=\"password\""@),
        f.validators@.len() > 0 ==> seq_contains(widget_spec(name, f, enums, dto), "input_type=\"password\""@),
{
    reveal_strlit("password");
    reveal_strlit("\"");
    reveal_strlit("type=\"");
    reveal_strlit("type=\"password\"");
    reveal_strlit("input_type=\"password\"");
    let pw = "password"@;
    let q = "\""@;
    assert(html_type_spec(name) == pw);
    let w = widget_spec(name, f, enums, dto);
    if f.validators@.len() == 0 {
        let a = "                <input\n                    type=\""@;
        let b = "\"\n                    prop:value=move || "@;
        reveal_strlit("                <input\n                    type=\"");
        reveal_strlit("\"\n                    prop:value=move || ");
        let rest = name + ".get()\n                    on:input=move |ev| "@ + name + ".set(event_target_value(&ev))\n                />\n"@;
        assert(w == a + pw + b + rest);
        let a0 = a.subrange(0, a.len() - 6);
        let b0 = b.subrange(1, b.len() as int);
        assert(a =~= a0 + "type=\""@);
        assert(b =~= q + b0);
        assert("type=\""@ + pw + q =~= "type=\"password\""@);
        assert(w =~= a0 + ("type=\""@ + pw + q) + (b0 + rest));
        lemma_contains_piece(a0, "type=\""@ + pw + q, b0 + rest);
    } else {
        let a = "\".to_string()\n                    rules={<"@;
        let pre = "                <ValidatedInput\n                    field=\""@ + name + a + dto
            + " as Validate>::rules_for(\""@ + name + "\")}\n                    value="@ + name
            + "\n                    input_type=\""@;
        let b = "\".to_string()\n                />\n"@;
        reveal_strlit("\n                    input_type=\"");
        reveal_strlit("\".to_string()\n                />\n");
        assert(w == pre + pw + b);
        let t = "\n                    input_type=\""@;
        let p0 = pre.subrange(0, pre.len() - 12);
        assert(pre.subrange(pre.len() - 12, pre.len() as int) =~= t.subrange(t.len() - 12, t.len() as int));
        assert(t.subrange(t.len() - 12, t.len() as int) =~= "input_type=\""@) by {
            reveal_strlit("input_type=\"");
        }
        assert(pre =~= p0 + "input_type=\""@);
        let b0 = b.subrange(1, b.len() as int);
        assert(b =~= q + b0);
        assert("input_type=\""@ + pw + q =~= "input_type=\"password\""@);
        assert(w =~= p0 + ("input_type=\""@ + pw + q) + b0);
        lemma_contains_piece(p0, "input_type=\""@ + pw + q, b0);
    }
}

/// A field named `email`, in any letter case, gets an input of type `email`.
pub proof fn lemma_email_fields_are_email_inputs(name: Seq<char>)
    requires
        lower_seq(name) == "email"@,
    ensures
        html_type_spec(name) == "email"@,
{
    reveal_strlit("email");
    reveal_strlit("password");
    reveal_strlit("pwd");
    assert(lower_seq("email"@) =~= "email"@);
    assert(!seq_contains(lower_seq(name), "password"@));
}

/// A text contains each of its pieces.
proof fn lemma_contains_piece(pre: Seq<char>, x: Seq<char>, post: Seq<char>)
    ensures
        seq_contains(pre + x + post, x),
{
    let w = pre + x + post;
    assert(w.subrange(pre.len() as int, (pre.len() + x.len()) as int) =~= x);
}

/// The input widget of one field.
pub open spec fn widget_spec(name: Seq<char>, f: FieldState, enums: Seq<ParsedEnum>, dto: Seq<char>) -> Seq<char> {
    match classify_spec(f, enums) {
        InputKind::Bool => "                <input\n                    type=\"checkbox\"\n                    prop:checked=move || "@
            + name
            + ".get()\n                    on:change=move |ev| "@
            + name
            + ".set(event_target_checked(&ev))\n                />\n"@,
        InputKind::Textarea => "                <textarea\n                    prop:value=move || "@
            + name
            + ".get()\n                    on:input=move |ev| "@
            + name
            + ".set(event_target_value(&ev))\n                />\n"@,
        InputKind::Datetime => "                <input\n                    type=\"datetime-local\"\n                    prop:value=move || "@
            + name
            + ".get()\n                    on:input=move |ev| "@
            + name
            + ".set(event_target_value(&ev))\n                />\n"@,
        InputKind::Date => "                <input\n                    type=\"date\"\n                    prop:value=move || "@
            + name
            + ".get()\n                    on:input=move |ev| "@
            + name
            + ".set(event_target_value(&ev))\n                />\n"@,
        InputKind::Number => "                <input\n                    type=\"text\"\n                    inputmode=\"numeric\"\n                    prop:value=move || "@
            + name
            + ".get()\n                    on:input=move |ev| "@
            + name
            + ".set(event_target_value(&ev))\n                />\n"@,
        InputKind::Enum => match form_enum_index(enums, f.sql_type@) {
            Some(i) => "                <select\n                    prop:value=move || "@
            + name
            + ".get()\n                    on:change=move |ev| "@
            + name
            + ".set(event_target_value(&ev))\n                >\n"@ + concat_map(enums[i].variants@, option_line()) + "                </select>\n"@,
            None => "                <input\n                    type=\"text\"\n                    prop:value=move || "@
            + name
            + ".get()\n                    on:input=move |ev| "@
            + name
            + ".set(event_target_value(&ev))\n                />\n"@,
        },
        InputKind::TextLine => {
            let html = html_type_spec(name);
            if f.validators@.len() > 0 {
                "                <ValidatedInput\n                    field=\""@
            + name
            + "\".to_string()\n                    rules={<"@
            + dto
            + " as Validate>::rules_for(\""@
            + name
            + "\")}\n                    value="@
            + name
            + "\n                    input_type=\""@
            + html
            + "\".to_string()\n                />\n"@
            } else {
                "                <input\n                    type=\""@
            + html
            + "\"\n                    prop:value=move || "@
            + name
            + ".get()\n                    on:input=move |ev| "@
            + name
            + ".set(event_target_value(&ev))\n                />\n"@
            }
        },
    }
}

fn render_widget(name: &str, field: &FieldState, enums: &[ParsedEnum], dto: &str) -> (r: String)
    ensures
        r@ == widget_spec(name@, *field, enums@, dto@),
{
    match classify_input(field, enums) {
        InputKind::Bool => {
            let mut out = owned("                <input\n                    type=\"checkbox\"\n                    prop:checked=move || ");
            out.append(name);
            out.append(".get()\n                    on:change=move |ev| ");
            out.append(name);
            out.append(".set(event_target_checked(&ev))\n                />\n");
            out
        },
        InputKind::Textarea => {
            let mut out = owned("                <textarea\n                    prop:value=move || ");
            out.append(name);
            out.append(".get()\n                    on:input=move |ev| ");
            out.append(name);
            out.append(".set(event_target_value(&ev))\n                />\n");
            out
        },
        InputKind::Datetime => {
            let mut out = owned("                <input\n                    type=\"datetime-local\"\n                    prop:value=move || ");
            out.append(name);
            out.append(".get()\n                    on:input=move |ev| ");
            out.append(name);
            out.append(".set(event_target_value(&ev))\n                />\n");
            out
        },
        InputKind::Date => {
            let mut out = owned("                <input\n                    type=\"date\"\n                    prop:value=move || ");
            out.append(name);
            out.append(".get()\n                    on:input=move |ev| ");
            out.append(name);
            out.append(".set(event_target_value(&ev))\n                />\n");
            out
        },
        InputKind::Number => {
            let mut out = owned("                <input\n                    type=\"text\"\n                    inputmode=\"numeric\"\n                    prop:value=move || ");
            out.append(name);
            out.append(".get()\n                    on:input=move |ev| ");
            out.append(name);
            out.append(".set(event_target_value(&ev))\n                />\n");
            out
        },
        InputKind::Enum => match find_enum_index(field, enums) {
            Some(i) => {
            let mut out = owned("                <select\n                    prop:value=move || ");
            out.append(name);
            out.append(".get()\n                    on:change=move |ev| ");
            out.append(name);
            out.append(".set(event_target_value(&ev))\n                >\n");
                let opts = option_lines(&enums[i].variants);
                out.append(opts.as_str());
                out.append("                </select>\n");
                out
            },
            None => {
            let mut out = owned("                <input\n                    type=\"text\"\n                    prop:value=move || ");
            out.append(name);
            out.append(".get()\n                    on:input=move |ev| ");
            out.append(name);
            out.append(".set(event_target_value(&ev))\n                />\n");
                out
            },
        },
        InputKind::TextLine => {
            let html = html_type(name);
            if field_has_rules(field) {
            let mut out = owned("                <ValidatedInput\n                    field=\"");
            out.append(name);
            out.append("\".to_string()\n                    rules={<");
            out.append(dto);
            out.append(" as Validate>::rules_for(\"");
            out.append(name);
            out.append("\")}\n                    value=");
            out.append(name);
            out.append("\n                    input_type=\"");
            out.append(html);
            out.append("\".to_string()\n                />\n");
                out
            } else {
            let mut out = owned("                <input\n                    type=\"");
            out.append(html);
            out.append("\"\n                    prop:value=move || ");
            out.append(name);
            out.append(".get()\n                    on:input=move |ev| ");
            out.append(name);
            out.append(".set(event_target_value(&ev))\n                />\n");
                out
            }
        },
    }
}

/// The labelled input block of one field.
pub open spec fn field_view_spec(name: Seq<char>, f: FieldState, enums: Seq<ParsedEnum>, dto: Seq<char>) -> Seq<char> {
    "            <label class=\"crud-form__field\">\n                <span class=\"crud-form__label\">\""@
            + pretty_label_spec(name)
            + "\"</span>\n"@ + widget_spec(name, f, enums, dto) + "            </label>\n            <FieldError message=Signal::derive(move || field_errors.with(|m| m.get(\""@
            + name
            + "\").cloned()))/>\n"@
}

fn render_field_view(name: &str, field: &FieldState, enums: &[ParsedEnum], dto: &str) -> (r: String)
    ensures
        r@ == field_view_spec(name@, *field, enums@, dto@),
{
    let label = pretty_label(name);
            let mut out = owned("            <label class=\"crud-form__field\">\n                <span class=\"crud-form__label\">\"");
            out.append(label.as_str());
            out.append("\"</span>\n");
    let w = render_widget(name, field, enums, dto);
    out.append(w.as_str());
    out.append("            </label>\n            <FieldError message=Signal::derive(move || field_errors.with(|m| m.get(\"");
    out.append(name);
    out.append("\").cloned()))/>\n");
    out
}

// ---------------------------------------------------------------------------
// Per-form blocks
// ---------------------------------------------------------------------------

/// Signal declarations of the create form (hidden fields have none).
pub open spec fn signal_piece(enums: Seq<ParsedEnum>) -> spec_fn(Field) -> Seq<char> {
    |f: Field| if hidden_spec(f.1) {
        Seq::<char>::empty()
    } else {
        signal_decl_spec(f.0@, f.1, enums)
    }
}

/// Initialised signal declarations of the edit form.
pub open spec fn signal_init_piece(enums: Seq<ParsedEnum>) -> spec_fn(Field) -> Seq<char> {
    |f: Field| signal_init_spec(f.0@, f.1, enums)
}

/// Field views; the create form (`all` false) skips hidden fields.
pub open spec fn view_piece(enums: Seq<ParsedEnum>, dto: Seq<char>, all: bool) -> spec_fn(Field) -> Seq<char> {
    |f: Field| if !all && hidden_spec(f.1) {
        Seq::<char>::empty()
    } else {
        field_view_spec(f.0@, f.1, enums, dto)
    }
}

pub open spec fn parse_piece(enums: Seq<ParsedEnum>) -> spec_fn(Field) -> Seq<char> {
    |f: Field| parse_let_spec(f.0@, f.1, enums)
}

pub open spec fn assign_piece(is_patch: bool) -> spec_fn(Field) -> Seq<char> {
    |f: Field| struct_assign_spec(f.0@, f.1, is_patch)
}

/// Which per-field piece a block is made of.
#[derive(Clone, Copy, PartialEq, Eq, Structural)]
pub enum Piece {
    Signal,
    SignalInit,
    View,
    ViewAll,
    Parse,
    Assign,
    AssignPatch,
}

pub open spec fn piece_fn(p: Piece, enums: Seq<ParsedEnum>, dto: Seq<char>) -> spec_fn(Field) -> Seq<char> {
    match p {
        Piece::Signal => signal_piece(enums),
        Piece::SignalInit => signal_init_piece(enums),
        Piece::View => view_piece(enums, dto, false),
        Piece::ViewAll => view_piece(enums, dto, true),
        Piece::Parse => parse_piece(enums),
        Piece::Assign => assign_piece(false),
        Piece::AssignPatch => assign_piece(true),
    }
}

fn render_piece(p: Piece, f: &Field, enums: &[ParsedEnum], dto: &str) -> (r: String)
    ensures
        r@ == piece_fn(p, enums@, dto@)(*f),
{
    match p {
        Piece::Signal => if is_hidden_kind(&f.1) {
            String::new()
        } else {
            render_signal_decl(f.0.as_str(), &f.1, enums)
        },
        Piece::SignalInit => render_signal_decl_initialized(f.0.as_str(), &f.1, enums),
        Piece::View => if is_hidden_kind(&f.1) {
            String::new()
        } else {
            render_field_view(f.0.as_str(), &f.1, enums, dto)
        },
        Piece::ViewAll => render_field_view(f.0.as_str(), &f.1, enums, dto),
        Piece::Parse => render_field_parse_let(f.0.as_str(), &f.1, enums),
        Piece::Assign => render_field_struct_assign(f.0.as_str(), &f.1, false),
        Piece::AssignPatch => render_field_struct_assign(f.0.as_str(), &f.1, true),
    }
}

fn render_pieces(p: Piece, fields: &Vec<&Field>, enums: &[ParsedEnum], dto: &str) -> (r: String)
    ensures
        r@ == concat_map(derefs(fields@), piece_fn(p, enums@, dto@)),
{
    let ghost fs = derefs(fields@);
    let ghost g = piece_fn(p, enums@, dto@);
    let mut out = String::new();
    let mut i: usize = 0;
    assert(fs.take(0) =~= Seq::<Field>::empty());
    while i < fields.len()
        invariant
            i <= fields.len(),
            fs == derefs(fields@),
            g == piece_fn(p, enums@, dto@),
            out@ == concat_map(fs.take(i as int), g),
        decreases fields.len() - i,
    {
        let piece = render_piece(p, fields[i], enums, dto);
        out.append(piece.as_str());
        proof {
            lemma_concat_map_step(fs, i as int, g);
            assert(fs[i as int] == *fields@[i as int]);
        }
        i = i + 1;
    }
    proof {
        lemma_concat_map_all(fs, g);
    }
    out
}

/// The closure that parses every field and builds the DTO.
pub open spec fn build_spec(dto: Seq<char>, fs: Seq<Field>, enums: Seq<ParsedEnum>, is_patch: bool) -> Seq<char> {
    "(|| -> ::std::result::Result<"@ + dto + ", MeltDown> {\n"@ + concat_map(fs, parse_piece(enums))
        + "            Ok("@ + dto + " {\n"@ + concat_map(fs, assign_piece(is_patch)) + "            })\n"@
        + "        })()"@
}

fn render_build(dto: &str, fields: &Vec<&Field>, enums: &[ParsedEnum], is_patch: bool) -> (r: String)
    ensures
        r@ == build_spec(dto@, derefs(fields@), enums@, is_patch),
{
    let parses = render_pieces(Piece::Parse, fields, enums, dto);
    let assigns = render_pieces(if is_patch { Piece::AssignPatch } else { Piece::Assign }, fields, enums, dto);
    let mut out = owned("(|| -> ::std::result::Result<");
    out.append(dto);
    out.append(", MeltDown> {\n");
    out.append(parses.as_str());
    out.append("            Ok(");
    out.append(dto);
    out.append(" {\n");
    out.append(assigns.as_str());
    out.append("            })\n");
    out.append("        })()");
    out
}

/// Enum type names used by the fields, in lexicographic order, each once.
pub open spec fn used_enum_names(fs: Seq<Field>, enums: Seq<ParsedEnum>) -> Seq<Seq<char>>
    decreases fs.len(),
{
    if fs.len() == 0 {
        seq![]
    } else {
        match form_enum_index(enums, fs.last().1.sql_type@) {
            Some(i) => used_enum_names(fs.drop_last(), enums).push(pascalize_spec(enums[i].name@)),
            None => used_enum_names(fs.drop_last(), enums),
        }
    }
}

pub open spec fn enum_use_line() -> spec_fn(Seq<char>) -> Seq<char> {
    |ty: Seq<char>| "use crate::structs::generated::enums::"@ + ty + ";\n"@
}

pub open spec fn enum_uses_spec(fs: Seq<Field>, enums: Seq<ParsedEnum>) -> Seq<char> {
    concat_map(sorted_distinct(used_enum_names(fs, enums)), enum_use_line())
}

fn collect_used_enum_types(fields: &Vec<&Field>, enums: &[ParsedEnum]) -> (r: Vec<String>)
    ensures
        views(r@) == sorted_distinct(used_enum_names(derefs(fields@), enums@)),
{
    let ghost fs = derefs(fields@);
    let mut names: Vec<String> = Vec::new();
    let mut i: usize = 0;
    assert(fs.take(0) =~= Seq::<Field>::empty());
    assert(views(names@) =~= Seq::<Seq<char>>::empty());
    while i < fields.len()
        invariant
            i <= fields.len(),
            fs == derefs(fields@),
            views(names@) == used_enum_names(fs.take(i as int), enums@),
        decreases fields.len() - i,
    {
        let ghost t = fs.take(i + 1);
        assert(t.drop_last() =~= fs.take(i as int));
        assert(t.last() == *fields@[i as int]);
        match find_enum_index(&fields[i].1, enums) {
            Some(k) => {
                let ty = pascalize(enums[k].name.as_str());
                let ghost before = views(names@);
                let ghost tv = ty@;
                names.push(ty);
                assert(views(names@) =~= before.push(tv));
            },
            None => {},
        }
        i = i + 1;
    }
    assert(fs.take(fields.len() as int) =~= fs);
    sort_dedup_strings(names)
}

fn render_enum_uses(fields: &Vec<&Field>, enums: &[ParsedEnum]) -> (r: String)
    ensures
        r@ == enum_uses_spec(derefs(fields@), enums@),
{
    let tys = collect_used_enum_types(fields, enums);
    let ghost vs = views(tys@);
    let mut out = String::new();
    let mut i: usize = 0;
    assert(vs.take(0) =~= Seq::<Seq<char>>::empty());
    while i < tys.len()
        invariant
            i <= tys.len(),
            vs == views(tys@),
            out@ == concat_map(vs.take(i as int), enum_use_line()),
        decreases tys.len() - i,
    {
        out.append("use crate::structs::generated::enums::");
        out.append(tys[i].as_str());
        out.append(";\n");
        proof {
            lemma_concat_map_step(vs, i as int, enum_use_line());
            assert(vs[i as int] == tys@[i as int]@);
        }
        i = i + 1;
    }
    proof {
        lemma_concat_map_all(vs, enum_use_line());
    }
    out
}

/// The component import list (already in sorted order).
pub open spec fn components_spec(fs: Seq<Field>, enums: Seq<ParsedEnum>) -> Seq<char> {
    if textline_with_rules(fs, enums) {
        "Button, ErrorBanner, FieldError, LinkButton, ValidatedInput"@
    } else {
        "Button, ErrorBanner, FieldError, LinkButton"@
    }
}

fn render_components(fields: &Vec<&Field>, enums: &[ParsedEnum]) -> (r: String)
    ensures
        r@ == components_spec(derefs(fields@), enums@),
{
    if any_textline_with_rules(fields, enums) {
        owned("Button, ErrorBanner, FieldError, LinkButton, ValidatedInput")
    } else {
        owned("Button, ErrorBanner, FieldError, LinkButton")
    }
}

// ---------------------------------------------------------------------------
// Forms
// ---------------------------------------------------------------------------

/// The insertable, non-primary-key fields of a resource.
pub open spec fn create_fields(r: ResourceState) -> Seq<Field> {
    non_pk(variant_fields(r.fields@, FieldVariant::Insertable))
}

/// The patchable, non-primary-key fields of a resource.
pub open spec fn edit_fields(r: ResourceState) -> Seq<Field> {
    non_pk(variant_fields(r.fields@, FieldVariant::Patch))
}

pub open spec fn create_form_spec(r: ResourceState, enums: Seq<ParsedEnum>) -> Seq<char> {
    let stem = type_stem_spec(r);
    let fs = create_fields(r);
    "use std::collections::HashMap;\nuse leptos::ev::SubmitEvent;\nuse leptos::prelude::*;\nuse leptos::task::spawn_local;\n\nuse crate::meltdown::MeltDown;\nuse crate::structs::generated::"@
        + r.name@
        + "::{"@
        + stem
        + "Insertable, "@
        + stem
        + "Public};\n"@
        + enum_uses_spec(fs, enums)
        + "use crate::structs::vendored::validators::Validate;\nuse crate::structs::vendored::leptos::{ButtonKind, RouteName};\nuse crate::views::components::{"@
        + components_spec(fs, enums)
        + "};\nuse crate::views::signals::dispatch_form_error;\nuse crate::views::signals::nav::use_blocking_navigate;\nuse crate::views::signals::toast;\nuse crate::transport::leptos::data::generated::"@
        + r.name@
        + "::do_"@
        + r.name@
        + "_create;\n\n#[component]\npub fn "@
        + stem
        + "CreateForm() -> impl IntoView {\n    let cancel_href = RouteName::ResourceList(\""@
        + r.name@
        + "\").path().to_string();\n    let navigate = StoredValue::new_local(use_blocking_navigate());\n\n"@
        + concat_map(fs, signal_piece(enums))
        + "    let pending: RwSignal<bool> = RwSignal::new(false);\n    let last_error: RwSignal<Option<MeltDown>> = RwSignal::new(None);\n    let field_errors: RwSignal<HashMap<String, String>> = RwSignal::new(HashMap::new());\n\n    let on_submit = move |ev: SubmitEvent| {\n        ev.prevent_default();\n        if pending.get_untracked() {\n            return;\n        }\n        field_errors.update(|m| m.clear());\n        last_error.set(None);\n        let parsed_result: ::std::result::Result<"@
        + stem
        + "Insertable, MeltDown> = "@
        + build_spec(stem + "Insertable"@, fs, enums, false)
        + ";\n        let parsed: "@
        + stem
        + "Insertable = match parsed_result {\n            Ok(p) => p,\n            Err(err) => {\n                err.log();\n                toast::error(err.user_message());\n                dispatch_form_error(err, field_errors, last_error);\n                return;\n            }\n        };\n        match parsed.check() {\n            Ok(()) => {}\n            Err(err) => {\n                err.log();\n                toast::error(err.user_message());\n                dispatch_form_error(err, field_errors, last_error);\n                return;\n            }\n        }\n        pending.set(true);\n        spawn_local(async move {\n            let outcome = do_"@
        + r.name@
        + "_create(parsed).await;\n            pending.set(false);\n            match outcome {\n                Ok(record) => {\n                    toast::success(\""@
        + stem
        + " created.\");\n                    let path = RouteName::ResourceDetail(\""@
        + r.name@
        + "\", record."@
        + pk_name_spec(r.fields@)
        + ").path().to_string();\n                    navigate.with_value(|nav| nav(&path));\n                }\n                Err(err) => {\n                    err.log();\n                    toast::error(err.user_message());\n                    dispatch_form_error(err, field_errors, last_error);\n                }\n            }\n        });\n    };\n\n    view! {\n        <form class=\"crud-form "@
        + r.name@
        + "-create-form\" on:submit=on_submit>\n"@
        + concat_map(fs, view_piece(enums, stem + "Insertable"@, false))
        + "            {move || last_error.get().map(|err| view! { <ErrorBanner error=err/> }.into_any())}\n            <div class=\"crud-form__actions\">\n                <LinkButton href=cancel_href.clone() kind=ButtonKind::Ghost>\"Cancel\"</LinkButton>\n                <Button kind=ButtonKind::Primary kind_attr=\"submit\".to_string() disabled=Signal::derive(move || pending.get())>\n                    {move || match pending.get() {\n                        true => \"Saving...\",\n                        false => \"Create\",\n                    }}\n                </Button>\n            </div>\n        </form>\n    }\n}\n"@
}

/// The Leptos create-form component of a resource.
pub fn render_create_form(resource: &ResourceState, enums: &[ParsedEnum]) -> (r: String)
    ensures
        r@ == create_form_spec(*resource, enums@),
{
    let table = resource.name.as_str();
    let stem = type_stem_for_resource(resource);
    let mut dto = owned(stem.as_str());
    dto.append("Insertable");
    let fields = drop_primary_key(fields_for_variant(resource, FieldVariant::Insertable));
    let pk = pk_field_name(resource);
    let enum_uses = render_enum_uses(&fields, enums);
    let components = render_components(&fields, enums);
    let signals = render_pieces(Piece::Signal, &fields, enums, dto.as_str());
    let build = render_build(dto.as_str(), &fields, enums, false);
    let views = render_pieces(Piece::View, &fields, enums, dto.as_str());
    let mut out = owned("use std::collections::HashMap;\nuse leptos::ev::SubmitEvent;\nuse leptos::prelude::*;\nuse leptos::task::spawn_local;\n\nuse crate::meltdown::MeltDown;\nuse crate::structs::generated::");
    out.append(table);
    out.append("::{");
    out.append(stem.as_str());
    out.append("Insertable, ");
    out.append(stem.as_str());
    out.append("Public};\n");
    out.append(enum_uses.as_str());
    out.append("use crate::structs::vendored::validators::Validate;\nuse crate::structs::vendored::leptos::{ButtonKind, RouteName};\nuse crate::views::components::{");
    out.append(components.as_str());
    out.append("};\nuse crate::views::signals::dispatch_form_error;\nuse crate::views::signals::nav::use_blocking_navigate;\nuse crate::views::signals::toast;\nuse crate::transport::leptos::data::generated::");
    out.append(table);
    out.append("::do_");
    out.append(table);
    out.append("_create;\n\n#[component]\npub fn ");
    out.append(stem.as_str());
    out.append("CreateForm() -> impl IntoView {\n    let cancel_href = RouteName::ResourceList(\"");
    out.append(table);
    out.append("\").path().to_string();\n    let navigate = StoredValue::new_local(use_blocking_navigate());\n\n");
    out.append(signals.as_str());
    out.append("    let pending: RwSignal<bool> = RwSignal::new(false);\n    let last_error: RwSignal<Option<MeltDown>> = RwSignal::new(None);\n    let field_errors: RwSignal<HashMap<String, String>> = RwSignal::new(HashMap::new());\n\n    let on_submit = move |ev: SubmitEvent| {\n        ev.prevent_default();\n        if pending.get_untracked() {\n            return;\n        }\n        field_errors.update(|m| m.clear());\n        last_error.set(None);\n        let parsed_result: ::std::result::Result<");
    out.append(stem.as_str());
    out.append("Insertable, MeltDown> = ");
    out.append(build.as_str());
    out.append(";\n        let parsed: ");
    out.append(stem.as_str());
    out.append("Insertable = match parsed_result {\n            Ok(p) => p,\n            Err(err) => {\n                err.log();\n                toast::error(err.user_message());\n                dispatch_form_error(err, field_errors, last_error);\n                return;\n            }\n        };\n        match parsed.check() {\n            Ok(()) => {}\n            Err(err) => {\n                err.log();\n                toast::error(err.user_message());\n                dispatch_form_error(err, field_errors, last_error);\n                return;\n            }\n        }\n        pending.set(true);\n        spawn_local(async move {\n            let outcome = do_");
    out.append(table);
    out.append("_create(parsed).await;\n            pending.set(false);\n            match outcome {\n                Ok(record) => {\n                    toast::success(\"");
    out.append(stem.as_str());
    out.append(" created.\");\n                    let path = RouteName::ResourceDetail(\"");
    out.append(table);
    out.append("\", record.");
    out.append(pk.as_str());
    out.append(").path().to_string();\n                    navigate.with_value(|nav| nav(&path));\n                }\n                Err(err) => {\n                    err.log();\n                    toast::error(err.user_message());\n                    dispatch_form_error(err, field_errors, last_error);\n                }\n            }\n        });\n    };\n\n    view! {\n        <form class=\"crud-form ");
    out.append(table);
    out.append("-create-form\" on:submit=on_submit>\n");
    out.append(views.as_str());
    out.append("            {move || last_error.get().map(|err| view! { <ErrorBanner error=err/> }.into_any())}\n            <div class=\"crud-form__actions\">\n                <LinkButton href=cancel_href.clone() kind=ButtonKind::Ghost>\"Cancel\"</LinkButton>\n                <Button kind=ButtonKind::Primary kind_attr=\"submit\".to_string() disabled=Signal::derive(move || pending.get())>\n                    {move || match pending.get() {\n                        true => \"Saving...\",\n                        false => \"Create\",\n                    }}\n                </Button>\n            </div>\n        </form>\n    }\n}\n");
    out
}

pub open spec fn edit_form_spec(r: ResourceState, enums: Seq<ParsedEnum>) -> Seq<char> {
    let stem = type_stem_spec(r);
    let fs = edit_fields(r);
    "use std::collections::HashMap;\nuse leptos::ev::SubmitEvent;\nuse leptos::prelude::*;\nuse leptos::task::spawn_local;\n\nuse crate::meltdown::MeltDown;\nuse crate::structs::generated::"@
        + r.name@
        + "::{"@
        + stem
        + "Patch, "@
        + stem
        + "Public};\n"@
        + enum_uses_spec(fs, enums)
        + "use crate::structs::vendored::validators::Validate;\nuse crate::structs::vendored::leptos::{ButtonKind, RouteName};\nuse crate::views::components::{"@
        + components_spec(fs, enums)
        + "};\nuse crate::views::signals::dispatch_form_error;\nuse crate::views::signals::nav::use_blocking_navigate;\nuse crate::views::signals::toast;\nuse crate::transport::leptos::data::generated::"@
        + r.name@
        + "::do_"@
        + r.name@
        + "_update;\n\n#[component]\npub fn "@
        + stem
        + "EditForm(initial: "@
        + stem
        + "Public) -> impl IntoView {\n    let row_id: "@
        + pk_rust_spec(r.fields@)
        + " = initial."@
        + pk_name_spec(r.fields@)
        + ".clone();\n    let cancel_href = RouteName::ResourceDetail(\""@
        + r.name@
        + "\", row_id.clone()).path().to_string();\n    let navigate = StoredValue::new_local(use_blocking_navigate());\n\n"@
        + concat_map(fs, signal_init_piece(enums))
        + "    let pending: RwSignal<bool> = RwSignal::new(false);\n    let last_error: RwSignal<Option<MeltDown>> = RwSignal::new(None);\n    let field_errors: RwSignal<HashMap<String, String>> = RwSignal::new(HashMap::new());\n\n    let on_submit = move |ev: SubmitEvent| {\n        ev.prevent_default();\n        if pending.get_untracked() {\n            return;\n        }\n        field_errors.update(|m| m.clear());\n        last_error.set(None);\n        let patch_result: ::std::result::Result<"@
        + stem
        + "Patch, MeltDown> = "@
        + build_spec(stem + "Patch"@, fs, enums, true)
        + ";\n        let patch: "@
        + stem
        + "Patch = match patch_result {\n            Ok(p) => p,\n            Err(err) => {\n                err.log();\n                toast::error(err.user_message());\n                dispatch_form_error(err, field_errors, last_error);\n                return;\n            }\n        };\n        match patch.check() {\n            Ok(()) => {}\n            Err(err) => {\n                err.log();\n                toast::error(err.user_message());\n                dispatch_form_error(err, field_errors, last_error);\n                return;\n            }\n        }\n        pending.set(true);\n        let captured_id = row_id.clone();\n        spawn_local(async move {\n            let outcome = do_"@
        + r.name@
        + "_update(captured_id, patch).await;\n            pending.set(false);\n            match outcome {\n                Ok(record) => {\n                    toast::success(\""@
        + stem
        + " saved.\");\n                    let path = RouteName::ResourceDetail(\""@
        + r.name@
        + "\", record."@
        + pk_name_spec(r.fields@)
        + ").path().to_string();\n                    navigate.with_value(|nav| nav(&path));\n                }\n                Err(err) => {\n                    err.log();\n                    toast::error(err.user_message());\n                    dispatch_form_error(err, field_errors, last_error);\n                }\n            }\n        });\n    };\n\n    view! {\n        <form class=\"crud-form "@
        + r.name@
        + "-edit-form\" on:submit=on_submit>\n"@
        + concat_map(fs, view_piece(enums, stem + "Patch"@, true))
        + "            {move || last_error.get().map(|err| view! { <ErrorBanner error=err/> }.into_any())}\n            <div class=\"crud-form__actions\">\n                <LinkButton href=cancel_href.clone() kind=ButtonKind::Ghost>\"Cancel\"</LinkButton>\n                <Button kind=ButtonKind::Primary kind_attr=\"submit\".to_string() disabled=Signal::derive(move || pending.get())>\n                    {move || match pending.get() {\n                        true => \"Saving...\",\n                        false => \"Save\",\n                    }}\n                </Button>\n            </div>\n        </form>\n    }\n}\n"@
}

/// The Leptos edit-form component of a resource.
pub fn render_edit_form(resource: &ResourceState, enums: &[ParsedEnum]) -> (r: String)
    ensures
        r@ == edit_form_spec(*resource, enums@),
{
    let table = resource.name.as_str();
    let stem = type_stem_for_resource(resource);
    let mut dto = owned(stem.as_str());
    dto.append("Patch");
    let pk_ty = pk_rust_type(resource);
    let fields = drop_primary_key(fields_for_variant(resource, FieldVariant::Patch));
    let pk = pk_field_name(resource);
    let enum_uses = render_enum_uses(&fields, enums);
    let components = render_components(&fields, enums);
    let signals = render_pieces(Piece::SignalInit, &fields, enums, dto.as_str());
    let build = render_build(dto.as_str(), &fields, enums, true);
    let views = render_pieces(Piece::ViewAll, &fields, enums, dto.as_str());
    let mut out = owned("use std::collections::HashMap;\nuse leptos::ev::SubmitEvent;\nuse leptos::prelude::*;\nuse leptos::task::spawn_local;\n\nuse crate::meltdown::MeltDown;\nuse crate::structs::generated::");
    out.append(table);
    out.append("::{");
    out.append(stem.as_str());
    out.append("Patch, ");
    out.append(stem.as_str());
    out.append("Public};\n");
    out.append(enum_uses.as_str());
    out.append("use crate::structs::vendored::validators::Validate;\nuse crate::structs::vendored::leptos::{ButtonKind, RouteName};\nuse crate::views::components::{");
    out.append(components.as_str());
    out.append("};\nuse crate::views::signals::dispatch_form_error;\nuse crate::views::signals::nav::use_blocking_navigate;\nuse crate::views::signals::toast;\nuse crate::transport::leptos::data::generated::");
    out.append(table);
    out.append("::do_");
    out.append(table);
    out.append("_update;\n\n#[component]\npub fn ");
    out.append(stem.as_str());
    out.append("EditForm(initial: ");
    out.append(stem.as_str());
    out.append("Public) -> impl IntoView {\n    let row_id: ");
    out.append(pk_ty.as_str());
    out.append(" = initial.");
    out.append(pk.as_str());
    out.append(".clone();\n    let cancel_href = RouteName::ResourceDetail(\"");
    out.append(table);
    out.append("\", row_id.clone()).path().to_string();\n    let navigate = StoredValue::new_local(use_blocking_navigate());\n\n");
    out.append(signals.as_str());
    out.append("    let pending: RwSignal<bool> = RwSignal::new(false);\n    let last_error: RwSignal<Option<MeltDown>> = RwSignal::new(None);\n    let field_errors: RwSignal<HashMap<String, String>> = RwSignal::new(HashMap::new());\n\n    let on_submit = move |ev: SubmitEvent| {\n        ev.prevent_default();\n        if pending.get_untracked() {\n            return;\n        }\n        field_errors.update(|m| m.clear());\n        last_error.set(None);\n        let patch_result: ::std::result::Result<");
    out.append(stem.as_str());
    out.append("Patch, MeltDown> = ");
    out.append(build.as_str());
    out.append(";\n        let patch: ");
    out.append(stem.as_str());
    out.append("Patch = match patch_result {\n            Ok(p) => p,\n            Err(err) => {\n                err.log();\n                toast::error(err.user_message());\n                dispatch_form_error(err, field_errors, last_error);\n                return;\n            }\n        };\n        match patch.check() {\n            Ok(()) => {}\n            Err(err) => {\n                err.log();\n                toast::error(err.user_message());\n                dispatch_form_error(err, field_errors, last_error);\n                return;\n            }\n        }\n        pending.set(true);\n        let captured_id = row_id.clone();\n        spawn_local(async move {\n            let outcome = do_");
    out.append(table);
    out.append("_update(captured_id, patch).await;\n            pending.set(false);\n            match outcome {\n                Ok(record) => {\n                    toast::success(\"");
    out.append(stem.as_str());
    out.append(" saved.\");\n                    let path = RouteName::ResourceDetail(\"");
    out.append(table);
    out.append("\", record.");
    out.append(pk.as_str());
    out.append(").path().to_string();\n                    navigate.with_value(|nav| nav(&path));\n                }\n                Err(err) => {\n                    err.log();\n                    toast::error(err.user_message());\n                    dispatch_form_error(err, field_errors, last_error);\n                }\n            }\n        });\n    };\n\n    view! {\n        <form class=\"crud-form ");
    out.append(table);
    out.append("-edit-form\" on:submit=on_submit>\n");
    out.append(views.as_str());
    out.append("            {move || last_error.get().map(|err| view! { <ErrorBanner error=err/> }.into_any())}\n            <div class=\"crud-form__actions\">\n                <LinkButton href=cancel_href.clone() kind=ButtonKind::Ghost>\"Cancel\"</LinkButton>\n                <Button kind=ButtonKind::Primary kind_attr=\"submit\".to_string() disabled=Signal::derive(move || pending.get())>\n                    {move || match pending.get() {\n                        true => \"Saving...\",\n                        false => \"Save\",\n                    }}\n                </Button>\n            </div>\n        </form>\n    }\n}\n");
    out
}


// ---------------------------------------------------------------------------
// Barrels and data stubs
// ---------------------------------------------------------------------------

/// The resource has an edit form: it declares `Update` and has a primary key.
pub open spec fn has_edit_spec(r: ResourceState) -> bool {
    r.declares(Verb::Update) && pk_index(r.fields@) is Some
}

pub open spec fn form_barrel_spec(r: ResourceState) -> Seq<char> {
    let stem = type_stem_spec(r);
    let c = r.declares(Verb::Create);
    let e = has_edit_spec(r);
    (if c { "pub mod create_form;\n"@ } else { Seq::<char>::empty() })
        + (if e { "pub mod edit_form;\n"@ } else { Seq::<char>::empty() })
        + (if c || e { "\n"@ } else { Seq::<char>::empty() })
        + (if c { "pub use create_form::"@ + stem + "CreateForm;\n"@ } else { Seq::<char>::empty() })
        + (if e { "pub use edit_form::"@ + stem + "EditForm;\n"@ } else { Seq::<char>::empty() })
}

/// `mod.rs` of one resource's form directory.
pub fn render_resource_form_barrel(resource: &ResourceState) -> (r: String)
    ensures
        r@ == form_barrel_spec(*resource),
{
    let stem = type_stem_for_resource(resource);
    let has_create = resource.has_verb(Verb::Create);
    let has_edit = resource.has_verb(Verb::Update) && primary_key_field(resource).is_some();
    let mut out = String::new();
    let ghost s0 = out@;
    if has_create {
        out.append("pub mod create_form;\n");
    }
    let ghost s1 = out@;
    if has_edit {
        out.append("pub mod edit_form;\n");
    }
    let ghost s2 = out@;
    if has_create || has_edit {
        out.append("\n");
    }
    let ghost s3 = out@;
    if has_create {
        out.append("pub use create_form::");
        out.append(stem.as_str());
        out.append("CreateForm;\n");
    }
    let ghost s4 = out@;
    if has_edit {
        out.append("pub use edit_form::");
        out.append(stem.as_str());
        out.append("EditForm;\n");
    }
    proof {
        assert(s0 =~= Seq::<char>::empty());
    }
    assert(out@ =~= form_barrel_spec(*resource));
    out
}

pub open spec fn create_stub_spec(table: Seq<char>, stem: Seq<char>) -> Seq<char> {
    "pub async fn do_"@ + table + "_create(input: "@ + stem + "Insertable) -> ::std::result::Result<"@ + stem
        + "Public, MeltDown> {\n    drop(input);\n    Err(MeltDown::new(MeltType::Unexpected(\"not_implemented\".to_string()), \"do_"@
        + table + "_create not yet implemented\"))\n}\n\n"@
}

pub open spec fn update_stub_spec(table: Seq<char>, stem: Seq<char>, pk_ty: Seq<char>) -> Seq<char> {
    "pub async fn do_"@ + table + "_update(id: "@ + pk_ty + ", patch: "@ + stem
        + "Patch) -> ::std::result::Result<"@ + stem
        + "Public, MeltDown> {\n    drop(id);\n    drop(patch);\n    Err(MeltDown::new(MeltType::Unexpected(\"not_implemented\".to_string()), \"do_"@
        + table + "_update not yet implemented\"))\n}\n\n"@
}

pub open spec fn data_stub_spec(r: ResourceState) -> Seq<char> {
    let table = r.name@;
    let stem = type_stem_spec(r);
    "use crate::meltdown::{MeltDown, MeltType};\nuse crate::structs::generated::"@ + table + "::{"@ + stem
        + "Insertable, "@ + stem + "Patch, "@ + stem + "Public};\n\n"@
        + (if r.declares(Verb::Create) { create_stub_spec(table, stem) } else { Seq::<char>::empty() })
        + (if has_edit_spec(r) { update_stub_spec(table, stem, pk_rust_spec(r.fields@)) } else { Seq::<char>::empty() })
}

fn render_create_stub(table: &str, stem: &str) -> (r: String)
    ensures
        r@ == create_stub_spec(table@, stem@),
{
    let mut out = owned("pub async fn do_");
    out.append(table);
    out.append("_create(input: ");
    out.append(stem);
    out.append("Insertable) -> ::std::result::Result<");
    out.append(stem);
    out.append("Public, MeltDown> {\n    drop(input);\n    Err(MeltDown::new(MeltType::Unexpected(\"not_implemented\".to_string()), \"do_");
    out.append(table);
    out.append("_create not yet implemented\"))\n}\n\n");
    out
}

fn render_update_stub(table: &str, stem: &str, pk_ty: &str) -> (r: String)
    ensures
        r@ == update_stub_spec(table@, stem@, pk_ty@),
{
    let mut out = owned("pub async fn do_");
    out.append(table);
    out.append("_update(id: ");
    out.append(pk_ty);
    out.append(", patch: ");
    out.append(stem);
    out.append("Patch) -> ::std::result::Result<");
    out.append(stem);
    out.append("Public, MeltDown> {\n    drop(id);\n    drop(patch);\n    Err(MeltDown::new(MeltType::Unexpected(\"not_implemented\".to_string()), \"do_");
    out.append(table);
    out.append("_update not yet implemented\"))\n}\n\n");
    out
}

/// Placeholder data-layer functions the forms call.
pub fn render_data_stub(resource: &ResourceState) -> (r: String)
    ensures
        r@ == data_stub_spec(*resource),
{
    let table = resource.name.as_str();
    let stem = type_stem_for_resource(resource);
    let mut out = owned("use crate::meltdown::{MeltDown, MeltType};\nuse crate::structs::generated::");
    out.append(table);
    out.append("::{");
    out.append(stem.as_str());
    out.append("Insertable, ");
    out.append(stem.as_str());
    out.append("Patch, ");
    out.append(stem.as_str());
    out.append("Public};\n\n");
    let ghost head = out@;
    if resource.has_verb(Verb::Create) {
        let c = render_create_stub(table, stem.as_str());
        out.append(c.as_str());
    }
    let ghost mid = out@;
    if resource.has_verb(Verb::Update) && primary_key_field(resource).is_some() {
        let pk_ty = pk_rust_type(resource);
        let u = render_update_stub(table, stem.as_str(), pk_ty.as_str());
        out.append(u.as_str());
    }
    assert(out@ =~= data_stub_spec(*resource));
    out
}

/// The views of a slice of string slices.
pub open spec fn str_views(v: Seq<&str>) -> Seq<Seq<char>> {
    v.map_values(|s: &str| s@)
}

fn owned_all(v: &[&str]) -> (r: Vec<String>)
    ensures
        views(r@) == str_views(v@),
{
    let mut r: Vec<String> = Vec::new();
    let mut i: usize = 0;
    while i < v.len()
        invariant
            i <= v@.len(),
            views(r@) == str_views(v@.take(i as int)),
        decreases v@.len() - i,
    {
        let ghost before = views(r@);
        let s = owned(v[i]);
        r.push(s);
        assert(views(r@) =~= before.push(v@[i as int]@));
        assert(str_views(v@.take(i + 1)) =~= str_views(v@.take(i as int)).push(v@[i as int]@));
        i = i + 1;
    }
    assert(v@.take(v@.len() as int) =~= v@);
    r
}

pub open spec fn mod_line() -> spec_fn(Seq<char>) -> Seq<char> {
    |t: Seq<char>| "pub mod "@ + t + ";\n"@
}

/// One `pub mod <name>;` line per name, names in lexicographic order.
pub open spec fn mod_lines_spec(tables: Seq<&str>) -> Seq<char> {
    concat_map(str_views(tables).sort_by(lex()), mod_line())
}

fn sorted_mod_lines(tables: &[&str]) -> (r: String)
    ensures
        r@ == mod_lines_spec(tables@),
{
    let sorted = sort_strings(owned_all(tables));
    let ghost vs = views(sorted@);
    let mut out = String::new();
    let mut i: usize = 0;
    assert(vs.take(0) =~= Seq::<Seq<char>>::empty());
    while i < sorted.len()
        invariant
            i <= sorted.len(),
            vs == views(sorted@),
            out@ == concat_map(vs.take(i as int), mod_line()),
        decreases sorted.len() - i,
    {
        out.append("pub mod ");
        out.append(sorted[i].as_str());
        out.append(";\n");
        proof {
            lemma_concat_map_step(vs, i as int, mod_line());
            assert(vs[i as int] == sorted@[i as int]@);
        }
        i = i + 1;
    }
    proof {
        lemma_concat_map_all(vs, mod_line());
    }
    out
}

/// `mod.rs` of the generated data directory: one module per table, sorted.
pub fn render_data_barrel(tables: &[&str]) -> (r: String)
    ensures
        r@ == mod_lines_spec(tables@),
{
    sorted_mod_lines(tables)
}

/// `mod.rs` of the generated forms directory: one module per table, sorted.
pub fn render_top_forms_barrel(tables: &[&str]) -> (r: String)
    ensures
        r@ == mod_lines_spec(tables@),
{
    sorted_mod_lines(tables)
}

/// `mod.rs` of the generated components directory.
pub fn render_components_generated_mod() -> (r: String)
    ensures
        r@ == "pub mod forms;\n"@,
{
    owned("pub mod forms;\n")
}

} // verus!
