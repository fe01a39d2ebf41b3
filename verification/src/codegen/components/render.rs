//! Vue (PrimeVue) create/edit form components for one resource.
use vstd::prelude::*;
use vstd::string::*;
use crate::codegen::components::input_map::{
    calendar_show_time, calendar_time_only, enum_meta, enum_meta_spec, enum_options_const_name, enum_type_alias,
    is_bool, is_calendar, is_json, is_number, primevue_component, primevue_spec,
};
use crate::codegen::enums::scan::ParsedEnum;
use crate::codegen::leptos_forms::render::{derefs, drop_primary_key, fields_for_variant, non_pk, variant_fields};
use crate::codegen::naming::{humanize_spec, options_const_spec, type_alias_spec};
use crate::codegen::sql::{sql_key};
use crate::codegen::structs_naming::{type_stem_for_resource, type_stem_spec};
use crate::state::{Field, FieldVariant, ResourceState, SqlType};
use crate::text::{
    concat_map, lemma_concat_map_all, lemma_concat_map_step, lower_seq, owned, sort_dedup_strings,
    sorted_distinct, str_eq, to_ascii_lower, views,
};

pub use crate::codegen::naming::humanize;

verus! {

/// The non-primary-key fields of one struct variant, in declaration order.
pub open spec fn form_fields(r: ResourceState, v: FieldVariant) -> Seq<Field> {
    non_pk(variant_fields(r.fields@, v))
}

pub fn collect_fields<'a>(resource: &'a ResourceState, variant: FieldVariant) -> (r: Vec<&'a Field>)
    ensures
        derefs(r@) == form_fields(*resource, variant),
{
    drop_primary_key(fields_for_variant(resource, variant))
}

/// The initial form value of a column.
pub open spec fn empty_value_spec(sql: SqlType, nullable: bool, enums: Seq<ParsedEnum>) -> Seq<char> {
    let l = sql_key(sql);
    match enum_meta_spec(enums, sql@) {
        Some((name, _)) => if nullable {
            "null"@
        } else {
            options_const_spec(name) + "[0]"@
        },
        None => if nullable {
            "null"@
        } else if crate::codegen::sql::is_bool(l) {
            "false"@
        } else if crate::codegen::sql::is_number(l) {
            "0"@
        } else if crate::codegen::sql::is_temporal(l) {
            "null"@
        } else {
            "''"@
        },
    }
}

/// The initial form value of a column (TypeScript literal).
pub fn empty_value(sql: &SqlType, nullable: bool, enums: &[ParsedEnum]) -> (r: String)
    ensures
        r@ == empty_value_spec(*sql, nullable, enums@),
{
    match enum_meta(sql, enums) {
        Some((name, _variants)) => {
            if nullable {
                return owned("null");
            }
            let mut s = enum_options_const_name(name.as_str());
            s.append("[0]");
            return s;
        },
        None => {},
    }
    if nullable {
        return owned("null");
    }
    if is_bool(sql) {
        return owned("false");
    }
    if is_number(sql) {
        return owned("0");
    }
    if is_calendar(sql) {
        return owned("null");
    }
    if is_json(sql) {
        return owned("''");
    }
    owned("''")
}

// ---------------------------------------------------------------------------
// Import blocks
// ---------------------------------------------------------------------------

/// The PrimeVue component of each field.
pub open spec fn comp_names(fs: Seq<Field>, enums: Seq<ParsedEnum>) -> Seq<Seq<char>> {
    fs.map_values(|f: Field| primevue_spec(f.1.sql_type@, enums))
}

pub open spec fn primevue_line() -> spec_fn(Seq<char>) -> Seq<char> {
    |c: Seq<char>| "import "@ + c + " from 'primevue/"@ + lower_seq(c) + "'\n"@
}

/// One import per distinct component, in lexicographic order.
pub open spec fn primevue_imports_spec(fs: Seq<Field>, enums: Seq<ParsedEnum>) -> Seq<char> {
    concat_map(sorted_distinct(comp_names(fs, enums)), primevue_line())
}

fn render_primevue_imports(fields: &[&Field], enums: &[ParsedEnum]) -> (r: String)
    ensures
        r@ == primevue_imports_spec(derefs(fields@), enums@),
{
    let ghost fs = derefs(fields@);
    let mut seen: Vec<String> = Vec::new();
    let mut i: usize = 0;
    while i < fields.len()
        invariant
            i <= fields@.len(),
            fs == derefs(fields@),
            views(seen@) == comp_names(fs.take(i as int), enums@),
        decreases fields@.len() - i,
    {
        let ghost before = views(seen@);
        let c = owned(primevue_component(&fields[i].1.sql_type, enums));
        seen.push(c);
        assert(views(seen@) =~= before.push(c@));
        assert(comp_names(fs.take(i + 1), enums@) =~= comp_names(fs.take(i as int), enums@).push(
            primevue_spec(fs[i as int].1.sql_type@, enums@),
        ));
        i = i + 1;
    }
    assert(fs.take(fields@.len() as int) =~= fs);
    let sorted = sort_dedup_strings(seen);
    let ghost vs = views(sorted@);
    let mut out = String::new();
    let mut k: usize = 0;
    assert(vs.take(0) =~= Seq::<Seq<char>>::empty());
    while k < sorted.len()
        invariant
            k <= sorted.len(),
            vs == views(sorted@),
            out@ == concat_map(vs.take(k as int), primevue_line()),
        decreases sorted.len() - k,
    {
        let lower = to_ascii_lower(sorted[k].as_str());
        out.append("import ");
        out.append(sorted[k].as_str());
        out.append(" from 'primevue/");
        out.append(lower.as_str());
        out.append("'\n");
        proof {
            lemma_concat_map_step(vs, k as int, primevue_line());
            assert(vs[k as int] == sorted@[k as int]@);
        }
        k = k + 1;
    }
    proof {
        lemma_concat_map_all(vs, primevue_line());
    }
    out
}

/// The enum names the fields refer to, in field order (repeats kept).
pub open spec fn enum_names_of(fs: Seq<Field>, enums: Seq<ParsedEnum>) -> Seq<Seq<char>>
    decreases fs.len(),
{
    if fs.len() == 0 {
        seq![]
    } else {
        match enum_meta_spec(enums, fs.last().1.sql_type@) {
            Some((n, _)) => enum_names_of(fs.drop_last(), enums).push(n),
            None => enum_names_of(fs.drop_last(), enums),
        }
    }
}

/// The elements of `s` in order of first occurrence, each once.
pub open spec fn uniq(s: Seq<Seq<char>>) -> Seq<Seq<char>>
    decreases s.len(),
{
    if s.len() == 0 {
        seq![]
    } else if s.drop_last().contains(s.last()) {
        uniq(s.drop_last())
    } else {
        uniq(s.drop_last()).push(s.last())
    }
}

pub proof fn lemma_uniq_contains(s: Seq<Seq<char>>, x: Seq<char>)
    ensures
        uniq(s).contains(x) <==> s.contains(x),
    decreases s.len(),
{
    if s.len() > 0 {
        lemma_uniq_contains(s.drop_last(), x);
        lemma_uniq_contains(s.drop_last(), s.last());
        assert(s =~= s.drop_last().push(s.last()));
        if s.contains(x) {
            let j = choose|j: int| 0 <= j < s.len() && s[j] == x;
            if j < s.len() - 1 {
                assert(s.drop_last()[j] == x);
            }
        }
        if s.drop_last().contains(x) {
            let j = choose|j: int| 0 <= j < s.drop_last().len() && s.drop_last()[j] == x;
            assert(s[j] == x);
        }
        let u = uniq(s.drop_last());
        if !s.drop_last().contains(s.last()) {
            assert(uniq(s) == u.push(s.last()));
            if u.push(s.last()).contains(x) {
                let j = choose|j: int| 0 <= j < u.push(s.last()).len() && u.push(s.last())[j] == x;
                if j < u.len() {
                    assert(u[j] == x);
                }
            }
            if u.contains(x) {
                let j = choose|j: int| 0 <= j < u.len() && u[j] == x;
                assert(u.push(s.last())[j] == x);
            }
            assert(u.push(s.last())[u.len() as int] == s.last());
        }
    }
}

fn contains_string(v: &Vec<String>, s: &str) -> (r: bool)
    ensures
        r == views(v@).contains(s@),
{
    let mut i: usize = 0;
    while i < v.len()
        invariant
            i <= v.len(),
            forall|j: int| 0 <= j < i ==> views(v@)[j] != s@,
        decreases v.len() - i,
    {
        if str_eq(v[i].as_str(), s) {
            assert(views(v@)[i as int] == s@);
            return true;
        }
        i = i + 1;
    }
    false
}

pub open spec fn enum_import_line() -> spec_fn(Seq<char>) -> Seq<char> {
    |name: Seq<char>| "import { "@ + options_const_spec(name) + " } from '@/generated/types/"@ + name + "'\n"@
        + "import type { "@ + type_alias_spec(name) + " } from '@/generated/types/"@ + name + "'\n"@
}

/// Value and type imports of each distinct enum, in order of first use.
pub open spec fn enum_imports_spec(fs: Seq<Field>, enums: Seq<ParsedEnum>) -> Seq<char> {
    concat_map(uniq(enum_names_of(fs, enums)), enum_import_line())
}

pub fn render_enum_imports(fields: &[&Field], enums: &[ParsedEnum]) -> (r: String)
    ensures
        r@ == enum_imports_spec(derefs(fields@), enums@),
{
    let ghost fs = derefs(fields@);
    let mut seen: Vec<String> = Vec::new();
    let mut i: usize = 0;
    assert(fs.take(0) =~= Seq::<Field>::empty());
    assert(views(seen@) =~= Seq::<Seq<char>>::empty());
    while i < fields.len()
        invariant
            i <= fields@.len(),
            fs == derefs(fields@),
            views(seen@) == uniq(enum_names_of(fs.take(i as int), enums@)),
        decreases fields@.len() - i,
    {
        let ghost t = fs.take(i + 1);
        assert(t.drop_last() =~= fs.take(i as int));
        assert(t.last() == *fields@[i as int]);
        match enum_meta(&fields[i].1.sql_type, enums) {
            Some((name, _variants)) => {
                proof {
                    lemma_uniq_contains(enum_names_of(fs.take(i as int), enums@), name@);
                    let en = enum_names_of(fs.take(i as int), enums@).push(name@);
                    assert(enum_names_of(t, enums@) == en);
                    assert(en.drop_last() =~= enum_names_of(fs.take(i as int), enums@));
                    assert(en.last() == name@);
                }
                if !contains_string(&seen, name.as_str()) {
                    let ghost before = views(seen@);
                    let ghost nv = name@;
                    seen.push(name);
                    assert(views(seen@) =~= before.push(nv));
                }
            },
            None => {
                assert(enum_names_of(t, enums@) == enum_names_of(fs.take(i as int), enums@));
            },
        }
        i = i + 1;
    }
    assert(fs.take(fields@.len() as int) =~= fs);
    render_enum_import_lines(&seen)
}

fn render_enum_import_line(name: &str) -> (r: String)
    ensures
        r@ == enum_import_line()(name@),
{
    let alias = enum_type_alias(name);
    let const_name = enum_options_const_name(name);
    let mut out = owned("import { ");
    out.append(const_name.as_str());
    out.append(" } from '@/generated/types/");
    out.append(name);
    out.append("'\n");
    out.append("import type { ");
    out.append(alias.as_str());
    out.append(" } from '@/generated/types/");
    out.append(name);
    out.append("'\n");
    out
}

fn render_enum_import_lines(seen: &Vec<String>) -> (r: String)
    ensures
        r@ == concat_map(views(seen@), enum_import_line()),
{
    let ghost vs = views(seen@);
    let mut out = String::new();
    let mut k: usize = 0;
    assert(vs.take(0) =~= Seq::<Seq<char>>::empty());
    while k < seen.len()
        invariant
            k <= seen.len(),
            vs == views(seen@),
            out@ == concat_map(vs.take(k as int), enum_import_line()),
        decreases seen.len() - k,
    {
        let line = render_enum_import_line(seen[k].as_str());
        out.append(line.as_str());
        proof {
            lemma_concat_map_step(vs, k as int, enum_import_line());
            assert(vs[k as int] == seen@[k as int]@);
        }
        k = k + 1;
    }
    proof {
        lemma_concat_map_all(vs, enum_import_line());
    }
    out
}

// ---------------------------------------------------------------------------
// Per-field blocks
// ---------------------------------------------------------------------------

/// Extra attributes of the PrimeVue element.
pub open spec fn attrs_spec(comp: Seq<char>, sql: SqlType, enums: Seq<ParsedEnum>) -> Seq<char> {
    let l = sql_key(sql);
    if comp == "Checkbox"@ {
        " :binary=\"true\""@
    } else if comp == "Calendar"@ {
        (if crate::codegen::sql::is_timestamp(l) || crate::codegen::sql::is_timestamptz(l)
            || crate::codegen::sql::is_time(l) {
            " show-time"@
        } else {
            Seq::<char>::empty()
        }) + (if l == lower_seq("time"@) { " time-only"@ } else { Seq::<char>::empty() })
    } else if comp == "Textarea"@ {
        " rows=\"4\""@
    } else if comp == "Dropdown"@ {
        match enum_meta_spec(enums, sql@) {
            Some((name, _)) => " :options=\""@ + options_const_spec(name) + "\""@,
            None => Seq::<char>::empty(),
        }
    } else {
        Seq::<char>::empty()
    }
}

fn render_attrs(component: &str, sql: &SqlType, enums: &[ParsedEnum]) -> (r: String)
    ensures
        r@ == attrs_spec(component@, *sql, enums@),
{
    if str_eq(component, "Checkbox") {
        owned(" :binary=\"true\"")
    } else if str_eq(component, "Calendar") {
        let mut s = String::new();
        if calendar_show_time(sql) {
            s.append(" show-time");
        }
        let ghost a = s@;
        if calendar_time_only(sql) {
            s.append(" time-only");
        }
        proof {
            reveal_strlit("");
        }
        assert(s@ =~= attrs_spec(component@, *sql, enums@));
        s
    } else if str_eq(component, "Textarea") {
        owned(" rows=\"4\"")
    } else if str_eq(component, "Dropdown") {
        match enum_meta(sql, enums) {
            Some((name, _variants)) => {
                let c = enum_options_const_name(name.as_str());
                let mut s = owned(" :options=\"");
                s.append(c.as_str());
                s.append("\"");
                s
            },
            None => String::new(),
        }
    } else {
        String::new()
    }
}

/// Which per-field block is rendered.
#[derive(Clone, Copy, PartialEq, Eq, Structural)]
pub enum FieldPiece {
    InitCreate,
    InitEdit,
    Template,
    Serialize,
}

pub open spec fn init_create_line(f: Field, enums: Seq<ParsedEnum>) -> Seq<char> {
    "  "@ + f.0@ + ": "@ + empty_value_spec(f.1.sql_type, f.1.nullable, enums) + ",\n"@
}

pub open spec fn init_edit_line(f: Field, enums: Seq<ParsedEnum>) -> Seq<char> {
    let k = f.0@;
    if crate::codegen::sql::is_temporal(sql_key(f.1.sql_type)) {
        "    "@ + k + ": typeof entity['"@ + k + "'] === 'string' ? new Date(entity['"@ + k
            + "'] as string) : null,\n"@
    } else {
        "    "@ + k + ": entity['"@ + k + "'] === undefined ? "@ + empty_value_spec(
            f.1.sql_type,
            f.1.nullable,
            enums,
        ) + " : entity['"@ + k + "'],\n"@
    }
}

pub open spec fn template_line(f: Field, enums: Seq<ParsedEnum>) -> Seq<char> {
    let k = f.0@;
    let comp = primevue_spec(f.1.sql_type@, enums);
    "    <div class=\"form-field\">\n      <label for=\"form-"@ + k + "\" class=\"form-field-label\">"@
        + humanize_spec(k) + "</label>\n      <"@ + comp + " id=\"form-"@ + k + "\" v-model=\"form."@ + k
        + "\""@ + attrs_spec(comp, f.1.sql_type, enums) + " />\n    </div>\n"@
}

pub open spec fn serialize_line(f: Field) -> Seq<char> {
    let k = f.0@;
    let l = sql_key(f.1.sql_type);
    if crate::codegen::sql::is_temporal(l) {
        "  payload['"@ + k + "'] = form['"@ + k + "'] instanceof Date ? (form['"@ + k
            + "'] as Date).toISOString() : form['"@ + k + "']\n"@
    } else if crate::codegen::sql::is_json(l) {
        "  if (typeof form['"@ + k + "'] === 'string' && form['"@ + k
            + "'] !== '') {\n    try {\n      payload['"@ + k + "'] = JSON.parse(form['"@ + k
            + "'] as string)\n    } catch (_e) {\n      submitting.value = false\n      error_message.value = 'Invalid JSON in "@
            + k + ".'\n      return\n    }\n  } else {\n    payload['"@ + k + "'] = form['"@ + k + "']\n  }\n"@
    } else {
        "  payload['"@ + k + "'] = form['"@ + k + "']\n"@
    }
}

pub open spec fn field_piece(p: FieldPiece, enums: Seq<ParsedEnum>) -> spec_fn(Field) -> Seq<char> {
    |f: Field| match p {
        FieldPiece::InitCreate => init_create_line(f, enums),
        FieldPiece::InitEdit => init_edit_line(f, enums),
        FieldPiece::Template => template_line(f, enums),
        FieldPiece::Serialize => serialize_line(f),
    }
}

fn render_init_create_line(f: &Field, enums: &[ParsedEnum]) -> (r: String)
    ensures
        r@ == init_create_line(*f, enums@),
{
    let e = empty_value(&f.1.sql_type, f.1.nullable, enums);
    let mut out = owned("  ");
    out.append(f.0.as_str());
    out.append(": ");
    out.append(e.as_str());
    out.append(",\n");
    out
}

fn render_init_edit_line(f: &Field, enums: &[ParsedEnum]) -> (r: String)
    ensures
        r@ == init_edit_line(*f, enums@),
{
    let k = f.0.as_str();
    if is_calendar(&f.1.sql_type) {
        let mut out = owned("    ");
        out.append(k);
        out.append(": typeof entity['");
        out.append(k);
        out.append("'] === 'string' ? new Date(entity['");
        out.append(k);
        out.append("'] as string) : null,\n");
        out
    } else {
        let fallback = empty_value(&f.1.sql_type, f.1.nullable, enums);
        let mut out = owned("    ");
        out.append(k);
        out.append(": entity['");
        out.append(k);
        out.append("'] === undefined ? ");
        out.append(fallback.as_str());
        out.append(" : entity['");
        out.append(k);
        out.append("'],\n");
        out
    }
}

fn render_template_line(f: &Field, enums: &[ParsedEnum]) -> (r: String)
    ensures
        r@ == template_line(*f, enums@),
{
    let k = f.0.as_str();
    let label = humanize(k);
    let comp = primevue_component(&f.1.sql_type, enums);
    let attrs = render_attrs(comp, &f.1.sql_type, enums);
    let mut out = owned("    <div class=\"form-field\">\n      <label for=\"form-");
    out.append(k);
    out.append("\" class=\"form-field-label\">");
    out.append(label.as_str());
    out.append("</label>\n      <");
    out.append(comp);
    out.append(" id=\"form-");
    out.append(k);
    out.append("\" v-model=\"form.");
    out.append(k);
    out.append("\"");
    out.append(attrs.as_str());
    out.append(" />\n    </div>\n");
    out
}

fn render_serialize_line(f: &Field) -> (r: String)
    ensures
        r@ == serialize_line(*f),
{
    let k = f.0.as_str();
    if is_calendar(&f.1.sql_type) {
        let mut out = owned("  payload['");
        out.append(k);
        out.append("'] = form['");
        out.append(k);
        out.append("'] instanceof Date ? (form['");
        out.append(k);
        out.append("'] as Date).toISOString() : form['");
        out.append(k);
        out.append("']\n");
        out
    } else if is_json(&f.1.sql_type) {
        let mut out = owned("  if (typeof form['");
        out.append(k);
        out.append("'] === 'string' && form['");
        out.append(k);
        out.append("'] !== '') {\n    try {\n      payload['");
        out.append(k);
        out.append("'] = JSON.parse(form['");
        out.append(k);
        out.append("'] as string)\n    } catch (_e) {\n      submitting.value = false\n      error_message.value = 'Invalid JSON in ");
        out.append(k);
        out.append(".'\n      return\n    }\n  } else {\n    payload['");
        out.append(k);
        out.append("'] = form['");
        out.append(k);
        out.append("']\n  }\n");
        out
    } else {
        let mut out = owned("  payload['");
        out.append(k);
        out.append("'] = form['");
        out.append(k);
        out.append("']\n");
        out
    }
}

fn render_field_piece(p: FieldPiece, f: &Field, enums: &[ParsedEnum]) -> (r: String)
    ensures
        r@ == field_piece(p, enums@)(*f),
{
    match p {
        FieldPiece::InitCreate => render_init_create_line(f, enums),
        FieldPiece::InitEdit => render_init_edit_line(f, enums),
        FieldPiece::Template => render_template_line(f, enums),
        FieldPiece::Serialize => render_serialize_line(f),
    }
}

fn render_field_pieces(p: FieldPiece, fields: &[&Field], enums: &[ParsedEnum]) -> (r: String)
    ensures
        r@ == concat_map(derefs(fields@), field_piece(p, enums@)),
{
    let ghost fs = derefs(fields@);
    let ghost g = field_piece(p, enums@);
    let mut out = String::new();
    let mut i: usize = 0;
    assert(fs.take(0) =~= Seq::<Field>::empty());
    while i < fields.len()
        invariant
            i <= fields@.len(),
            fs == derefs(fields@),
            g == field_piece(p, enums@),
            out@ == concat_map(fs.take(i as int), g),
        decreases fields@.len() - i,
    {
        let piece = render_field_piece(p, fields[i], enums);
        out.append(piece.as_str());
        proof {
            lemma_concat_map_step(fs, i as int, g);
            assert(fs[i as int] == *fields@[i as int]);
        }
        i = i + 1;
    }
    proof {
        lemma_concat_map_all(fs, g);
    }
    out
}

pub open spec fn initial_create_spec(fs: Seq<Field>, enums: Seq<ParsedEnum>) -> Seq<char> {
    "const form = reactive<{ [key: string]: unknown }>({\n"@ + concat_map(fs, field_piece(FieldPiece::InitCreate, enums))
        + "})\n"@
}

pub open spec fn initial_edit_spec(fs: Seq<Field>, enums: Seq<ParsedEnum>) -> Seq<char> {
    "function snapshot_from(entity: { [key: string]: unknown }): { [key: string]: unknown } {\n  return {\n"@
        + concat_map(fs, field_piece(FieldPiece::InitEdit, enums))
        + "  }\n}\nconst form = reactive<{ [key: string]: unknown }>(snapshot_from(props.entity as unknown as { [key: string]: unknown }))\nfunction reset_form(entity: { [key: string]: unknown }): void {\n  const next = snapshot_from(entity)\n  for (const key of Object.keys(form)) {\n    form[key] = next[key]\n  }\n}\n"@
}

pub open spec fn serialize_spec(fs: Seq<Field>) -> Seq<char> {
    "  const payload: { [key: string]: unknown } = {}\n"@ + concat_map(fs, field_piece(FieldPiece::Serialize, Seq::empty()))
}

fn render_initial_create(fields: &[&Field], enums: &[ParsedEnum]) -> (r: String)
    ensures
        r@ == initial_create_spec(derefs(fields@), enums@),
{
    let body = render_field_pieces(FieldPiece::InitCreate, fields, enums);
    let mut out = owned("const form = reactive<{ [key: string]: unknown }>({\n");
    out.append(body.as_str());
    out.append("})\n");
    out
}

fn render_initial_edit(fields: &[&Field], enums: &[ParsedEnum]) -> (r: String)
    ensures
        r@ == initial_edit_spec(derefs(fields@), enums@),
{
    let body = render_field_pieces(FieldPiece::InitEdit, fields, enums);
    let mut out = owned("function snapshot_from(entity: { [key: string]: unknown }): { [key: string]: unknown } {\n  return {\n");
    out.append(body.as_str());
    out.append("  }\n}\nconst form = reactive<{ [key: string]: unknown }>(snapshot_from(props.entity as unknown as { [key: string]: unknown }))\nfunction reset_form(entity: { [key: string]: unknown }): void {\n  const next = snapshot_from(entity)\n  for (const key of Object.keys(form)) {\n    form[key] = next[key]\n  }\n}\n");
    out
}

fn render_serialize_block(fields: &[&Field]) -> (r: String)
    ensures
        r@ == serialize_spec(derefs(fields@)),
{
    let no_enums: Vec<ParsedEnum> = Vec::new();
    let body = render_field_pieces(FieldPiece::Serialize, fields, no_enums.as_slice());
    let mut out = owned("  const payload: { [key: string]: unknown } = {}\n");
    out.append(body.as_str());
    assert(no_enums@ =~= Seq::<ParsedEnum>::empty());
    out
}

// ---------------------------------------------------------------------------
// Components
// ---------------------------------------------------------------------------

pub open spec fn create_form_spec(r: ResourceState, fs: Seq<Field>, enums: Seq<ParsedEnum>) -> Seq<char> {
    let table = r.name@;
    let stem = type_stem_spec(r);
    let dto = stem + "Insertable"@;
    "<script setup lang=\"ts\">\nimport { ref, reactive } from 'vue'\nimport Button from 'primevue/button'\n"@
        + primevue_imports_spec(fs, enums)
        + "import { create"@
        + stem
        + " } from '@/generated/api/"@
        + table
        + "'\nimport type { "@
        + dto
        + " } from '@/generated/types/"@
        + table
        + "'\n"@
        + enum_imports_spec(fs, enums)
        + "\nconst emit = defineEmits<{\n(event: 'created', payload: "@
        + dto
        + "): void\n(event: 'cancel'): void\n}>()\n\n"@
        + initial_create_spec(fs, enums)
        + "\nconst submitting = ref<boolean>(false)\nconst error_message = ref<string | null>(null)\n\nasync function on_submit(): Promise<void> {\nsubmitting.value = true\nerror_message.value = null\n"@
        + serialize_spec(fs)
        + "  const result = await create"@
        + stem
        + "(payload as "@
        + dto
        + ")\nsubmitting.value = false\nif (result.error !== null) {\nerror_message.value = result.error.error.message\nreturn\n}\nemit('created', payload as "@
        + dto
        + ")\n}\n</script>\n\n<template>\n<form class=\""@
        + table
        + "-create-form\" novalidate @submit.prevent=\"on_submit\">\n"@
        + concat_map(fs, field_piece(FieldPiece::Template, enums))
        + "    <div v-if=\"error_message !== null\" class=\""@
        + table
        + "-create-form-error\" role=\"alert\">\n{{ error_message }}\n</div>\n<div class=\""@
        + table
        + "-create-form-actions\">\n<Button type=\"button\" label=\"Cancel\" severity=\"secondary\" :disabled=\"submitting\" @click=\"emit('cancel')\" />\n<Button type=\"submit\" label=\"Create\" :loading=\"submitting\" :disabled=\"submitting\" />\n</div>\n</form>\n</template>\n\n<style scoped>\n@layer app {\n."@
        + table
        + "-create-form {\ndisplay: flex;\nflex-direction: column;\ngap: var(--app-space-md);\n}\n."@
        + table
        + "-create-form-actions {\ndisplay: flex;\ngap: var(--app-space-sm);\njustify-content: flex-end;\n}\n."@
        + table
        + "-create-form-error {\ncolor: var(--p-message-error-color, var(--app-color-danger, #b00020));\n}\n}\n</style>\n"@
}

/// `CreateForm.vue` over the given fields.
pub fn build_create_form(resource: &ResourceState, fields: &[&Field], enums: &[ParsedEnum]) -> (r: String)
    ensures
        r@ == create_form_spec(*resource, derefs(fields@), enums@),
{
    let table = resource.name.as_str();
    let stem = type_stem_for_resource(resource);
    let mut dto = owned(stem.as_str());
    dto.append("Insertable");
    let imports_block = render_primevue_imports(fields, enums);
    let enum_imports_block = render_enum_imports(fields, enums);
    let initial_block = render_initial_create(fields, enums);
    let template_fields = render_field_pieces(FieldPiece::Template, fields, enums);
    let serialize_block = render_serialize_block(fields);
    let mut out = owned("<script setup lang=\"ts\">\nimport { ref, reactive } from 'vue'\nimport Button from 'primevue/button'\n");
    out.append(imports_block.as_str());
    out.append("import { create");
    out.append(stem.as_str());
    out.append(" } from '@/generated/api/");
    out.append(table);
    out.append("'\nimport type { ");
    out.append(dto.as_str());
    out.append(" } from '@/generated/types/");
    out.append(table);
    out.append("'\n");
    out.append(enum_imports_block.as_str());
    out.append("\nconst emit = defineEmits<{\n(event: 'created', payload: ");
    out.append(dto.as_str());
    out.append("): void\n(event: 'cancel'): void\n}>()\n\n");
    out.append(initial_block.as_str());
    out.append("\nconst submitting = ref<boolean>(false)\nconst error_message = ref<string | null>(null)\n\nasync function on_submit(): Promise<void> {\nsubmitting.value = true\nerror_message.value = null\n");
    out.append(serialize_block.as_str());
    out.append("  const result = await create");
    out.append(stem.as_str());
    out.append("(payload as ");
    out.append(dto.as_str());
    out.append(")\nsubmitting.value = false\nif (result.error !== null) {\nerror_message.value = result.error.error.message\nreturn\n}\nemit('created', payload as ");
    out.append(dto.as_str());
    out.append(")\n}\n</script>\n\n<template>\n<form class=\"");
    out.append(table);
    out.append("-create-form\" novalidate @submit.prevent=\"on_submit\">\n");
    out.append(template_fields.as_str());
    out.append("    <div v-if=\"error_message !== null\" class=\"");
    out.append(table);
    out.append("-create-form-error\" role=\"alert\">\n{{ error_message }}\n</div>\n<div class=\"");
    out.append(table);
    out.append("-create-form-actions\">\n<Button type=\"button\" label=\"Cancel\" severity=\"secondary\" :disabled=\"submitting\" @click=\"emit('cancel')\" />\n<Button type=\"submit\" label=\"Create\" :loading=\"submitting\" :disabled=\"submitting\" />\n</div>\n</form>\n</template>\n\n<style scoped>\n@layer app {\n.");
    out.append(table);
    out.append("-create-form {\ndisplay: flex;\nflex-direction: column;\ngap: var(--app-space-md);\n}\n.");
    out.append(table);
    out.append("-create-form-actions {\ndisplay: flex;\ngap: var(--app-space-sm);\njustify-content: flex-end;\n}\n.");
    out.append(table);
    out.append("-create-form-error {\ncolor: var(--p-message-error-color, var(--app-color-danger, #b00020));\n}\n}\n</style>\n");
    out
}

pub open spec fn edit_form_spec(r: ResourceState, fs: Seq<Field>, enums: Seq<ParsedEnum>) -> Seq<char> {
    let table = r.name@;
    let stem = type_stem_spec(r);
    let public = stem + "Public"@;
    let patch = stem + "Patch"@;
    "<script setup lang=\"ts\">\nimport { ref, reactive, watch } from 'vue'\nimport Button from 'primevue/button'\n"@
        + primevue_imports_spec(fs, enums)
        + "import { update"@
        + stem
        + " } from '@/generated/api/"@
        + table
        + "'\nimport type { "@
        + public
        + ", "@
        + patch
        + " } from '@/generated/types/"@
        + table
        + "'\n"@
        + enum_imports_spec(fs, enums)
        + "\nconst props = defineProps<{ entity: "@
        + public
        + " }>()\nconst emit = defineEmits<{\n(event: 'updated', payload: "@
        + patch
        + "): void\n(event: 'cancel'): void\n}>()\n\n"@
        + initial_edit_spec(fs, enums)
        + "\nconst submitting = ref<boolean>(false)\nconst error_message = ref<string | null>(null)\n\nwatch(() => props.entity, (next) => {\nreset_form(next as unknown as { [key: string]: unknown })\n}, { deep: true })\n\nasync function on_submit(): Promise<void> {\nsubmitting.value = true\nerror_message.value = null\n"@
        + serialize_spec(fs)
        + "  const result = await update"@
        + stem
        + "((props.entity as unknown as { id: number }).id, payload as "@
        + patch
        + ")\nsubmitting.value = false\nif (result.error !== null) {\nerror_message.value = result.error.error.message\nreturn\n}\nemit('updated', payload as "@
        + patch
        + ")\n}\n</script>\n\n<template>\n<form class=\""@
        + table
        + "-edit-form\" novalidate @submit.prevent=\"on_submit\">\n"@
        + concat_map(fs, field_piece(FieldPiece::Template, enums))
        + "    <div v-if=\"error_message !== null\" class=\""@
        + table
        + "-edit-form-error\" role=\"alert\">\n{{ error_message }}\n</div>\n<div class=\""@
        + table
        + "-edit-form-actions\">\n<Button type=\"button\" label=\"Cancel\" severity=\"secondary\" :disabled=\"submitting\" @click=\"emit('cancel')\" />\n<Button type=\"submit\" label=\"Save\" :loading=\"submitting\" :disabled=\"submitting\" />\n</div>\n</form>\n</template>\n\n<style scoped>\n@layer app {\n."@
        + table
        + "-edit-form {\ndisplay: flex;\nflex-direction: column;\ngap: var(--app-space-md);\n}\n."@
        + table
        + "-edit-form-actions {\ndisplay: flex;\ngap: var(--app-space-sm);\njustify-content: flex-end;\n}\n."@
        + table
        + "-edit-form-error {\ncolor: var(--p-message-error-color, var(--app-color-danger, #b00020));\n}\n}\n</style>\n"@
}

/// `EditForm.vue` over the given fields.
pub fn build_edit_form(resource: &ResourceState, fields: &[&Field], enums: &[ParsedEnum]) -> (r: String)
    ensures
        r@ == edit_form_spec(*resource, derefs(fields@), enums@),
{
    let table = resource.name.as_str();
    let stem = type_stem_for_resource(resource);
    let mut public = owned(stem.as_str());
    public.append("Public");
    let mut patch = owned(stem.as_str());
    patch.append("Patch");
    let imports_block = render_primevue_imports(fields, enums);
    let enum_imports_block = render_enum_imports(fields, enums);
    let initial_block = render_initial_edit(fields, enums);
    let template_fields = render_field_pieces(FieldPiece::Template, fields, enums);
    let serialize_block = render_serialize_block(fields);
    let mut out = owned("<script setup lang=\"ts\">\nimport { ref, reactive, watch } from 'vue'\nimport Button from 'primevue/button'\n");
    out.append(imports_block.as_str());
    out.append("import { update");
    out.append(stem.as_str());
    out.append(" } from '@/generated/api/");
    out.append(table);
    out.append("'\nimport type { ");
    out.append(public.as_str());
    out.append(", ");
    out.append(patch.as_str());
    out.append(" } from '@/generated/types/");
    out.append(table);
    out.append("'\n");
    out.append(enum_imports_block.as_str());
    out.append("\nconst props = defineProps<{ entity: ");
    out.append(public.as_str());
    out.append(" }>()\nconst emit = defineEmits<{\n(event: 'updated', payload: ");
    out.append(patch.as_str());
    out.append("): void\n(event: 'cancel'): void\n}>()\n\n");
    out.append(initial_block.as_str());
    out.append("\nconst submitting = ref<boolean>(false)\nconst error_message = ref<string | null>(null)\n\nwatch(() => props.entity, (next) => {\nreset_form(next as unknown as { [key: string]: unknown })\n}, { deep: true })\n\nasync function on_submit(): Promise<void> {\nsubmitting.value = true\nerror_message.value = null\n");
    out.append(serialize_block.as_str());
    out.append("  const result = await update");
    out.append(stem.as_str());
    out.append("((props.entity as unknown as { id: number }).id, payload as ");
    out.append(patch.as_str());
    out.append(")\nsubmitting.value = false\nif (result.error !== null) {\nerror_message.value = result.error.error.message\nreturn\n}\nemit('updated', payload as ");
    out.append(patch.as_str());
    out.append(")\n}\n</script>\n\n<template>\n<form class=\"");
    out.append(table);
    out.append("-edit-form\" novalidate @submit.prevent=\"on_submit\">\n");
    out.append(template_fields.as_str());
    out.append("    <div v-if=\"error_message !== null\" class=\"");
    out.append(table);
    out.append("-edit-form-error\" role=\"alert\">\n{{ error_message }}\n</div>\n<div class=\"");
    out.append(table);
    out.append("-edit-form-actions\">\n<Button type=\"button\" label=\"Cancel\" severity=\"secondary\" :disabled=\"submitting\" @click=\"emit('cancel')\" />\n<Button type=\"submit\" label=\"Save\" :loading=\"submitting\" :disabled=\"submitting\" />\n</div>\n</form>\n</template>\n\n<style scoped>\n@layer app {\n.");
    out.append(table);
    out.append("-edit-form {\ndisplay: flex;\nflex-direction: column;\ngap: var(--app-space-md);\n}\n.");
    out.append(table);
    out.append("-edit-form-actions {\ndisplay: flex;\ngap: var(--app-space-sm);\njustify-content: flex-end;\n}\n.");
    out.append(table);
    out.append("-edit-form-error {\ncolor: var(--p-message-error-color, var(--app-color-danger, #b00020));\n}\n}\n</style>\n");
    out
}

pub open spec fn pair_views(v: Seq<(String, String)>) -> Seq<(Seq<char>, Seq<char>)> {
    v.map_values(|p: (String, String)| (p.0@, p.1@))
}

/// (file name, contents) of the form components a resource gets: a create
/// form when it has insertable fields, an edit form when it has patchable ones.
pub open spec fn forms_spec(r: ResourceState, enums: Seq<ParsedEnum>) -> Seq<(Seq<char>, Seq<char>)> {
    let ins = form_fields(r, FieldVariant::Insertable);
    let pat = form_fields(r, FieldVariant::Patch);
    (if ins.len() > 0 {
        seq![("CreateForm.vue"@, create_form_spec(r, ins, enums))]
    } else {
        seq![]
    }) + (if pat.len() > 0 {
        seq![("EditForm.vue"@, edit_form_spec(r, pat, enums))]
    } else {
        seq![]
    })
}

/// The Vue form components of a resource.
pub fn forms_for_resource(resource: &ResourceState, enums: &[ParsedEnum]) -> (r: Vec<(String, String)>)
    ensures
        pair_views(r@) == forms_spec(*resource, enums@),
{
    let mut out: Vec<(String, String)> = Vec::new();
    let ins = collect_fields(resource, FieldVariant::Insertable);
    if ins.len() > 0 {
        let body = build_create_form(resource, ins.as_slice(), enums);
        out.push((owned("CreateForm.vue"), body));
    }
    let ghost a = pair_views(out@);
    let pat = collect_fields(resource, FieldVariant::Patch);
    if pat.len() > 0 {
        let body = build_edit_form(resource, pat.as_slice(), enums);
        out.push((owned("EditForm.vue"), body));
    }
    assert(pair_views(out@) =~= forms_spec(*resource, enums@));
    out
}

} // verus!
