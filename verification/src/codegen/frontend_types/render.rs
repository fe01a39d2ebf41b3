//! TypeScript interfaces for one resource, and per-enum TS modules.
use vstd::prelude::*;
use vstd::string::*;
use crate::codegen::components::input_map::{enum_meta, enum_meta_spec};
use crate::codegen::enums::scan::ParsedEnum;
use crate::codegen::naming::{enum_options_const_name, enum_type_alias, options_const_spec, type_alias_spec};
use crate::codegen::sql::{
    is_bool, is_date, is_decimal, is_f32, is_f64, is_int16, is_int32, is_int64, is_json, is_time,
    is_timestamp, is_timestamptz, is_text, is_uuid, is_bytea, sql_is_bool, sql_is_bytea, sql_is_date,
    sql_is_decimal, sql_is_f32, sql_is_f64, sql_is_int16, sql_is_int32, sql_is_int64, sql_is_json,
    sql_is_text, sql_is_time, sql_is_timestamp, sql_is_timestamptz, sql_is_uuid, sql_key, sql_lower,
};
use crate::codegen::structs_naming::{filter_struct_name_for_resource, type_stem_for_resource, type_stem_spec};
use crate::state::{
    filter_lookup, verb_lookup, Field, FieldState, FieldVariant, FilterKind, ResourceState, SqlType, Verb,
};
use crate::text::{
    concat_map, escape_single_quoted, escape_sq, join, join_strings, lemma_concat_map_all,
    lemma_concat_map_step, lower_seq, owned, trim_end_newlines, views, with_single_trailing_newline,
};

verus! {

/// TypeScript type of a SQL type (case-insensitive).
pub open spec fn ts_base_spec(l: Seq<char>) -> Seq<char> {
    if is_bool(l) {
        "boolean"@
    } else if is_int16(l) || is_int32(l) || is_int64(l) || is_f32(l) || is_f64(l) || is_decimal(l) {
        "number"@
    } else if is_json(l) {
        "unknown"@
    } else {
        "string"@
    }
}

/// Map a Diesel SQL type to its TypeScript type.
pub fn ts_base_type(sql: &SqlType) -> (r: &'static str)
    ensures
        r@ == ts_base_spec(sql_key(*sql)),
{
    let lowered = sql_lower(sql);
    let l = lowered.as_str();
    if sql_is_bool(l) {
        "boolean"
    } else if sql_is_int16(l) || sql_is_int32(l) || sql_is_int64(l) || sql_is_f32(l) || sql_is_f64(l)
        || sql_is_decimal(l) {
        "number"
    } else if sql_is_json(l) {
        "unknown"
    } else {
        "string"
    }
}

/// Every integer SQL type (`int2`, `int4`, `int8` and their aliases), every
/// floating-point type and `numeric`/`decimal`, in any letter case, is the
/// TypeScript type `number`.
pub proof fn lemma_numeric_sql_types_are_numbers(sql: SqlType)
    requires
        ({
            let k = lower_seq(sql@);
            k == "int2"@ || k == "smallint"@ || k == "smallserial"@ || k == "int4"@ || k == "integer"@ || k == "serial"@ || k == "int8"@ || k == "bigint"@ || k == "bigserial"@ || k == "float4"@ || k == "real"@ || k == "float8"@ || k == "double"@ || k == "double precision"@ || k == "numeric"@ || k == "decimal"@
        }),
    ensures
        ts_base_spec(sql_key(sql)) == "number"@,
{
    reveal_strlit("int2");
    reveal_strlit("smallint");
    reveal_strlit("smallserial");
    reveal_strlit("int4");
    reveal_strlit("integer");
    reveal_strlit("serial");
    reveal_strlit("int8");
    reveal_strlit("bigint");
    reveal_strlit("bigserial");
    reveal_strlit("float4");
    reveal_strlit("real");
    reveal_strlit("float8");
    reveal_strlit("double");
    reveal_strlit("double precision");
    reveal_strlit("numeric");
    reveal_strlit("decimal");
    reveal_strlit("bool");
    reveal_strlit("boolean");
    let k = lower_seq(sql@);
    assert(!is_bool(k)) by {
        if is_bool(k) {
            assert(k[0] == 'b' && k[1] == 'o');
        }
    }
}

/// `bool`/`boolean`, in any letter case, is the TypeScript type `boolean`;
/// `json`/`jsonb` is `unknown`.
pub proof fn lemma_bool_and_json_sql_types(sql: SqlType)
    ensures
        (lower_seq(sql@) == "bool"@ || lower_seq(sql@) == "boolean"@) ==> ts_base_spec(sql_key(sql)) == "boolean"@,
        (lower_seq(sql@) == "json"@ || lower_seq(sql@) == "jsonb"@) ==> ts_base_spec(sql_key(sql)) == "unknown"@,
{
    reveal_strlit("int2");
    reveal_strlit("smallint");
    reveal_strlit("smallserial");
    reveal_strlit("int4");
    reveal_strlit("integer");
    reveal_strlit("serial");
    reveal_strlit("int8");
    reveal_strlit("bigint");
    reveal_strlit("bigserial");
    reveal_strlit("float4");
    reveal_strlit("real");
    reveal_strlit("float8");
    reveal_strlit("double");
    reveal_strlit("double precision");
    reveal_strlit("numeric");
    reveal_strlit("decimal");
    reveal_strlit("bool");
    reveal_strlit("boolean");
    reveal_strlit("json");
    reveal_strlit("jsonb");
    let k = lower_seq(sql@);
    if k == "json"@ || k == "jsonb"@ {
        assert(k[0] == 'j');
        assert(!is_bool(k));
        assert(!(is_int16(k) || is_int32(k) || is_int64(k) || is_f32(k) || is_f64(k) || is_decimal(k))) by {
            if is_int16(k) || is_int32(k) || is_int64(k) || is_f32(k) || is_f64(k) || is_decimal(k) {
                assert(k[0] != 'j');
            }
        }
    }
}

/// The enum alias when the type names a parsed enum, else the scalar type.
pub open spec fn ts_field_spec(sql: SqlType, enums: Seq<ParsedEnum>) -> Seq<char> {
    match enum_meta_spec(enums, sql@) {
        Some((name, _)) => type_alias_spec(name),
        None => ts_base_spec(sql_key(sql)),
    }
}

fn ts_field_type(sql: &SqlType, enums: &[ParsedEnum]) -> (r: String)
    ensures
        r@ == ts_field_spec(*sql, enums@),
{
    match enum_meta(sql, enums) {
        Some((name, _variants)) => enum_type_alias(name.as_str()),
        None => owned(ts_base_type(sql)),
    }
}

pub open spec fn ts_type_spec(f: FieldState, enums: Seq<ParsedEnum>) -> Seq<char> {
    if f.nullable {
        ts_field_spec(f.sql_type, enums) + " | null"@
    } else {
        ts_field_spec(f.sql_type, enums)
    }
}

fn ts_type(field: &FieldState, enums: &[ParsedEnum]) -> (r: String)
    ensures
        r@ == ts_type_spec(*field, enums@),
{
    let mut base = ts_field_type(&field.sql_type, enums);
    if field.nullable {
        base.append(" | null");
    }
    base
}

fn ts_type_always_optional(field: &FieldState, enums: &[ParsedEnum]) -> (r: String)
    ensures
        r@ == ts_field_spec(field.sql_type, enums@) + " | null"@,
{
    let mut base = ts_field_type(&field.sql_type, enums);
    base.append(" | null");
    base
}

pub open spec fn filter_ts_spec(sql: SqlType, kind: FilterKind, enums: Seq<ParsedEnum>) -> Seq<char> {
    let base = ts_field_spec(sql, enums);
    match kind {
        FilterKind::Eq => base + " | null"@,
        FilterKind::Range => "{ from: "@ + base + " | null; to: "@ + base + " | null } | null"@,
        FilterKind::IlikeContains => "string | null"@,
        FilterKind::In => base + "[] | null"@,
        FilterKind::Bool => "boolean | null"@,
    }
}

fn filter_ts_type(sql: &SqlType, kind: FilterKind, enums: &[ParsedEnum]) -> (r: String)
    ensures
        r@ == filter_ts_spec(*sql, kind, enums@),
{
    let base = ts_field_type(sql, enums);
    match kind {
        FilterKind::Eq => {
            let mut s = owned(base.as_str());
            s.append(" | null");
            s
        },
        FilterKind::Range => {
            let mut s = owned("{ from: ");
            s.append(base.as_str());
            s.append(" | null; to: ");
            s.append(base.as_str());
            s.append(" | null } | null");
            s
        },
        FilterKind::IlikeContains => owned("string | null"),
        FilterKind::In => {
            let mut s = owned(base.as_str());
            s.append("[] | null");
            s
        },
        FilterKind::Bool => owned("boolean | null"),
    }
}

/// Distinct enums referenced by the fields, in order of first reference.
pub open spec fn resource_enums_spec(fields: Seq<Field>, enums: Seq<ParsedEnum>) -> Seq<(Seq<char>, Seq<Seq<char>>)>
    decreases fields.len(),
{
    if fields.len() == 0 {
        seq![]
    } else {
        let acc = resource_enums_spec(fields.drop_last(), enums);
        match enum_meta_spec(enums, fields.last().1.sql_type@) {
            Some((n, vs)) => if exists|i: int| 0 <= i < acc.len() && #[trigger] acc[i].0 == n {
                acc
            } else {
                acc.push((n, vs))
            },
            None => acc,
        }
    }
}

pub open spec fn pair_views(v: Seq<(String, Vec<String>)>) -> Seq<(Seq<char>, Seq<Seq<char>>)> {
    v.map_values(|p: (String, Vec<String>)| (p.0@, views(p.1@)))
}

/// Every distinct enum referenced by this resource's fields, in the order
/// they first appear.
pub fn collect_resource_enums(resource: &ResourceState, enums: &[ParsedEnum]) -> (r: Vec<(String, Vec<String>)>)
    ensures
        pair_views(r@) == resource_enums_spec(resource.fields@, enums@),
{
    let mut out: Vec<(String, Vec<String>)> = Vec::new();
    let mut i: usize = 0;
    assert(resource.fields@.take(0) =~= Seq::<Field>::empty());
    assert(pair_views(out@) =~= Seq::<(Seq<char>, Seq<Seq<char>>)>::empty());
    while i < resource.fields.len()
        invariant
            i <= resource.fields.len(),
            pair_views(out@) == resource_enums_spec(resource.fields@.take(i as int), enums@),
        decreases resource.fields.len() - i,
    {
        let ghost t = resource.fields@.take(i + 1);
        assert(t.drop_last() =~= resource.fields@.take(i as int));
        assert(t.last() == resource.fields@[i as int]);
        match enum_meta(&resource.fields[i].1.sql_type, enums) {
            Some((name, variants)) => {
                let mut seen = false;
                let mut k: usize = 0;
                while k < out.len()
                    invariant
                        k <= out.len(),
                        !seen ==> forall|j: int| 0 <= j < k ==> out@[j].0@ != name@,
                        seen ==> exists|j: int| 0 <= j < out@.len() && out@[j].0@ == name@,
                    decreases out.len() - k,
                {
                    if crate::text::str_eq(out[k].0.as_str(), name.as_str()) {
                        seen = true;
                    }
                    k = k + 1;
                }
                let ghost acc = pair_views(out@);
                proof {
                    if seen {
                        let j = choose|j: int| 0 <= j < out@.len() && out@[j].0@ == name@;
                        assert(acc[j].0 == name@);
                    } else {
                        assert forall|j: int| 0 <= j < acc.len() implies #[trigger] acc[j].0 != name@ by {
                            assert(acc[j].0 == out@[j].0@);
                        }
                    }
                }
                if !seen {
                    let ghost pv = (name@, views(variants@));
                    out.push((name, variants));
                    assert(pair_views(out@) =~= acc.push(pv));
                }
            },
            None => {},
        }
        i = i + 1;
    }
    assert(resource.fields@.take(resource.fields.len() as int) =~= resource.fields@);
    out
}

pub open spec fn quoted_sq(v: Seq<char>) -> Seq<char> {
    "'"@ + escape_sq(v) + "'"@
}

pub open spec fn quoted_all(vs: Seq<Seq<char>>) -> Seq<Seq<char>> {
    vs.map_values(|v: Seq<char>| quoted_sq(v))
}

/// The body of a per-enum TS module: a string-literal union alias and a
/// `readonly` values constant.
pub open spec fn enum_module_spec(name: Seq<char>, variants: Seq<Seq<char>>) -> Seq<char> {
    let alias = type_alias_spec(name);
    let union = if variants.len() == 0 {
        "never"@
    } else {
        join(quoted_all(variants), " | "@)
    };
    "export type "@ + alias + " = "@ + union + "\n\n"@ + "export const "@ + options_const_spec(name)
        + ": readonly "@ + alias + "[] = ["@ + join(quoted_all(variants), ", "@) + "] as const\n"@
}

fn quote_all(variants: &Vec<String>) -> (r: Vec<String>)
    ensures
        views(r@) == quoted_all(views(variants@)),
{
    let mut r: Vec<String> = Vec::new();
    let mut i: usize = 0;
    while i < variants.len()
        invariant
            i <= variants.len(),
            views(r@) == quoted_all(views(variants@)).take(i as int),
        decreases variants.len() - i,
    {
        let mut q = owned("'");
        let e = escape_single_quoted(variants[i].as_str());
        q.append(e.as_str());
        q.append("'");
        let ghost old_r = views(r@);
        let ghost qv = q@;
        r.push(q);
        assert(views(variants@)[i as int] == variants@[i as int]@);
        assert(quoted_all(views(variants@))[i as int] == qv);
        assert(views(r@) =~= old_r.push(qv));
        assert(views(r@) =~= quoted_all(views(variants@)).take(i + 1));
        i = i + 1;
    }
    assert(quoted_all(views(variants@)).take(variants.len() as int) =~= quoted_all(views(variants@)));
    r
}

/// Builds the body of a per-enum TS module.
pub fn build_enum_module(name: &str, variants: &Vec<String>) -> (r: String)
    ensures
        r@ == enum_module_spec(name@, views(variants@)),
{
    let alias = enum_type_alias(name);
    let const_name = enum_options_const_name(name);
    let quoted = quote_all(variants);
    let union = if variants.len() == 0 {
        owned("never")
    } else {
        join_strings(&quoted, " | ")
    };
    let array_body = join_strings(&quoted, ", ");
    let mut out = owned("export type ");
    out.append(alias.as_str());
    out.append(" = ");
    out.append(union.as_str());
    out.append("\n\n");
    out.append("export const ");
    out.append(const_name.as_str());
    out.append(": readonly ");
    out.append(alias.as_str());
    out.append("[] = [");
    out.append(array_body.as_str());
    out.append("] as const\n");
    out
}

/// `  <name>: <ts type>\n` (`<name>?:` and always-nullable for patches).
pub open spec fn interface_line(enums: Seq<ParsedEnum>, v: FieldVariant) -> spec_fn(Field) -> Seq<char> {
    |f: Field|
        if !f.1.in_variant(v) {
            Seq::<char>::empty()
        } else if v == FieldVariant::Patch {
            "  "@ + f.0@ + "?: "@ + ts_field_spec(f.1.sql_type, enums) + " | null"@ + "\n"@
        } else {
            "  "@ + f.0@ + ": "@ + ts_type_spec(f.1, enums) + "\n"@
        }
}

pub open spec fn has_variant_field(fields: Seq<Field>, v: FieldVariant) -> bool {
    exists|i: int| 0 <= i < fields.len() && (#[trigger] fields[i]).1.in_variant(v)
}

/// The interface for one struct variant, or nothing when no field is in it.
pub open spec fn interface_spec(fields: Seq<Field>, enums: Seq<ParsedEnum>, v: FieldVariant, title: Seq<char>) -> Seq<char> {
    if has_variant_field(fields, v) {
        "export interface "@ + title + " {\n"@ + concat_map(fields, interface_line(enums, v)) + "}\n\n"@
    } else {
        seq![]
    }
}

fn interface_lines(fields: &Vec<Field>, enums: &[ParsedEnum], v: FieldVariant) -> (r: (String, bool))
    ensures
        r.0@ == concat_map(fields@, interface_line(enums@, v)),
        r.1 == has_variant_field(fields@, v),
{
    let ghost f = interface_line(enums@, v);
    let mut out = String::new();
    let mut any = false;
    let mut i: usize = 0;
    assert(fields@.take(0) =~= Seq::<Field>::empty());
    while i < fields.len()
        invariant
            i <= fields.len(),
            f == interface_line(enums@, v),
            out@ == concat_map(fields@.take(i as int), f),
            any == exists|j: int| 0 <= j < i && (#[trigger] fields@[j]).1.in_variant(v),
        decreases fields.len() - i,
    {
        let field = &fields[i];
        if field.1.has_variant(v) {
            any = true;
            out.append("  ");
            out.append(field.0.as_str());
            if v == FieldVariant::Patch {
                out.append("?: ");
                let ty = ts_type_always_optional(&field.1, enums);
                out.append(ty.as_str());
            } else {
                out.append(": ");
                let ty = ts_type(&field.1, enums);
                out.append(ty.as_str());
            }
            out.append("\n");
        }
        proof {
            lemma_concat_map_step(fields@, i as int, f);
            assert(out@ =~= concat_map(fields@.take(i + 1), f));
        }
        i = i + 1;
    }
    proof {
        lemma_concat_map_all(fields@, f);
    }
    (out, any)
}

fn emit_interface(out: &mut String, fields: &Vec<Field>, enums: &[ParsedEnum], v: FieldVariant, title: &str)
    ensures
        final(out)@ == old(out)@ + interface_spec(fields@, enums@, v, title@),
{
    let (lines, any) = interface_lines(fields, enums, v);
    if any {
        out.append("export interface ");
        out.append(title);
        out.append(" {\n");
        out.append(lines.as_str());
        out.append("}\n\n");
    } else {
        assert(old(out)@ + Seq::<char>::empty() =~= old(out)@);
    }
}

/// `  <name>?: <filter type>\n` for each field that is filterable.
pub open spec fn filter_line(cols: Seq<(crate::state::FieldName, FilterKind)>, enums: Seq<ParsedEnum>) -> spec_fn(Field) -> Seq<char> {
    |f: Field| match filter_lookup(cols, f.0@) {
        Some(k) => "  "@ + f.0@ + "?: "@ + filter_ts_spec(f.1.sql_type, k, enums) + "\n"@,
        None => Seq::<char>::empty(),
    }
}

/// The filter interface, present when the list verb declares filterable columns.
pub open spec fn filter_interface_spec(r: ResourceState, enums: Seq<ParsedEnum>) -> Seq<char> {
    match verb_lookup(r.verbs@, Verb::List) {
        Some(vs) => match vs.list_options {
            Some(opts) => if opts.filterable_columns@.len() == 0 {
                seq![]
            } else {
                "export interface "@ + type_stem_spec(r) + "Filter"@ + " {\n"@ + concat_map(
                    r.fields@,
                    filter_line(opts.filterable_columns@, enums),
                ) + "}\n\n"@
            },
            None => seq![],
        },
        None => seq![],
    }
}

fn emit_filter_interface(resource: &ResourceState, enums: &[ParsedEnum], out: &mut String)
    ensures
        final(out)@ == old(out)@ + filter_interface_spec(*resource, enums@),
{
    let list_verb = match resource.verb_state(Verb::List) {
        Some(v) => v,
        None => {
            assert(old(out)@ + Seq::<char>::empty() =~= old(out)@);
            return;
        },
    };
    let list_opts = match &list_verb.list_options {
        Some(opts) => opts,
        None => {
            assert(old(out)@ + Seq::<char>::empty() =~= old(out)@);
            return;
        },
    };
    if list_opts.filterable_columns.len() == 0 {
        assert(old(out)@ + Seq::<char>::empty() =~= old(out)@);
        return;
    }
    let filter_name = filter_struct_name_for_resource(resource);
    out.append("export interface ");
    out.append(filter_name.as_str());
    out.append(" {\n");
    let ghost head = out@;
    let ghost f = filter_line(list_opts.filterable_columns@, enums@);
    let mut i: usize = 0;
    assert(resource.fields@.take(0) =~= Seq::<Field>::empty());
    while i < resource.fields.len()
        invariant
            i <= resource.fields.len(),
            f == filter_line(list_opts.filterable_columns@, enums@),
            out@ == head + concat_map(resource.fields@.take(i as int), f),
        decreases resource.fields.len() - i,
    {
        let field = &resource.fields[i];
        let ghost before = out@;
        match list_opts.filter_kind(field.0.as_str()) {
            Some(kind) => {
                out.append("  ");
                out.append(field.0.as_str());
                out.append("?: ");
                let ty = filter_ts_type(&field.1.sql_type, kind, enums);
                out.append(ty.as_str());
                out.append("\n");
            },
            None => {},
        }
        proof {
            lemma_concat_map_step(resource.fields@, i as int, f);
            assert(out@ =~= head + concat_map(resource.fields@.take(i + 1), f));
        }
        i = i + 1;
    }
    proof {
        lemma_concat_map_all(resource.fields@, f);
    }
    out.append("}\n\n");
}

pub open spec fn enum_import_line(e: (Seq<char>, Seq<Seq<char>>)) -> Seq<char> {
    "import type { "@ + type_alias_spec(e.0) + " } from './"@ + e.0 + "'\n"@
}

pub open spec fn enum_imports_spec(refs: Seq<(Seq<char>, Seq<Seq<char>>)>) -> Seq<char> {
    if refs.len() == 0 {
        seq![]
    } else {
        concat_map(refs, |e: (Seq<char>, Seq<Seq<char>>)| enum_import_line(e)) + "\n"@
    }
}

/// The full TS file body for one resource, before the final newline fix-up.
pub open spec fn resource_types_body(r: ResourceState, enums: Seq<ParsedEnum>) -> Seq<char> {
    let stem = type_stem_spec(r);
    enum_imports_spec(resource_enums_spec(r.fields@, enums)) + interface_spec(r.fields@, enums, FieldVariant::Db, stem)
        + interface_spec(r.fields@, enums, FieldVariant::Insertable, stem + "Insertable"@) + interface_spec(
        r.fields@,
        enums,
        FieldVariant::Patch,
        stem + "Patch"@,
    ) + interface_spec(r.fields@, enums, FieldVariant::Public, stem + "Public"@) + interface_spec(
        r.fields@,
        enums,
        FieldVariant::Admin,
        stem + "Admin"@,
    ) + filter_interface_spec(r, enums)
}

/// Builds the full TS file body for one resource; it ends in exactly one newline.
pub fn build_resource_types(resource: &ResourceState, enums: &[ParsedEnum]) -> (r: String)
    ensures
        r@ == trim_end_newlines(resource_types_body(*resource, enums@)) + seq!['\n'],
{
    let stem = type_stem_for_resource(resource);
    let mut out = String::new();
    let referenced = collect_resource_enums(resource, enums);
    let ghost refs = pair_views(referenced@);
    let ghost g = |e: (Seq<char>, Seq<Seq<char>>)| enum_import_line(e);
    if referenced.len() > 0 {
        let mut i: usize = 0;
        assert(refs.take(0) =~= Seq::<(Seq<char>, Seq<Seq<char>>)>::empty());
        while i < referenced.len()
            invariant
                i <= referenced.len(),
                refs == pair_views(referenced@),
                g == (|e: (Seq<char>, Seq<Seq<char>>)| enum_import_line(e)),
                out@ == concat_map(refs.take(i as int), g),
            decreases referenced.len() - i,
        {
            let alias = enum_type_alias(referenced[i].0.as_str());
            out.append("import type { ");
            out.append(alias.as_str());
            out.append(" } from './");
            out.append(referenced[i].0.as_str());
            out.append("'\n");
            proof {
                lemma_concat_map_step(refs, i as int, g);
                assert(refs[i as int].0 == referenced@[i as int].0@);
            }
            i = i + 1;
        }
        proof {
            lemma_concat_map_all(refs, g);
        }
        out.append("\n");
    }
    assert(out@ == enum_imports_spec(refs));
    emit_interface(&mut out, &resource.fields, enums, FieldVariant::Db, stem.as_str());
    let mut t = owned(stem.as_str());
    t.append("Insertable");
    emit_interface(&mut out, &resource.fields, enums, FieldVariant::Insertable, t.as_str());
    let mut t = owned(stem.as_str());
    t.append("Patch");
    emit_interface(&mut out, &resource.fields, enums, FieldVariant::Patch, t.as_str());
    let mut t = owned(stem.as_str());
    t.append("Public");
    emit_interface(&mut out, &resource.fields, enums, FieldVariant::Public, t.as_str());
    let mut t = owned(stem.as_str());
    t.append("Admin");
    emit_interface(&mut out, &resource.fields, enums, FieldVariant::Admin, t.as_str());
    emit_filter_interface(resource, enums, &mut out);
    with_single_trailing_newline(&out)
}

/// The shared MeltDown error types module.
pub fn meltdown_ts() -> (r: &'static str)
    ensures
        r@ == MELTDOWN_TS@,
{
    MELTDOWN_TS
}

pub const MELTDOWN_TS: &'static str = "export interface MeltDownError {\n  code: number\n  type: string\n  message: string\n  context: Record<string, string> | null\n}\n\nexport interface MeltDownResponse {\n  error: MeltDownError\n}\n";

} // verus!
