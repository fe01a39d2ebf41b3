//! Rust source for one SQL enum: the enum, `as_str`/`parse`, Diesel
//! `FromSql`/`ToSql` impls and an `OPTIONS` table with display metadata.
use vstd::prelude::*;
use vstd::string::*;
use crate::codegen::enums::meta::{meta_lookup, EnumMeta, VariantMeta};
use crate::codegen::enums::scan::ParsedEnum;
use crate::codegen::naming::{pascalize, pascalize_spec};
use crate::text::{concat_map, escape_double_quoted, escape_dq, lemma_concat_map_step, lemma_concat_map_all, owned};

verus! {

/// PascalCase of a snake_case Postgres enum type name (`user_role` -> `UserRole`).
pub fn enum_type_name(snake: &str) -> (r: String)
    ensures
        r@ == pascalize_spec(snake@),
{
    pascalize(snake)
}

/// PascalCase of one variant string (`in_progress` -> `InProgress`).
pub fn variant_name(variant: &str) -> (r: String)
    ensures
        r@ == pascalize_spec(variant@),
{
    pascalize(variant)
}

/// The five per-variant line shapes of the enum file.
#[derive(Clone, Copy, PartialEq, Eq, Structural)]
pub enum VariantLine {
    Decl,
    AsStr,
    Parse,
    FromSql,
    Options,
}

/// Label and category of a variant: from the metadata when present, else
/// the PascalCase name and no category.
pub open spec fn label_and_category_spec(entries: Seq<(String, VariantMeta)>, sql: Seq<char>, pascal: Seq<char>) -> (Seq<char>, Option<Seq<char>>) {
    match meta_lookup(entries, sql) {
        Some(m) => (m.label@, match m.category {
            Some(c) => Some(c@),
            None => None,
        }),
        None => (pascal, None),
    }
}

pub open spec fn category_lit(c: Option<Seq<char>>) -> Seq<char> {
    match c {
        Some(c) => "Some(\""@ + escape_dq(c) + "\")"@,
        None => "None"@,
    }
}

/// One generated line for the SQL variant `v` of the enum `tn`.
pub open spec fn variant_line(which: VariantLine, tn: Seq<char>, entries: Seq<(String, VariantMeta)>) -> spec_fn(String) -> Seq<char> {
    |v: String| {
        let rust = pascalize_spec(v@);
        let sql = escape_dq(v@);
        match which {
            VariantLine::Decl => "    "@ + rust + ",\n"@,
            VariantLine::AsStr => "            "@ + tn + "::"@ + rust + " => \""@ + sql + "\",\n"@,
            VariantLine::Parse => "            \""@ + sql + "\" => Ok("@ + tn + "::"@ + rust + "),\n"@,
            VariantLine::FromSql => "            b\""@ + sql + "\" => Ok("@ + tn + "::"@ + rust + "),\n"@,
            VariantLine::Options => {
                let lc = label_and_category_spec(entries, v@, rust);
                "        ("@ + tn + "::"@ + rust + ", \""@ + escape_dq(lc.0) + "\", "@ + category_lit(lc.1) + "),\n"@
            },
        }
    }
}

fn label_and_category(meta: &EnumMeta, sql_variant: &str, pascal: &str) -> (r: (String, Option<String>))
    ensures
        label_and_category_spec(meta.variants@, sql_variant@, pascal@) == (r.0@, match r.1 {
            Some(c) => Some(c@),
            None => None,
        }),
{
    match meta.lookup(sql_variant) {
        Some(v) => {
            let cat = match &v.category {
                Some(c) => Some(c.clone()),
                None => None,
            };
            (v.label.clone(), cat)
        },
        None => (owned(pascal), None),
    }
}

fn one_variant_line(which: VariantLine, tn: &str, v: &String, meta: &EnumMeta) -> (r: String)
    ensures
        r@ == variant_line(which, tn@, meta.variants@)(*v),
{
    let rust = variant_name(v.as_str());
    let sql = escape_double_quoted(v.as_str());
    match which {
        VariantLine::Decl => {
            let mut out = owned("    ");
            out.append(rust.as_str());
            out.append(",\n");
            out
        },
        VariantLine::AsStr => {
            let mut out = owned("            ");
            out.append(tn);
            out.append("::");
            out.append(rust.as_str());
            out.append(" => \"");
            out.append(sql.as_str());
            out.append("\",\n");
            out
        },
        VariantLine::Parse => {
            let mut out = owned("            \"");
            out.append(sql.as_str());
            out.append("\" => Ok(");
            out.append(tn);
            out.append("::");
            out.append(rust.as_str());
            out.append("),\n");
            out
        },
        VariantLine::FromSql => {
            let mut out = owned("            b\"");
            out.append(sql.as_str());
            out.append("\" => Ok(");
            out.append(tn);
            out.append("::");
            out.append(rust.as_str());
            out.append("),\n");
            out
        },
        VariantLine::Options => {
            let (label, category) = label_and_category(meta, v.as_str(), rust.as_str());
            let cat = match category {
                Some(c) => {
                    let mut s = owned("Some(\"");
                    let e = escape_double_quoted(c.as_str());
                    s.append(e.as_str());
                    s.append("\")");
                    s
                },
                None => owned("None"),
            };
            let el = escape_double_quoted(label.as_str());
            let mut out = owned("        (");
            out.append(tn);
            out.append("::");
            out.append(rust.as_str());
            out.append(", \"");
            out.append(el.as_str());
            out.append("\", ");
            out.append(cat.as_str());
            out.append("),\n");
            out
        },
    }
}

fn variant_lines(which: VariantLine, tn: &str, variants: &Vec<String>, meta: &EnumMeta) -> (r: String)
    ensures
        r@ == concat_map(variants@, variant_line(which, tn@, meta.variants@)),
{
    let ghost f = variant_line(which, tn@, meta.variants@);
    let mut out = String::new();
    let mut i: usize = 0;
    assert(variants@.take(0) =~= Seq::<String>::empty());
    while i < variants.len()
        invariant
            i <= variants.len(),
            f == variant_line(which, tn@, meta.variants@),
            out@ == concat_map(variants@.take(i as int), f),
        decreases variants.len() - i,
    {
        let line = one_variant_line(which, tn, &variants[i], meta);
        out.append(line.as_str());
        proof {
            lemma_concat_map_step(variants@, i as int, f);
        }
        i = i + 1;
    }
    proof {
        lemma_concat_map_all(variants@, f);
    }
    out
}

/// The Rust file body for one enum, `tn` being its PascalCase type name.
pub open spec fn enum_body_spec(parsed: ParsedEnum, entries: Seq<(String, VariantMeta)>) -> Seq<char> {
    let tn = pascalize_spec(parsed.name@);
    "use serde::{Deserialize, Serialize};\n\n#[cfg(not(target_arch = \"wasm32\"))]\nuse std::io::Write;\n\n#[cfg(not(target_arch = \"wasm32\"))]\nuse diesel::backend::Backend;\n#[cfg(not(target_arch = \"wasm32\"))]\nuse diesel::deserialize::{self, FromSql, FromSqlRow};\n#[cfg(not(target_arch = \"wasm32\"))]\nuse diesel::expression::AsExpression;\n#[cfg(not(target_arch = \"wasm32\"))]\nuse diesel::pg::Pg;\n#[cfg(not(target_arch = \"wasm32\"))]\nuse diesel::serialize::{self, IsNull, Output, ToSql};\n\n#[cfg(not(target_arch = \"wasm32\"))]\nuse crate::database::schema::sql_types::"@
    + tn
    + " as "@
    + tn
    + "SqlType;\nuse crate::meltdown::*;\n\n#[cfg_attr(not(target_arch = \"wasm32\"), derive(AsExpression, FromSqlRow))]\n#[cfg_attr(not(target_arch = \"wasm32\"), diesel(sql_type = "@
    + tn
    + "SqlType))]\n#[derive(Debug, Clone, Copy, PartialEq, Eq, Hash, Serialize, Deserialize)]\npub enum "@
    + tn
    + " {\n"@
    + concat_map(parsed.variants@, variant_line(VariantLine::Decl, tn, entries))
    + "}\n\nimpl "@
    + tn
    + " {\n    pub fn as_str(&self) -> &'static str {\n        match self {\n"@
    + concat_map(parsed.variants@, variant_line(VariantLine::AsStr, tn, entries))
    + "        }\n    }\n\n    pub fn parse(s: &str) -> Result<Self, MeltDown> {\n        match s {\n"@
    + concat_map(parsed.variants@, variant_line(VariantLine::Parse, tn, entries))
    + "            other => Err(MeltDown::validation_failed(format!(\"unknown "@
    + parsed.name@
    + ": {}\", other))),\n        }\n    }\n}\n\n#[cfg(not(target_arch = \"wasm32\"))]\nimpl FromSql<"@
    + tn
    + "SqlType, Pg> for "@
    + tn
    + " {\n    fn from_sql(bytes: <Pg as Backend>::RawValue<'_>) -> deserialize::Result<Self> {\n        match bytes.as_bytes() {\n"@
    + concat_map(parsed.variants@, variant_line(VariantLine::FromSql, tn, entries))
    + "            other => Err(format!(\"unknown "@
    + parsed.name@
    + ": {}\", String::from_utf8_lossy(other)).into()),\n        }\n    }\n}\n\n#[cfg(not(target_arch = \"wasm32\"))]\nimpl ToSql<"@
    + tn
    + "SqlType, Pg> for "@
    + tn
    + " {\n    fn to_sql<'b>(&'b self, out: &mut Output<'b, '_, Pg>) -> serialize::Result {\n        out.write_all(self.as_str().as_bytes())?;\n        Ok(IsNull::No)\n    }\n}\n\nimpl "@
    + tn
    + " {\n    pub const OPTIONS: &'static [("@
    + tn
    + ", &'static str, Option<&'static str>)] = &[\n"@
    + concat_map(parsed.variants@, variant_line(VariantLine::Options, tn, entries))
    + "    ];\n}\n\n#[cfg(not(target_arch = \"wasm32\"))]\nimpl crate::structs::vendored::enum_options::EnumOptions for "@
    + tn
    + " {\n    fn options() -> &'static [(Self, &'static str, Option<&'static str>)] {\n        "@
    + tn
    + "::OPTIONS\n    }\n    fn as_str(&self) -> &'static str {\n        "@
    + tn
    + "::as_str(self)\n    }\n    fn parse(s: &str) -> Option<Self> {\n        "@
    + tn
    + "::parse(s).ok()\n    }\n}\n\n#[cfg(target_arch = \"wasm32\")]\nimpl crate::structs::vendored::enum_options::EnumOptions for "@
    + tn
    + " {\n    fn options() -> &'static [(Self, &'static str, Option<&'static str>)] {\n        "@
    + tn
    + "::OPTIONS\n    }\n    fn as_str(&self) -> &'static str {\n        "@
    + tn
    + "::as_str(self)\n    }\n    fn parse(s: &str) -> Option<Self> {\n        "@
    + tn
    + "::parse(s).ok()\n    }\n}\n"@
}

/// The Rust file body for one enum, labelled by `meta`.
pub open spec fn enum_file_spec(parsed: ParsedEnum, meta: EnumMeta) -> Seq<char> {
    enum_body_spec(parsed, meta.variants@)
}

/// Builds the full Rust file body for one enum (without the codegen marker).
pub fn render_enum_file(parsed: &ParsedEnum, meta: &EnumMeta) -> (r: String)
    ensures
        r@ == enum_file_spec(*parsed, *meta),
{
    let tn = enum_type_name(parsed.name.as_str());
    let l1 = variant_lines(VariantLine::Decl, tn.as_str(), &parsed.variants, meta);
    let l2 = variant_lines(VariantLine::AsStr, tn.as_str(), &parsed.variants, meta);
    let l3 = variant_lines(VariantLine::Parse, tn.as_str(), &parsed.variants, meta);
    let l4 = variant_lines(VariantLine::FromSql, tn.as_str(), &parsed.variants, meta);
    let l5 = variant_lines(VariantLine::Options, tn.as_str(), &parsed.variants, meta);
    let mut out = owned("use serde::{Deserialize, Serialize};\n\n#[cfg(not(target_arch = \"wasm32\"))]\nuse std::io::Write;\n\n#[cfg(not(target_arch = \"wasm32\"))]\nuse diesel::backend::Backend;\n#[cfg(not(target_arch = \"wasm32\"))]\nuse diesel::deserialize::{self, FromSql, FromSqlRow};\n#[cfg(not(target_arch = \"wasm32\"))]\nuse diesel::expression::AsExpression;\n#[cfg(not(target_arch = \"wasm32\"))]\nuse diesel::pg::Pg;\n#[cfg(not(target_arch = \"wasm32\"))]\nuse diesel::serialize::{self, IsNull, Output, ToSql};\n\n#[cfg(not(target_arch = \"wasm32\"))]\nuse crate::database::schema::sql_types::");
    out.append(tn.as_str());
    out.append(" as ");
    out.append(tn.as_str());
    out.append("SqlType;\nuse crate::meltdown::*;\n\n#[cfg_attr(not(target_arch = \"wasm32\"), derive(AsExpression, FromSqlRow))]\n#[cfg_attr(not(target_arch = \"wasm32\"), diesel(sql_type = ");
    out.append(tn.as_str());
    out.append("SqlType))]\n#[derive(Debug, Clone, Copy, PartialEq, Eq, Hash, Serialize, Deserialize)]\npub enum ");
    out.append(tn.as_str());
    out.append(" {\n");
    out.append(l1.as_str());
    out.append("}\n\nimpl ");
    out.append(tn.as_str());
    out.append(" {\n    pub fn as_str(&self) -> &'static str {\n        match self {\n");
    out.append(l2.as_str());
    out.append("        }\n    }\n\n    pub fn parse(s: &str) -> Result<Self, MeltDown> {\n        match s {\n");
    out.append(l3.as_str());
    out.append("            other => Err(MeltDown::validation_failed(format!(\"unknown ");
    out.append(parsed.name.as_str());
    out.append(": {}\", other))),\n        }\n    }\n}\n\n#[cfg(not(target_arch = \"wasm32\"))]\nimpl FromSql<");
    out.append(tn.as_str());
    out.append("SqlType, Pg> for ");
    out.append(tn.as_str());
    out.append(" {\n    fn from_sql(bytes: <Pg as Backend>::RawValue<'_>) -> deserialize::Result<Self> {\n        match bytes.as_bytes() {\n");
    out.append(l4.as_str());
    out.append("            other => Err(format!(\"unknown ");
    out.append(parsed.name.as_str());
    out.append(": {}\", String::from_utf8_lossy(other)).into()),\n        }\n    }\n}\n\n#[cfg(not(target_arch = \"wasm32\"))]\nimpl ToSql<");
    out.append(tn.as_str());
    out.append("SqlType, Pg> for ");
    out.append(tn.as_str());
    out.append(" {\n    fn to_sql<'b>(&'b self, out: &mut Output<'b, '_, Pg>) -> serialize::Result {\n        out.write_all(self.as_str().as_bytes())?;\n        Ok(IsNull::No)\n    }\n}\n\nimpl ");
    out.append(tn.as_str());
    out.append(" {\n    pub const OPTIONS: &'static [(");
    out.append(tn.as_str());
    out.append(", &'static str, Option<&'static str>)] = &[\n");
    out.append(l5.as_str());
    out.append("    ];\n}\n\n#[cfg(not(target_arch = \"wasm32\"))]\nimpl crate::structs::vendored::enum_options::EnumOptions for ");
    out.append(tn.as_str());
    out.append(" {\n    fn options() -> &'static [(Self, &'static str, Option<&'static str>)] {\n        ");
    out.append(tn.as_str());
    out.append("::OPTIONS\n    }\n    fn as_str(&self) -> &'static str {\n        ");
    out.append(tn.as_str());
    out.append("::as_str(self)\n    }\n    fn parse(s: &str) -> Option<Self> {\n        ");
    out.append(tn.as_str());
    out.append("::parse(s).ok()\n    }\n}\n\n#[cfg(target_arch = \"wasm32\")]\nimpl crate::structs::vendored::enum_options::EnumOptions for ");
    out.append(tn.as_str());
    out.append(" {\n    fn options() -> &'static [(Self, &'static str, Option<&'static str>)] {\n        ");
    out.append(tn.as_str());
    out.append("::OPTIONS\n    }\n    fn as_str(&self) -> &'static str {\n        ");
    out.append(tn.as_str());
    out.append("::as_str(self)\n    }\n    fn parse(s: &str) -> Option<Self> {\n        ");
    out.append(tn.as_str());
    out.append("::parse(s).ok()\n    }\n}\n");
    out
}

} // verus!
