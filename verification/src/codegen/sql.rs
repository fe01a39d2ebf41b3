//! The catalogue of SQL type names the generators recognise. Each
//! predicate takes the ASCII-lower-cased type name.
use vstd::prelude::*;
use crate::state::SqlType;
use crate::text::{lower_seq, str_eq, to_ascii_lower};

verus! {

/// The lower-cased type name the catalogue is matched against.
pub open spec fn sql_key(sql: SqlType) -> Seq<char> {
    lower_seq(sql@)
}

/// `sql.as_str().to_ascii_lowercase()`.
pub fn sql_lower(sql: &SqlType) -> (r: String)
    ensures
        r@ == sql_key(*sql),
{
    to_ascii_lower(sql.as_str())
}

pub open spec fn is_bool(l: Seq<char>) -> bool {
    l == "bool"@ || l == "boolean"@
}

pub fn sql_is_bool(l: &str) -> (r: bool)
    ensures
        r == is_bool(l@),
{
    str_eq(l, "bool") || str_eq(l, "boolean")
}

pub open spec fn is_int16(l: Seq<char>) -> bool {
    l == "int2"@ || l == "smallint"@ || l == "smallserial"@
}

pub fn sql_is_int16(l: &str) -> (r: bool)
    ensures
        r == is_int16(l@),
{
    str_eq(l, "int2") || str_eq(l, "smallint") || str_eq(l, "smallserial")
}

pub open spec fn is_int32(l: Seq<char>) -> bool {
    l == "int4"@ || l == "integer"@ || l == "serial"@
}

pub fn sql_is_int32(l: &str) -> (r: bool)
    ensures
        r == is_int32(l@),
{
    str_eq(l, "int4") || str_eq(l, "integer") || str_eq(l, "serial")
}

pub open spec fn is_int64(l: Seq<char>) -> bool {
    l == "int8"@ || l == "bigint"@ || l == "bigserial"@
}

pub fn sql_is_int64(l: &str) -> (r: bool)
    ensures
        r == is_int64(l@),
{
    str_eq(l, "int8") || str_eq(l, "bigint") || str_eq(l, "bigserial")
}

pub open spec fn is_f32(l: Seq<char>) -> bool {
    l == "float4"@ || l == "real"@
}

pub fn sql_is_f32(l: &str) -> (r: bool)
    ensures
        r == is_f32(l@),
{
    str_eq(l, "float4") || str_eq(l, "real")
}

pub open spec fn is_f64(l: Seq<char>) -> bool {
    l == "float8"@ || l == "double"@ || l == "double precision"@
}

pub fn sql_is_f64(l: &str) -> (r: bool)
    ensures
        r == is_f64(l@),
{
    str_eq(l, "float8") || str_eq(l, "double") || str_eq(l, "double precision")
}

pub open spec fn is_decimal(l: Seq<char>) -> bool {
    l == "numeric"@ || l == "decimal"@
}

pub fn sql_is_decimal(l: &str) -> (r: bool)
    ensures
        r == is_decimal(l@),
{
    str_eq(l, "numeric") || str_eq(l, "decimal")
}

pub open spec fn is_text(l: Seq<char>) -> bool {
    l == "text"@ || l == "varchar"@ || l == "bpchar"@ || l == "char"@ || l == "citext"@
}

pub fn sql_is_text(l: &str) -> (r: bool)
    ensures
        r == is_text(l@),
{
    str_eq(l, "text") || str_eq(l, "varchar") || str_eq(l, "bpchar") || str_eq(l, "char") || str_eq(l, "citext")
}

pub open spec fn is_uuid(l: Seq<char>) -> bool {
    l == "uuid"@
}

pub fn sql_is_uuid(l: &str) -> (r: bool)
    ensures
        r == is_uuid(l@),
{
    str_eq(l, "uuid")
}

pub open spec fn is_bytea(l: Seq<char>) -> bool {
    l == "bytea"@
}

pub fn sql_is_bytea(l: &str) -> (r: bool)
    ensures
        r == is_bytea(l@),
{
    str_eq(l, "bytea")
}

pub open spec fn is_timestamp(l: Seq<char>) -> bool {
    l == "timestamp"@
}

pub fn sql_is_timestamp(l: &str) -> (r: bool)
    ensures
        r == is_timestamp(l@),
{
    str_eq(l, "timestamp")
}

pub open spec fn is_timestamptz(l: Seq<char>) -> bool {
    l == "timestamptz"@
}

pub fn sql_is_timestamptz(l: &str) -> (r: bool)
    ensures
        r == is_timestamptz(l@),
{
    str_eq(l, "timestamptz")
}

pub open spec fn is_date(l: Seq<char>) -> bool {
    l == "date"@
}

pub fn sql_is_date(l: &str) -> (r: bool)
    ensures
        r == is_date(l@),
{
    str_eq(l, "date")
}

pub open spec fn is_time(l: Seq<char>) -> bool {
    l == "time"@
}

pub fn sql_is_time(l: &str) -> (r: bool)
    ensures
        r == is_time(l@),
{
    str_eq(l, "time")
}

pub open spec fn is_json(l: Seq<char>) -> bool {
    l == "json"@ || l == "jsonb"@
}

pub fn sql_is_json(l: &str) -> (r: bool)
    ensures
        r == is_json(l@),
{
    str_eq(l, "json") || str_eq(l, "jsonb")
}

/// Any numeric type.
pub open spec fn is_number(l: Seq<char>) -> bool {
    is_int16(l) || is_int32(l) || is_int64(l) || is_f32(l) || is_f64(l) || is_decimal(l)
}

pub fn sql_is_number(l: &str) -> (r: bool)
    ensures
        r == is_number(l@),
{
    sql_is_int16(l) || sql_is_int32(l) || sql_is_int64(l) || sql_is_f32(l) || sql_is_f64(l) || sql_is_decimal(l)
}

/// Dates and times.
pub open spec fn is_temporal(l: Seq<char>) -> bool {
    is_timestamp(l) || is_timestamptz(l) || is_date(l) || is_time(l)
}

pub fn sql_is_temporal(l: &str) -> (r: bool)
    ensures
        r == is_temporal(l@),
{
    sql_is_timestamp(l) || sql_is_timestamptz(l) || sql_is_date(l) || sql_is_time(l)
}


proof fn lemma_reveal_type_names()
    ensures
        "bool"@.len() == 4 && "bool"@[0] == 'b',
        "boolean"@.len() == 7 && "boolean"@[0] == 'b',
        "int2"@.len() == 4 && "int2"@[0] == 'i',
        "smallint"@.len() == 8 && "smallint"@[0] == 's',
        "smallserial"@.len() == 11 && "smallserial"@[0] == 's',
        "int4"@.len() == 4 && "int4"@[0] == 'i',
        "integer"@.len() == 7 && "integer"@[0] == 'i',
        "serial"@.len() == 6 && "serial"@[0] == 's',
        "int8"@.len() == 4 && "int8"@[0] == 'i',
        "bigint"@.len() == 6 && "bigint"@[0] == 'b',
        "bigserial"@.len() == 9 && "bigserial"@[0] == 'b',
        "float4"@.len() == 6 && "float4"@[0] == 'f',
        "real"@.len() == 4 && "real"@[0] == 'r',
        "float8"@.len() == 6 && "float8"@[0] == 'f',
        "double"@.len() == 6 && "double"@[0] == 'd',
        "double precision"@.len() == 16 && "double precision"@[0] == 'd',
        "numeric"@.len() == 7 && "numeric"@[0] == 'n',
        "decimal"@.len() == 7 && "decimal"@[0] == 'd',
        "timestamp"@.len() == 9 && "timestamp"@[0] == 't',
        "timestamptz"@.len() == 11 && "timestamptz"@[0] == 't',
        "date"@.len() == 4 && "date"@[0] == 'd',
        "time"@.len() == 4 && "time"@[0] == 't',
        "json"@.len() == 4 && "json"@[0] == 'j',
        "jsonb"@.len() == 5 && "jsonb"@[0] == 'j',
{
    reveal_strlit("bool");
    reveal_strlit("boolean");
    reveal_strlit("int2");
    reveal_strlit("smallint");
    reveal_strlit("smallserial");
    reveal_strlit("int4");
    reveal_strlit("integer");
    reveal_strlit("serial");
    reveal_strlit("int8");
    reveal_strlit("bigint");
    reveal_strlit("bigserial");
    reveal_strlit("float4");
    reveal_strlit("real");
    reveal_strlit("float8");
    reveal_strlit("double");
    reveal_strlit("double precision");
    reveal_strlit("numeric");
    reveal_strlit("decimal");
    reveal_strlit("timestamp");
    reveal_strlit("timestamptz");
    reveal_strlit("date");
    reveal_strlit("time");
    reveal_strlit("json");
    reveal_strlit("jsonb");
}

proof fn lemma_kind_shapes(l: Seq<char>)
    ensures
        is_bool(l) ==> l.len() > 0 && l[0] == 'b' && (l.len() == 4 || l.len() == 7),
        is_json(l) ==> l.len() > 0 && l[0] == 'j',
        is_temporal(l) ==> l.len() > 0 && ((l[0] == 't' && (l.len() == 4 || l.len() == 9 || l.len() == 11)) || (l[0] == 'd'
            && l.len() == 4)),
        is_number(l) ==> l.len() > 0 && l[0] != 'j' && l[0] != 't' && (l[0] == 'd' ==> l.len() != 4) && (l[0] == 'b'
            ==> l.len() != 4 && l.len() != 7),
{
    lemma_reveal_type_names();
}

/// A type name is at most one of boolean, numeric, date-or-time and JSON, so
/// the input a generator picks for a field never depends on the order in
/// which these are tested.
pub proof fn lemma_input_kinds_exclusive(l: Seq<char>)
    ensures
        !(is_bool(l) && is_number(l)),
        !(is_bool(l) && is_temporal(l)),
        !(is_bool(l) && is_json(l)),
        !(is_number(l) && is_temporal(l)),
        !(is_number(l) && is_json(l)),
        !(is_temporal(l) && is_json(l)),
{
    lemma_kind_shapes(l);
}

} // verus!
