//! Leptos data-layer helpers: per-resource load/do functions and the HTTP
//! client module they use in the browser.
use vstd::prelude::*;
use vstd::string::*;
use crate::codegen::leptos_forms::render::{has_edit_spec, mod_lines_spec, pk_index, primary_key_field, render_data_barrel};
use crate::codegen::sql::{is_bool, is_int16, is_int32, is_int64, is_text, is_uuid, sql_is_bool, sql_is_int16, sql_is_int32, sql_is_int64, sql_is_text, sql_is_uuid, sql_key, sql_lower};
use crate::codegen::structs_naming::{type_stem_for_resource, type_stem_spec};
use crate::state::{Field, ResourceState, SqlType, Verb};
use crate::text::owned;

verus! {

/// Source of the `query_to_query_string` helper emitted next to list loaders.
pub const QUERY_STRING_HELPER: &'static str = "#[cfg(target_arch = \"wasm32\")]\nfn query_to_query_string(query: &ListQuery) -> String {\n    let mut parts: Vec<String> = Vec::new();\n    parts.push(format!(\"page={}\", query.page));\n    parts.push(format!(\"page_size={}\", query.page_size));\n    for sort in &query.sort {\n        let prefix = match sort.direction {\n            crate::structs::list_query::SortDirection::Asc => \"\",\n            crate::structs::list_query::SortDirection::Desc => \"-\",\n        };\n        parts.push(format!(\"sort={}{}\", prefix, sort.column));\n    }\n    for (col, val) in &query.filter {\n        parts.push(format!(\"filter[{}]={}\", col, val));\n    }\n    parts.join(\"&\")\n}\n\n";

/// Source of `transport/leptos/api_client.rs`.
pub const API_CLIENT_MODULE: &'static str = "#[cfg(target_arch = \"wasm32\")]\nuse crate::meltdown::{MeltDown, MeltType};\n#[cfg(target_arch = \"wasm32\")]\nuse serde::{de::DeserializeOwned, Serialize};\n\n#[cfg(target_arch = \"wasm32\")]\npub async fn get_json<T: DeserializeOwned>(path: &str) -> ::std::result::Result<T, MeltDown> {\n    let response = match ::gloo_net::http::Request::get(path).send().await {\n        Ok(r) => r,\n        Err(net_err) => return Err(network_error(net_err)),\n    };\n    decode_response(response).await\n}\n\n#[cfg(target_arch = \"wasm32\")]\npub async fn post_json<I: Serialize, T: DeserializeOwned>(path: &str, input: &I) -> ::std::result::Result<T, MeltDown> {\n    let request = match ::gloo_net::http::Request::post(path).json(input) {\n        Ok(req) => req,\n        Err(json_err) => return Err(serialize_error(json_err)),\n    };\n    let response = match request.send().await {\n        Ok(r) => r,\n        Err(net_err) => return Err(network_error(net_err)),\n    };\n    decode_response(response).await\n}\n\n#[cfg(target_arch = \"wasm32\")]\npub async fn patch_json<I: Serialize, T: DeserializeOwned>(path: &str, input: &I) -> ::std::result::Result<T, MeltDown> {\n    let request = match ::gloo_net::http::Request::patch(path).json(input) {\n        Ok(req) => req,\n        Err(json_err) => return Err(serialize_error(json_err)),\n    };\n    let response = match request.send().await {\n        Ok(r) => r,\n        Err(net_err) => return Err(network_error(net_err)),\n    };\n    decode_response(response).await\n}\n\n#[cfg(target_arch = \"wasm32\")]\npub async fn delete(path: &str) -> ::std::result::Result<(), MeltDown> {\n    let response = match ::gloo_net::http::Request::delete(path).send().await {\n        Ok(r) => r,\n        Err(net_err) => return Err(network_error(net_err)),\n    };\n    if status_is_success(response.status()) {\n        return Ok(());\n    }\n    Err(http_error(response).await)\n}\n\n#[cfg(target_arch = \"wasm32\")]\nasync fn decode_response<T: DeserializeOwned>(response: ::gloo_net::http::Response) -> ::std::result::Result<T, MeltDown> {\n    if !status_is_success(response.status()) {\n        return Err(http_error(response).await);\n    }\n    match response.json::<T>().await {\n        Ok(value) => Ok(value),\n        Err(decode_err) => Err(MeltDown::new(MeltType::DeserializationFailed, format!(\"failed to decode response body: {}\", decode_err))),\n    }\n}\n\n#[cfg(target_arch = \"wasm32\")]\nasync fn http_error(response: ::gloo_net::http::Response) -> MeltDown {\n    let status = response.status();\n    let body = match response.text().await {\n        Ok(b) => b,\n        Err(read_err) => format!(\"<failed to read body: {}>\", read_err),\n    };\n    match ::serde_json::from_str::<MeltDownEnvelope>(&body) {\n        Ok(parsed) => MeltDown::new(parsed.melt_type_to_meltdown(), parsed.details).with_user_message(parsed.message),\n        Err(parse_err) => {\n            drop(parse_err);\n            MeltDown::new(MeltType::ExternalServiceError, format!(\"HTTP {}: {}\", status, body))\n        }\n    }\n}\n\n#[cfg(target_arch = \"wasm32\")]\nfn network_error(err: ::gloo_net::Error) -> MeltDown {\n    MeltDown::new(MeltType::ExternalServiceError, format!(\"network error: {}\", err))\n}\n\n#[cfg(target_arch = \"wasm32\")]\nfn serialize_error(err: ::gloo_net::Error) -> MeltDown {\n    MeltDown::new(MeltType::SerializationFailed, format!(\"failed to encode request body: {}\", err))\n}\n\n#[cfg(target_arch = \"wasm32\")]\nfn status_is_success(status: u16) -> bool {\n    status >= 200 && status < 300\n}\n\n#[cfg(target_arch = \"wasm32\")]\n#[derive(::serde::Deserialize)]\nstruct MeltDownEnvelope {\n    #[serde(default)]\n    pub melt_type: String,\n    #[serde(default)]\n    pub details: String,\n    #[serde(default)]\n    pub message: String,\n}\n\n#[cfg(target_arch = \"wasm32\")]\nimpl MeltDownEnvelope {\n    fn melt_type_to_meltdown(&self) -> MeltType {\n        match self.melt_type.as_str() {\n            \"DatabaseConnection\" => MeltType::DatabaseConnection,\n            \"DatabaseError\" => MeltType::DatabaseError,\n            \"RecordNotFound\" => MeltType::RecordNotFound,\n            \"UniqueViolation\" => MeltType::UniqueViolation,\n            \"ForeignKeyViolation\" => MeltType::ForeignKeyViolation,\n            \"CheckViolation\" => MeltType::CheckViolation,\n            \"NotNullViolation\" => MeltType::NotNullViolation,\n            \"AuthRejected\" => MeltType::AuthRejected,\n            \"SessionExpired\" => MeltType::SessionExpired,\n            \"SessionInvalid\" => MeltType::SessionInvalid,\n            \"SessionMissing\" => MeltType::SessionMissing,\n            \"InsufficientPermissions\" => MeltType::InsufficientPermissions,\n            \"ValidationFailed\" => MeltType::ValidationFailed,\n            \"BadRequest\" => MeltType::BadRequest,\n            \"Unauthorized\" => MeltType::Unauthorized,\n            \"Forbidden\" => MeltType::Forbidden,\n            \"NotFound\" => MeltType::NotFound,\n            \"Conflict\" => MeltType::Conflict,\n            \"UnprocessableEntity\" => MeltType::UnprocessableEntity,\n            \"MethodNotAllowed\" => MeltType::MethodNotAllowed,\n            \"TooManyRequests\" => MeltType::TooManyRequests,\n            \"FileNotFound\" => MeltType::FileNotFound,\n            \"FilePermissionDenied\" => MeltType::FilePermissionDenied,\n            \"FileOperationFailed\" => MeltType::FileOperationFailed,\n            \"SerializationFailed\" => MeltType::SerializationFailed,\n            \"DeserializationFailed\" => MeltType::DeserializationFailed,\n            \"ConfigurationError\" => MeltType::ConfigurationError,\n            \"EnvironmentError\" => MeltType::EnvironmentError,\n            \"ExternalServiceError\" => MeltType::ExternalServiceError,\n            other => MeltType::Unexpected(other.to_string()),\n        }\n    }\n}\n";

/// `load_<table>_list`: server flow on the host, HTTP GET in the browser.
pub open spec fn list_helper_spec(table: Seq<char>, public_ty: Seq<char>) -> Seq<char> {
    "pub async fn load_"@
        + table
        + "_list(query: ListQuery) -> ::std::result::Result<ListResponse<"@
        + public_ty
        + ">, MeltDown> {\n    #[cfg(not(target_arch = \"wasm32\"))]\n    {\n        let ctx = ::leptos::prelude::expect_context::<crate::ctx::Ctx>();\n        crate::flows::generated::"@
        + table
        + "::list::run(&ctx, query).await\n    }\n    #[cfg(target_arch = \"wasm32\")]\n    {\n        let path = format!(\"/api/"@
        + table
        + "?{}\", query_to_query_string(&query));\n        crate::transport::leptos::api_client::get_json(&path).await\n    }\n}\n\n"@
}

fn render_list_helper(table: &str, public_ty: &str) -> (r: String)
    ensures
        r@ == list_helper_spec(table@, public_ty@),
{
    let mut out = owned("pub async fn load_");
    out.append(table);
    out.append("_list(query: ListQuery) -> ::std::result::Result<ListResponse<");
    out.append(public_ty);
    out.append(">, MeltDown> {\n    #[cfg(not(target_arch = \"wasm32\"))]\n    {\n        let ctx = ::leptos::prelude::expect_context::<crate::ctx::Ctx>();\n        crate::flows::generated::");
    out.append(table);
    out.append("::list::run(&ctx, query).await\n    }\n    #[cfg(target_arch = \"wasm32\")]\n    {\n        let path = format!(\"/api/");
    out.append(table);
    out.append("?{}\", query_to_query_string(&query));\n        crate::transport::leptos::api_client::get_json(&path).await\n    }\n}\n\n");
    out
}

/// `load_<table>_one`.
pub open spec fn get_helper_spec(table: Seq<char>, public_ty: Seq<char>, pk_ty: Seq<char>) -> Seq<char> {
    "pub async fn load_"@
        + table
        + "_one(id: "@
        + pk_ty
        + ") -> ::std::result::Result<"@
        + public_ty
        + ", MeltDown> {\n    #[cfg(not(target_arch = \"wasm32\"))]\n    {\n        let ctx = ::leptos::prelude::expect_context::<crate::ctx::Ctx>();\n        crate::flows::generated::"@
        + table
        + "::get::run(&ctx, id).await\n    }\n    #[cfg(target_arch = \"wasm32\")]\n    {\n        let path = format!(\"/api/"@
        + table
        + "/{}\", id);\n        crate::transport::leptos::api_client::get_json(&path).await\n    }\n}\n\n"@
}

fn render_get_helper(table: &str, public_ty: &str, pk_ty: &str) -> (r: String)
    ensures
        r@ == get_helper_spec(table@, public_ty@, pk_ty@),
{
    let mut out = owned("pub async fn load_");
    out.append(table);
    out.append("_one(id: ");
    out.append(pk_ty);
    out.append(") -> ::std::result::Result<");
    out.append(public_ty);
    out.append(", MeltDown> {\n    #[cfg(not(target_arch = \"wasm32\"))]\n    {\n        let ctx = ::leptos::prelude::expect_context::<crate::ctx::Ctx>();\n        crate::flows::generated::");
    out.append(table);
    out.append("::get::run(&ctx, id).await\n    }\n    #[cfg(target_arch = \"wasm32\")]\n    {\n        let path = format!(\"/api/");
    out.append(table);
    out.append("/{}\", id);\n        crate::transport::leptos::api_client::get_json(&path).await\n    }\n}\n\n");
    out
}

/// `do_<table>_create`.
pub open spec fn create_helper_spec(table: Seq<char>, public_ty: Seq<char>, insertable_ty: Seq<char>) -> Seq<char> {
    "pub async fn do_"@
        + table
        + "_create(input: "@
        + insertable_ty
        + ") -> ::std::result::Result<"@
        + public_ty
        + ", MeltDown> {\n    #[cfg(not(target_arch = \"wasm32\"))]\n    {\n        let ctx = ::leptos::prelude::expect_context::<crate::ctx::Ctx>();\n        crate::flows::generated::"@
        + table
        + "::create::run(&ctx, input).await\n    }\n    #[cfg(target_arch = \"wasm32\")]\n    {\n        crate::transport::leptos::api_client::post_json(\"/api/"@
        + table
        + "\", &input).await\n    }\n}\n\n"@
}

fn render_create_helper(table: &str, public_ty: &str, insertable_ty: &str) -> (r: String)
    ensures
        r@ == create_helper_spec(table@, public_ty@, insertable_ty@),
{
    let mut out = owned("pub async fn do_");
    out.append(table);
    out.append("_create(input: ");
    out.append(insertable_ty);
    out.append(") -> ::std::result::Result<");
    out.append(public_ty);
    out.append(", MeltDown> {\n    #[cfg(not(target_arch = \"wasm32\"))]\n    {\n        let ctx = ::leptos::prelude::expect_context::<crate::ctx::Ctx>();\n        crate::flows::generated::");
    out.append(table);
    out.append("::create::run(&ctx, input).await\n    }\n    #[cfg(target_arch = \"wasm32\")]\n    {\n        crate::transport::leptos::api_client::post_json(\"/api/");
    out.append(table);
    out.append("\", &input).await\n    }\n}\n\n");
    out
}

/// `do_<table>_update`.
pub open spec fn update_helper_spec(table: Seq<char>, public_ty: Seq<char>, patch_ty: Seq<char>, pk_ty: Seq<char>) -> Seq<char> {
    "pub async fn do_"@
        + table
        + "_update(id: "@
        + pk_ty
        + ", patch: "@
        + patch_ty
        + ") -> ::std::result::Result<"@
        + public_ty
        + ", MeltDown> {\n    #[cfg(not(target_arch = \"wasm32\"))]\n    {\n        let ctx = ::leptos::prelude::expect_context::<crate::ctx::Ctx>();\n        crate::flows::generated::"@
        + table
        + "::update::run(&ctx, id, patch).await\n    }\n    #[cfg(target_arch = \"wasm32\")]\n    {\n        let path = format!(\"/api/"@
        + table
        + "/{}\", id);\n        crate::transport::leptos::api_client::patch_json(&path, &patch).await\n    }\n}\n\n"@
}

fn render_update_helper(table: &str, public_ty: &str, patch_ty: &str, pk_ty: &str) -> (r: String)
    ensures
        r@ == update_helper_spec(table@, public_ty@, patch_ty@, pk_ty@),
{
    let mut out = owned("pub async fn do_");
    out.append(table);
    out.append("_update(id: ");
    out.append(pk_ty);
    out.append(", patch: ");
    out.append(patch_ty);
    out.append(") -> ::std::result::Result<");
    out.append(public_ty);
    out.append(", MeltDown> {\n    #[cfg(not(target_arch = \"wasm32\"))]\n    {\n        let ctx = ::leptos::prelude::expect_context::<crate::ctx::Ctx>();\n        crate::flows::generated::");
    out.append(table);
    out.append("::update::run(&ctx, id, patch).await\n    }\n    #[cfg(target_arch = \"wasm32\")]\n    {\n        let path = format!(\"/api/");
    out.append(table);
    out.append("/{}\", id);\n        crate::transport::leptos::api_client::patch_json(&path, &patch).await\n    }\n}\n\n");
    out
}

/// `do_<table>_delete`.
pub open spec fn delete_helper_spec(table: Seq<char>, pk_ty: Seq<char>) -> Seq<char> {
    "pub async fn do_"@
        + table
        + "_delete(id: "@
        + pk_ty
        + ") -> ::std::result::Result<(), MeltDown> {\n    #[cfg(not(target_arch = \"wasm32\"))]\n    {\n        let ctx = ::leptos::prelude::expect_context::<crate::ctx::Ctx>();\n        crate::flows::generated::"@
        + table
        + "::delete::run(&ctx, id).await\n    }\n    #[cfg(target_arch = \"wasm32\")]\n    {\n        let path = format!(\"/api/"@
        + table
        + "/{}\", id);\n        crate::transport::leptos::api_client::delete(&path).await\n    }\n}\n\n"@
}

fn render_delete_helper(table: &str, pk_ty: &str) -> (r: String)
    ensures
        r@ == delete_helper_spec(table@, pk_ty@),
{
    let mut out = owned("pub async fn do_");
    out.append(table);
    out.append("_delete(id: ");
    out.append(pk_ty);
    out.append(") -> ::std::result::Result<(), MeltDown> {\n    #[cfg(not(target_arch = \"wasm32\"))]\n    {\n        let ctx = ::leptos::prelude::expect_context::<crate::ctx::Ctx>();\n        crate::flows::generated::");
    out.append(table);
    out.append("::delete::run(&ctx, id).await\n    }\n    #[cfg(target_arch = \"wasm32\")]\n    {\n        let path = format!(\"/api/");
    out.append(table);
    out.append("/{}\", id);\n        crate::transport::leptos::api_client::delete(&path).await\n    }\n}\n\n");
    out
}

/// Rust type of a primary key column (unknown types are `i64`).
pub open spec fn pk_base_spec(l: Seq<char>) -> Seq<char> {
    if is_bool(l) {
        "bool"@
    } else if is_int16(l) {
        "i16"@
    } else if is_int32(l) {
        "i32"@
    } else if is_int64(l) {
        "i64"@
    } else if is_uuid(l) {
        "uuid::Uuid"@
    } else if is_text(l) {
        "String"@
    } else {
        "i64"@
    }
}

pub open spec fn data_pk_spec(fields: Seq<Field>) -> Seq<char> {
    match pk_index(fields) {
        Some(i) => if fields[i].1.nullable {
            "Option<"@ + pk_base_spec(sql_key(fields[i].1.sql_type)) + ">"@
        } else {
            pk_base_spec(sql_key(fields[i].1.sql_type))
        },
        None => "i64"@,
    }
}

fn pk_base(l: &str) -> (r: &'static str)
    ensures
        r@ == pk_base_spec(l@),
{
    if sql_is_bool(l) {
        "bool"
    } else if sql_is_int16(l) {
        "i16"
    } else if sql_is_int32(l) {
        "i32"
    } else if sql_is_int64(l) {
        "i64"
    } else if sql_is_uuid(l) {
        "uuid::Uuid"
    } else if sql_is_text(l) {
        "String"
    } else {
        "i64"
    }
}

fn data_pk_type(resource: &ResourceState) -> (r: String)
    ensures
        r@ == data_pk_spec(resource.fields@),
{
    match primary_key_field(resource) {
        Some(f) => {
            let lowered = sql_lower(&f.1.sql_type);
            let base = pk_base(lowered.as_str());
            if f.1.nullable {
                let mut s = owned("Option<");
                s.append(base);
                s.append(">");
                s
            } else {
                owned(base)
            }
        },
        None => owned("i64"),
    }
}

/// The resource can be deleted by key: it declares `Delete` and has a
/// primary key.
pub open spec fn has_delete_spec(r: ResourceState) -> bool {
    r.declares(Verb::Delete) && pk_index(r.fields@) is Some
}

/// The `use` lines of a resource's data module.
pub open spec fn helpers_head_spec(r: ResourceState) -> Seq<char> {
    let s = type_stem_spec(r);
    "use crate::meltdown::MeltDown;\nuse crate::structs::generated::"@ + r.name@ + "::{"@ + s + "Public"@ + (if r.declares(
        Verb::Create,
    ) {
        ", "@ + s + "Insertable"@
    } else {
        Seq::<char>::empty()
    }) + (if has_edit_spec(r) { ", "@ + s + "Patch"@ } else { Seq::<char>::empty() }) + "};\n"@ + (if r.declares(
        Verb::List,
    ) {
        "use crate::structs::list_query::{ListQuery, ListResponse};\n"@
    } else {
        Seq::<char>::empty()
    }) + "\n"@
}

fn render_helpers_head(resource: &ResourceState, public_ty: &str, insertable_ty: &str, patch_ty: &str) -> (r: String)
    requires
        public_ty@ == type_stem_spec(*resource) + "Public"@,
        insertable_ty@ == type_stem_spec(*resource) + "Insertable"@,
        patch_ty@ == type_stem_spec(*resource) + "Patch"@,
    ensures
        r@ == helpers_head_spec(*resource),
{
    let mut out = owned("use crate::meltdown::MeltDown;\nuse crate::structs::generated::");
    out.append(resource.name.as_str());
    out.append("::{");
    out.append(public_ty);
    let ghost a = out@;
    if resource.has_verb(Verb::Create) {
        out.append(", ");
        out.append(insertable_ty);
    }
    let ghost b = out@;
    if resource.has_verb(Verb::Update) && primary_key_field(resource).is_some() {
        out.append(", ");
        out.append(patch_ty);
    }
    let ghost c = out@;
    out.append("};\n");
    if resource.has_verb(Verb::List) {
        out.append("use crate::structs::list_query::{ListQuery, ListResponse};\n");
    }
    let ghost d = out@;
    out.append("\n");
    assert(out@ =~= helpers_head_spec(*resource));
    out
}

/// The data helpers of one verb (empty when the resource does not get it).
pub open spec fn helper_section_spec(r: ResourceState, v: Verb) -> Seq<char> {
    let table = r.name@;
    let s = type_stem_spec(r);
    let public_ty = s + "Public"@;
    let pk_ty = data_pk_spec(r.fields@);
    match v {
        Verb::List => if r.declares(Verb::List) { list_helper_spec(table, public_ty) } else { Seq::<char>::empty() },
        Verb::Get => if r.declares(Verb::Get) { get_helper_spec(table, public_ty, pk_ty) } else { Seq::<char>::empty() },
        Verb::Create => if r.declares(Verb::Create) {
            create_helper_spec(table, public_ty, s + "Insertable"@)
        } else {
            Seq::<char>::empty()
        },
        Verb::Update => if has_edit_spec(r) {
            update_helper_spec(table, public_ty, s + "Patch"@, pk_ty)
        } else {
            Seq::<char>::empty()
        },
        Verb::Delete => if has_delete_spec(r) { delete_helper_spec(table, pk_ty) } else { Seq::<char>::empty() },
    }
}

fn render_helper_section(
    resource: &ResourceState,
    v: Verb,
    public_ty: &str,
    insertable_ty: &str,
    patch_ty: &str,
    pk_ty: &str,
) -> (r: String)
    requires
        public_ty@ == type_stem_spec(*resource) + "Public"@,
        insertable_ty@ == type_stem_spec(*resource) + "Insertable"@,
        patch_ty@ == type_stem_spec(*resource) + "Patch"@,
        pk_ty@ == data_pk_spec(resource.fields@),
    ensures
        r@ == helper_section_spec(*resource, v),
{
    let table = resource.name.as_str();
    match v {
        Verb::List => if resource.has_verb(Verb::List) {
            render_list_helper(table, public_ty)
        } else {
            String::new()
        },
        Verb::Get => if resource.has_verb(Verb::Get) {
            render_get_helper(table, public_ty, pk_ty)
        } else {
            String::new()
        },
        Verb::Create => if resource.has_verb(Verb::Create) {
            render_create_helper(table, public_ty, insertable_ty)
        } else {
            String::new()
        },
        Verb::Update => if resource.has_verb(Verb::Update) && primary_key_field(resource).is_some() {
            render_update_helper(table, public_ty, patch_ty, pk_ty)
        } else {
            String::new()
        },
        Verb::Delete => if resource.has_verb(Verb::Delete) && primary_key_field(resource).is_some() {
            render_delete_helper(table, pk_ty)
        } else {
            String::new()
        },
    }
}

/// `transport/leptos/data/generated/<table>.rs`: the load/do functions of
/// each supported verb, then the query-string helper when there is a list.
pub open spec fn resource_helpers_spec(r: ResourceState) -> Seq<char> {
    helpers_head_spec(r) + helper_section_spec(r, Verb::List) + helper_section_spec(r, Verb::Get)
        + helper_section_spec(r, Verb::Create) + helper_section_spec(r, Verb::Update) + helper_section_spec(
        r,
        Verb::Delete,
    ) + (if r.declares(Verb::List) { QUERY_STRING_HELPER@ } else { Seq::<char>::empty() })
}

/// Data-layer helpers of one resource.
pub fn render_resource_helpers(resource: &ResourceState) -> (r: String)
    ensures
        r@ == resource_helpers_spec(*resource),
{
    let stem = type_stem_for_resource(resource);
    let mut public_ty = owned(stem.as_str());
    public_ty.append("Public");
    let mut insertable_ty = owned(stem.as_str());
    insertable_ty.append("Insertable");
    let mut patch_ty = owned(stem.as_str());
    patch_ty.append("Patch");
    let pk_ty = data_pk_type(resource);
    let p = public_ty.as_str();
    let i = insertable_ty.as_str();
    let u = patch_ty.as_str();
    let k = pk_ty.as_str();
    let mut out = render_helpers_head(resource, p, i, u);
    let a = render_helper_section(resource, Verb::List, p, i, u, k);
    out.append(a.as_str());
    let b = render_helper_section(resource, Verb::Get, p, i, u, k);
    out.append(b.as_str());
    let c = render_helper_section(resource, Verb::Create, p, i, u, k);
    out.append(c.as_str());
    let d = render_helper_section(resource, Verb::Update, p, i, u, k);
    out.append(d.as_str());
    let e = render_helper_section(resource, Verb::Delete, p, i, u, k);
    out.append(e.as_str());
    if resource.has_verb(Verb::List) {
        out.append(QUERY_STRING_HELPER);
    }
    proof {
        reveal_strlit("");
    }
    out
}

/// `transport/leptos/data/generated/mod.rs`: one module per table, sorted.
pub fn render_top_data_barrel(tables: &[&str]) -> (r: String)
    ensures
        r@ == mod_lines_spec(tables@),
{
    render_data_barrel(tables)
}

/// The browser HTTP client module the data helpers call.
pub fn render_api_client_module() -> (r: String)
    ensures
        r@ == API_CLIENT_MODULE@,
{
    owned(API_CLIENT_MODULE)
}

} // verus!
