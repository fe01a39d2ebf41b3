pub mod app_routes;
pub mod auth_emitter;
pub mod build_rs_template;
pub mod components;
pub mod composables;
pub mod composables_v2;
pub mod enums;
pub mod env_example;
pub mod fe_runtime;
pub mod fe_runtime_composables;
pub mod flows;
pub mod frontend;
pub mod frontend_api;
pub mod frontend_scaffold;
pub mod frontend_types;
pub mod header;
pub mod http_routes;
pub mod icons;
pub mod leptos_admin;
pub mod leptos_data;
pub mod leptos_forms;
pub mod leptos_nav;
pub mod naming;
pub mod pipeline;
pub mod sql;
pub mod structs_naming;
