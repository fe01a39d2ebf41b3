//! File bodies the auth emitter writes, before the generated-file marker.
pub mod leptos_pages;

use vstd::prelude::*;
pub use leptos_pages::{LEPTOS_LOGIN, LEPTOS_REGISTER, LEPTOS_LOGOUT, LEPTOS_PROFILE, LEPTOS_PROFILE_SCSS};

verus! {

pub const STRUCTS_USERS: &'static str = "#[cfg(not(target_arch = \"wasm32\"))]\nuse diesel::{prelude::*, Queryable};\nuse serde::{Deserialize, Serialize};\n\n#[cfg(not(target_arch = \"wasm32\"))]\nuse crate::database::schema::users;\nuse crate::structs::generated::UserRole;\n\n#[cfg(not(target_arch = \"wasm32\"))]\n#[derive(Queryable, QueryableByName, Selectable, Debug, Clone, Identifiable, Serialize, Deserialize)]\n#[diesel(table_name = users)]\npub struct User {\n    pub id: i64,\n    pub email: String,\n    pub password_hash: String,\n    pub role: UserRole,\n    pub created_at: i64,\n    pub updated_at: i64,\n    pub deleted_at: Option<i64>,\n}\n\n#[cfg(not(target_arch = \"wasm32\"))]\n#[derive(Insertable, Debug, Clone)]\n#[diesel(table_name = users)]\npub struct NewUser {\n    pub email: String,\n    pub password_hash: String,\n}\n\n#[derive(Debug, Clone, Serialize, Deserialize)]\npub struct UserPublic {\n    pub id: i64,\n    pub email: String,\n    pub role: UserRole,\n}\n\n#[cfg(not(target_arch = \"wasm32\"))]\nimpl From<&User> for UserPublic {\n    fn from(u: &User) -> Self {\n        Self {\n            id: u.id,\n            email: u.email.clone(),\n            role: u.role.clone(),\n        }\n    }\n}\n\n#[cfg(not(target_arch = \"wasm32\"))]\nimpl From<User> for UserPublic {\n    fn from(u: User) -> Self {\n        Self { id: u.id, email: u.email, role: u.role }\n    }\n}\n";

pub const STRUCTS_AUTH_LOGIN: &'static str = "use serde::{Deserialize, Serialize};\n\nuse crate::structs::{vendored::auth::SessionContext, UserPublic};\n\n#[derive(Clone)]\npub struct LoginInput {\n    pub email: String,\n    pub password: String,\n}\n\n#[derive(Debug, Clone, Deserialize)]\npub struct LoginBody {\n    pub email: String,\n    pub password: String,\n}\n\npub struct LoginOutput {\n    pub token: String,\n    pub user: UserPublic,\n    pub session: SessionContext,\n}\n\n#[derive(Debug, Clone, Serialize)]\npub struct AuthResponse {\n    pub token: String,\n    pub user: UserPublic,\n}\n";

pub const STRUCTS_AUTH_REGISTER: &'static str = "use serde::Deserialize;\n\nuse crate::structs::{vendored::auth::SessionContext, UserPublic};\n\n#[derive(Clone)]\npub struct RegisterInput {\n    pub email: String,\n    pub password: String,\n}\n\n#[derive(Debug, Clone, Deserialize)]\npub struct RegisterBody {\n    pub email: String,\n    pub password: String,\n}\n\npub struct RegisterOutput {\n    pub token: String,\n    pub user: UserPublic,\n    pub session: SessionContext,\n}\n";

pub const STRUCTS_AUTH_MOD: &'static str = "pub mod login;\npub mod register;\n\npub use login::{AuthResponse, LoginBody, LoginInput, LoginOutput};\npub use register::{RegisterBody, RegisterInput, RegisterOutput};\n";

pub const MODELS_USERS: &'static str = "use diesel::{ExpressionMethods, OptionalExtension, QueryDsl, SelectableHelper};\nuse diesel_async::{AsyncPgConnection, RunQueryDsl};\n\nuse crate::{\n    database::schema::users::dsl as users_dsl,\n    meltdown::*,\n    structs::{generated::UserRole, NewUser, User},\n};\n\npub async fn find_by_email(conn: &mut AsyncPgConnection, email: &str) -> Result<Option<User>, MeltDown> {\n    users_dsl::users\n        .filter(users_dsl::email.eq(email))\n        .filter(users_dsl::deleted_at.is_null())\n        .select(User::as_select())\n        .first::<User>(conn)\n        .await\n        .optional()\n        .map_err(|e| MeltDown::from(e).with_context(\"operation\", \"find_user_by_email\"))\n}\n\npub async fn find_by_id(conn: &mut AsyncPgConnection, id: i64) -> Result<Option<User>, MeltDown> {\n    users_dsl::users\n        .filter(users_dsl::id.eq(id))\n        .filter(users_dsl::deleted_at.is_null())\n        .select(User::as_select())\n        .first::<User>(conn)\n        .await\n        .optional()\n        .map_err(|e| MeltDown::from(e).with_context(\"operation\", \"find_user_by_id\"))\n}\n\npub async fn insert_new(conn: &mut AsyncPgConnection, email: &str, password_hash: &str) -> Result<User, MeltDown> {\n    let new_user = NewUser {\n        email: email.to_string(),\n        password_hash: password_hash.to_string(),\n    };\n\n    diesel::insert_into(users_dsl::users)\n        .values(&new_user)\n        .returning(User::as_select())\n        .get_result::<User>(conn)\n        .await\n        .map_err(|e| MeltDown::from(e).with_context(\"operation\", \"insert_new_user\"))\n}\n\npub async fn set_role(conn: &mut AsyncPgConnection, id: i64, role: UserRole) -> Result<User, MeltDown> {\n    diesel::update(users_dsl::users.filter(users_dsl::id.eq(id)))\n        .set(users_dsl::role.eq(role))\n        .returning(User::as_select())\n        .get_result::<User>(conn)\n        .await\n        .map_err(|e| MeltDown::from(e).with_context(\"operation\", \"set_user_role\"))\n}\n";

pub const ROUTINES_AUTH_LOGIN: &'static str = "use crate::{\n    cata_log,\n    config::cfg,\n    meltdown::*,\n    models::{vendored::auth::sessions, generated::users},\n    services::vendored::{crypto, time},\n    structs::{\n        vendored::auth::SessionContext,\n        generated::auth::{LoginInput, LoginOutput},\n        UserPublic,\n    },\n    Ctx,\n};\n\npub async fn run(ctx: &Ctx, input: LoginInput) -> Result<LoginOutput, MeltDown> {\n    let email = input.email.trim().to_lowercase();\n    let mut conn = ctx.conn().await?;\n    let user = users::find_by_email(&mut conn, &email).await?.ok_or_else(MeltDown::auth_rejected)?;\n\n    if !crypto::verify_password(&input.password, &user.password_hash)? {\n        cata_log!(Warning, format!(\"Invalid password for email: {}\", email));\n        return Err(MeltDown::auth_rejected());\n    }\n\n    let token = crypto::mint_session_token();\n    let expires_at = time::now_unix() + cfg().auth.session_ttl_secs;\n    let session_row = sessions::insert_session(&mut conn, user.id, &token, expires_at).await?;\n\n    cata_log!(Info, format!(\"Issued session for user id={}\", user.id));\n    let session_ctx = SessionContext::new(session_row.id, user.id, user.role, &token);\n    Ok(LoginOutput {\n        token,\n        user: UserPublic::from(user),\n        session: session_ctx,\n    })\n}\n";

pub const ROUTINES_AUTH_REGISTER: &'static str = "use crate::{\n    cata_log,\n    config::cfg,\n    meltdown::*,\n    models::{vendored::auth::sessions, generated::users},\n    services::vendored::{crypto, time},\n    structs::{\n        vendored::auth::SessionContext,\n        generated::auth::{RegisterInput, RegisterOutput},\n        UserPublic,\n    },\n    Ctx,\n};\n\npub async fn run(ctx: &Ctx, input: RegisterInput) -> Result<RegisterOutput, MeltDown> {\n    let email = input.email.trim().to_lowercase();\n    if email.is_empty() {\n        return Err(MeltDown::validation_failed(\"email is required\"));\n    }\n    if input.password.len() < 8 {\n        return Err(MeltDown::validation_failed(\"password must be at least 8 characters\"));\n    }\n\n    let mut conn = ctx.conn().await?;\n\n    if users::find_by_email(&mut conn, &email).await?.is_some() {\n        return Err(MeltDown::validation_failed(\"email already registered\"));\n    }\n\n    let hash = crypto::hash_password(&input.password)?;\n    let user = users::insert_new(&mut conn, &email, &hash).await?;\n\n    let token = crypto::mint_session_token();\n    let expires_at = time::now_unix() + cfg().auth.session_ttl_secs;\n    let session_row = sessions::insert_session(&mut conn, user.id, &token, expires_at).await?;\n\n    cata_log!(Info, format!(\"Registered user id={} email={}\", user.id, user.email));\n    let session_ctx = SessionContext::new(session_row.id, user.id, user.role, &token);\n    Ok(RegisterOutput {\n        token,\n        user: UserPublic::from(user),\n        session: session_ctx,\n    })\n}\n";

pub const ROUTINES_AUTH_LOGOUT: &'static str = "use crate::{cata_log, meltdown::*, models::vendored::auth::sessions, structs::vendored::auth::SessionContext, Ctx};\n\npub async fn run(ctx: &Ctx, session: &SessionContext) -> Result<(), MeltDown> {\n    let mut conn = ctx.conn().await?;\n    sessions::delete_by_token(&mut conn, &session.token).await?;\n    cata_log!(Info, format!(\"Revoked session for user id={}\", session.user_id));\n    Ok(())\n}\n";

pub const ROUTINES_AUTH_ME: &'static str = "use crate::{\n    meltdown::*,\n    models::generated::users,\n    structs::{vendored::auth::SessionContext, UserPublic},\n    Ctx,\n};\n\npub async fn run(ctx: &Ctx, session: &SessionContext) -> Result<UserPublic, MeltDown> {\n    let mut conn = ctx.conn().await?;\n    let user = users::find_by_id(&mut conn, session.user_id).await?.ok_or_else(|| MeltDown::session_invalid(\"Session user no longer exists\"))?;\n    Ok(UserPublic::from(user))\n}\n";

pub const ROUTINES_AUTH_MOD: &'static str = "pub mod login;\npub mod logout;\npub mod me;\npub mod register;\n";

pub const FLOWS_AUTH_LOGIN: &'static str = "pub use crate::structs::generated::auth::{LoginInput, LoginOutput};\nuse crate::{crank::Crank, meltdown::*, routines, Ctx};\n\npub async fn run(ctx: &Ctx, input: LoginInput) -> Result<LoginOutput, MeltDown> {\n    Crank::none()\n        .run(|| {\n            routines::generated::auth::login::run(\n                ctx,\n                LoginInput {\n                    email: input.email.clone(),\n                    password: input.password.clone(),\n                },\n            )\n        })\n        .await\n}\n";

pub const FLOWS_AUTH_REGISTER: &'static str = "pub use crate::structs::generated::auth::{RegisterInput, RegisterOutput};\nuse crate::{crank::Crank, meltdown::*, routines, Ctx};\n\npub async fn run(ctx: &Ctx, input: RegisterInput) -> Result<RegisterOutput, MeltDown> {\n    Crank::none()\n        .run(|| {\n            routines::generated::auth::register::run(\n                ctx,\n                RegisterInput {\n                    email: input.email.clone(),\n                    password: input.password.clone(),\n                },\n            )\n        })\n        .await\n}\n";

pub const FLOWS_AUTH_LOGOUT: &'static str = "use crate::{crank::Crank, meltdown::*, routines, structs::vendored::auth::SessionContext, Ctx};\n\npub async fn run(ctx: &Ctx, session: &SessionContext) -> Result<(), MeltDown> {\n    Crank::none().run(|| routines::generated::auth::logout::run(ctx, session)).await\n}\n";

pub const FLOWS_AUTH_ME: &'static str = "use std::time::Duration;\n\nuse crate::{\n    crank::Crank,\n    meltdown::*,\n    routines,\n    structs::{vendored::auth::SessionContext, UserPublic},\n    Ctx,\n};\n\npub async fn run(ctx: &Ctx, session: &SessionContext) -> Result<UserPublic, MeltDown> {\n    Crank::backoff(2, Duration::from_millis(50)).run(|| routines::generated::auth::me::run(ctx, session)).await\n}\n";

pub const FLOWS_AUTH_MOD: &'static str = "pub mod login;\npub mod logout;\npub mod me;\npub mod register;\n";

pub const HTTP_AUTH: &'static str = "use axum::{\n    extract::{rejection::JsonRejection, Extension, Json},\n    http::StatusCode,\n    routing::{get, post},\n    Router,\n};\nuse axum_extra::extract::cookie::{Cookie, CookieJar, SameSite};\n\nuse crate::{\n    cata_log,\n    config::cfg,\n    flows::generated::auth,\n    meltdown::*,\n    structs::{\n        vendored::auth::SessionContext,\n        generated::auth::{LoginBody, RegisterBody},\n    },\n    transport::http::vendored::middleware::rate_limit::with_auth_rate_limit,\n    Ctx,\n};\n\nfn build_session_cookie(token: String) -> Cookie<'static> {\n    Cookie::build((cfg().auth.session_cookie_name.clone(), token)).http_only(true).same_site(SameSite::Lax).path(\"/\").build()\n}\n\nasync fn register_handler(cookies: CookieJar, Extension(ctx): Extension<Ctx>, body: Result<Json<RegisterBody>, JsonRejection>) -> Result<(CookieJar, Json<SessionContext>), MeltDown> {\n    let Json(body) = body?;\n    cata_log!(Info, format!(\"Register attempt for email: {}\", body.email));\n    let output = auth::register::run(\n        &ctx,\n        auth::register::RegisterInput {\n            email: body.email,\n            password: body.password,\n        },\n    )\n    .await?;\n    let updated = cookies.add(build_session_cookie(output.token.clone()));\n    Ok((updated, Json(output.session)))\n}\n\nasync fn login_handler(cookies: CookieJar, Extension(ctx): Extension<Ctx>, body: Result<Json<LoginBody>, JsonRejection>) -> Result<(CookieJar, Json<SessionContext>), MeltDown> {\n    let Json(body) = body?;\n    cata_log!(Info, format!(\"Login attempt for email: {}\", body.email));\n    let output = auth::login::run(\n        &ctx,\n        auth::login::LoginInput {\n            email: body.email,\n            password: body.password,\n        },\n    )\n    .await?;\n    let updated = cookies.add(build_session_cookie(output.token.clone()));\n    Ok((updated, Json(output.session)))\n}\n\nasync fn logout_handler(cookies: CookieJar, Extension(ctx): Extension<Ctx>) -> Result<(CookieJar, StatusCode), MeltDown> {\n    let session = ctx.require_session()?;\n    auth::logout::run(&ctx, session).await?;\n    let updated = cookies.remove(Cookie::from(cfg().auth.session_cookie_name.clone()));\n    Ok((updated, StatusCode::NO_CONTENT))\n}\n\nasync fn me_handler(Extension(ctx): Extension<Ctx>) -> Result<Json<SessionContext>, MeltDown> {\n    let session = ctx.require_session()?;\n    Ok(Json(session.clone()))\n}\n\npub fn router() -> Router<Ctx> {\n    let throttled = with_auth_rate_limit(Router::new().route(\"/auth/register\", post(register_handler)).route(\"/auth/login\", post(login_handler)));\n    throttled.route(\"/auth/logout\", post(logout_handler)).route(\"/auth/me\", get(me_handler))\n}\n";

} // verus!
