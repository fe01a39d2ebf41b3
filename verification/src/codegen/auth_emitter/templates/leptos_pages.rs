//! Auth pages of the Leptos frontend: login, register, logout, profile.
use vstd::prelude::*;

verus! {

pub const LEPTOS_LOGIN: &'static str = "use leptos::prelude::*;\nuse leptos::task::spawn_local;\n\nuse crate::meltdown::MeltDown;\nuse crate::structs::vendored::leptos::{ButtonKind, LoginInput, PageLayout, RouteName};\nuse crate::views::components::{AuthCard, AuthCardAlt, AuthGuard, AuthGuardMode, Button, ErrorBanner, FormGroup, PageShell};\nuse crate::transport::leptos::data::auth::do_login;\nuse crate::views::signals::nav::use_blocking_navigate;\nuse crate::views::signals::session::use_session;\nuse crate::views::signals::toast::use_toast;\n\n#[component]\npub fn LoginPage() -> impl IntoView {\n    let session_store = use_session();\n    let toasts = use_toast();\n    let navigate = StoredValue::new_local(use_blocking_navigate());\n\n    let email = RwSignal::new(String::new());\n    let password = RwSignal::new(String::new());\n    let pending = RwSignal::new(false);\n    let last_error: RwSignal<Option<MeltDown>> = RwSignal::new(None);\n\n    let on_submit = move |ev: leptos::ev::SubmitEvent| {\n        ev.prevent_default();\n        if pending.get_untracked() {\n            return;\n        }\n        pending.set(true);\n        last_error.set(None);\n        let input = LoginInput {\n            email: email.get_untracked(),\n            password: password.get_untracked(),\n        };\n        spawn_local(async move {\n            let result = do_login(input).await;\n            pending.set(false);\n            match result {\n                Ok(session) => {\n                    session_store.set(session);\n                    toasts.success(\"Signed in.\");\n                    navigate.with_value(|nav| nav(RouteName::Dashboard.path().as_ref()));\n                }\n                Err(err) => {\n                    err.log();\n                    let msg: String = err.user_message();\n                    toasts.error(msg);\n                    last_error.set(Some(err));\n                }\n            }\n        });\n    };\n\n    view! {\n        <AuthGuard mode=AuthGuardMode::AnonOnly>\n            <PageShell layout=PageLayout::Bleed>\n            <AuthCard title=\"Sign in\".to_string() lede=\"Welcome back. Use your work email.\".to_string()>\n                <form on:submit=on_submit>\n                    <FormGroup label=\"Email\".to_string() for_id=\"login_email\".to_string()>\n                        <input\n                            id=\"login_email\"\n                            type=\"email\"\n                            autocomplete=\"email\"\n                            required=true\n                            prop:value=move || email.get()\n                            on:input=move |ev| email.set(event_target_value(&ev))\n                        />\n                    </FormGroup>\n                    <FormGroup label=\"Password\".to_string() for_id=\"login_password\".to_string()>\n                        <input\n                            id=\"login_password\"\n                            type=\"password\"\n                            autocomplete=\"current-password\"\n                            required=true\n                            prop:value=move || password.get()\n                            on:input=move |ev| password.set(event_target_value(&ev))\n                        />\n                    </FormGroup>\n                    {move || last_error.get().map(|err| view! { <ErrorBanner error=err/> }.into_any())}\n                    <Button kind=ButtonKind::Primary kind_attr=\"submit\".to_string() full=true disabled=Signal::derive(move || pending.get())>\n                        {move || match pending.get() {\n                            true => \"Signing in…\",\n                            false => \"Sign in\",\n                        }}\n                    </Button>\n                </form>\n                <AuthCardAlt>\n                    \"New here? \"\n                    <a href={RouteName::Register.path().to_string()}>\"Create an account\"</a>\n                </AuthCardAlt>\n            </AuthCard>\n            </PageShell>\n        </AuthGuard>\n    }\n}\n";

pub const LEPTOS_REGISTER: &'static str = "use leptos::prelude::*;\nuse leptos::task::spawn_local;\n\nuse crate::meltdown::MeltDown;\nuse crate::structs::vendored::leptos::{ButtonKind, PageLayout, RegisterInput, RouteName};\nuse crate::views::components::{AuthCard, AuthCardAlt, AuthGuard, AuthGuardMode, Button, ErrorBanner, FormGroup, PageShell};\nuse crate::transport::leptos::data::auth::do_register;\nuse crate::views::signals::nav::use_blocking_navigate;\nuse crate::views::signals::session::use_session;\nuse crate::views::signals::toast::use_toast;\n\n#[component]\npub fn RegisterPage() -> impl IntoView {\n    let session_store = use_session();\n    let toasts = use_toast();\n    let navigate = StoredValue::new_local(use_blocking_navigate());\n\n    let email = RwSignal::new(String::new());\n    let password = RwSignal::new(String::new());\n    let pending = RwSignal::new(false);\n    let last_error: RwSignal<Option<MeltDown>> = RwSignal::new(None);\n\n    let on_submit = move |ev: leptos::ev::SubmitEvent| {\n        ev.prevent_default();\n        if pending.get_untracked() {\n            return;\n        }\n        pending.set(true);\n        last_error.set(None);\n        let input = RegisterInput {\n            email: email.get_untracked(),\n            password: password.get_untracked(),\n        };\n        spawn_local(async move {\n            let result = do_register(input).await;\n            pending.set(false);\n            match result {\n                Ok(session) => {\n                    session_store.set(session);\n                    toasts.success(\"Welcome.\");\n                    navigate.with_value(|nav| nav(RouteName::Dashboard.path().as_ref()));\n                }\n                Err(err) => {\n                    err.log();\n                    let msg: String = err.user_message();\n                    toasts.error(msg);\n                    last_error.set(Some(err));\n                }\n            }\n        });\n    };\n\n    view! {\n        <AuthGuard mode=AuthGuardMode::AnonOnly>\n            <PageShell layout=PageLayout::Bleed>\n            <AuthCard title=\"Create account\".to_string() lede=\"One minute, then you're in.\".to_string()>\n                <form on:submit=on_submit>\n                    <FormGroup label=\"Email\".to_string() for_id=\"register_email\".to_string()>\n                        <input\n                            id=\"register_email\"\n                            type=\"email\"\n                            autocomplete=\"email\"\n                            required=true\n                            prop:value=move || email.get()\n                            on:input=move |ev| email.set(event_target_value(&ev))\n                        />\n                    </FormGroup>\n                    <FormGroup label=\"Password\".to_string() for_id=\"register_password\".to_string()>\n                        <input\n                            id=\"register_password\"\n                            type=\"password\"\n                            autocomplete=\"new-password\"\n                            required=true\n                            prop:value=move || password.get()\n                            on:input=move |ev| password.set(event_target_value(&ev))\n                        />\n                    </FormGroup>\n                    {move || last_error.get().map(|err| view! { <ErrorBanner error=err/> }.into_any())}\n                    <Button kind=ButtonKind::Primary kind_attr=\"submit\".to_string() full=true disabled=Signal::derive(move || pending.get())>\n                        {move || match pending.get() {\n                            true => \"Creating…\",\n                            false => \"Create account\",\n                        }}\n                    </Button>\n                </form>\n                <AuthCardAlt>\n                    \"Already have an account? \"\n                    <a href={RouteName::Login.path().to_string()}>\"Sign in\"</a>\n                </AuthCardAlt>\n            </AuthCard>\n            </PageShell>\n        </AuthGuard>\n    }\n}\n";

pub const LEPTOS_LOGOUT: &'static str = "use leptos::prelude::*;\nuse leptos::task::spawn_local;\n\nuse crate::structs::vendored::leptos::RouteName;\nuse crate::views::components::{AuthGuardMode, AuthGuard, ErrorBanner, PageLayout, PageShell};\nuse crate::transport::leptos::data::auth::do_logout;\nuse crate::views::signals::nav::use_blocking_navigate;\nuse crate::views::signals::session::use_session;\nuse crate::views::signals::toast::use_toast;\n\n#[component]\npub fn LogoutPage() -> impl IntoView {\n    let session_store = use_session();\n    let toasts = use_toast();\n    let navigate = StoredValue::new_local(use_blocking_navigate());\n    let last_error = RwSignal::new(None);\n\n    Effect::new(move |_| {\n        spawn_local(async move {\n            match do_logout().await {\n                Ok(()) => {\n                    session_store.clear();\n                    toasts.success(\"Signed out.\");\n                    navigate.with_value(|nav| nav(RouteName::Login.path().as_ref()));\n                }\n                Err(err) => {\n                    err.log();\n                    let msg: String = format!(\"{}\", err);\n                    toasts.error(msg);\n                    last_error.set(Some(err));\n                }\n            }\n        });\n    });\n\n    view! {\n        <AuthGuard mode=AuthGuardMode::Required>\n            <PageShell layout=PageLayout::Cards>\n                <h1>\"Signing out…\"</h1>\n                {move || last_error.get().map(|err| view! { <ErrorBanner error=err/> }.into_any())}\n            </PageShell>\n        </AuthGuard>\n    }\n}\n";

pub const LEPTOS_PROFILE: &'static str = "use leptos::prelude::*;\nuse stylance::import_crate_style;\n\nuse crate::structs::vendored::leptos::{AvatarSize, BadgeColor, ButtonKind, PageLayout};\nuse crate::views::components::cells::BadgeCell;\nuse crate::views::components::{AppShell, AuthGuard, AuthGuardMode, AvatarCell, Button, Card, PageShell};\nuse crate::views::signals::session::use_session;\n\nimport_crate_style!(style, \"src/transport/leptos/pages/generated/profile.module.scss\");\n\n#[component]\npub fn ProfilePage() -> impl IntoView {\n    let session_signal = use_session().signal();\n    let user_id = move || match session_signal.get() {\n        Some(s) => s.user_id.to_string(),\n        None => \"—\".to_string(),\n    };\n    let role = move || match session_signal.get() {\n        Some(s) => format!(\"{:?}\", s.role),\n        None => \"—\".to_string(),\n    };\n    view! {\n        <AuthGuard mode=AuthGuardMode::Required>\n            <PageShell layout=PageLayout::Bleed>\n            <AppShell title=\"Profile\".to_string()>\n                <Card>\n                    <div class=style::identity>\n                        <AvatarCell name=\"You\".to_string() size=AvatarSize::Lg/>\n                        <div class=style::identity_meta>\n                            <h3 class=style::identity_name>\"Your account\"</h3>\n                            <p class=style::identity_email>\"Manage your identity and security settings.\"</p>\n                        </div>\n                    </div>\n                </Card>\n\n                <Card title=\"Identity\".to_string()>\n                    <div class=style::section>\n                        <div class=style::row>\n                            <span class=style::label>\"User ID\"</span>\n                            <span class=style::value>{user_id}</span>\n                        </div>\n                        <div class=style::row>\n                            <span class=style::label>\"Role\"</span>\n                            <span class=style::value>\n                                <BadgeCell text=Signal::derive(role) color=BadgeColor::Info/>\n                            </span>\n                        </div>\n                        <div class=style::row>\n                            <span class=style::label>\"Status\"</span>\n                            <span class=style::value>\n                                <BadgeCell text=\"Active\".to_string() color=BadgeColor::Success/>\n                            </span>\n                        </div>\n                    </div>\n                </Card>\n\n                <Card title=\"Security\".to_string()>\n                    <p class=style::identity_email>\"Reset your password or revoke active sessions.\"</p>\n                    <div class=style::actions>\n                        <Button kind=ButtonKind::Secondary>\"Change password\"</Button>\n                        <Button kind=ButtonKind::Danger>\"Revoke all sessions\"</Button>\n                    </div>\n                </Card>\n            </AppShell>\n            </PageShell>\n        </AuthGuard>\n    }\n}\n";

pub const LEPTOS_PROFILE_SCSS: &'static str = ".row {\n    display: grid;\n    grid-template-columns: 8rem 1fr;\n    gap: var(--app-space-md);\n    padding: var(--app-space-sm) 0;\n    border-bottom: 0.0625rem solid var(--app-color-border-subtle);\n    align-items: center;\n\n    &:last-child { border-bottom: 0; }\n}\n\n.label {\n    color: var(--app-color-fg-muted);\n    font-size: var(--app-fs-sm);\n}\n\n.value {\n    color: var(--app-color-fg);\n    font-size: var(--app-fs-md);\n}\n\n.section {\n    display: flex;\n    flex-direction: column;\n    gap: var(--app-space-sm);\n}\n\n.identity {\n    display: flex;\n    align-items: center;\n    gap: var(--app-space-md);\n}\n\n.identity_meta {\n    display: flex;\n    flex-direction: column;\n    gap: var(--app-space-2xs, 0.125rem);\n}\n\n.identity_name {\n    margin: 0;\n    font-size: var(--app-fs-lg);\n    font-weight: 600;\n    color: var(--app-color-fg);\n}\n\n.identity_email {\n    margin: 0;\n    color: var(--app-color-fg-muted);\n    font-size: var(--app-fs-sm);\n}\n\n.actions {\n    display: flex;\n    gap: var(--app-space-sm);\n    flex-wrap: wrap;\n}\n";

} // verus!
