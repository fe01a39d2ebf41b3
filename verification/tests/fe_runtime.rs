use blast::codegen::fe_runtime::{
    missing_seeds, replace_str, runtime_files, ScaffoldOutcome, GLOBAL_PROGRESS_BAR_VUE, GLOBAL_PROGRESS_TS, INDEX_HTML_RELATIVE,
    INDEX_HTML_TEMPLATE, INSTALL_BLOCKING_NAV_TS, MAIN_TS, PAGE_SHELL_RELATIVE, PAGE_SHELL_VUE, ROUTER_INDEX_TS,
};
use blast::codegen::fe_runtime_composables::{CHANNEL_TS, DIALOG_TS, DRAWER_TS, URL_TS};
use blast::codegen::frontend_scaffold::{style_files, TOKENS_RELATIVE_PATH};

#[test]
fn page_shell_constant_is_nonempty_and_has_layout_prop() {
    assert!(!PAGE_SHELL_VUE.is_empty());
    assert!(PAGE_SHELL_VUE.contains("PageLayout"));
    assert!(PAGE_SHELL_VUE.contains("'cards' | 'split' | 'table' | 'bleed' | 'tabbed'"));
    assert!(PAGE_SHELL_VUE.contains("data-layout='cards'"));
    assert!(PAGE_SHELL_VUE.contains("data-layout='split'"));
    assert!(PAGE_SHELL_VUE.contains("data-layout='table'"));
    assert!(PAGE_SHELL_VUE.contains("data-layout='bleed'"));
    assert!(PAGE_SHELL_VUE.contains("data-layout='tabbed'"));
    assert!(PAGE_SHELL_VUE.contains("@layer app"));
}

#[test]
fn page_shell_has_no_hex_colors() {
    // Crude check: no '#' followed by hex digits.
    for line in PAGE_SHELL_VUE.lines() {
        let trimmed = line.trim_start();
        if trimmed.starts_with("//") || trimmed.starts_with("/*") || trimmed.starts_with("*") {
            continue;
        }
        for (idx, _) in line.match_indices('#') {
            let after = &line[idx + 1..];
            let next = after.chars().next();
            match next {
                Some(c) if c.is_ascii_hexdigit() => {
                    panic!("PageShell contains hex color literal in line: {}", line);
                }
                _ => {}
            }
        }
    }
}

#[test]
fn global_progress_bar_constant_is_nonempty_and_uses_tokens() {
    assert!(!GLOBAL_PROGRESS_BAR_VUE.is_empty());
    assert!(GLOBAL_PROGRESS_BAR_VUE.contains("useGlobalProgress"));
    assert!(GLOBAL_PROGRESS_BAR_VUE.contains("var(--p-primary-color)"));
    assert!(GLOBAL_PROGRESS_BAR_VUE.contains("var(--app-z-overlay)"));
    assert!(GLOBAL_PROGRESS_BAR_VUE.contains("@keyframes global-progress-bar-slide"));
    assert!(GLOBAL_PROGRESS_BAR_VUE.contains("aria-live"));
}

#[test]
fn global_progress_ts_exports_handle() {
    assert!(GLOBAL_PROGRESS_TS.contains("export function useGlobalProgress"));
    assert!(GLOBAL_PROGRESS_TS.contains("isActive"));
    assert!(GLOBAL_PROGRESS_TS.contains("start"));
    assert!(GLOBAL_PROGRESS_TS.contains("finish"));
    assert!(GLOBAL_PROGRESS_TS.contains("cancel"));
    // No `any` types.
    assert!(!GLOBAL_PROGRESS_TS.contains(": any"));
    assert!(!GLOBAL_PROGRESS_TS.contains("as any"));
}

#[test]
fn install_blocking_nav_exports_installer_and_signal_helper() {
    assert!(INSTALL_BLOCKING_NAV_TS.contains("export function installBlockingNav"));
    assert!(INSTALL_BLOCKING_NAV_TS.contains("export function getNavAbortSignal"));
    assert!(INSTALL_BLOCKING_NAV_TS.contains("AbortController"));
    assert!(INSTALL_BLOCKING_NAV_TS.contains("budgetMs"));
    assert!(INSTALL_BLOCKING_NAV_TS.contains("router.beforeEach"));
    assert!(INSTALL_BLOCKING_NAV_TS.contains("router.beforeResolve"));
    assert!(INSTALL_BLOCKING_NAV_TS.contains("router.afterEach"));
    assert!(INSTALL_BLOCKING_NAV_TS.contains("router.onError"));
    assert!(!INSTALL_BLOCKING_NAV_TS.contains("console.log"));
}

#[test]
fn router_index_imports_generated_and_local() {
    assert!(ROUTER_INDEX_TS.contains("createRouter"));
    assert!(ROUTER_INDEX_TS.contains("createWebHistory"));
    assert!(ROUTER_INDEX_TS.contains("@/generated/router/routes"));
    assert!(ROUTER_INDEX_TS.contains("@/generated/router/install-router-guards"));
    assert!(ROUTER_INDEX_TS.contains("./install-blocking-nav"));
    assert!(ROUTER_INDEX_TS.contains("budgetMs: 500"));
}

#[test]
fn index_html_template_has_substitution_token() {
    assert!(INDEX_HTML_TEMPLATE.contains("{{APP_NAME}}"));
    assert!(INDEX_HTML_TEMPLATE.contains("pre-mount-progress"));
    assert!(INDEX_HTML_TEMPLATE.contains("pre-mount-shell"));
    assert!(INDEX_HTML_TEMPLATE.contains("/src/main.ts"));
}

#[test]
fn main_ts_installs_router_and_primevue() {
    assert!(MAIN_TS.contains("import router from './router'"));
    assert!(MAIN_TS.contains("app.use(router)"));
    assert!(MAIN_TS.contains("installPrimeVue(app)"));
    assert!(MAIN_TS.contains("./styles/tokens.css"));
    assert!(MAIN_TS.contains("./styles/base.css"));
}

#[test]
fn url_ts_exports_query_param_and_list_state() {
    assert!(URL_TS.contains("export function useQueryParam"));
    assert!(URL_TS.contains("export function useUrlListState"));
    assert!(URL_TS.contains("page_size"));
    assert!(URL_TS.contains("filter["));
    assert!(URL_TS.contains("MAX_PAGE_SIZE"));
    assert!(URL_TS.contains("DEFAULT_PAGE_SIZE"));
    assert!(URL_TS.contains("DEFAULT_SORT"));
    assert!(URL_TS.contains("router.push"));
    assert!(URL_TS.contains("router.replace"));
    assert!(URL_TS.contains("useRoute"));
    assert!(URL_TS.contains("useRouter"));
    assert!(!URL_TS.contains(": any"));
    assert!(!URL_TS.contains("as any"));
    assert!(!URL_TS.contains("@ts-ignore"));
    assert!(!URL_TS.contains("console.log"));
    assert!(!URL_TS.contains("console.warn"));
    assert!(!URL_TS.contains("console.error"));
}

#[test]
fn dialog_ts_exports_query_dialog() {
    assert!(DIALOG_TS.contains("export function useQueryDialog"));
    assert!(DIALOG_TS.contains("DIALOG_KEY"));
    assert!(DIALOG_TS.contains("DIALOG_ID_KEY"));
    assert!(DIALOG_TS.contains("'dialog'"));
    assert!(DIALOG_TS.contains("'dialog_id'"));
    assert!(DIALOG_TS.contains("visible"));
    assert!(DIALOG_TS.contains("open"));
    assert!(DIALOG_TS.contains("close"));
    assert!(DIALOG_TS.contains("history_mode"));
    assert!(DIALOG_TS.contains("'push'"));
    assert!(DIALOG_TS.contains("'replace'"));
    assert!(!DIALOG_TS.contains(": any"));
    assert!(!DIALOG_TS.contains("as any"));
    assert!(!DIALOG_TS.contains("@ts-ignore"));
    assert!(!DIALOG_TS.contains("console.log"));
}

#[test]
fn drawer_ts_exports_query_drawer_with_independent_keys() {
    assert!(DRAWER_TS.contains("export function useQueryDrawer"));
    assert!(DRAWER_TS.contains("'drawer'"));
    assert!(DRAWER_TS.contains("'drawer_id'"));
    // Drawer keys must not collide with dialog keys.
    assert!(!DRAWER_TS.contains("'dialog'"));
    assert!(!DRAWER_TS.contains("'dialog_id'"));
    assert!(DRAWER_TS.contains("visible"));
    assert!(DRAWER_TS.contains("open"));
    assert!(DRAWER_TS.contains("close"));
    assert!(!DRAWER_TS.contains(": any"));
    assert!(!DRAWER_TS.contains("as any"));
    assert!(!DRAWER_TS.contains("@ts-ignore"));
    assert!(!DRAWER_TS.contains("console.log"));
}

#[test]
fn channel_ts_exports_use_channel() {
    assert!(CHANNEL_TS.contains("export function useChannel"));
    assert!(CHANNEL_TS.contains("@/generated/ws/client"));
    assert!(CHANNEL_TS.contains("wsClient.subscribe"));
    assert!(CHANNEL_TS.contains("wsClient.unsubscribe"));
    assert!(CHANNEL_TS.contains("onMounted"));
    assert!(CHANNEL_TS.contains("onUnmounted"));
    assert!(CHANNEL_TS.contains("lastEvent"));
    assert!(CHANNEL_TS.contains("isSubscribed"));
    assert!(CHANNEL_TS.contains("onMessage"));
    assert!(!CHANNEL_TS.contains(": any"));
    assert!(!CHANNEL_TS.contains("as any"));
    assert!(!CHANNEL_TS.contains("@ts-ignore"));
    assert!(!CHANNEL_TS.contains("console.log"));
    // No raw WebSocket construction; goes through generated client.
    assert!(!CHANNEL_TS.contains("new WebSocket"));
}

#[test]
fn composables_have_no_silent_fallbacks() {
    // SilentFallback rule bans `|| 'literal'`, `?? []`, `?? {}`,
    // `?? 0`, `?? false`. Our composables use explicit if/ternary
    // branching against `undefined`/`null`. Verify none of the
    // banned literal-default patterns leak in.
    for body in [URL_TS, DIALOG_TS, DRAWER_TS, CHANNEL_TS].iter() {
        for line in body.lines() {
            let trimmed = line.trim_start();
            if trimmed.starts_with("//") || trimmed.starts_with("*") {
                continue;
            }
            assert!(!line.contains("?? []"), "{}", line);
            assert!(!line.contains("?? {}"), "{}", line);
            assert!(!line.contains("?? 0"), "{}", line);
            assert!(!line.contains("?? false"), "{}", line);
            assert!(!line.contains("?? true"), "{}", line);
            assert!(!line.contains("?? ''"), "{}", line);
            assert!(!line.contains("?? \"\""), "{}", line);
            assert!(!line.contains("|| []"), "{}", line);
            assert!(!line.contains("|| {}"), "{}", line);
            assert!(!line.contains("|| 0"), "{}", line);
            assert!(!line.contains("|| false"), "{}", line);
            assert!(!line.contains("|| true"), "{}", line);
        }
    }
}

#[test]
fn runtime_files_substitute_app_name_into_index_html() {
    let files = runtime_files("acme-corp");
    assert_eq!(files.len(), 11);
    assert_eq!(files[0].0, PAGE_SHELL_RELATIVE);
    let (path, body) = &files[10];
    assert_eq!(path, INDEX_HTML_RELATIVE);
    assert!(body.contains("<title>acme-corp</title>"));
    assert!(!body.contains("{{APP_NAME}}"));
    assert_eq!(body.len(), INDEX_HTML_TEMPLATE.len() - "{{APP_NAME}}".len() + "acme-corp".len());
}

#[test]
fn replace_str_replaces_every_occurrence() {
    assert_eq!(replace_str("a-{{X}}-b-{{X}}", "{{X}}", "yy"), "a-yy-b-yy");
    assert_eq!(replace_str("aaa", "aa", "b"), "ba");
    assert_eq!(replace_str("none here", "{{X}}", "yy"), "none here");
}

#[test]
fn outcome_splits_existing_and_new_files() {
    let files = runtime_files("acme");
    let mut existed = vec![false; files.len()];
    existed[0] = true;
    let outcome = ScaffoldOutcome::from_existing(&files, &existed);
    assert_eq!(outcome.written.len(), 10);
    assert_eq!(outcome.skipped, vec![PAGE_SHELL_RELATIVE.to_string()]);
    let all_existing = ScaffoldOutcome::from_existing(&files, &vec![true; files.len()]);
    assert_eq!(all_existing.written.len(), 0);
    assert_eq!(all_existing.skipped.len(), 11);
}

#[test]
fn style_seeds_start_with_tokens() {
    let files = style_files();
    assert_eq!(files.len(), 3);
    assert_eq!(files[0].0, TOKENS_RELATIVE_PATH);
    assert!(files[0].1.starts_with("@layer app {"));
}

#[test]
fn only_missing_seeds_are_written() {
    let files = runtime_files("acme");
    let mut existed = vec![false; files.len()];
    existed[0] = true;
    let writes = missing_seeds(&files, &existed);
    assert_eq!(writes.len(), 10);
    assert_eq!(writes[..], files[1..]);
    assert!(missing_seeds(&files, &vec![true; files.len()]).is_empty());
    assert_eq!(missing_seeds(&files, &vec![false; files.len()]), files);
}
