//! Frontend runtime seeds every app boots with: the page shell, the global
//! progress bar and its composable, the blocking-navigation guard, the
//! router index, `main.ts` and the `index.html` shell. Seeds are written
//! only where no file exists yet.
use vstd::prelude::*;
use vstd::string::*;
use crate::codegen::fe_runtime_composables::{CHANNEL_TS, DIALOG_TS, DRAWER_TS, URL_TS};
use crate::text::{chars_of, owned, push_char};

verus! {

/// Placeholder in `index.html` replaced by the app name.
pub const APP_NAME_TOKEN: &'static str = "{{APP_NAME}}";

pub const PAGE_SHELL_RELATIVE: &'static str = "frontend/src/components/PageShell.vue";
pub const GLOBAL_PROGRESS_BAR_RELATIVE: &'static str = "frontend/src/components/GlobalProgressBar.vue";
pub const GLOBAL_PROGRESS_TS_RELATIVE: &'static str = "frontend/src/composables/global-progress.ts";
pub const INSTALL_BLOCKING_NAV_RELATIVE: &'static str = "frontend/src/router/install-blocking-nav.ts";
pub const ROUTER_INDEX_RELATIVE: &'static str = "frontend/src/router/index.ts";
pub const INDEX_HTML_RELATIVE: &'static str = "frontend/index.html";
pub const MAIN_TS_RELATIVE: &'static str = "frontend/src/main.ts";
pub const URL_TS_RELATIVE: &'static str = "frontend/src/composables/url.ts";
pub const DIALOG_TS_RELATIVE: &'static str = "frontend/src/composables/dialog.ts";
pub const DRAWER_TS_RELATIVE: &'static str = "frontend/src/composables/drawer.ts";
pub const CHANNEL_TS_RELATIVE: &'static str = "frontend/src/composables/channel.ts";

/// `components/PageShell.vue`: the layout wrapper every page uses.
pub const PAGE_SHELL_VUE: &'static str = "<script setup lang=\"ts\">\n// PageShell — every page wraps content in this. Layout is enum-locked;\n// the layout chosen owns the spacing. No padding/margin/gap props are\n// accepted — pick a layout, layout owns the spacing (per SPEC_FRONTEND).\n//\n// Layouts:\n//   cards   — default; padded; gap between sections\n//   split   — master-detail; rail attaches to sidebar; right-padded only\n//   table   — zero padding; full viewport height; child table scrolls\n//   bleed   — zero everything; full viewport; component owns chrome\n//   tabbed  — tab container; child <RouterView> renders inside\n\nexport type PageLayout = 'cards' | 'split' | 'table' | 'bleed' | 'tabbed'\n\ndefineProps<{ layout: PageLayout }>()\n</script>\n\n<template>\n  <section class=\"page-shell\" :data-layout=\"layout\">\n    <header v-if=\"$slots.header\" class=\"page-shell-header\">\n      <slot name=\"header\" />\n    </header>\n    <div class=\"page-shell-body\">\n      <slot />\n    </div>\n  </section>\n</template>\n\n<style scoped>\n@layer app {\n  .page-shell {\n    display: flex;\n    flex-direction: column;\n    min-height: 100%;\n    background: var(--p-content-background);\n    color: var(--p-text-color);\n  }\n\n  .page-shell-header {\n    display: flex;\n    align-items: center;\n    justify-content: space-between;\n    gap: var(--app-space-md);\n    padding-block: var(--app-space-md);\n    padding-inline: var(--app-space-md);\n    border-bottom: 0.0625rem solid var(--p-content-border-color);\n  }\n\n  .page-shell-body {\n    display: flex;\n    flex-direction: column;\n    flex: 1 1 auto;\n    min-height: 0;\n  }\n\n  /* cards — default. padding all around, gap between stacked sections */\n  .page-shell[data-layout='cards'] .page-shell-body {\n    gap: var(--app-space-md);\n    padding: var(--app-space-md);\n  }\n\n  /* split — master-detail. flex row that stacks on narrow viewport */\n  .page-shell[data-layout='split'] .page-shell-body {\n    display: flex;\n    flex-direction: row;\n    gap: var(--app-space-md);\n    padding-inline-end: var(--app-space-md);\n    padding-inline-start: 0;\n  }\n\n  @media (max-width: 48rem) {\n    .page-shell[data-layout='split'] .page-shell-body {\n      flex-direction: column;\n      padding-inline-end: var(--app-space-md);\n      padding-inline-start: var(--app-space-md);\n    }\n  }\n\n  /* table — full viewport, zero padding, child owns scroll */\n  .page-shell[data-layout='table'] {\n    height: 100vh;\n    overflow: hidden;\n  }\n\n  .page-shell[data-layout='table'] .page-shell-body {\n    flex: 1 1 auto;\n    min-height: 0;\n    overflow: hidden;\n  }\n\n  /* bleed — zero everything, full viewport */\n  .page-shell[data-layout='bleed'] {\n    height: 100vh;\n    overflow: hidden;\n  }\n\n  .page-shell[data-layout='bleed'] .page-shell-header {\n    display: none;\n  }\n\n  .page-shell[data-layout='bleed'] .page-shell-body {\n    flex: 1 1 auto;\n  }\n\n  /* tabbed — tab container; child <RouterView> picks its own layout */\n  .page-shell[data-layout='tabbed'] .page-shell-body {\n    padding-block-start: 0;\n    padding-block-end: var(--app-space-md);\n    padding-inline: var(--app-space-md);\n    gap: var(--app-space-md);\n  }\n}\n</style>\n";

/// `components/GlobalProgressBar.vue`.
pub const GLOBAL_PROGRESS_BAR_VUE: &'static str = "<script setup lang=\"ts\">\n// GlobalProgressBar — top-of-viewport indeterminate bar for blocking nav\n// transitions. Listens to the global-progress composable. Visible from\n// the FIRST nav (cold load) so users see \"the app is loading\" with no\n// blank screen. See SPEC_FRONTEND_ROUTING.md for the blocking-nav model.\n\nimport { useGlobalProgress } from '@/composables/global-progress'\n\nconst { isActive } = useGlobalProgress()\n</script>\n\n<template>\n  <div\n    class=\"global-progress-bar\"\n    role=\"progressbar\"\n    aria-live=\"polite\"\n    aria-label=\"Loading\"\n    :data-active=\"isActive\"\n  >\n    <div class=\"global-progress-bar-fill\" />\n  </div>\n</template>\n\n<style scoped>\n@layer app {\n  .global-progress-bar {\n    position: fixed;\n    top: 0;\n    inset-inline: 0;\n    height: 0.1875rem;\n    overflow: hidden;\n    z-index: var(--app-z-overlay);\n    pointer-events: none;\n    opacity: 0;\n    transition: opacity var(--app-transition-fast);\n  }\n\n  .global-progress-bar[data-active='true'] {\n    opacity: 1;\n  }\n\n  .global-progress-bar-fill {\n    width: 40%;\n    height: 100%;\n    background: var(--p-primary-color);\n    transform: translateX(-100%);\n    will-change: transform;\n  }\n\n  .global-progress-bar[data-active='true'] .global-progress-bar-fill {\n    animation: global-progress-bar-slide 1.1s linear infinite;\n  }\n\n  @keyframes global-progress-bar-slide {\n    0%   { transform: translateX(-100%); }\n    100% { transform: translateX(350%); }\n  }\n\n  @media (prefers-reduced-motion: reduce) {\n    .global-progress-bar-fill {\n      animation: none;\n    }\n  }\n}\n</style>\n";

/// `composables/global-progress.ts`: the active-task counter.
pub const GLOBAL_PROGRESS_TS: &'static str = "// global-progress — module-scoped active-task counter backing the\n// GlobalProgressBar. Multiple concurrent navs/fetches each call start();\n// finish() decrements; isActive is true when count > 0. cancel() force-\n// clears (used on hard router error). No external state library — this\n// IS the state. See SPEC_FRONTEND_ROUTING.md.\n\nimport { computed, ref } from 'vue'\nimport type { ComputedRef } from 'vue'\n\nconst active_count = ref(0)\nconst is_active = computed<boolean>(() => active_count.value > 0)\n\nexport interface GlobalProgressHandle {\n  isActive: ComputedRef<boolean>\n  start: () => void\n  finish: () => void\n  cancel: () => void\n}\n\nexport function useGlobalProgress(): GlobalProgressHandle {\n  return {\n    isActive: is_active,\n    start,\n    finish,\n    cancel,\n  }\n}\n\nfunction start(): void {\n  active_count.value += 1\n}\n\nfunction finish(): void {\n  if (active_count.value > 0) {\n    active_count.value -= 1\n  }\n}\n\nfunction cancel(): void {\n  active_count.value = 0\n}\n";

/// `router/install-blocking-nav.ts`: the blocking navigation guard.
pub const INSTALL_BLOCKING_NAV_TS: &'static str = "// install-blocking-nav — wires the blocking navigation guard onto a\n// vue-router instance. Per SPEC_FRONTEND_ROUTING.md:\n//\n//   - Each nav grabs an AbortController exposed via getNavAbortSignal()\n//     so route component setup() can plumb cancellation into its fetches.\n//   - beforeEach: start global progress, mint a fresh AbortController;\n//     if a previous nav is still in flight, abort it first.\n//   - beforeResolve: race the destination's resolution against the\n//     budgetMs timer (default 500ms). On timer expiry, navigate anyway —\n//     the destination renders with per-section \"still loading\" markers.\n//     vue-router awaits async setup() inside <Suspense> automatically;\n//     this hook ensures we never hang the UI past the budget.\n//   - afterEach / onError: finish progress, abort any leftover signal.\n\nimport type { NavigationGuardNext, RouteLocationNormalized, Router } from 'vue-router'\n\nimport { useGlobalProgress } from '@/composables/global-progress'\n\nexport interface InstallBlockingNavOptions {\n  budgetMs?: number\n}\n\nconst DEFAULT_BUDGET_MS = 500\n\nlet current_controller: AbortController | null = null\n\nexport function getNavAbortSignal(): AbortSignal | null {\n  if (current_controller === null) {\n    return null\n  }\n  return current_controller.signal\n}\n\nexport function installBlockingNav(router: Router, opts?: InstallBlockingNavOptions): void {\n  const budget_ms = opts?.budgetMs !== undefined ? opts.budgetMs : DEFAULT_BUDGET_MS\n  const progress = useGlobalProgress()\n\n  router.beforeEach((_to: RouteLocationNormalized, _from: RouteLocationNormalized, next: NavigationGuardNext) => {\n    if (current_controller !== null) {\n      current_controller.abort()\n    }\n    current_controller = new AbortController()\n    progress.start()\n    next()\n  })\n\n  router.beforeResolve(async (_to: RouteLocationNormalized, _from: RouteLocationNormalized, next: NavigationGuardNext) => {\n    const controller = current_controller\n    if (controller === null) {\n      next()\n      return\n    }\n    let timer: ReturnType<typeof setTimeout> | null = null\n    const budget = new Promise<void>((resolve) => {\n      timer = setTimeout(() => { resolve() }, budget_ms)\n    })\n    const aborted = new Promise<void>((resolve) => {\n      controller.signal.addEventListener('abort', () => { resolve() }, { once: true })\n    })\n    await Promise.race([budget, aborted])\n    if (timer !== null) {\n      clearTimeout(timer)\n    }\n    next()\n  })\n\n  router.afterEach(() => {\n    progress.finish()\n    if (current_controller !== null) {\n      const controller = current_controller\n      current_controller = null\n      if (!controller.signal.aborted) {\n        controller.abort()\n      }\n    }\n  })\n\n  router.onError(() => {\n    progress.finish()\n    if (current_controller !== null) {\n      const controller = current_controller\n      current_controller = null\n      if (!controller.signal.aborted) {\n        controller.abort()\n      }\n    }\n  })\n}\n";

/// `router/index.ts`.
pub const ROUTER_INDEX_TS: &'static str = "// router/index.ts — vue-router setup. Routes + per-route guards come\n// from `@/generated/router/*` (emitted by `blast gen all`). Blocking-nav\n// installs on top from this file. History mode per SPEC_FRONTEND_ROUTING.\n\nimport { createRouter, createWebHistory } from 'vue-router'\n\nimport { routes } from '@/generated/router/routes'\nimport { installRouterGuards } from '@/generated/router/install-router-guards'\n\nimport { installBlockingNav } from './install-blocking-nav'\n\nexport const router = createRouter({\n  history: createWebHistory(),\n  routes,\n})\n\ninstallRouterGuards(router)\ninstallBlockingNav(router, { budgetMs: 500 })\n\nexport default router\n";

/// `index.html`, with the app-name placeholder.
pub const INDEX_HTML_TEMPLATE: &'static str = "<!doctype html>\n<html lang=\"en\">\n  <head>\n    <meta charset=\"UTF-8\" />\n    <link rel=\"icon\" type=\"image/svg+xml\" href=\"/favicon.svg\" />\n    <meta name=\"viewport\" content=\"width=device-width, initial-scale=1.0\" />\n    <title>{{APP_NAME}}</title>\n    <style>\n      /*\n        Inline styles below are the ONLY exception to the no-inline-style\n        rule (Governor InlineStyle / RawColor / HardcodedPx skip this file\n        because it lives outside src/). Everything before /src/main.ts has\n        loaded must paint without an external stylesheet — hence the px\n        values and explicit colors here. Once main.ts mounts, tokens.css\n        + base.css take over and these styles become irrelevant.\n      */\n      html, body { margin: 0; padding: 0; min-height: 100vh; }\n      body {\n        font-family: system-ui, -apple-system, 'Segoe UI', Roboto, sans-serif;\n        background: #0b0d10;\n        color: #e6e8eb;\n      }\n      #app { min-height: 100vh; }\n      .pre-mount-shell {\n        display: flex;\n        align-items: center;\n        justify-content: center;\n        min-height: 100vh;\n      }\n      .pre-mount-shell-mark {\n        font-size: 14px;\n        opacity: 0.6;\n        letter-spacing: 0.08em;\n        text-transform: uppercase;\n      }\n      .pre-mount-progress {\n        position: fixed;\n        top: 0;\n        left: 0;\n        right: 0;\n        height: 3px;\n        overflow: hidden;\n        z-index: 9999;\n        pointer-events: none;\n      }\n      .pre-mount-progress-fill {\n        width: 40%;\n        height: 100%;\n        background: #7c3aed;\n        animation: pre-mount-slide 1.1s linear infinite;\n      }\n      @keyframes pre-mount-slide {\n        0%   { transform: translateX(-100%); }\n        100% { transform: translateX(350%); }\n      }\n    </style>\n  </head>\n  <body>\n    <div class=\"pre-mount-progress\" aria-hidden=\"true\">\n      <div class=\"pre-mount-progress-fill\"></div>\n    </div>\n    <div id=\"app\">\n      <div class=\"pre-mount-shell\">\n        <span class=\"pre-mount-shell-mark\">loading</span>\n      </div>\n    </div>\n    <script type=\"module\" src=\"/src/main.ts\"></script>\n  </body>\n</html>\n";

/// `main.ts`.
pub const MAIN_TS: &'static str = "import { createApp } from 'vue'\n\nimport App from './App.vue'\nimport installPrimeVue from './plugins/primevue'\nimport router from './router'\nimport './styles/tokens.css'\nimport './styles/base.css'\n\nconst app = createApp(App)\ninstallPrimeVue(app)\napp.use(router)\napp.mount('#app')\n";

/// Every non-overlapping occurrence of `pat` in `s`, scanning left to
/// right, replaced by `rep` (`str::replace`).
pub open spec fn replace_all(s: Seq<char>, pat: Seq<char>, rep: Seq<char>) -> Seq<char>
    recommends
        pat.len() > 0,
    decreases s.len(),
{
    if s.len() == 0 {
        seq![]
    } else if pat.len() > 0 && pat.len() <= s.len() && s.subrange(0, pat.len() as int) == pat {
        rep + replace_all(s.subrange(pat.len() as int, s.len() as int), pat, rep)
    } else {
        seq![s[0]] + replace_all(s.drop_first(), pat, rep)
    }
}

fn matches_here(h: &Vec<char>, n: &Vec<char>, at: usize) -> (r: bool)
    requires
        at <= h.len(),
    ensures
        r == (n@.len() <= h@.len() - at && h@.subrange(at as int, at + n@.len()) == n@),
{
    if n.len() > h.len() - at {
        return false;
    }
    let mut j: usize = 0;
    while j < n.len()
        invariant
            j <= n.len(),
            at + n.len() <= h.len(),
            forall|k: int| 0 <= k < j ==> h@[at + k] == n@[k],
        decreases n.len() - j,
    {
        if h[at + j] != n[j] {
            assert(h@.subrange(at as int, at + n@.len())[j as int] != n@[j as int]);
            return false;
        }
        j = j + 1;
    }
    assert(h@.subrange(at as int, at + n@.len()) =~= n@);
    true
}

/// `s.replace(pat, rep)` for a non-empty pattern.
pub fn replace_str(s: &str, pat: &str, rep: &str) -> (r: String)
    requires
        pat@.len() > 0,
    ensures
        r@ == replace_all(s@, pat@, rep@),
{
    let h = chars_of(s);
    let n = chars_of(pat);
    let mut out = String::new();
    let mut i: usize = 0;
    assert(h@.subrange(0, h@.len() as int) =~= h@);
    assert(out@ + replace_all(h@, n@, rep@) =~= replace_all(h@, n@, rep@));
    while i < h.len()
        invariant
            i <= h@.len(),
            h@ == s@,
            n@ == pat@,
            n@.len() > 0,
            replace_all(s@, pat@, rep@) == out@ + replace_all(h@.subrange(i as int, h@.len() as int), n@, rep@),
        decreases h@.len() - i,
    {
        let ghost rest = h@.subrange(i as int, h@.len() as int);
        if matches_here(&h, &n, i) {
            assert(rest.subrange(0, n@.len() as int) =~= h@.subrange(i as int, i + n@.len()));
            assert(rest.subrange(n@.len() as int, rest.len() as int) =~= h@.subrange(i + n@.len(), h@.len() as int));
            out.append(rep);
            i = i + n.len();
        } else {
            assert(!(n@.len() <= rest.len() && rest.subrange(0, n@.len() as int) == n@)) by {
                if n@.len() <= rest.len() {
                    assert(rest.subrange(0, n@.len() as int) =~= h@.subrange(i as int, i + n@.len()));
                }
            }
            assert(rest.drop_first() =~= h@.subrange(i + 1, h@.len() as int));
            assert(rest[0] == h@[i as int]);
            let ghost before = out@;
            push_char(&mut out, h[i]);
            assert(out@ =~= before + seq![rest[0]]);
            i = i + 1;
        }
    }
    assert(h@.subrange(i as int, h@.len() as int) =~= Seq::<char>::empty());
    out
}

/// (relative path, contents) of every runtime seed, `index.html` last with
/// the app name in place of the placeholder.
pub open spec fn runtime_files_spec(app_name: Seq<char>) -> Seq<(Seq<char>, Seq<char>)> {
    seq![
        (PAGE_SHELL_RELATIVE@, PAGE_SHELL_VUE@),
        (GLOBAL_PROGRESS_BAR_RELATIVE@, GLOBAL_PROGRESS_BAR_VUE@),
        (GLOBAL_PROGRESS_TS_RELATIVE@, GLOBAL_PROGRESS_TS@),
        (INSTALL_BLOCKING_NAV_RELATIVE@, INSTALL_BLOCKING_NAV_TS@),
        (ROUTER_INDEX_RELATIVE@, ROUTER_INDEX_TS@),
        (MAIN_TS_RELATIVE@, MAIN_TS@),
        (URL_TS_RELATIVE@, URL_TS@),
        (DIALOG_TS_RELATIVE@, DIALOG_TS@),
        (DRAWER_TS_RELATIVE@, DRAWER_TS@),
        (CHANNEL_TS_RELATIVE@, CHANNEL_TS@),
        (INDEX_HTML_RELATIVE@, replace_all(INDEX_HTML_TEMPLATE@, APP_NAME_TOKEN@, app_name)),
    ]
}

pub open spec fn file_views(v: Seq<(String, String)>) -> Seq<(Seq<char>, Seq<char>)> {
    v.map_values(|p: (String, String)| (p.0@, p.1@))
}

fn push_file(v: &mut Vec<(String, String)>, path: &str, body: String)
    ensures
        file_views(final(v)@) == file_views(old(v)@).push((path@, body@)),
{
    let ghost before = file_views(v@);
    let ghost pv = (path@, body@);
    v.push((owned(path), body));
    assert(file_views(v@) =~= before.push(pv));
}

/// The runtime seed files of an app.
pub fn runtime_files(app_name: &str) -> (r: Vec<(String, String)>)
    ensures
        file_views(r@) == runtime_files_spec(app_name@),
{
    let mut v: Vec<(String, String)> = Vec::new();
    push_file(&mut v, PAGE_SHELL_RELATIVE, owned(PAGE_SHELL_VUE));
    push_file(&mut v, GLOBAL_PROGRESS_BAR_RELATIVE, owned(GLOBAL_PROGRESS_BAR_VUE));
    push_file(&mut v, GLOBAL_PROGRESS_TS_RELATIVE, owned(GLOBAL_PROGRESS_TS));
    push_file(&mut v, INSTALL_BLOCKING_NAV_RELATIVE, owned(INSTALL_BLOCKING_NAV_TS));
    push_file(&mut v, ROUTER_INDEX_RELATIVE, owned(ROUTER_INDEX_TS));
    push_file(&mut v, MAIN_TS_RELATIVE, owned(MAIN_TS));
    push_file(&mut v, URL_TS_RELATIVE, owned(URL_TS));
    push_file(&mut v, DIALOG_TS_RELATIVE, owned(DIALOG_TS));
    push_file(&mut v, DRAWER_TS_RELATIVE, owned(DRAWER_TS));
    push_file(&mut v, CHANNEL_TS_RELATIVE, owned(CHANNEL_TS));
    proof {
        reveal_strlit("{{APP_NAME}}");
    }
    let index = replace_str(INDEX_HTML_TEMPLATE, APP_NAME_TOKEN, app_name);
    push_file(&mut v, INDEX_HTML_RELATIVE, index);
    assert(file_views(v@) =~= runtime_files_spec(app_name@));
    v
}

/// Scaffold files written and files left as the user had them.
pub struct ScaffoldOutcome {
    pub written: Vec<String>,
    pub skipped: Vec<String>,
}

/// The paths whose flag in `existed` is `want`, in order.
pub open spec fn paths_where(files: Seq<(Seq<char>, Seq<char>)>, existed: Seq<bool>, want: bool) -> Seq<Seq<char>>
    decreases files.len(),
{
    if files.len() == 0 {
        seq![]
    } else if existed[files.len() - 1] == want {
        paths_where(files.drop_last(), existed, want).push(files.last().0)
    } else {
        paths_where(files.drop_last(), existed, want)
    }
}

impl ScaffoldOutcome {
    /// Sorts seed files into written ones (no file was there) and skipped
    /// ones (a file was there), given which targets already existed.
    pub fn from_existing(files: &Vec<(String, String)>, existed: &Vec<bool>) -> (r: Self)
        requires
            existed@.len() == files@.len(),
        ensures
            crate::text::views(r.written@) == paths_where(file_views(files@), existed@, false),
            crate::text::views(r.skipped@) == paths_where(file_views(files@), existed@, true),
    {
        let ghost fv = file_views(files@);
        let mut written: Vec<String> = Vec::new();
        let mut skipped: Vec<String> = Vec::new();
        let mut i: usize = 0;
        while i < files.len()
            invariant
                i <= files@.len(),
                existed@.len() == files@.len(),
                fv == file_views(files@),
                crate::text::views(written@) == paths_where(fv.take(i as int), existed@, false),
                crate::text::views(skipped@) == paths_where(fv.take(i as int), existed@, true),
            decreases files@.len() - i,
        {
            let ghost t = fv.take(i + 1);
            assert(t.drop_last() =~= fv.take(i as int));
            assert(t.last() == fv[i as int]);
            let p = owned(files[i].0.as_str());
            if existed[i] {
                let ghost before = crate::text::views(skipped@);
                skipped.push(p);
                assert(crate::text::views(skipped@) =~= before.push(fv[i as int].0));
            } else {
                let ghost before = crate::text::views(written@);
                written.push(p);
                assert(crate::text::views(written@) =~= before.push(fv[i as int].0));
            }
            i = i + 1;
        }
        assert(fv.take(files@.len() as int) =~= fv);
        ScaffoldOutcome { written, skipped }
    }
}


/// A rerun writes no seed and skips every one: once a run has put every
/// target in place, all of them exist, so none is written again.
pub proof fn lemma_reseeding_writes_nothing(files: Seq<(Seq<char>, Seq<char>)>, existed: Seq<bool>)
    requires
        existed.len() == files.len(),
        forall|i: int| 0 <= i < existed.len() ==> #[trigger] existed[i],
    ensures
        paths_where(files, existed, false) == Seq::<Seq<char>>::empty(),
        paths_where(files, existed, true) == files.map_values(|f: (Seq<char>, Seq<char>)| f.0),
    decreases files.len(),
{
    if files.len() > 0 {
        lemma_paths_prefix(files, existed);
        lemma_reseeding_writes_nothing(files.drop_last(), existed.drop_last());
        assert(files.map_values(|f: (Seq<char>, Seq<char>)| f.0) =~= files.drop_last().map_values(
            |f: (Seq<char>, Seq<char>)| f.0,
        ).push(files.last().0));
    }
}

/// `paths_where` reads only the flags of the files it is given.
proof fn lemma_paths_prefix(files: Seq<(Seq<char>, Seq<char>)>, existed: Seq<bool>)
    requires
        existed.len() == files.len(),
        files.len() > 0,
    ensures
        paths_where(files.drop_last(), existed, false) == paths_where(files.drop_last(), existed.drop_last(), false),
        paths_where(files.drop_last(), existed, true) == paths_where(files.drop_last(), existed.drop_last(), true),
{
    lemma_paths_flags(files.drop_last(), existed, existed.drop_last());
}

proof fn lemma_paths_flags(files: Seq<(Seq<char>, Seq<char>)>, a: Seq<bool>, b: Seq<bool>)
    requires
        files.len() <= a.len(),
        files.len() <= b.len(),
        forall|i: int| 0 <= i < files.len() ==> a[i] == b[i],
    ensures
        paths_where(files, a, false) == paths_where(files, b, false),
        paths_where(files, a, true) == paths_where(files, b, true),
    decreases files.len(),
{
    if files.len() > 0 {
        lemma_paths_flags(files.drop_last(), a, b);
    }
}

/// The seeds whose flag in `existed` is `want`, in order.
pub open spec fn seeds_where(files: Seq<(Seq<char>, Seq<char>)>, existed: Seq<bool>, want: bool) -> Seq<(Seq<char>, Seq<char>)>
    decreases files.len(),
{
    if files.len() == 0 {
        seq![]
    } else if existed[files.len() - 1] == want {
        seeds_where(files.drop_last(), existed, want).push(files.last())
    } else {
        seeds_where(files.drop_last(), existed, want)
    }
}

/// The seeds to write, path and contents: those whose target did not
/// exist, in order.
pub fn missing_seeds(files: &Vec<(String, String)>, existed: &Vec<bool>) -> (r: Vec<(String, String)>)
    requires
        existed@.len() == files@.len(),
    ensures
        file_views(r@) == seeds_where(file_views(files@), existed@, false),
{
    let ghost fv = file_views(files@);
    let mut out: Vec<(String, String)> = Vec::new();
    let mut i: usize = 0;
    while i < files.len()
        invariant
            i <= files@.len(),
            existed@.len() == files@.len(),
            fv == file_views(files@),
            file_views(out@) == seeds_where(fv.take(i as int), existed@, false),
        decreases files@.len() - i,
    {
        let ghost t = fv.take(i + 1);
        assert(t.drop_last() =~= fv.take(i as int));
        assert(t.last() == fv[i as int]);
        if !existed[i] {
            push_file(&mut out, files[i].0.as_str(), owned(files[i].1.as_str()));
        }
        i = i + 1;
    }
    assert(fv.take(files@.len() as int) =~= fv);
    out
}

/// Which seed targets the file system `fs` (each path with its contents)
/// already holds.
pub open spec fn existed_in(files: Seq<(Seq<char>, Seq<char>)>, fs: Map<Seq<char>, Seq<char>>) -> Seq<bool> {
    Seq::new(files.len(), |i: int| fs.dom().contains(files[i].0))
}

/// The file system after writing `w` (path and contents) in order.
pub open spec fn apply_writes(fs: Map<Seq<char>, Seq<char>>, w: Seq<(Seq<char>, Seq<char>)>) -> Map<Seq<char>, Seq<char>>
    decreases w.len(),
{
    if w.len() == 0 {
        fs
    } else {
        apply_writes(fs, w.drop_last()).insert(w.last().0, w.last().1)
    }
}

/// One seeding run over `fs`: the seeds whose target is missing are written.
pub open spec fn seed_run(files: Seq<(Seq<char>, Seq<char>)>, fs: Map<Seq<char>, Seq<char>>) -> Map<Seq<char>, Seq<char>> {
    apply_writes(fs, seeds_where(files, existed_in(files, fs), false))
}

/// Seeding twice. The first run leaves every file that was there as it was
/// and puts every target in place. A second run, over what the first left
/// with any files rewritten in between but none deleted, writes nothing,
/// skips every target and leaves every file as it is.
pub proof fn lemma_seed_twice(
    files: Seq<(Seq<char>, Seq<char>)>,
    fs0: Map<Seq<char>, Seq<char>>,
    fs1: Map<Seq<char>, Seq<char>>,
)
    requires
        forall|p: Seq<char>| #[trigger] seed_run(files, fs0).dom().contains(p) ==> fs1.dom().contains(p),
    ensures
        forall|p: Seq<char>|
            #[trigger] fs0.dom().contains(p) ==> seed_run(files, fs0).dom().contains(p) && seed_run(files, fs0)[p]
                == fs0[p],
        forall|i: int| 0 <= i < files.len() ==> seed_run(files, fs0).dom().contains(#[trigger] files[i].0),
        paths_where(files, existed_in(files, fs1), false) == Seq::<Seq<char>>::empty(),
        paths_where(files, existed_in(files, fs1), true) == files.map_values(|f: (Seq<char>, Seq<char>)| f.0),
        seed_run(files, fs1) == fs1,
{
    let ex0 = existed_in(files, fs0);
    let w = seeds_where(files, ex0, false);
    lemma_seeds_from(files, ex0);
    lemma_apply_writes(fs0, w);
    assert forall|p: Seq<char>| #[trigger] fs0.dom().contains(p) implies seed_run(files, fs0).dom().contains(p)
        && seed_run(files, fs0)[p] == fs0[p] by {
        assert forall|k: int| 0 <= k < w.len() implies #[trigger] w[k].0 != p by {
            let i = choose|i: int| #![trigger files[i]] 0 <= i < files.len() && !ex0[i] && w[k] == files[i];
        }
    }
    assert forall|i: int| 0 <= i < files.len() implies seed_run(files, fs0).dom().contains(#[trigger] files[i].0) by {
        if !ex0[i] {
            lemma_seeds_cover(files, ex0, i);
        }
    }
    let ex1 = existed_in(files, fs1);
    assert forall|i: int| 0 <= i < ex1.len() implies #[trigger] ex1[i] by {
        assert(seed_run(files, fs0).dom().contains(files[i].0));
    }
    lemma_reseeding_writes_nothing(files, ex1);
    lemma_seeds_none(files, ex1);
}

/// Every seed picked as missing is some seed whose flag is unset.
proof fn lemma_seeds_from(files: Seq<(Seq<char>, Seq<char>)>, ex: Seq<bool>)
    requires
        files.len() <= ex.len(),
    ensures
        forall|k: int|
            #![trigger seeds_where(files, ex, false)[k]]
            0 <= k < seeds_where(files, ex, false).len() ==> exists|i: int|
                #![trigger files[i]]
                0 <= i < files.len() && !ex[i] && seeds_where(files, ex, false)[k] == files[i],
    decreases files.len(),
{
    if files.len() > 0 {
        let d = files.drop_last();
        lemma_seeds_from(d, ex);
        let w = seeds_where(files, ex, false);
        let wd = seeds_where(d, ex, false);
        assert(d == files.drop_last());
        if ex[files.len() - 1] {
            assert(w == wd);
        } else {
            assert(w == wd.push(files.last()));
        }
        assert forall|k: int| #![trigger w[k]] 0 <= k < w.len() implies exists|i: int|
            #![trigger files[i]]
            0 <= i < files.len() && !ex[i] && w[k] == files[i] by {
            if k < wd.len() {
                assert(w[k] == wd[k]);
                let i = choose|i: int| #![trigger d[i]] 0 <= i < d.len() && !ex[i] && wd[k] == d[i];
                assert(files[i] == d[i]);
            } else {
                let i = files.len() - 1;
                assert(!ex[i]);
                assert(w[k] == files[i]);
            }
        }
    }
}

/// Every seed whose flag is unset is picked as missing.
proof fn lemma_seeds_cover(files: Seq<(Seq<char>, Seq<char>)>, ex: Seq<bool>, i: int)
    requires
        files.len() <= ex.len(),
        0 <= i < files.len(),
        !ex[i],
    ensures
        exists|k: int| 0 <= k < seeds_where(files, ex, false).len() && #[trigger] seeds_where(files, ex, false)[k] == files[i],
    decreases files.len(),
{
    let w = seeds_where(files, ex, false);
    if i == files.len() - 1 {
        assert(w[w.len() - 1] == files[i]);
    } else {
        let d = files.drop_last();
        lemma_seeds_cover(d, ex, i);
        let k = choose|k: int| 0 <= k < seeds_where(d, ex, false).len() && seeds_where(d, ex, false)[k] == d[i];
        assert(w[k] == seeds_where(d, ex, false)[k]);
    }
}

/// No seed is picked as missing when every flag is set.
proof fn lemma_seeds_none(files: Seq<(Seq<char>, Seq<char>)>, ex: Seq<bool>)
    requires
        files.len() <= ex.len(),
        forall|i: int| 0 <= i < files.len() ==> #[trigger] ex[i],
    ensures
        seeds_where(files, ex, false) == Seq::<(Seq<char>, Seq<char>)>::empty(),
    decreases files.len(),
{
    if files.len() > 0 {
        assert(ex[files.len() - 1]);
        lemma_seeds_none(files.drop_last(), ex);
    }
}

/// After the writes, every written path is present, and a path none of them
/// names keeps its contents.
proof fn lemma_apply_writes(fs: Map<Seq<char>, Seq<char>>, w: Seq<(Seq<char>, Seq<char>)>)
    ensures
        forall|k: int| 0 <= k < w.len() ==> apply_writes(fs, w).dom().contains(#[trigger] w[k].0),
        forall|p: Seq<char>|
            #[trigger] fs.dom().contains(p) && (forall|k: int| 0 <= k < w.len() ==> #[trigger] w[k].0 != p)
                ==> apply_writes(fs, w).dom().contains(p) && apply_writes(fs, w)[p] == fs[p],
    decreases w.len(),
{
    if w.len() > 0 {
        let d = w.drop_last();
        lemma_apply_writes(fs, d);
        assert forall|k: int| 0 <= k < w.len() implies apply_writes(fs, w).dom().contains(#[trigger] w[k].0) by {
            if k < d.len() {
                assert(w[k] == d[k]);
            }
        }
        assert forall|p: Seq<char>|
            #[trigger] fs.dom().contains(p) && (forall|k: int| 0 <= k < w.len() ==> #[trigger] w[k].0 != p)
                implies apply_writes(fs, w).dom().contains(p) && apply_writes(fs, w)[p] == fs[p] by {
            assert forall|k: int| 0 <= k < d.len() implies #[trigger] d[k].0 != p by {
                assert(d[k] == w[k]);
            }
            assert(w[w.len() - 1].0 != p);
        }
    }
}

} // verus!
