//! Design-token, base-style and PrimeVue seed files of the frontend,
//! written only where no file exists yet.
use vstd::prelude::*;
use crate::codegen::fe_runtime::{file_views, paths_where};
use crate::text::{owned, views};

verus! {

pub const TOKENS_RELATIVE_PATH: &'static str = "frontend/src/styles/tokens.css";
pub const BASE_RELATIVE_PATH: &'static str = "frontend/src/styles/base.css";
pub const PRIMEVUE_RELATIVE_PATH: &'static str = "frontend/src/plugins/primevue.ts";

/// `styles/tokens.css`: the design tokens.
pub const TOKENS_CSS: &'static str = "@layer app {\n  :root {\n    --app-font-mono: 'JetBrains Mono', 'Fira Code', ui-monospace, monospace;\n    --app-font-sans: system-ui, -apple-system, 'Segoe UI', Roboto, sans-serif;\n\n    --app-fs-2xs: 0.75rem;\n    --app-fs-xs:  0.8125rem;\n    --app-fs-sm:  0.875rem;\n    --app-fs-md:  1rem;\n    --app-fs-lg:  1.125rem;\n    --app-fs-xl:  1.25rem;\n    --app-fs-2xl: 1.5rem;\n    --app-fs-3xl: 1.75rem;\n    --app-fs-4xl: 2.25rem;\n    --app-fs-5xl: 3.5rem;\n\n    --app-space-0:   0;\n    --app-space-3xs: 0.0625rem;\n    --app-space-2xs: 0.125rem;\n    --app-space-xs:  0.25rem;\n    --app-space-sm:  0.375rem;\n    --app-space-md:  0.5rem;\n    --app-space-lg:  0.75rem;\n    --app-space-xl:  1rem;\n    --app-space-2xl: 1.25rem;\n    --app-space-3xl: 1.5rem;\n    --app-space-4xl: 2rem;\n    --app-space-5xl: 2.5rem;\n    --app-space-6xl: 3rem;\n    --app-space-7xl: 4rem;\n\n    --app-icon-xs:  1rem;\n    --app-icon-sm:  1.25rem;\n    --app-icon-md:  1.5rem;\n    --app-icon-lg:  1.75rem;\n    --app-icon-xl:  2rem;\n    --app-icon-2xl: 2.5rem;\n\n    --app-container-xs: 28rem;\n    --app-container-sm: 32rem;\n    --app-container-md: 40rem;\n    --app-container-lg: 50rem;\n    --app-container-xl: 60rem;\n    --app-container-2xl: 72rem;\n\n    --app-fs-body-resp:  clamp(0.9375rem, 1.5vw, 1.125rem);\n    --app-fs-sub-resp:   clamp(1.125rem, 1.7vw, 1.375rem);\n    --app-fs-h3-resp:    clamp(1.25rem, 2.5vw, 1.75rem);\n    --app-fs-h2-resp:    clamp(1.5rem, 2.6vw, 2rem);\n    --app-fs-h1-resp:    clamp(1.5rem, 3vw, 2.25rem);\n    --app-fs-display-sm: clamp(1.75rem, 4vw, 2.75rem);\n    --app-fs-display-lg: clamp(2.25rem, 6vw, 4.5rem);\n\n    --app-pad-section-sm: clamp(3rem, 8vw, 5rem);\n    --app-pad-section-md: clamp(4rem, 10vw, 7.5rem);\n    --app-pad-section-lg: clamp(5rem, 12vw, 10rem);\n\n    --app-z-content: 1;\n    --app-z-sidebar: 20;\n    --app-z-topbar:  30;\n    --app-z-overlay: 100;\n    --app-z-toast:   120;\n\n    --app-transition-fast: 0.12s ease;\n    --app-transition-med:  0.18s ease;\n    --app-transition-slow: 0.32s ease;\n\n    --app-radius-sm:   0.25rem;\n    --app-radius-md:   0.5rem;\n    --app-radius-lg:   0.75rem;\n    --app-radius-xl:   1rem;\n    --app-radius-pill: 999px;\n  }\n}\n";

/// `styles/base.css`: reset and base element styles.
pub const BASE_CSS: &'static str = "@layer reset {\n  *,\n  *::before,\n  *::after {\n    box-sizing: border-box;\n  }\n\n  html {\n    scroll-behavior: smooth;\n    font-size: clamp(14px, calc(100vw / 120), 32px);\n  }\n\n  html,\n  body,\n  #app {\n    margin: 0;\n    padding: 0;\n    min-height: 100vh;\n    font-family: var(--app-font-sans);\n    background: var(--p-content-background);\n    color: var(--p-text-color);\n  }\n\n  @media (prefers-reduced-motion: reduce) {\n    html { scroll-behavior: auto; }\n  }\n\n  a {\n    color: inherit;\n    text-decoration: none;\n  }\n\n  button {\n    font-family: inherit;\n  }\n\n  body.app-scroll-locked {\n    overflow: hidden;\n    touch-action: none;\n  }\n}\n";

/// `plugins/primevue.ts`: PrimeVue installation with the app preset.
pub const PRIMEVUE_TS: &'static str = "import type { App } from 'vue'\nimport PrimeVueConfig from 'primevue/config'\nimport Aura from '@primevue/themes/aura'\nimport { definePreset } from '@primevue/themes'\n\nconst PRESET_SEMANTIC = definePreset(Aura, {\n  semantic: {\n    primary: {\n      50:  '{violet.50}',\n      100: '{violet.100}',\n      200: '{violet.200}',\n      300: '{violet.300}',\n      400: '{violet.400}',\n      500: '{violet.500}',\n      600: '{violet.600}',\n      700: '{violet.700}',\n      800: '{violet.800}',\n      900: '{violet.900}',\n      950: '{violet.950}'\n    },\n    colorScheme: {\n      light: {\n        surface: {\n          0:   '#ffffff',\n          50:  '{slate.50}',\n          100: '{slate.100}',\n          200: '{slate.200}',\n          300: '{slate.300}',\n          400: '{slate.400}',\n          500: '{slate.500}',\n          600: '{slate.600}',\n          700: '{slate.700}',\n          800: '{slate.800}',\n          900: '{slate.900}',\n          950: '{slate.950}'\n        }\n      },\n      dark: {\n        surface: {\n          0:   '#0a0a0a',\n          50:  '{slate.950}',\n          100: '{slate.900}',\n          200: '{slate.800}',\n          300: '{slate.700}',\n          400: '{slate.600}',\n          500: '{slate.500}',\n          600: '{slate.400}',\n          700: '{slate.300}',\n          800: '{slate.200}',\n          900: '{slate.100}',\n          950: '{slate.50}'\n        }\n      }\n    }\n  }\n})\n\nexport default function installPrimeVue(app: App): void {\n  app.use(PrimeVueConfig, {\n    theme: {\n      preset: PRESET_SEMANTIC,\n      options: {\n        cssLayer: { name: 'primevue', order: 'reset, primevue, app' }\n      }\n    }\n  })\n}\n";

pub open spec fn style_files_spec() -> Seq<(Seq<char>, Seq<char>)> {
    seq![
        (TOKENS_RELATIVE_PATH@, TOKENS_CSS@),
        (BASE_RELATIVE_PATH@, BASE_CSS@),
        (PRIMEVUE_RELATIVE_PATH@, PRIMEVUE_TS@),
    ]
}

/// (relative path, contents) of the style seeds, in write order.
pub fn style_files() -> (r: Vec<(String, String)>)
    ensures
        file_views(r@) == style_files_spec(),
{
    let mut v: Vec<(String, String)> = Vec::new();
    v.push((owned(TOKENS_RELATIVE_PATH), owned(TOKENS_CSS)));
    v.push((owned(BASE_RELATIVE_PATH), owned(BASE_CSS)));
    v.push((owned(PRIMEVUE_RELATIVE_PATH), owned(PRIMEVUE_TS)));
    assert(file_views(v@) =~= style_files_spec());
    v
}

/// Scaffold files written and files left as the user had them.
pub struct ScaffoldOutcome {
    pub written: Vec<String>,
    pub skipped: Vec<String>,
}

impl ScaffoldOutcome {
    /// Sorts seed files into written ones (no file was there) and skipped
    /// ones (a file was there), given which targets already existed.
    pub fn from_existing(files: &Vec<(String, String)>, existed: &Vec<bool>) -> (r: Self)
        requires
            existed@.len() == files@.len(),
        ensures
            views(r.written@) == paths_where(file_views(files@), existed@, false),
            views(r.skipped@) == paths_where(file_views(files@), existed@, true),
    {
        let o = crate::codegen::fe_runtime::ScaffoldOutcome::from_existing(files, existed);
        ScaffoldOutcome { written: o.written, skipped: o.skipped }
    }
}

} // verus!
