use blast::assets::{
    css_publish_start, css_published, download_report, get_public_dir, htmx_js_url, is_production,
    is_publishable_css, js_summary, minified_name, mode_name, sass_style, scss_summary, AssetDownload, SassStyle,
    MISSING_HTMX_URL,
};
use blast::notice::Level;

#[test]
fn production_environments() {
    assert!(is_production("prod"));
    assert!(is_production("production"));
    assert!(!is_production("dev"));
    assert!(!is_production("Production"));
    assert!(!is_production(""));
}

#[test]
fn public_dir_defaults_to_public() {
    assert_eq!(get_public_dir(None), "public");
    assert_eq!(get_public_dir(Some("static")), "static");
}

#[test]
fn htmx_url_is_required() {
    assert_eq!(htmx_js_url(Some("https://x/htmx.js")), Ok("https://x/htmx.js"));
    assert_eq!(htmx_js_url(None), Err(MISSING_HTMX_URL.to_string()));
    assert_eq!(MISSING_HTMX_URL, "Missing htmx js_url in config");
}

#[test]
fn minified_names_replace_the_extension() {
    assert_eq!(minified_name("app.scss", "css"), "app.min.css");
    assert_eq!(minified_name("main.js", "js"), "main.min.js");
    assert_eq!(minified_name("theme.dark.css", "css"), "theme.dark.min.css");
    assert_eq!(minified_name(".hidden", "css"), ".hidden.min.css");
}

#[test]
fn already_minified_css_is_not_republished() {
    assert!(is_publishable_css("site.css", "src/assets/css/site.css"));
    assert!(!is_publishable_css("site.min.css", "src/assets/css/site.min.css"));
    assert!(!is_publishable_css("site.scss", "src/assets/css/site.scss"));
    assert!(!is_publishable_css("a.css", "src/assets/css/old.min.css/a.css"));
}

#[test]
fn modes_and_styles() {
    assert_eq!(mode_name(true), "production");
    assert_eq!(mode_name(false), "development");
    assert_eq!(sass_style(true), SassStyle::Compressed);
    assert_eq!(sass_style(false), SassStyle::Expanded);
}

#[test]
fn download_report_counts_failures() {
    let ds = vec![
        AssetDownload { name: "HTMX".to_string(), error: None },
        AssetDownload { name: "Icons".to_string(), error: Some("timeout".to_string()) },
    ];
    let r = download_report(&ds);
    assert_eq!(r.len(), 3);
    assert_eq!(r[0].level, Level::Success);
    assert_eq!(r[0].message, "HTMX downloaded successfully");
    assert_eq!(r[1].level, Level::Error);
    assert_eq!(r[1].message, "Icons download failed: timeout");
    assert_eq!(r[2].level, Level::Warning);
    assert_eq!(r[2].message, "CDN downloads: 1/2 assets completed successfully");
}

#[test]
fn download_report_all_succeeded() {
    let ds = vec![AssetDownload { name: "HTMX".to_string(), error: None }];
    let r = download_report(&ds);
    assert_eq!(r.len(), 2);
    assert_eq!(r[1].level, Level::Success);
    assert_eq!(r[1].message, "All CDN assets downloaded successfully");
}

#[test]
fn scss_summaries() {
    let all_failed = scss_summary(3, 0, 3);
    assert_eq!(all_failed.level, Level::Error);
    assert_eq!(all_failed.message, "SCSS processing failed - all 3 files had errors");
    let some_failed = scss_summary(12, 10, 2);
    assert_eq!(some_failed.level, Level::Warning);
    assert_eq!(some_failed.message, "SCSS processing completed: 10 succeeded, 2 failed");
    let none_failed = scss_summary(4, 4, 0);
    assert_eq!(none_failed.level, Level::Success);
    assert_eq!(none_failed.message, "All 4 SCSS files processed successfully");
}

#[test]
fn publish_messages() {
    assert_eq!(js_summary(2, true), "Processed 2 JS files in production mode");
    assert_eq!(js_summary(0, false), "Processed 0 JS files in development mode");
    assert_eq!(css_publish_start(false), "Publishing CSS files (development mode)...");
    assert_eq!(css_published(5, true), "Published 5 CSS files as .min.css (minified for production)");
    assert_eq!(css_published(1, false), "Published 1 CSS files as .min.css (expanded for development)");
}

#[test]
fn css_published_as_written_in_development() {
    let css = "a {\n  color: red;\n}\n";
    assert_eq!(blast::assets::published_css(css, false), Ok(css.to_string()));
}

#[test]
fn css_minified_in_production() {
    let css = "a {\n  color: red;\n}\n\nb {\n  margin: 0px;\n}\n";
    let out = blast::assets::published_css(css, true).expect("minifies");
    assert!(out.len() < css.len(), "{out:?}");
    assert!(!out.contains('\n'), "{out:?}");
    assert!(out.contains("color:red"), "{out:?}");
}

#[test]
fn rgb_components_checked_before_minifying() {
    assert!(blast::assets::rgb_components_in_range(".a{color:rgb(255,0,10)}"));
    assert!(!blast::assets::rgb_components_in_range(".a{color:rgb(300,0,0)}"));
    assert!(!blast::assets::rgb_components_in_range(".a{color: rgb ( 1 , /* c */ 2 , 0256 )}"));
    assert!(blast::assets::rgb_components_in_range(".a{width:1000px}"));
    assert!(blast::assets::rgb_components_in_range(".a{color:rgb(300 0 0)}"));
}
