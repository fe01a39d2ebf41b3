//! Decisions behind publishing a project's static assets: which files are
//! processed, what they are called once published, and what the user is told.
use vstd::prelude::*;
use crate::arsenal::scanner::{extension_spec, file_stem_of, file_stem_spec, has_extension};
use crate::notice::{notice, notice_views, Level, Notice};
use crate::text::{chars_of, decimal, owned, seq_contains, seq_ends_with, seq_starts_with, str_contains, str_eq, usize_decimal};

verus! {

/// The public directory when the configuration names none.
pub const DEFAULT_PUBLIC_DIR: &'static str = "public";

/// Refusal when the configuration has no `[assets]` section.
pub const MISSING_ASSETS_SECTION: &'static str = "Missing [assets] section in Catalyst.toml";

/// Refusal when the HTMX section has no `js_url`.
pub const MISSING_HTMX_URL: &'static str = "Missing htmx js_url in config";

pub open spec fn is_production_spec(environment: Seq<char>) -> bool {
    environment == "prod"@ || environment == "production"@
}

/// Whether the configured environment is a production one.
pub fn is_production(environment: &str) -> (r: bool)
    ensures
        r == is_production_spec(environment@),
{
    str_eq(environment, "prod") || str_eq(environment, "production")
}

/// The configured public directory, or `public`.
pub fn get_public_dir<'a>(configured: Option<&'a str>) -> (r: &'a str)
    ensures
        r@ == match configured {
            Some(d) => d@,
            None => DEFAULT_PUBLIC_DIR@,
        },
{
    match configured {
        Some(d) => d,
        None => DEFAULT_PUBLIC_DIR,
    }
}

/// The HTMX script URL, which the configuration must give.
pub fn htmx_js_url<'a>(js_url: Option<&'a str>) -> (r: Result<&'a str, String>)
    ensures
        match r {
            Ok(u) => js_url == Some(u),
            Err(m) => js_url is None && m@ == MISSING_HTMX_URL@,
        },
{
    match js_url {
        Some(u) => Ok(u),
        None => Err(owned(MISSING_HTMX_URL)),
    }
}

/// Name of a published file: the source's stem, then `.min.` and the extension.
pub open spec fn minified_name_spec(file_name: Seq<char>, ext: Seq<char>) -> Seq<char> {
    file_stem_spec(file_name) + ".min."@ + ext
}

/// The name a source file is published under (`app.scss` as `app.min.css`).
pub fn minified_name(file_name: &str, ext: &str) -> (r: String)
    ensures
        r@ == minified_name_spec(file_name@, ext@),
{
    let mut out = file_stem_of(file_name);
    out.append(".min.");
    out.append(ext);
    out
}

/// Every published stylesheet or script is named `<stem>.min.<ext>`.
pub proof fn lemma_published_names_are_minified(file_name: Seq<char>, ext: Seq<char>)
    ensures
        seq_ends_with(minified_name_spec(file_name, ext), ".min."@ + ext),
{
    let n = minified_name_spec(file_name, ext);
    let suffix = ".min."@ + ext;
    assert(n =~= file_stem_spec(file_name) + suffix);
    assert(n.skip(n.len() - suffix.len()) =~= suffix);
}

pub open spec fn is_publishable_css_spec(file_name: Seq<char>, path: Seq<char>) -> bool {
    extension_spec(file_name) == Some("css"@) && !seq_contains(path, ".min.css"@)
}

/// Whether a CSS source is published: a `.css` file whose path does not
/// already hold `.min.css`.
pub fn is_publishable_css(file_name: &str, path: &str) -> (r: bool)
    ensures
        r == is_publishable_css_spec(file_name@, path@),
{
    has_extension(file_name, "css") && !str_contains(path, ".min.css")
}

pub open spec fn mode_spec(production: bool) -> Seq<char> {
    if production {
        "production"@
    } else {
        "development"@
    }
}

/// The name of the build mode.
pub fn mode_name(production: bool) -> (r: &'static str)
    ensures
        r@ == mode_spec(production),
{
    if production {
        "production"
    } else {
        "development"
    }
}

/// How SCSS output is laid out.
#[derive(PartialEq, Eq, Structural, Clone, Copy, Debug)]
pub enum SassStyle {
    Compressed,
    Expanded,
}

/// Compressed output in production, expanded otherwise.
pub fn sass_style(production: bool) -> (r: SassStyle)
    ensures
        r == (if production { SassStyle::Compressed } else { SassStyle::Expanded }),
{
    if production {
        SassStyle::Compressed
    } else {
        SassStyle::Expanded
    }
}

/// The outcome of downloading one asset: its label and, on failure, why.
pub struct AssetDownload {
    pub name: String,
    pub error: Option<String>,
}

pub open spec fn download_notice_spec(d: AssetDownload) -> (Level, Seq<char>) {
    match d.error {
        None => (Level::Success, d.name@ + " downloaded successfully"@),
        Some(e) => (Level::Error, d.name@ + " download failed: "@ + e@),
    }
}

/// How many downloads succeeded.
pub open spec fn succeeded_count(ds: Seq<AssetDownload>) -> nat
    decreases ds.len(),
{
    if ds.len() == 0 {
        0
    } else {
        succeeded_count(ds.drop_last()) + (if ds.last().error is None { 1nat } else { 0nat })
    }
}

pub open spec fn download_summary_spec(ok: nat, total: nat) -> (Level, Seq<char>) {
    if ok < total {
        (Level::Warning, "CDN downloads: "@ + decimal(ok) + "/"@ + decimal(total) + " assets completed successfully"@)
    } else {
        (Level::Success, "All CDN assets downloaded successfully"@)
    }
}

/// One notice per download, in order, then the summary.
pub open spec fn download_report_spec(ds: Seq<AssetDownload>) -> Seq<(Level, Seq<char>)> {
    ds.map_values(|d: AssetDownload| download_notice_spec(d)).push(
        download_summary_spec(succeeded_count(ds), ds.len()),
    )
}

fn download_notice(d: &AssetDownload) -> (r: Notice)
    ensures
        r@ == download_notice_spec(*d),
{
    let mut m = owned(d.name.as_str());
    match &d.error {
        None => {
            m.append(" downloaded successfully");
            notice(Level::Success, m)
        },
        Some(e) => {
            m.append(" download failed: ");
            m.append(e.as_str());
            notice(Level::Error, m)
        },
    }
}

/// What the user is told once the CDN downloads have run.
pub fn download_report(downloads: &Vec<AssetDownload>) -> (r: Vec<Notice>)
    ensures
        notice_views(r@) == download_report_spec(downloads@),
{
    let mut out: Vec<Notice> = Vec::new();
    let mut ok: usize = 0;
    let mut i: usize = 0;
    while i < downloads.len()
        invariant
            i <= downloads@.len(),
            ok == succeeded_count(downloads@.take(i as int)),
            ok <= i,
            notice_views(out@) == downloads@.take(i as int).map_values(|d: AssetDownload| download_notice_spec(d)),
        decreases downloads@.len() - i,
    {
        let ghost before = notice_views(out@);
        let n = download_notice(&downloads[i]);
        out.push(n);
        assert(downloads@.take(i + 1).drop_last() =~= downloads@.take(i as int));
        if downloads[i].error.is_none() {
            ok = ok + 1;
        }
        assert(notice_views(out@) =~= before.push(download_notice_spec(downloads@[i as int])));
        assert(downloads@.take(i + 1).map_values(|d: AssetDownload| download_notice_spec(d))
            =~= downloads@.take(i as int).map_values(|d: AssetDownload| download_notice_spec(d)).push(
            download_notice_spec(downloads@[i as int]),
        ));
        i = i + 1;
    }
    assert(downloads@.take(downloads@.len() as int) =~= downloads@);
    let ghost body = notice_views(out@);
    let summary = if ok < downloads.len() {
        let mut m = owned("CDN downloads: ");
        m.append(usize_decimal(ok).as_str());
        m.append("/");
        m.append(usize_decimal(downloads.len()).as_str());
        m.append(" assets completed successfully");
        notice(Level::Warning, m)
    } else {
        notice(Level::Success, owned("All CDN assets downloaded successfully"))
    };
    out.push(summary);
    assert(notice_views(out@) =~= body.push(summary@));
    out
}

pub open spec fn scss_summary_spec(files: nat, succeeded: nat, failed: nat) -> (Level, Seq<char>) {
    if failed > 0 {
        if failed == files {
            (Level::Error, "SCSS processing failed - all "@ + decimal(failed) + " files had errors"@)
        } else {
            (
                Level::Warning,
                "SCSS processing completed: "@ + decimal(succeeded) + " succeeded, "@ + decimal(failed) + " failed"@,
            )
        }
    } else {
        (Level::Success, "All "@ + decimal(files) + " SCSS files processed successfully"@)
    }
}

/// What the user is told once every SCSS file has been compiled or failed.
pub fn scss_summary(files: usize, succeeded: usize, failed: usize) -> (r: Notice)
    ensures
        r@ == scss_summary_spec(files as nat, succeeded as nat, failed as nat),
{
    if failed > 0 {
        if failed == files {
            let mut m = owned("SCSS processing failed - all ");
            m.append(usize_decimal(failed).as_str());
            m.append(" files had errors");
            notice(Level::Error, m)
        } else {
            let mut m = owned("SCSS processing completed: ");
            m.append(usize_decimal(succeeded).as_str());
            m.append(" succeeded, ");
            m.append(usize_decimal(failed).as_str());
            m.append(" failed");
            notice(Level::Warning, m)
        }
    } else {
        let mut m = owned("All ");
        m.append(usize_decimal(files).as_str());
        m.append(" SCSS files processed successfully");
        notice(Level::Success, m)
    }
}

/// What the user is told once the scripts have been copied.
pub fn js_summary(count: usize, production: bool) -> (r: String)
    ensures
        r@ == "Processed "@ + decimal(count as nat) + " JS files in "@ + mode_spec(production) + " mode"@,
{
    let mut m = owned("Processed ");
    m.append(usize_decimal(count).as_str());
    m.append(" JS files in ");
    m.append(mode_name(production));
    m.append(" mode");
    m
}

/// The announcement before CSS files are published.
pub fn css_publish_start(production: bool) -> (r: String)
    ensures
        r@ == "Publishing CSS files ("@ + mode_spec(production) + " mode)..."@,
{
    let mut m = owned("Publishing CSS files (");
    m.append(mode_name(production));
    m.append(" mode)...");
    m
}

pub open spec fn css_published_spec(count: nat, production: bool) -> Seq<char> {
    "Published "@ + decimal(count) + " CSS files as .min.css ("@ + (if production {
        "minified for production"@
    } else {
        "expanded for development"@
    }) + ")"@
}

/// What the user is told once the CSS files have been published.
pub fn css_published(count: usize, production: bool) -> (r: String)
    ensures
        r@ == css_published_spec(count as nat, production),
{
    let mut m = owned("Published ");
    m.append(usize_decimal(count).as_str());
    m.append(" CSS files as .min.css (");
    if production {
        m.append("minified for production");
    } else {
        m.append("expanded for development");
    }
    m.append(")");
    m
}


/// Whitespace as css-minify skips it (`multispace1`).
pub open spec fn css_ws(c: char) -> bool {
    c == ' ' || c == '\t' || c == '\r' || c == '\n'
}

/// The first `*/` at or after `j`, or -1.
pub open spec fn comment_close(s: Seq<char>, j: int) -> int
    decreases s.len() - j,
{
    if j < 0 || j + 1 >= s.len() {
        -1
    } else if s[j] == '*' && s[j + 1] == '/' {
        j
    } else {
        comment_close(s, j + 1)
    }
}

/// The index after the whitespace and closed `/* */` comments that start at
/// `i` (css-minify's `parse_useless`).
pub open spec fn skip_useless(s: Seq<char>, i: int) -> int
    decreases s.len() - i,
{
    if i < 0 || i >= s.len() {
        i
    } else if css_ws(s[i]) {
        skip_useless(s, i + 1)
    } else if i + 1 < s.len() && s[i] == '/' && s[i + 1] == '*' && comment_close(s, i + 2) >= i + 2
        && comment_close(s, i + 2) + 2 <= s.len() {
        skip_useless(s, comment_close(s, i + 2) + 2)
    } else {
        i
    }
}

/// The end of the run of ASCII digits that starts at `i`.
pub open spec fn digits_end(s: Seq<char>, i: int) -> int
    decreases s.len() - i,
{
    if i < 0 || i >= s.len() || !('0' <= s[i] && s[i] <= '9') {
        i
    } else {
        digits_end(s, i + 1)
    }
}

/// The number the digits `s[a..b]` spell.
pub open spec fn digits_value(s: Seq<char>, a: int, b: int) -> nat
    decreases b - a,
{
    if b <= a {
        0
    } else {
        digits_value(s, a, b - 1) * 10 + ((s[b - 1] as int) - ('0' as int)) as nat
    }
}

/// A non-empty digit run at `i`, after what is skipped; its end, or -1.
pub open spec fn run_after(s: Seq<char>, i: int) -> int {
    let c = skip_useless(s, i);
    if digits_end(s, c) > c {
        digits_end(s, c)
    } else {
        -1
    }
}

/// The character at `j` after what is skipped is `c`; the index after it.
pub open spec fn char_after(s: Seq<char>, j: int, c: char) -> int {
    let k = skip_useless(s, j);
    if 0 <= k < s.len() && s[k] == c {
        k + 1
    } else {
        -1
    }
}

/// `rgb(` at `i`, after what is skipped, followed by three comma-separated
/// digit runs one of which is above 255: the text on which css-minify's
/// colour optimisation (`parse_rgb`) unwraps a failed `u8` parse.
pub open spec fn rgb_overflow_at(s: Seq<char>, i: int) -> bool {
    let a = skip_useless(s, i);
    &&& 0 <= a && a + 2 < s.len() && s[a] == 'r' && s[a + 1] == 'g' && s[a + 2] == 'b'
    &&& char_after(s, a + 3, '(') >= 0
    &&& run_after(s, char_after(s, a + 3, '(')) >= 0
    &&& char_after(s, run_after(s, char_after(s, a + 3, '(')), ',') >= 0
    &&& run_after(s, char_after(s, run_after(s, char_after(s, a + 3, '(')), ',')) >= 0
    &&& char_after(s, run_after(s, char_after(s, run_after(s, char_after(s, a + 3, '(')), ',')), ',') >= 0
    &&& run_after(s, char_after(s, run_after(s, char_after(s, run_after(s, char_after(s, a + 3, '(')), ',')), ',')) >= 0
    &&& {
        let c1 = skip_useless(s, char_after(s, a + 3, '('));
        let e1 = run_after(s, char_after(s, a + 3, '('));
        let p2 = char_after(s, e1, ',');
        let c2 = skip_useless(s, p2);
        let e2 = run_after(s, p2);
        let p3 = char_after(s, e2, ',');
        let c3 = skip_useless(s, p3);
        let e3 = run_after(s, p3);
        digits_value(s, c1, e1) > 255 || digits_value(s, c2, e2) > 255 || digits_value(s, c3, e3) > 255
    }
}

/// No `rgb(..)` triple with a component above 255 anywhere in the text.
pub open spec fn rgb_in_range(s: Seq<char>) -> bool {
    forall|i: int| 0 <= i < s.len() ==> !#[trigger] rgb_overflow_at(s, i)
}

proof fn lemma_comment_close(s: Seq<char>, j: int)
    ensures
        comment_close(s, j) == -1 || (j <= comment_close(s, j) && comment_close(s, j) + 1 < s.len()),
    decreases s.len() - j,
{
    if !(j < 0 || j + 1 >= s.len()) && !(s[j] == '*' && s[j + 1] == '/') {
        lemma_comment_close(s, j + 1);
    }
}

proof fn lemma_skip_useless(s: Seq<char>, i: int)
    ensures
        0 <= i ==> i <= skip_useless(s, i),
        i <= s.len() ==> skip_useless(s, i) <= s.len(),
        i < 0 ==> skip_useless(s, i) == i,
    decreases s.len() - i,
{
    if 0 <= i < s.len() {
        if css_ws(s[i]) {
            lemma_skip_useless(s, i + 1);
        } else if i + 1 < s.len() && s[i] == '/' && s[i + 1] == '*' && comment_close(s, i + 2) >= i + 2
            && comment_close(s, i + 2) + 2 <= s.len() {
            lemma_comment_close(s, i + 2);
            lemma_skip_useless(s, comment_close(s, i + 2) + 2);
        }
    }
}

fn comment_close_of(cs: &Vec<char>, j: usize) -> (r: Option<usize>)
    ensures
        match r {
            Some(k) => k as int == comment_close(cs@, j as int),
            None => comment_close(cs@, j as int) == -1,
        },
{
    let mut k = j;
    while k < cs.len() && k + 1 < cs.len()
        invariant
            j <= k,
            comment_close(cs@, j as int) == comment_close(cs@, k as int),
        decreases cs@.len() - k,
    {
        if cs[k] == '*' && cs[k + 1] == '/' {
            return Some(k);
        }
        k = k + 1;
    }
    None
}

fn skip_useless_of(cs: &Vec<char>, i: usize) -> (r: usize)
    requires
        i <= cs@.len(),
    ensures
        r == skip_useless(cs@, i as int),
        i <= r <= cs@.len(),
{
    let mut k = i;
    proof {
        lemma_skip_useless(cs@, i as int);
    }
    loop
        invariant
            i <= k <= cs@.len(),
            skip_useless(cs@, i as int) == skip_useless(cs@, k as int),
        decreases cs@.len() - k,
    {
        if k >= cs.len() {
            return k;
        }
        let c = cs[k];
        if c == ' ' || c == '\t' || c == '\r' || c == '\n' {
            k = k + 1;
        } else if k + 1 < cs.len() && c == '/' && cs[k + 1] == '*' {
            proof {
                lemma_comment_close(cs@, k + 2);
            }
            match comment_close_of(cs, k + 2) {
                Some(close) => {
                    k = close + 2;
                },
                None => {
                    return k;
                },
            }
        } else {
            return k;
        }
    }
}

fn digits_end_of(cs: &Vec<char>, i: usize) -> (r: usize)
    requires
        i <= cs@.len(),
    ensures
        r == digits_end(cs@, i as int),
        i <= r <= cs@.len(),
{
    let mut k = i;
    while k < cs.len() && '0' <= cs[k] && cs[k] <= '9'
        invariant
            i <= k <= cs@.len(),
            digits_end(cs@, i as int) == digits_end(cs@, k as int),
        decreases cs@.len() - k,
    {
        k = k + 1;
    }
    k
}

fn digits_exceed_byte(cs: &Vec<char>, a: usize, b: usize) -> (r: bool)
    requires
        a <= b <= cs@.len(),
        forall|j: int| a <= j < b ==> '0' <= #[trigger] cs@[j] && cs@[j] <= '9',
    ensures
        r == (digits_value(cs@, a as int, b as int) > 255),
{
    let mut v: u32 = 0;
    let mut k = a;
    while k < b
        invariant
            a <= k <= b <= cs@.len(),
            forall|j: int| a <= j < b ==> '0' <= #[trigger] cs@[j] && cs@[j] <= '9',
            digits_value(cs@, a as int, k as int) > 255 ==> v == 256,
            digits_value(cs@, a as int, k as int) <= 255 ==> v == digits_value(cs@, a as int, k as int),
        decreases b - k,
    {
        let d = (cs[k] as u32) - ('0' as u32);
        if v <= 255 {
            v = v * 10 + d;
            if v > 255 {
                v = 256;
            }
        }
        k = k + 1;
    }
    v > 255
}

proof fn lemma_digits_run(s: Seq<char>, i: int, j: int)
    requires
        0 <= i <= j < digits_end(s, i),
    ensures
        '0' <= s[j] && s[j] <= '9',
    decreases j - i,
{
    if i < j {
        lemma_digits_run(s, i + 1, j);
    }
}

fn char_after_of(cs: &Vec<char>, j: usize, c: char) -> (r: Option<usize>)
    requires
        j <= cs@.len(),
    ensures
        match r {
            Some(k) => k as int == char_after(cs@, j as int, c) && j < k <= cs@.len(),
            None => char_after(cs@, j as int, c) < 0,
        },
{
    let k = skip_useless_of(cs, j);
    if k < cs.len() && cs[k] == c {
        Some(k + 1)
    } else {
        None
    }
}

fn run_after_of(cs: &Vec<char>, j: usize) -> (r: Option<(usize, usize)>)
    requires
        j <= cs@.len(),
    ensures
        match r {
            Some((e, c)) => e as int == run_after(cs@, j as int) && c as int == skip_useless(cs@, j as int) && j <= c
                < e <= cs@.len() && e as int == digits_end(cs@, c as int),
            None => run_after(cs@, j as int) < 0,
        },
{
    let c = skip_useless_of(cs, j);
    let e = digits_end_of(cs, c);
    if e > c {
        Some((e, c))
    } else {
        None
    }
}

fn rgb_overflow_of(cs: &Vec<char>, i: usize) -> (r: bool)
    requires
        i <= cs@.len(),
    ensures
        r == rgb_overflow_at(cs@, i as int),
{
    let a = skip_useless_of(cs, i);
    if !(a < cs.len() && cs.len() - a > 2 && cs[a] == 'r' && cs[a + 1] == 'g' && cs[a + 2] == 'b') {
        return false;
    }
    let p1 = match char_after_of(cs, a + 3, '(') {
        Some(p) => p,
        None => {
            return false;
        },
    };
    let (e1, c1) = match run_after_of(cs, p1) {
        Some(x) => x,
        None => {
            return false;
        },
    };
    let p2 = match char_after_of(cs, e1, ',') {
        Some(p) => p,
        None => {
            return false;
        },
    };
    let (e2, c2) = match run_after_of(cs, p2) {
        Some(x) => x,
        None => {
            return false;
        },
    };
    let p3 = match char_after_of(cs, e2, ',') {
        Some(p) => p,
        None => {
            return false;
        },
    };
    let (e3, c3) = match run_after_of(cs, p3) {
        Some(x) => x,
        None => {
            return false;
        },
    };
    proof {
        assert forall|j: int| c1 <= j < e1 implies '0' <= #[trigger] cs@[j] && cs@[j] <= '9' by {
            lemma_digits_run(cs@, c1 as int, j);
        }
        assert forall|j: int| c2 <= j < e2 implies '0' <= #[trigger] cs@[j] && cs@[j] <= '9' by {
            lemma_digits_run(cs@, c2 as int, j);
        }
        assert forall|j: int| c3 <= j < e3 implies '0' <= #[trigger] cs@[j] && cs@[j] <= '9' by {
            lemma_digits_run(cs@, c3 as int, j);
        }
    }
    digits_exceed_byte(cs, c1, e1) || digits_exceed_byte(cs, c2, e2) || digits_exceed_byte(cs, c3, e3)
}

/// Whether every `rgb(..)` triple in a stylesheet has its components within
/// 0 to 255: the stylesheets css-minify can minify without panicking.
pub fn rgb_components_in_range(css: &str) -> (r: bool)
    ensures
        r == rgb_in_range(css@),
{
    let cs = chars_of(css);
    let mut i: usize = 0;
    while i < cs.len()
        invariant
            cs@ == css@,
            i <= cs@.len(),
            forall|j: int| 0 <= j < i ==> !#[trigger] rgb_overflow_at(cs@, j),
        decreases cs@.len() - i,
    {
        if rgb_overflow_of(&cs, i) {
            return false;
        }
        i = i + 1;
    }
    true
}

/// What `css_minify`'s `Minifier::default().minify(css, Level::Three)`
/// returns: the minified stylesheet, or `None` where the minifier rejects
/// the input. It depends on the stylesheet alone.
pub uninterp spec fn css_minified(css: Seq<char>) -> Option<Seq<char>>;

/// `Minifier::default().minify(css, Level::Three)` of the `css-minify`
/// crate (the most thorough level). It panics on an `rgb(..)` component
/// above 255, which `requires` leaves out. The contract names the result
/// (`css_minified`); the minifier's error is dropped unread, since
/// formatting it panics on some inputs.
#[verifier::external_body]
fn minify_css(css: &str) -> (r: Option<String>)
    requires
        rgb_in_range(css@),
    ensures
        r is Some <==> css_minified(css@) is Some,
        r matches Some(m) ==> css_minified(css@) == Some(m@),
{
    css_minify::optimizations::Minifier::default().minify(css, css_minify::optimizations::Level::Three).ok()
}

/// Refusal of a stylesheet the minifier rejects.
pub const CSS_MINIFY_FAILED: &'static str = "CSS minification error";

/// The text a CSS source is published as: minified in production, as
/// written otherwise. A stylesheet the minifier rejects is refused.
pub fn published_css(content: &str, production: bool) -> (r: Result<String, String>)
    requires
        production ==> rgb_in_range(content@),
    ensures
        !production ==> (r matches Ok(s) && s@ == content@),
        production ==> (r is Ok <==> css_minified(content@) is Some),
        production ==> (r matches Ok(m) ==> css_minified(content@) == Some(m@)),
        r matches Err(e) ==> production && e@ == CSS_MINIFY_FAILED@,
{
    if !production {
        return Ok(owned(content));
    }
    match minify_css(content) {
        Some(m) => Ok(m),
        None => Err(owned(CSS_MINIFY_FAILED)),
    }
}

} // verus!
