//! `.env.example` at the project root, from the app's declared environment
//! variables.
use vstd::prelude::*;
use vstd::string::*;
use crate::state::app::{EnvSpecState, EnvVarSpec};
use crate::text::{
    concat_map, join, join_strings, lemma_concat_map_all, lemma_concat_map_step, owned, seq_starts_with, split_lines,
    str_eq, str_lines, str_starts_with, views,
};

verus! {

/// The file written, if any.
pub struct EmitReport {
    pub written: Option<String>,
}

pub const ENV_EXAMPLE_RELATIVE: &'static str = ".env.example";

/// Shown in place of the default of a sensitive variable.
pub const SENSITIVE_PLACEHOLDER: &'static str = "<changeme>";

/// A Rust comment line as a shell comment: `// x` becomes `# x`, a bare
/// `//` becomes `#`, other lines are kept.
pub open spec fn convert_line_spec(line: Seq<char>) -> Seq<char> {
    if seq_starts_with(line, "// "@) {
        "# "@ + line.subrange(3, line.len() as int)
    } else if line == "//"@ {
        "#"@
    } else {
        line
    }
}

fn suffix_from(s: &str, start: usize) -> (r: String)
    requires
        start <= s@.len(),
    ensures
        r@ == s@.subrange(start as int, s@.len() as int),
{
    let cs = crate::text::chars_of(s);
    let mut out = String::new();
    let mut i = start;
    while i < cs.len()
        invariant
            start <= i <= cs@.len(),
            cs@ == s@,
            out@ == cs@.subrange(start as int, i as int),
        decreases cs@.len() - i,
    {
        crate::text::push_char(&mut out, cs[i]);
        assert(cs@.subrange(start as int, i + 1) =~= cs@.subrange(start as int, i as int).push(cs@[i as int]));
        i = i + 1;
    }
    out
}

/// Convert one marker line to shell-comment syntax.
pub fn convert_line(line: &str) -> (r: String)
    ensures
        r@ == convert_line_spec(line@),
{
    if str_starts_with(line, "// ") {
        proof {
            reveal_strlit("// ");
        }
        let rest = suffix_from(line, 3);
        let mut out = owned("# ");
        out.append(rest.as_str());
        out
    } else if str_eq(line, "//") {
        owned("#")
    } else {
        owned(line)
    }
}

/// The generated-file marker in shell-comment syntax: each line converted,
/// joined by newlines, with a final newline.
pub open spec fn env_marker_spec(rs_marker: Seq<char>) -> Seq<char> {
    join(str_lines(rs_marker).map_values(|l: Seq<char>| convert_line_spec(l)), "\n"@) + "\n"@
}

/// Convert a Rust-comment marker to the `.env.example` header.
pub fn env_marker(rs_marker: &str) -> (r: String)
    ensures
        r@ == env_marker_spec(rs_marker@),
{
    let lines = split_lines(rs_marker);
    let ghost lv = views(lines@);
    let mut converted: Vec<String> = Vec::new();
    let mut i: usize = 0;
    while i < lines.len()
        invariant
            i <= lines@.len(),
            lv == views(lines@),
            views(converted@) == lv.take(i as int).map_values(|l: Seq<char>| convert_line_spec(l)),
        decreases lines@.len() - i,
    {
        let c = convert_line(lines[i].as_str());
        let ghost before = views(converted@);
        let ghost cv = c@;
        converted.push(c);
        assert(views(converted@) =~= before.push(cv));
        assert(lv.take(i + 1).map_values(|l: Seq<char>| convert_line_spec(l)) =~= lv.take(i as int).map_values(
            |l: Seq<char>| convert_line_spec(l),
        ).push(convert_line_spec(lv[i as int])));
        i = i + 1;
    }
    assert(lv.take(lines@.len() as int) =~= lv);
    let mut out = join_strings(&converted, "\n");
    out.append("\n");
    out
}

/// One variable: its comment line when it has one, then `NAME=value`
/// with the placeholder for sensitive variables.
pub open spec fn var_spec(name: Seq<char>, var: EnvVarSpec) -> Seq<char> {
    (match var.comment {
        Some(c) => "# "@ + c@ + "\n"@,
        None => Seq::<char>::empty(),
    }) + name + "="@ + (if var.sensitive { SENSITIVE_PLACEHOLDER@ } else { var.default@ }) + "\n"@
}

pub open spec fn var_piece() -> spec_fn((String, EnvVarSpec)) -> Seq<char> {
    |e: (String, EnvVarSpec)| var_spec(e.0@, e.1)
}

fn render_var(out: &mut String, name: &str, var: &EnvVarSpec)
    ensures
        final(out)@ == old(out)@ + var_spec(name@, *var),
{
    let ghost start = out@;
    match &var.comment {
        Some(comment) => {
            out.append("# ");
            out.append(comment.as_str());
            out.append("\n");
        },
        None => {},
    }
    let ghost a = out@;
    out.append(name);
    out.append("=");
    if var.sensitive {
        out.append(SENSITIVE_PLACEHOLDER);
    } else {
        out.append(var.default.as_str());
    }
    out.append("\n");
    assert(out@ =~= start + var_spec(name@, *var));
}

/// The variable lines of `.env.example`, in declaration order.
pub open spec fn render_spec(spec: EnvSpecState) -> Seq<char> {
    concat_map(spec.vars@, var_piece())
}

/// Body of `.env.example` (without the header).
pub fn render(spec: &EnvSpecState) -> (r: String)
    ensures
        r@ == render_spec(*spec),
{
    let mut out = String::new();
    let mut i: usize = 0;
    assert(spec.vars@.take(0) =~= Seq::<(String, EnvVarSpec)>::empty());
    while i < spec.vars.len()
        invariant
            i <= spec.vars@.len(),
            out@ == concat_map(spec.vars@.take(i as int), var_piece()),
        decreases spec.vars@.len() - i,
    {
        render_var(&mut out, spec.vars[i].0.as_str(), &spec.vars[i].1);
        proof {
            lemma_concat_map_step(spec.vars@, i as int, var_piece());
        }
        i = i + 1;
    }
    proof {
        lemma_concat_map_all(spec.vars@, var_piece());
    }
    out
}

/// The full `.env.example` when there is something to declare: the shell
/// header from the marker, then the variables. Without a spec, or with no
/// variable, no file is written.
pub open spec fn env_file_spec(spec: Option<EnvSpecState>, rs_marker: Seq<char>) -> Option<Seq<char>> {
    match spec {
        Some(s) => if s.vars@.len() > 0 {
            Some(env_marker_spec(rs_marker) + render_spec(s))
        } else {
            None
        },
        None => None,
    }
}

/// `.env.example` contents for an app, if it gets one.
pub fn env_example_file(spec: &Option<EnvSpecState>, rs_marker: &str) -> (r: Option<String>)
    ensures
        match r {
            Some(body) => env_file_spec(*spec, rs_marker@) == Some(body@),
            None => env_file_spec(*spec, rs_marker@) is None,
        },
{
    match spec {
        Some(s) => {
            if s.vars.len() == 0 {
                return None;
            }
            let mut out = env_marker(rs_marker);
            let body = render(s);
            out.append(body.as_str());
            Some(out)
        },
        None => None,
    }
}

} // verus!
