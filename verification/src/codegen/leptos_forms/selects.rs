//! `<select>` widgets for fields restricted to a fixed set of values.
use vstd::prelude::*;
use crate::state::{FieldState, ValidatorRule};
use crate::text::{concat_map, escape_double_quoted, escape_dq, lemma_concat_map_all, lemma_concat_map_step};

verus! {

/// The options of the field's first `one_of` validator.
pub open spec fn one_of_options(validators: Seq<ValidatorRule>) -> Option<Seq<String>>
    decreases validators.len(),
{
    if validators.len() == 0 {
        None
    } else {
        match validators[0] {
            ValidatorRule::OneOf(opts) => Some(opts@),
            _ => one_of_options(validators.drop_first()),
        }
    }
}

/// The option list of the field's first `one_of` validator, if any.
pub fn find_one_of_options(field: &FieldState) -> (r: Option<&Vec<String>>)
    ensures
        match r {
            Some(v) => one_of_options(field.validators@) == Some(v@),
            None => one_of_options(field.validators@) is None,
        },
{
    let mut i: usize = 0;
    assert(field.validators@.skip(0) =~= field.validators@);
    while i < field.validators.len()
        invariant
            i <= field.validators.len(),
            one_of_options(field.validators@) == one_of_options(field.validators@.skip(i as int)),
        decreases field.validators.len() - i,
    {
        assert(field.validators@.skip(i as int).drop_first() =~= field.validators@.skip(i + 1));
        assert(field.validators@.skip(i as int)[0] == field.validators@[i as int]);
        match &field.validators[i] {
            ValidatorRule::OneOf(opts) => {
                return Some(opts);
            },
            _ => {},
        }
        i = i + 1;
    }
    None
}

/// One `<option>` line: the value attribute and the quoted label, both
/// escaped for a Rust string literal.
pub open spec fn option_line() -> spec_fn((String, String)) -> Seq<char> {
    |o: (String, String)|
        "                    <option value=\""@ + escape_dq(o.0@) + "\">\""@ + escape_dq(o.1@) + "\"</option>\n"@
}

/// The `<select>` bound to signal `name`, with one option per (value, label).
pub open spec fn select_spec(name: Seq<char>, options: Seq<(String, String)>) -> Seq<char> {
    "                <select prop:value=move || "@ + name + ".get() on:change=move |ev| "@ + name
        + ".set(event_target_value(&ev))>\n"@ + concat_map(options, option_line()) + "                </select>\n"@
}

/// Appends the `<select>` of `select_spec` to `out`.
pub fn emit_select(out: &mut String, name: &str, options: &Vec<(String, String)>)
    ensures
        final(out)@ == old(out)@ + select_spec(name@, options@),
{
    let ghost start = out@;
    out.append("                <select prop:value=move || ");
    out.append(name);
    out.append(".get() on:change=move |ev| ");
    out.append(name);
    out.append(".set(event_target_value(&ev))>\n");
    let ghost head = out@;
    let ghost f = option_line();
    let mut i: usize = 0;
    assert(options@.take(0) =~= Seq::<(String, String)>::empty());
    assert(out@ =~= head + concat_map(options@.take(0), f));
    while i < options.len()
        invariant
            i <= options.len(),
            f == option_line(),
            out@ == head + concat_map(options@.take(i as int), f),
        decreases options.len() - i,
    {
        let v = escape_double_quoted(options[i].0.as_str());
        let l = escape_double_quoted(options[i].1.as_str());
        let ghost before = out@;
        out.append("                    <option value=\"");
        out.append(v.as_str());
        out.append("\">\"");
        out.append(l.as_str());
        out.append("\"</option>\n");
        proof {
            lemma_concat_map_step(options@, i as int, f);
            assert(out@ =~= before + f(options@[i as int]));
        }
        i = i + 1;
    }
    proof {
        lemma_concat_map_all(options@, f);
    }
    out.append("                </select>\n");
    assert(out@ =~= start + select_spec(name@, options@));
}

} // verus!
