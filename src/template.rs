//! Rendering of a command's runtime-flag template against `top` and `pwd`.
use vstd::prelude::*;
use crate::text::{has_no_space, lemma_split_pair, split_on_space};

verus! {

/// Why a template could not be rendered.
#[derive(Debug, PartialEq, Eq)]
pub enum TemplateError {
    /// Unbalanced braces, an empty key, or a misplaced escape.
    Malformed,
    /// A placeholder named a variable that has no value.
    UnknownVariable(String),
    /// Writing the output failed.
    WriteFailed,
}

/// What leon's `Template::parse` followed by `Template::render` gives for a
/// template and a list of variables: the text on success, none on failure.
pub uninterp spec fn leon_rendering(template: Seq<char>, vars: Seq<(Seq<char>, Seq<char>)>) -> Option<Seq<char>>;

pub open spec fn pair_views(v: Seq<(String, String)>) -> Seq<(Seq<char>, Seq<char>)> {
    v.map_values(|p: (String, String)| (p.0@, p.1@))
}

/// The variables a command's template may name: `top` and `pwd`.
pub open spec fn context_vars(top: Seq<char>, pwd: Seq<char>) -> Seq<(Seq<char>, Seq<char>)> {
    seq![("top"@, top), ("pwd"@, pwd)]
}

/// The value of the first variable named `key`.
pub open spec fn lookup_var(vars: Seq<(Seq<char>, Seq<char>)>, key: Seq<char>) -> Option<Seq<char>>
    decreases vars.len(),
{
    if vars.len() == 0 {
        None
    } else if vars[0].0 == key {
        Some(vars[0].1)
    } else {
        lookup_var(vars.drop_first(), key)
    }
}

/// A character that may stand in a plain placeholder's name.
pub open spec fn is_key_char(c: char) -> bool {
    ('a' <= c && c <= 'z') || ('A' <= c && c <= 'Z') || ('0' <= c && c <= '9') || c == '_'
}

/// How many name characters `t` starts with.
pub open spec fn key_run(t: Seq<char>) -> nat
    decreases t.len(),
{
    if t.len() > 0 && is_key_char(t[0]) {
        1 + key_run(t.drop_first())
    } else {
        0
    }
}

/// The rendering of a template made only of text without braces or
/// backslashes and of placeholders `{name}` whose name is made of letters,
/// digits and `_` and has a value: each placeholder replaced by the value of
/// the first variable of its name. None for any other template.
pub open spec fn simple_rendering(t: Seq<char>, vars: Seq<(Seq<char>, Seq<char>)>) -> Option<Seq<char>>
    decreases t.len(),
{
    if t.len() == 0 {
        Some(Seq::empty())
    } else if t[0] == '{' {
        let n = key_run(t.drop_first()) as int;
        if n > 0 && n + 1 < t.len() && t[n + 1] == '}' {
            match (lookup_var(vars, t.subrange(1, n + 1)), simple_rendering(t.subrange(n + 2, t.len() as int), vars)) {
                (Some(v), Some(rest)) => Some(v + rest),
                _ => None,
            }
        } else {
            None
        }
    } else if t[0] == '}' || t[0] == '\\' {
        None
    } else {
        match simple_rendering(t.drop_first(), vars) {
            Some(rest) => Some(seq![t[0]] + rest),
            None => None,
        }
    }
}

/// Text that holds no brace and no backslash: nothing in it is markup.
pub open spec fn is_literal(t: Seq<char>) -> bool {
    forall|i: int| 0 <= i < t.len() ==> t[i] != '{' && t[i] != '}' && t[i] != '\\'
}

/// Relies on leon's `Template::parse` and `Template::render` on a list of
/// pairs: text up to the next `{`, `}` or `\` is a literal item, `{name}`
/// (a name without backslash, trimmed) stands for the value of the first
/// pair of that name, and text and values are written out in order.
#[verifier::external_body]
pub(crate) fn render_template(template: &str, vars: &Vec<(String, String)>) -> (r: Result<String, TemplateError>)
    ensures
        match r {
            Ok(s) => leon_rendering(template@, pair_views(vars@)) == Some(s@),
            Err(_) => leon_rendering(template@, pair_views(vars@)) is None,
        },
        simple_rendering(template@, pair_views(vars@)) matches Some(s) ==> r is Ok && r->Ok_0@ == s,
{
    match leon::Template::parse(template) {
        Ok(t) => match t.render(vars) {
            Ok(s) => Ok(s),
            Err(leon::RenderError::MissingKey(k)) => Err(TemplateError::UnknownVariable(k)),
            Err(leon::RenderError::Io(_)) => Err(TemplateError::WriteFailed),
        },
        Err(_) => Err(TemplateError::Malformed),
    }
}

/// Text without markup renders to itself, whatever the variables.
pub proof fn lemma_literal_renders(t: Seq<char>, vars: Seq<(Seq<char>, Seq<char>)>)
    requires
        is_literal(t),
    ensures
        simple_rendering(t, vars) == Some(t),
    decreases t.len(),
{
    if t.len() > 0 {
        lemma_literal_renders(t.drop_first(), vars);
        assert(seq![t[0]] + t.drop_first() =~= t);
    }
}

/// The template `{top} {pwd}` renders to the two directories joined by one
/// space; where neither holds a space, that splits into exactly the two
/// directories as flags.
pub proof fn law_top_pwd_flags(top: Seq<char>, pwd: Seq<char>)
    ensures
        simple_rendering("{top} {pwd}"@, context_vars(top, pwd)) == Some(top + seq![' '] + pwd),
        has_no_space(top) && has_no_space(pwd) ==> split_on_space(top + seq![' '] + pwd) == seq![top, pwd],
{
    reveal_strlit("{top} {pwd}");
    reveal_strlit("top");
    reveal_strlit("pwd");
    let vars = context_vars(top, pwd);
    let t = "{top} {pwd}"@;
    let p = seq!['{', 'p', 'w', 'd', '}'];
    let e = Seq::<char>::empty();
    assert(simple_rendering(e, vars) == Some(e));
    // `{pwd}`
    let k1 = seq!['p', 'w', 'd', '}'];
    assert(p.drop_first() =~= k1);
    assert(k1.drop_first() =~= seq!['w', 'd', '}']);
    assert(k1.drop_first().drop_first() =~= seq!['d', '}']);
    assert(k1.drop_first().drop_first().drop_first() =~= seq!['}']);
    assert(key_run(seq!['}']) == 0);
    assert(key_run(seq!['d', '}']) == 1);
    assert(key_run(seq!['w', 'd', '}']) == 2);
    assert(key_run(k1) == 3);
    assert(p.subrange(1, 4) =~= "pwd"@);
    assert(p.subrange(5, 5) =~= e);
    assert("top"@[0] == 't' && "pwd"@[0] == 'p');
    assert(vars.drop_first() =~= seq![("pwd"@, pwd)]);
    assert(lookup_var(vars.drop_first(), "pwd"@) == Some(pwd));
    assert(lookup_var(vars, "pwd"@) == Some(pwd));
    assert(simple_rendering(p, vars) == Some(pwd + e));
    assert(pwd + e =~= pwd);
    // ` {pwd}`
    let sp = seq![' '] + p;
    assert(sp.drop_first() =~= p);
    assert(simple_rendering(sp, vars) == Some(seq![' '] + pwd));
    // `{top} {pwd}`
    let k2 = t.drop_first();
    assert(k2 =~= seq!['t', 'o', 'p'] + (seq!['}'] + sp));
    assert(k2.drop_first() =~= seq!['o', 'p'] + (seq!['}'] + sp));
    assert(k2.drop_first().drop_first() =~= seq!['p'] + (seq!['}'] + sp));
    assert(k2.drop_first().drop_first().drop_first() =~= seq!['}'] + sp);
    assert(key_run(seq!['}'] + sp) == 0);
    assert(key_run(k2.drop_first().drop_first()) == 1);
    assert(key_run(k2.drop_first()) == 2);
    assert(key_run(k2) == 3);
    assert(t.subrange(1, 4) =~= "top"@);
    assert(t.subrange(5, 11) =~= sp);
    assert(lookup_var(vars, "top"@) == Some(top));
    assert(top + (seq![' '] + pwd) =~= top + seq![' '] + pwd);
    if has_no_space(top) && has_no_space(pwd) {
        lemma_split_pair(top, pwd);
    }
}

/// Renders `template` with the variables `top` and `pwd`, in that order.
/// Text without markup comes back unchanged, and plain placeholders are
/// replaced by their values.
pub fn render(template: &str, top: &str, pwd: &str) -> (r: Result<String, TemplateError>)
    ensures
        match r {
            Ok(s) => leon_rendering(template@, context_vars(top@, pwd@)) == Some(s@),
            Err(_) => leon_rendering(template@, context_vars(top@, pwd@)) is None,
        },
        simple_rendering(template@, context_vars(top@, pwd@)) matches Some(s) ==> r is Ok && r->Ok_0@ == s,
        is_literal(template@) ==> r is Ok && r->Ok_0@ == template@,
{
    let mut vars: Vec<(String, String)> = Vec::new();
    vars.push((String::from_str("top"), String::from_str(top)));
    vars.push((String::from_str("pwd"), String::from_str(pwd)));
    assert(pair_views(vars@) =~= context_vars(top@, pwd@));
    proof {
        if is_literal(template@) {
            lemma_literal_renders(template@, context_vars(top@, pwd@));
        }
    }
    render_template(template, &vars)
}

} // verus!
