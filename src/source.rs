use vstd::prelude::*;
use crate::function::{Declaration, FormalParameter};
use crate::text::spans_lines;
use crate::value::append_text;

verus! {

/// The parts joined with `sep` between each two.
pub open spec fn join(parts: Seq<Seq<char>>, sep: Seq<char>) -> Seq<char>
    decreases parts.len(),
{
    if parts.len() == 0 {
        Seq::empty()
    } else if parts.len() == 1 {
        parts[0]
    } else {
        join(parts.drop_last(), sep) + sep + parts.last()
    }
}

/// The texts of strings.
pub open spec fn texts(v: Seq<String>) -> Seq<Seq<char>> {
    v.map_values(|s: String| s@)
}

/// How a formal parameter reads: its identifier, or the identifiers of its
/// pattern joined by commas within braces.
pub open spec fn param_text(p: FormalParameter) -> Seq<char> {
    match p.declaration {
        Declaration::Identifier { ident } => ident@,
        Declaration::Pattern { idents } => "{"@ + join(texts(idents@), ","@) + "}"@,
    }
}

/// How a parameter list reads: the parameters joined by commas.
pub open spec fn params_text(params: Seq<FormalParameter>) -> Seq<char> {
    join(params.map_values(|p: FormalParameter| param_text(p)), ","@)
}

/// The source of an interpreted function named `name`: on several lines
/// where its body spans lines, else on one line with the body trimmed.
pub open spec fn ordinary_source(
    name: Seq<char>,
    params: Seq<FormalParameter>,
    body: Seq<char>,
    body_trimmed: Seq<char>,
) -> Seq<char> {
    if spans_lines(body) {
        name + "("@ + params_text(params) + ") {\n"@ + body + "}"@
    } else {
        name + "("@ + params_text(params) + ") {"@ + body_trimmed + "}"@
    }
}

/// The source of a native routine or native closure named `name`.
pub open spec fn native_source(name: Seq<char>) -> Seq<char> {
    "function "@ + name + "() {\n  [native code]\n}"@
}

/// Whether `c` has the Unicode `White_Space` property, which is what
/// `char::is_whitespace` tests.
pub open spec fn is_white_space(c: char) -> bool {
    ||| '\u{9}' <= c <= '\u{d}'
    ||| c == ' '
    ||| c == '\u{85}'
    ||| c == '\u{a0}'
    ||| c == '\u{1680}'
    ||| '\u{2000}' <= c <= '\u{200a}'
    ||| c == '\u{2028}'
    ||| c == '\u{2029}'
    ||| c == '\u{202f}'
    ||| c == '\u{205f}'
    ||| c == '\u{3000}'
}

/// The text without its leading whitespace.
pub open spec fn trim_start(s: Seq<char>) -> Seq<char>
    decreases s.len(),
{
    if s.len() > 0 && is_white_space(s[0]) {
        trim_start(s.drop_first())
    } else {
        s
    }
}

/// The text without its trailing whitespace.
pub open spec fn trim_end(s: Seq<char>) -> Seq<char>
    decreases s.len(),
{
    if s.len() > 0 && is_white_space(s.last()) {
        trim_end(s.drop_last())
    } else {
        s
    }
}

/// The text without leading and trailing whitespace, as `str::trim` gives it.
pub open spec fn trimmed(s: Seq<char>) -> Seq<char> {
    trim_end(trim_start(s))
}

/// Tells whether `c` has the Unicode `White_Space` property.
pub fn white_space(c: char) -> (r: bool)
    ensures
        r == is_white_space(c),
{
    ('\u{9}' <= c && c <= '\u{d}') || c == ' ' || c == '\u{85}' || c == '\u{a0}' || c == '\u{1680}'
        || ('\u{2000}' <= c && c <= '\u{200a}') || c == '\u{2028}' || c == '\u{2029}' || c
        == '\u{202f}' || c == '\u{205f}' || c == '\u{3000}'
}

/// The text without leading and trailing whitespace.
pub fn trim(s: &str) -> (r: String)
    ensures
        r@ == trimmed(s@),
{
    let n = s.unicode_len();
    let mut i: usize = 0;
    assert(s@.subrange(0, n as int) =~= s@);
    while i < n && white_space(s.get_char(i))
        invariant
            n == s@.len(),
            i <= n,
            trim_start(s@) == trim_start(s@.subrange(i as int, n as int)),
        decreases n - i,
    {
        assert(s@.subrange(i as int, n as int).drop_first() =~= s@.subrange(i + 1, n as int));
        i = i + 1;
    }
    assert(trim_start(s@) == s@.subrange(i as int, n as int));
    let mut j: usize = n;
    while j > i && white_space(s.get_char(j - 1))
        invariant
            n == s@.len(),
            i <= j <= n,
            trimmed(s@) == trim_end(s@.subrange(i as int, j as int)),
        decreases j,
    {
        assert(s@.subrange(i as int, j as int).drop_last() =~= s@.subrange(i as int, j - 1));
        j = j - 1;
    }
    let t = s.substring_char(i, j);
    let mut r = String::new();
    append_text(&mut r, t);
    assert(r@ =~= trimmed(s@));
    r
}

proof fn lemma_join_step(parts: Seq<Seq<char>>, sep: Seq<char>, i: int)
    requires
        1 <= i < parts.len(),
    ensures
        join(parts.subrange(0, i + 1), sep) == join(parts.subrange(0, i), sep) + sep + parts[i],
{
    assert(parts.subrange(0, i + 1).drop_last() =~= parts.subrange(0, i));
}

/// Appends the identifiers joined by commas.
fn append_joined(s: &mut String, idents: &Vec<String>)
    ensures
        final(s)@ == old(s)@ + join(texts(idents@), ","@),
{
    proof {
        reveal_strlit(",");
    }
    let ghost start = s@;
    let ghost parts = texts(idents@);
    let mut i: usize = 0;
    while i < idents.len()
        invariant
            i <= idents@.len(),
            parts == texts(idents@),
            s@ == start + join(parts.subrange(0, i as int), ","@),
        decreases idents@.len() - i,
    {
        if i > 0 {
            append_text(s, ",");
            proof {
                lemma_join_step(parts, ","@, i as int);
            }
        } else {
            assert(parts.subrange(0, 1) =~= seq![parts[0]]);
        }
        append_text(s, idents[i].as_str());
        i = i + 1;
        assert(s@ =~= start + join(parts.subrange(0, i as int), ","@));
    }
    assert(parts.subrange(0, idents@.len() as int) =~= parts);
}

/// Appends how the parameter reads.
fn append_param(s: &mut String, p: &FormalParameter)
    ensures
        final(s)@ == old(s)@ + param_text(*p),
{
    proof {
        reveal_strlit("{");
        reveal_strlit("}");
    }
    match &p.declaration {
        Declaration::Identifier { ident } => append_text(s, ident.as_str()),
        Declaration::Pattern { idents } => {
            append_text(s, "{");
            append_joined(s, idents);
            append_text(s, "}");
            assert(final(s)@ =~= old(s)@ + param_text(*p));
        },
    }
}

/// Appends how the parameter list reads.
fn append_params(s: &mut String, params: &[FormalParameter])
    ensures
        final(s)@ == old(s)@ + params_text(params@),
{
    proof {
        reveal_strlit(",");
    }
    let ghost start = s@;
    let ghost parts = params@.map_values(|p: FormalParameter| param_text(p));
    let mut i: usize = 0;
    while i < params.len()
        invariant
            i <= params@.len(),
            parts == params@.map_values(|p: FormalParameter| param_text(p)),
            s@ == start + join(parts.subrange(0, i as int), ","@),
        decreases params@.len() - i,
    {
        if i > 0 {
            append_text(s, ",");
            proof {
                lemma_join_step(parts, ","@, i as int);
            }
        } else {
            assert(parts.subrange(0, 1) =~= seq![parts[0]]);
        }
        append_param(s, &params[i]);
        i = i + 1;
        assert(s@ =~= start + join(parts.subrange(0, i as int), ","@));
    }
    assert(parts.subrange(0, params@.len() as int) =~= parts);
}

/// Renders the source of an interpreted function from its name, its
/// parameters, its body and its body trimmed.
pub fn render_ordinary(name: &str, params: &[FormalParameter], body: &str, body_trimmed: &str) -> (r: String)
    ensures
        r@ == ordinary_source(name@, params@, body@, body_trimmed@),
{
    proof {
        reveal_strlit("(");
        reveal_strlit(") {\n");
        reveal_strlit(") {");
        reveal_strlit("}");
    }
    let mut s = String::new();
    append_text(&mut s, name);
    append_text(&mut s, "(");
    append_params(&mut s, params);
    if crate::text::is_multiline(body) {
        append_text(&mut s, ") {\n");
        append_text(&mut s, body);
    } else {
        append_text(&mut s, ") {");
        append_text(&mut s, body_trimmed);
    }
    append_text(&mut s, "}");
    assert(s@ =~= ordinary_source(name@, params@, body@, body_trimmed@));
    s
}

/// Renders the source of a native routine or native closure.
pub fn render_native(name: &str) -> (r: String)
    ensures
        r@ == native_source(name@),
{
    proof {
        reveal_strlit("function ");
        reveal_strlit("() {\n  [native code]\n}");
    }
    let mut s = String::new();
    append_text(&mut s, "function ");
    append_text(&mut s, name);
    append_text(&mut s, "() {\n  [native code]\n}");
    assert(s@ =~= native_source(name@));
    s
}

} // verus!
