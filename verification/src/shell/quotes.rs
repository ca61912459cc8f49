//! Quoting of values embedded in emitted shell code.
use vstd::prelude::*;

use crate::strings::{cat3, is_ws, owned, replace_char, replace_char_str};

verus! {

broadcast use vstd::string::group_string_axioms;

/// PowerShell single-quoted text: `'` doubled.
pub open spec fn ps_single(v: Seq<char>) -> Seq<char> {
    replace_char(v, '\'', "''"@)
}

/// PowerShell double-quoted text: backtick doubled, then `"` escaped with a backtick.
pub open spec fn ps_double(v: Seq<char>) -> Seq<char> {
    replace_char(replace_char(v, '`', "``"@), '"', "`\""@)
}

/// POSIX single-quoted text: `'` closed, escaped and reopened.
pub open spec fn sh_single(v: Seq<char>) -> Seq<char> {
    replace_char(v, '\'', "'\\''"@)
}

/// fish single-quoted text: `'` escaped with a backslash.
pub open spec fn fish_single(v: Seq<char>) -> Seq<char> {
    replace_char(v, '\'', "\\'"@)
}

/// A character that forces CMD quoting.
pub open spec fn cmd_special(c: char) -> bool {
    is_ws(c) || c == '"' || c == '&' || c == '|' || c == '<' || c == '>' || c == '^'
}

/// A CMD argument: left alone when plain, else wrapped in `"` with `"` doubled.
pub open spec fn cmd_quoted(v: Seq<char>) -> Seq<char> {
    if v.len() == 0 || exists|i: int| 0 <= i < v.len() && cmd_special(#[trigger] v[i]) {
        "\""@ + replace_char(v, '"', "\"\""@) + "\""@
    } else {
        v
    }
}

pub fn ps_single_quote(value: &str) -> (r: String)
    ensures
        r@ == ps_single(value@),
{
    replace_char_str(value, '\'', "''")
}

pub fn ps_double_quote(value: &str) -> (r: String)
    ensures
        r@ == ps_double(value@),
{
    let a = replace_char_str(value, '`', "``");
    replace_char_str(a.as_str(), '"', "`\"")
}

pub fn sh_single_quote(value: &str) -> (r: String)
    ensures
        r@ == sh_single(value@),
{
    replace_char_str(value, '\'', "'\\''")
}

pub fn fish_single_quote(value: &str) -> (r: String)
    ensures
        r@ == fish_single(value@),
{
    replace_char_str(value, '\'', "\\'")
}

pub fn cmd_quote(value: &str) -> (r: String)
    ensures
        r@ == cmd_quoted(value@),
{
    let mut special = false;
    for c in it: value.chars()
        invariant
            it.seq() == value@,
            special == exists|i: int| 0 <= i < it.index() && cmd_special(#[trigger] value@[i]),
    {
        if crate::strings::is_ws_char(c) || c == '"' || c == '&' || c == '|' || c == '<' || c
            == '>' || c == '^' {
            special = true;
        }
    }
    let empty = crate::strings::chars_of(value).len() == 0;
    if empty || special {
        let inner = replace_char_str(value, '"', "\"\"");
        cat3("\"", inner.as_str(), "\"")
    } else {
        owned(value)
    }
}

/// `p` in front of a read text; nothing when the read failed.
pub open spec fn opt_prepend(p: Seq<char>, o: Option<Seq<char>>) -> Option<Seq<char>> {
    match o {
        Some(r) => Some(p + r),
        None => None,
    }
}

/// What PowerShell reads from the inside of a single-quoted string: `''` is one quote, and a
/// lone quote would end the string early (`None`).
pub open spec fn ps_single_read(s: Seq<char>) -> Option<Seq<char>>
    decreases s.len(),
{
    if s.len() == 0 {
        Some(seq![])
    } else if s[0] == '\'' {
        if s.len() >= 2 && s[1] == '\'' {
            opt_prepend(seq!['\''], ps_single_read(s.skip(2)))
        } else {
            None
        }
    } else {
        opt_prepend(seq![s[0]], ps_single_read(s.drop_first()))
    }
}

/// What a POSIX shell reads from a word made of single-quoted parts and backslash-escaped
/// characters (`quoted`: inside single quotes); `None` when a quote is left open or anything
/// else stands outside the quotes.
pub open spec fn sh_word_read(s: Seq<char>, quoted: bool) -> Option<Seq<char>>
    decreases s.len(),
{
    if s.len() == 0 {
        if quoted {
            None
        } else {
            Some(seq![])
        }
    } else if quoted {
        if s[0] == '\'' {
            sh_word_read(s.drop_first(), false)
        } else {
            opt_prepend(seq![s[0]], sh_word_read(s.drop_first(), true))
        }
    } else if s[0] == '\'' {
        sh_word_read(s.drop_first(), true)
    } else if s[0] == '\\' && s.len() >= 2 {
        opt_prepend(seq![s[1]], sh_word_read(s.skip(2), false))
    } else {
        None
    }
}

/// What fish reads from a single-quoted word (`quoted`: inside the quotes): there `\'` is a
/// quote and `\\` a backslash, any other character stands for itself, and a quote closes the
/// word, after which nothing may follow; `None` when the quote is left open.
pub open spec fn fish_word_read(s: Seq<char>, quoted: bool) -> Option<Seq<char>>
    decreases s.len(),
{
    if s.len() == 0 {
        if quoted {
            None
        } else {
            Some(seq![])
        }
    } else if !quoted {
        if s[0] == '\'' {
            fish_word_read(s.drop_first(), true)
        } else {
            None
        }
    } else if s[0] == '\\' && s.len() >= 2 && (s[1] == '\'' || s[1] == '\\') {
        opt_prepend(seq![s[1]], fish_word_read(s.skip(2), true))
    } else if s[0] == '\'' {
        if s.len() == 1 {
            Some(seq![])
        } else {
            None
        }
    } else {
        opt_prepend(seq![s[0]], fish_word_read(s.drop_first(), true))
    }
}

proof fn lemma_replace_cons(c: char, rest: Seq<char>, from: char, to: Seq<char>)
    ensures
        replace_char(seq![c] + rest, from, to) == (if c == from { to } else { seq![c] }) + replace_char(rest, from, to),
    decreases rest.len(),
{
    let s = seq![c] + rest;
    let f = if c == from { to } else { seq![c] };
    if rest.len() == 0 {
        assert(s.drop_last() =~= Seq::<char>::empty());
        assert(s.last() == c);
        assert(replace_char(s, from, to) == replace_char(Seq::<char>::empty(), from, to) + f);
        assert(Seq::<char>::empty() + f =~= f);
        assert(f + Seq::<char>::empty() =~= f);
    } else {
        lemma_replace_cons(c, rest.drop_last(), from, to);
        assert(s.drop_last() =~= seq![c] + rest.drop_last());
        assert(s.last() == rest.last());
        let g = if rest.last() == from { to } else { seq![rest.last()] };
        assert(replace_char(s, from, to) == replace_char(seq![c] + rest.drop_last(), from, to) + g);
        assert(f + replace_char(rest.drop_last(), from, to) + g =~= f + (replace_char(rest.drop_last(), from, to) + g));
    }
}

/// A value quoted for a PowerShell single-quoted string reads back as the value.
pub proof fn law_ps_single_reads_back(v: Seq<char>)
    ensures
        ps_single_read(ps_single(v)) == Some(v),
    decreases v.len(),
{
    reveal_strlit("''");
    if v.len() > 0 {
        let t = v.drop_first();
        assert(v =~= seq![v[0]] + t);
        lemma_replace_cons(v[0], t, '\'', "''"@);
        law_ps_single_reads_back(t);
        let q = ps_single(v);
        if v[0] == '\'' {
            assert(q == "''"@ + ps_single(t));
            assert(q.skip(2) =~= ps_single(t));
            assert(q[0] == '\'' && q[1] == '\'');
            assert(seq!['\''] + t =~= v);
        } else {
            assert(q == seq![v[0]] + ps_single(t));
            assert(q.drop_first() =~= ps_single(t));
            assert(seq![v[0]] + t =~= v);
        }
    } else {
        assert(ps_single(v) =~= Seq::<char>::empty());
    }
}

proof fn lemma_sh_single_inside(v: Seq<char>, rest: Seq<char>)
    ensures
        sh_word_read(sh_single(v) + rest, true) == opt_prepend(v, sh_word_read(rest, true)),
    decreases v.len(),
{
    reveal_strlit("'\\''");
    reveal_strlit("\\''");
    reveal_strlit("'");
    if v.len() == 0 {
        assert(sh_single(v) =~= Seq::<char>::empty());
        assert(sh_single(v) + rest =~= rest);
        match sh_word_read(rest, true) {
            Some(r) => assert(v + r =~= r),
            None => {},
        }
    } else {
        let t = v.drop_first();
        assert(v =~= seq![v[0]] + t);
        lemma_replace_cons(v[0], t, '\'', "'\\''"@);
        lemma_sh_single_inside(t, rest);
        let x = sh_single(t) + rest;
        if v[0] == '\'' {
            let w = "'\\''"@ + x;
            assert(sh_single(v) + rest =~= w);
            assert(w[0] == '\'' && w[1] == '\\' && w[2] == '\'' && w[3] == '\'');
            assert(w.drop_first() =~= "\\''"@ + x);
            let w1 = w.drop_first();
            assert(w1[0] == '\\' && w1[1] == '\'' && w1.len() >= 2);
            assert(w1.skip(2) =~= "'"@ + x);
            let w2 = w1.skip(2);
            assert(w2[0] == '\'');
            assert(w2.drop_first() =~= x);
            assert(sh_word_read(w2, false) == sh_word_read(x, true));
            assert(sh_word_read(w1, false) == opt_prepend(seq!['\''], sh_word_read(w2, false)));
            assert(sh_word_read(w, true) == sh_word_read(w1, false));
        } else {
            let w = seq![v[0]] + x;
            assert(sh_single(v) + rest =~= w);
            assert(w.drop_first() =~= x);
        }
        match sh_word_read(rest, true) {
            Some(r) => assert(seq![v[0]] + (t + r) =~= v + r),
            None => {},
        }
    }
}

/// A value quoted for a POSIX shell single-quoted word reads back as the value.
pub proof fn law_sh_single_reads_back(v: Seq<char>)
    ensures
        sh_word_read("'"@ + sh_single(v) + "'"@, false) == Some(v),
{
    reveal_strlit("'");
    let w = "'"@ + sh_single(v) + "'"@;
    assert(w[0] == '\'');
    assert(w.drop_first() =~= sh_single(v) + "'"@);
    lemma_sh_single_inside(v, "'"@);
    assert("'"@.drop_first() =~= Seq::<char>::empty());
    assert(sh_word_read("'"@, true) == sh_word_read(Seq::<char>::empty(), false));
    assert(v + Seq::<char>::empty() =~= v);
}

proof fn lemma_fish_single_inside(v: Seq<char>, rest: Seq<char>)
    requires
        !v.contains('\\'),
    ensures
        fish_word_read(fish_single(v) + rest, true) == opt_prepend(v, fish_word_read(rest, true)),
    decreases v.len(),
{
    reveal_strlit("\\'");
    if v.len() == 0 {
        assert(fish_single(v) =~= Seq::<char>::empty());
        assert(fish_single(v) + rest =~= rest);
        match fish_word_read(rest, true) {
            Some(r) => assert(v + r =~= r),
            None => {},
        }
    } else {
        let t = v.drop_first();
        assert(v =~= seq![v[0]] + t);
        assert(v[0] != '\\');
        assert(!t.contains('\\')) by {
            if t.contains('\\') {
                let k = choose|k: int| 0 <= k < t.len() && t[k] == '\\';
                assert(v[k + 1] == '\\');
            }
        }
        lemma_replace_cons(v[0], t, '\'', "\\'"@);
        lemma_fish_single_inside(t, rest);
        let x = fish_single(t) + rest;
        if v[0] == '\'' {
            let w = "\\'"@ + x;
            assert(fish_single(v) + rest =~= w);
            assert(w[0] == '\\' && w[1] == '\'');
            assert(w.skip(2) =~= x);
        } else {
            let w = seq![v[0]] + x;
            assert(fish_single(v) + rest =~= w);
            assert(w.drop_first() =~= x);
        }
        match fish_word_read(rest, true) {
            Some(r) => assert(seq![v[0]] + (t + r) =~= v + r),
            None => {},
        }
    }
}

/// A value without backslashes, quoted for a fish single-quoted word, reads back as the
/// value.
pub proof fn law_fish_single_reads_back(v: Seq<char>)
    requires
        !v.contains('\\'),
    ensures
        fish_word_read("'"@ + fish_single(v) + "'"@, false) == Some(v),
{
    reveal_strlit("'");
    let w = "'"@ + fish_single(v) + "'"@;
    assert(w[0] == '\'');
    assert(w.drop_first() =~= fish_single(v) + "'"@);
    lemma_fish_single_inside(v, "'"@);
    assert(v + Seq::<char>::empty() =~= v);
}

} // verus!
