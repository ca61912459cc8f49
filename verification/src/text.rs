//! Text normalization for configuration files, environment values and shell profiles.
use vstd::prelude::*;

use crate::strings::{
    cat, chars_of, contains_seq, contains_str, ends_with, ends_with_str, occurs_at, owned, replace_char,
    replace_char_str, replace_seq, replace_str, starts_with, str_eq, strip_prefix_or_self, strip_prefix_str,
    trim, trim_end_char, trim_str,
};

verus! {

broadcast use vstd::string::group_string_axioms;

/// The text without a leading byte-order mark.
pub open spec fn without_bom(t: Seq<char>) -> Seq<char> {
    strip_prefix_or_self(t, "\u{FEFF}"@)
}

/// Drops a leading UTF-8 byte-order mark.
pub fn strip_utf8_bom(text: &str) -> (r: String)
    ensures
        r@ == without_bom(text@),
{
    proof {
        reveal_strlit("\u{FEFF}");
    }
    strip_prefix_str(text, "\u{FEFF}")
}

/// Trims whitespace, then any carriage returns left at the end.
pub fn trim_env_value(value: String) -> (r: String)
    ensures
        r@ == trim_end_char(trim(value@), '\r'),
{
    let t = trim_str(value.as_str());
    let v = crate::strings::chars_of(t.as_str());
    let mut n = v.len();
    assert(v@.take(v@.len() as int) =~= v@);
    while n > 0 && v[n - 1] == '\r'
        invariant
            n <= v@.len(),
            trim_end_char(v@, '\r') == trim_end_char(v@.take(n as int), '\r'),
        decreases n,
    {
        assert(v@.take(n as int).drop_last() =~= v@.take(n - 1));
        n = n - 1;
    }
    assert(trim_end_char(v@.take(n as int), '\r') == v@.take(n as int));
    let r = crate::strings::string_from(&v, 0, n);
    assert(r@ =~= v@.take(n as int));
    r
}

/// The line endings of a text: (CRLF endings, bare LF endings).
pub open spec fn eol_counts(text: Seq<char>) -> (nat, nat)
    decreases text.len(),
{
    if text.len() == 0 {
        (0, 0)
    } else {
        let (c, l) = eol_counts(text.drop_last());
        if text.last() == '\n' {
            if text.len() >= 2 && text[text.len() - 2] == '\r' {
                (c + 1, l)
            } else {
                (c, l + 1)
            }
        } else {
            (c, l)
        }
    }
}

/// The text primarily uses CRLF line endings: its CRLF endings outnumber its bare LF endings.
pub open spec fn crlf(text: Seq<char>) -> bool {
    eol_counts(text).0 > eol_counts(text).1
}

/// Whether `text` primarily uses CRLF line endings (more CRLF than bare LF endings).
pub fn uses_crlf(text: &str) -> (r: bool)
    ensures
        r == crlf(text@),
{
    let v = chars_of(text);
    let mut c: usize = 0;
    let mut l: usize = 0;
    let mut i: usize = 0;
    assert(v@.take(0) =~= Seq::<char>::empty());
    while i < v.len()
        invariant
            v@ == text@,
            i <= v@.len(),
            (c as nat, l as nat) == eol_counts(v@.take(i as int)),
            c + l <= i,
        decreases v.len() - i,
    {
        assert(v@.take(i + 1).drop_last() =~= v@.take(i as int));
        assert(v@.take(i + 1).last() == v@[i as int]);
        if v[i] == '\n' {
            if i >= 1 && v[i - 1] == '\r' {
                assert(v@.take(i + 1)[i - 1] == v@[i - 1]);
                c = c + 1;
            } else {
                proof {
                    if i >= 1 {
                        assert(v@.take(i + 1)[i - 1] == v@[i - 1]);
                    }
                }
                l = l + 1;
            }
        }
        i = i + 1;
    }
    assert(v@.take(v@.len() as int) =~= v@);
    c > l
}

/// The line ending to append with: CRLF for CRLF text, else LF.
pub open spec fn eol_for(text: Seq<char>) -> Seq<char> {
    if crlf(text) {
        "\r\n"@
    } else {
        "\n"@
    }
}

/// The line ending to use when appending to `text`.
pub fn line_ending_for(text: &str) -> (r: &'static str)
    ensures
        r@ == eol_for(text@),
{
    if uses_crlf(text) {
        "\r\n"
    } else {
        "\n"
    }
}

/// A block with every line ending made LF, then made `eol` when that is CRLF.
pub open spec fn normalized_block(block: Seq<char>, eol: Seq<char>) -> Seq<char> {
    let lf = replace_seq(block, "\r\n"@, "\n"@);
    if eol == "\r\n"@ {
        replace_char(lf, '\n', "\r\n"@)
    } else {
        lf
    }
}

/// Rewrites the line endings of `block` to `eol`.
pub fn normalize_block_eol(block: &str, eol: &str) -> (r: String)
    ensures
        r@ == normalized_block(block@, eol@),
        eol@ == "\r\n"@ ==> normalized_block(r@, eol@) == r@,
{
    proof {
        reveal_strlit("\r\n");
        law_normalize_block_eol(block@, eol@);
    }
    let lf = replace_str(block, "\r\n", "\n");
    if str_eq(eol, "\r\n") {
        replace_char_str(lf.as_str(), '\n', "\r\n")
    } else {
        lf
    }
}

proof fn lemma_rc_concat(a: Seq<char>, b: Seq<char>, from: char, to: Seq<char>)
    ensures
        replace_char(a + b, from, to) == replace_char(a, from, to) + replace_char(b, from, to),
    decreases b.len(),
{
    if b.len() == 0 {
        assert(a + b =~= a);
        assert(replace_char(a, from, to) + replace_char(b, from, to) =~= replace_char(a, from, to));
    } else {
        assert((a + b).drop_last() =~= a + b.drop_last());
        assert((a + b).last() == b.last());
        lemma_rc_concat(a, b.drop_last(), from, to);
        let piece = if b.last() == from { to } else { seq![b.last()] };
        assert(replace_char(a, from, to) + replace_char(b.drop_last(), from, to) + piece
            =~= replace_char(a, from, to) + (replace_char(b.drop_last(), from, to) + piece));
    }
}

proof fn lemma_rc_single(c: char, from: char, to: Seq<char>)
    ensures
        replace_char(seq![c], from, to) == (if c == from { to } else { seq![c] }),
{
    let one = seq![c];
    assert(one.len() == 1 && one.last() == c);
    assert(one.drop_last() =~= Seq::<char>::empty());
    assert(replace_char(Seq::<char>::empty(), from, to) == Seq::<char>::empty());
    let piece = if c == from { to } else { seq![c] };
    assert(Seq::<char>::empty() + piece =~= piece);
}

proof fn lemma_rc_without_from(p: Seq<char>, from: char, to: Seq<char>)
    requires
        forall|k: int| 0 <= k < p.len() ==> p[k] != from,
    ensures
        replace_char(p, from, to) == p,
    decreases p.len(),
{
    if p.len() > 0 {
        lemma_rc_without_from(p.drop_last(), from, to);
        assert(p.drop_last() + seq![p.last()] =~= p);
    }
}

/// In CRLF form every `\n` directly follows a `\r`.
proof fn lemma_rc_lf_after_cr(x: Seq<char>)
    ensures
        forall|k: int| 0 <= k < replace_char(x, '\n', "\r\n"@).len() && #[trigger] replace_char(x, '\n', "\r\n"@)[k] == '\n'
            ==> k >= 1 && replace_char(x, '\n', "\r\n"@)[k - 1] == '\r',
    decreases x.len(),
{
    reveal_strlit("\r\n");
    if x.len() > 0 {
        lemma_rc_lf_after_cr(x.drop_last());
        let r0 = replace_char(x.drop_last(), '\n', "\r\n"@);
        let r = replace_char(x, '\n', "\r\n"@);
        assert forall|k: int| 0 <= k < r.len() && #[trigger] r[k] == '\n' implies k >= 1 && r[k - 1] == '\r' by {
            if k < r0.len() {
                assert(r[k] == r0[k]);
                assert(r0[k] == '\n');
                assert(r[k - 1] == r0[k - 1]);
            } else if x.last() == '\n' {
                if k == r0.len() {
                    assert(r[k] == '\r');
                } else {
                    assert(r[k - 1] == '\r');
                }
            } else {
                assert(r[k] == x.last());
            }
        }
    }
}

/// Turning the CRLF form back with `\r\n` → `\n` gives the text it came from.
proof fn lemma_lf_of_crlf(x: Seq<char>)
    ensures
        replace_seq(replace_char(x, '\n', "\r\n"@), "\r\n"@, "\n"@) == x,
    decreases x.len(),
{
    reveal_strlit("\r\n");
    reveal_strlit("\n");
    let r = replace_char(x, '\n', "\r\n"@);
    if x.len() == 0 {
        assert(r =~= x);
    } else {
        let c = x[0];
        let rest = x.drop_first();
        let r1 = replace_char(rest, '\n', "\r\n"@);
        assert(seq![c] + rest =~= x);
        lemma_rc_concat(seq![c], rest, '\n', "\r\n"@);
        lemma_rc_single(c, '\n', "\r\n"@);
        lemma_lf_of_crlf(rest);
        if c == '\n' {
            assert(r =~= "\r\n"@ + r1);
            assert(starts_with(r, "\r\n"@)) by {
                assert(r.take(2) =~= "\r\n"@);
            }
            assert(r.skip(2) =~= r1);
            assert(replace_seq(r, "\r\n"@, "\n"@) == "\n"@ + replace_seq(r1, "\r\n"@, "\n"@));
            assert("\n"@ + rest =~= x);
        } else {
            assert(r =~= seq![c] + r1);
            assert(!starts_with(r, "\r\n"@)) by {
                if starts_with(r, "\r\n"@) {
                    assert(r.take(2)[0] == r[0]);
                    assert(r.take(2)[1] == r[1]);
                    assert(r[0] == c);
                    assert(c == '\r');
                    assert(r[1] == r1[0]);
                    assert(rest.len() > 0);
                    // The next character is never `\n`: an expanded `\n` starts with `\r`.
                    assert(seq![rest[0]] + rest.drop_first() =~= rest);
                    lemma_rc_concat(seq![rest[0]], rest.drop_first(), '\n', "\r\n"@);
                    lemma_rc_single(rest[0], '\n', "\r\n"@);
                    assert(r1[0] != '\n');
                }
            }
            assert(r.drop_first() =~= r1);
            assert(replace_seq(r, "\r\n"@, "\n"@) == seq![r[0]] + replace_seq(r1, "\r\n"@, "\n"@));
            assert(seq![c] + rest =~= x);
        }
    }
}

/// Normalizing a block to CRLF: every `\n` of the result follows a `\r`, turning its CRLF back
/// into LF gives the block's LF form, and normalizing it to CRLF again changes nothing. For any
/// other line ending the result is the LF form.
pub proof fn law_normalize_block_eol(block: Seq<char>, eol: Seq<char>)
    ensures
        ({
            let lf = replace_seq(block, "\r\n"@, "\n"@);
            let r = normalized_block(block, eol);
            if eol == "\r\n"@ {
                &&& forall|k: int| 0 <= k < r.len() && #[trigger] r[k] == '\n' ==> k >= 1 && r[k - 1] == '\r'
                &&& replace_seq(r, "\r\n"@, "\n"@) == lf
                &&& normalized_block(r, eol) == r
            } else {
                r == lf
            }
        }),
{
    let lf = replace_seq(block, "\r\n"@, "\n"@);
    if eol == "\r\n"@ {
        lemma_rc_lf_after_cr(lf);
        lemma_lf_of_crlf(lf);
    }
}

proof fn lemma_rs_without_cr(p: Seq<char>)
    requires
        forall|k: int| 0 <= k < p.len() ==> p[k] != '\r',
    ensures
        replace_seq(p, "\r\n"@, "\n"@) == p,
    decreases p.len(),
{
    reveal_strlit("\r\n");
    if p.len() > 0 {
        assert(!starts_with(p, "\r\n"@)) by {
            if starts_with(p, "\r\n"@) {
                assert(p.take(2)[0] == p[0]);
            }
        }
        lemma_rs_without_cr(p.drop_first());
        assert(seq![p[0]] + p.drop_first() =~= p);
    }
}

/// `\r\n` → `\n` works piece by piece where no `\r\n` straddles the cut.
proof fn lemma_rs_concat(a: Seq<char>, b: Seq<char>)
    requires
        a.len() == 0 || b.len() == 0 || !(a.last() == '\r' && b[0] == '\n'),
    ensures
        replace_seq(a + b, "\r\n"@, "\n"@) == replace_seq(a, "\r\n"@, "\n"@) + replace_seq(b, "\r\n"@, "\n"@),
    decreases a.len(),
{
    reveal_strlit("\r\n");
    reveal_strlit("\n");
    let p = "\r\n"@;
    let t = "\n"@;
    if a.len() == 0 {
        assert(a + b =~= b);
        assert(replace_seq(a, p, t) + replace_seq(b, p, t) =~= replace_seq(b, p, t));
    } else if b.len() == 0 {
        assert(a + b =~= a);
        assert(replace_seq(a, p, t) + replace_seq(b, p, t) =~= replace_seq(a, p, t));
    } else {
        let ab = a + b;
        if starts_with(ab, p) {
            assert(ab.take(2)[0] == '\r' && ab.take(2)[1] == '\n');
            assert(a.len() >= 2) by {
                if a.len() == 1 {
                    assert(ab[0] == a.last());
                    assert(ab[1] == b[0]);
                }
            }
            assert(a.take(2) =~= ab.take(2));
            assert(starts_with(a, p));
            assert(ab.skip(2) =~= a.skip(2) + b);
            lemma_rs_concat(a.skip(2), b);
            assert(t + (replace_seq(a.skip(2), p, t) + replace_seq(b, p, t))
                =~= (t + replace_seq(a.skip(2), p, t)) + replace_seq(b, p, t));
        } else {
            assert(!starts_with(a, p)) by {
                if starts_with(a, p) {
                    assert(ab.take(2) =~= a.take(2));
                }
            }
            assert(ab.drop_first() =~= a.drop_first() + b);
            assert(ab[0] == a[0]);
            if a.len() > 1 {
                assert(a.drop_first().last() == a.last());
            }
            lemma_rs_concat(a.drop_first(), b);
            assert(seq![a[0]] + (replace_seq(a.drop_first(), p, t) + replace_seq(b, p, t))
                =~= (seq![a[0]] + replace_seq(a.drop_first(), p, t)) + replace_seq(b, p, t));
        }
    }
}

/// A pattern without line-ending characters survives normalization of line endings.
proof fn lemma_normalized_keeps(s: Seq<char>, pat: Seq<char>, eol: Seq<char>)
    requires
        pat.len() > 0,
        forall|k: int| 0 <= k < pat.len() ==> pat[k] != '\r' && pat[k] != '\n',
        contains_seq(s, pat),
    ensures
        contains_seq(normalized_block(s, eol), pat),
{
    reveal_strlit("\r\n");
    reveal_strlit("\n");
    let i = choose|i: int| occurs_at(s, pat, i);
    let x = s.take(i);
    let y = s.skip(i + pat.len());
    assert(s.subrange(i, i + pat.len()) == pat);
    assert(x + (pat + y) =~= s);
    lemma_rs_without_cr(pat);
    lemma_rs_concat(pat, y);
    lemma_rs_concat(x, pat + y);
    let lx = replace_seq(x, "\r\n"@, "\n"@);
    let ly = replace_seq(y, "\r\n"@, "\n"@);
    let lf = replace_seq(s, "\r\n"@, "\n"@);
    assert(lf == lx + (pat + ly));
    if eol == "\r\n"@ {
        lemma_rc_concat(lx, pat + ly, '\n', "\r\n"@);
        lemma_rc_concat(pat, ly, '\n', "\r\n"@);
        lemma_rc_without_from(pat, '\n', "\r\n"@);
        let cx = replace_char(lx, '\n', "\r\n"@);
        let cy = replace_char(ly, '\n', "\r\n"@);
        let r = cx + (pat + cy);
        assert(r.subrange(cx.len() as int, cx.len() + pat.len() as int) =~= pat);
        assert(occurs_at(r, pat, cx.len() as int));
    } else {
        assert(lf.subrange(lx.len() as int, lx.len() + pat.len() as int) =~= pat);
        assert(occurs_at(lf, pat, lx.len() as int));
    }
}

/// A block that itself runs `pyenv init` marks the profile as configured once appended, so
/// appending it a second time leaves the result as it is.
pub proof fn law_append_text_block_idempotent(content: Seq<char>, block: Seq<char>)
    requires
        configured(block),
    ensures
        configured(appended(content, block)),
        appended(appended(content, block), block) == appended(content, block),
{
    reveal_strlit("pyenv init");
    if !configured(content) {
        let pat = "pyenv init"@;
        let eol = eol_for(content);
        let nb = normalized_block(block, eol);
        lemma_normalized_keeps(block, pat, eol);
        let j = choose|j: int| occurs_at(nb, pat, j);
        let head = if content.len() > 0 && !ends_with(content, "\n"@) && !ends_with(content, "\r\n"@) {
            content + eol
        } else {
            content
        };
        let body = head + nb;
        assert(body.subrange(head.len() + j, head.len() + j + pat.len()) =~= nb.subrange(j, j + pat.len()));
        assert(occurs_at(body, pat, head.len() + j));
        let tail = body + eol;
        assert(tail.subrange(head.len() + j, head.len() + j + pat.len()) =~= body.subrange(head.len() + j, head.len() + j + pat.len()));
        assert(occurs_at(tail, pat, head.len() + j));
    }
}


/// The marker that shows a profile is already set up.
pub open spec fn configured(content: Seq<char>) -> bool {
    contains_seq(content, "pyenv init"@)
}

/// `content` with `block` appended in its line-ending style: a line ending first when the
/// content does not end with one, and one after the block when it lacks it. Content that
/// already runs `pyenv init` is left as it is.
pub open spec fn appended(content: Seq<char>, block: Seq<char>) -> Seq<char> {
    if configured(content) {
        content
    } else {
        let eol = eol_for(content);
        let nb = normalized_block(block, eol);
        let head = if content.len() > 0 && !ends_with(content, "\n"@) && !ends_with(content, "\r\n"@) {
            content + eol
        } else {
            content
        };
        let body = head + nb;
        if ends_with(nb, eol) {
            body
        } else {
            body + eol
        }
    }
}

/// Appends `block` to `content` unless it is already configured.
pub fn append_text_block(content: String, block: &str) -> (r: String)
    ensures
        r@ == appended(content@, block@),
        configured(content@) ==> r@ == content@,
        configured(block@) ==> appended(r@, block@) == r@,
{
    proof {
        if configured(block@) {
            law_append_text_block_idempotent(content@, block@);
        }
    }
    if contains_str(content.as_str(), "pyenv init") {
        return content;
    }
    let eol = line_ending_for(content.as_str());
    let nb = normalize_block_eol(block, eol);
    let mut updated = content;
    if !updated.as_str().is_empty() && !ends_with_str(updated.as_str(), "\n") && !ends_with_str(
        updated.as_str(),
        "\r\n",
    ) {
        updated = cat(updated.as_str(), eol);
    }
    updated = cat(updated.as_str(), nb.as_str());
    if !ends_with_str(nb.as_str(), eol) {
        updated = cat(updated.as_str(), eol);
    }
    updated
}

} // verus!
