//! macOS source-build readiness: the Command Line Tools and OpenSSL probes' outcomes, the
//! build flags, and the Command Line Tools update label.
use vstd::prelude::*;

use crate::context::{join_path, join_path_str, FsSnapshot};
use crate::strings::{
    cat, cat3, contains_seq, contains_str, join, join_strings, lines, lower_seq, lower_str,
    nonempty, owned, split_char, split_on, str_eq, strip_prefix_or_self, strip_prefix_str,
    text_lines, text_lines_of, trim, trim_start_char, trim_str,
};

verus! {

broadcast use vstd::string::group_string_axioms;

/// What the macOS toolchain probe found.
pub struct MacosToolchainState {
    pub clt_path: Option<String>,
    pub clt_ok: bool,
    pub clt_detail: String,
    pub xcodebuild_version: Option<String>,
    pub openssl_prefix: Option<String>,
    pub openssl_detail: String,
    pub brew_available: bool,
}

/// Adds each item not yet in the list, in order.
pub open spec fn add_missing(parts: Seq<Seq<char>>, additions: Seq<Seq<char>>) -> Seq<Seq<char>>
    decreases additions.len(),
{
    if additions.len() == 0 {
        parts
    } else {
        let p = add_missing(parts, additions.drop_last());
        if p.contains(additions.last()) {
            p
        } else {
            p.push(additions.last())
        }
    }
}

fn add_missing_exec(parts: &mut Vec<String>, additions: &Vec<String>)
    ensures
        lines(final(parts)@) == add_missing(lines(old(parts)@), lines(additions@)),
{
    let ghost start = lines(parts@);
    let mut i: usize = 0;
    while i < additions.len()
        invariant
            i <= additions@.len(),
            lines(parts@) == add_missing(start, lines(additions@).take(i as int)),
        decreases additions.len() - i,
    {
        assert(lines(additions@).take(i + 1).drop_last() =~= lines(additions@).take(i as int));
        assert(lines(additions@).take(i + 1).last() == additions@[i as int]@);
        let mut present = false;
        let mut k: usize = 0;
        while k < parts.len()
            invariant
                k <= parts@.len(),
                i < additions@.len(),
                present == exists|j: int| 0 <= j < k && lines(parts@)[j] == additions@[i as int]@,
            decreases parts.len() - k,
        {
            assert(lines(parts@)[k as int] == parts@[k as int]@);
            if str_eq(parts[k].as_str(), additions[i].as_str()) {
                present = true;
            }
            k = k + 1;
        }
        if !present {
            let ghost before = lines(parts@);
            parts.push(additions[i].clone());
            assert(lines(parts@) =~= before.push(additions@[i as int]@));
        }
        i = i + 1;
    }
    assert(lines(additions@).take(additions@.len() as int) =~= lines(additions@));
}

/// The non-blank existing value (trimmed) and then each new flag, joined with spaces.
pub open spec fn merged_flags(existing: Option<Seq<char>>, additions: Seq<Seq<char>>) -> Seq<char> {
    let start = match existing {
        Some(e) => if trim(e).len() > 0 { seq![trim(e)] } else { seq![] },
        None => seq![],
    };
    join(add_missing(start, additions), " "@)
}

/// Merges flags into an existing flags value.
pub fn merge_env_flags(existing: Option<&str>, additions: &Vec<String>) -> (r: String)
    ensures
        r@ == merged_flags(match existing {
            Some(e) => Some(e@),
            None => None,
        }, lines(additions@)),
{
    let mut parts: Vec<String> = Vec::new();
    match existing {
        Some(e) => {
            let t = trim_str(e);
            if !t.as_str().is_empty() {
                parts.push(t);
            }
        },
        None => {},
    }
    proof {
        match existing {
            Some(e) => {
                if trim(e@).len() > 0 {
                    assert(lines(parts@) =~= seq![trim(e@)]);
                } else {
                    assert(lines(parts@) =~= Seq::<Seq<char>>::empty());
                }
            },
            None => {
                assert(lines(parts@) =~= Seq::<Seq<char>>::empty());
            },
        }
    }
    add_missing_exec(&mut parts, additions);
    join_strings(&parts, " ")
}

/// The non-empty entries of the non-blank existing list and then each new entry, joined
/// with `:`.
pub open spec fn merged_paths(existing: Option<Seq<char>>, additions: Seq<Seq<char>>) -> Seq<char> {
    let start = match existing {
        Some(e) => if trim(e).len() > 0 { nonempty(split_char(trim(e), ':')) } else { seq![] },
        None => seq![],
    };
    join(add_missing(start, additions), ":"@)
}

/// Merges directories into an existing `:`-separated list.
pub fn merge_path_list(existing: Option<&str>, additions: &Vec<String>) -> (r: String)
    ensures
        r@ == merged_paths(match existing {
            Some(e) => Some(e@),
            None => None,
        }, lines(additions@)),
{
    let mut parts: Vec<String> = Vec::new();
    let ghost mut start: Seq<Seq<char>> = seq![];
    match existing {
        Some(e) => {
            let t = trim_str(e);
            if !t.as_str().is_empty() {
                let pieces = split_on(t.as_str(), ':');
                let mut i: usize = 0;
                while i < pieces.len()
                    invariant
                        i <= pieces@.len(),
                        lines(parts@) == nonempty(lines(pieces@).take(i as int)),
                    decreases pieces.len() - i,
                {
                    assert(lines(pieces@).take(i + 1).drop_last() =~= lines(pieces@).take(i as int));
                    assert(lines(pieces@).take(i + 1).last() == pieces@[i as int]@);
                    if !pieces[i].as_str().is_empty() {
                        let ghost before = lines(parts@);
                        parts.push(pieces[i].clone());
                        assert(lines(parts@) =~= before.push(pieces@[i as int]@));
                    }
                    i = i + 1;
                }
                assert(lines(pieces@).take(pieces@.len() as int) =~= lines(pieces@));
            }
        },
        None => {},
    }
    proof {
        match existing {
            Some(e) => {
                if trim(e@).len() == 0 {
                    assert(lines(parts@) =~= Seq::<Seq<char>>::empty());
                }
            },
            None => {
                assert(lines(parts@) =~= Seq::<Seq<char>>::empty());
            },
        }
    }
    add_missing_exec(&mut parts, additions);
    join_strings(&parts, ":")
}

/// The OpenSSL prefixes looked in after Homebrew's own answers.
pub open spec fn openssl_fallbacks() -> Seq<Seq<char>> {
    seq!["/opt/homebrew/opt/openssl@3"@, "/opt/homebrew/opt/openssl"@, "/usr/local/opt/openssl@3"@, "/usr/local/opt/openssl"@]
}

/// The first prefix holding the OpenSSL headers.
pub open spec fn first_openssl(fs: FsSnapshot, candidates: Seq<Seq<char>>) -> Option<Seq<char>>
    decreases candidates.len(),
{
    if candidates.len() == 0 {
        None
    } else if fs.has_file(join_path(candidates[0], "include/openssl/ssl.h"@)) {
        Some(candidates[0])
    } else {
        first_openssl(fs, candidates.drop_first())
    }
}

/// The OpenSSL prefix found and its detail line, for Homebrew's answers (used when Homebrew is
/// there) followed by the usual locations.
pub open spec fn openssl_probe(brew_prefixes: Seq<Seq<char>>, brew_available: bool, fs: FsSnapshot) -> (Option<Seq<char>>, Seq<char>) {
    let cands = (if brew_available { brew_prefixes } else { seq![] }) + openssl_fallbacks();
    match first_openssl(fs, cands) {
        Some(p) => (Some(p), "OpenSSL headers available at "@ + p + " (required for TLS-capable CPython builds)"@),
        None => (None, if brew_available {
            "OpenSSL development headers were not found; install with `brew install openssl@3`"@
        } else {
            "OpenSSL development headers were not found and Homebrew is unavailable; install Homebrew then `brew install openssl@3`"@
        }),
    }
}

/// The OpenSSL probe: the first prefix with headers among Homebrew's answers (when Homebrew is
/// there) and the usual locations, with its detail line.
pub fn detect_openssl_prefix(brew_prefixes: &Vec<String>, brew_available: bool, fs: &FsSnapshot) -> (r: (Option<String>, String))
    ensures
        ({
            let cands = (if brew_available { lines(brew_prefixes@) } else { seq![] }) + openssl_fallbacks();
            match first_openssl(*fs, cands) {
                Some(p) => r.0 matches Some(q) && q@ == p && r.1@ == "OpenSSL headers available at "@ + p
                    + " (required for TLS-capable CPython builds)"@,
                None => r.0 is None && r.1@ == (if brew_available {
                    "OpenSSL development headers were not found; install with `brew install openssl@3`"@
                } else {
                    "OpenSSL development headers were not found and Homebrew is unavailable; install Homebrew then `brew install openssl@3`"@
                }),
            }
        }),
{
    let mut cands: Vec<String> = Vec::new();
    if brew_available {
        let mut i: usize = 0;
        while i < brew_prefixes.len()
            invariant
                i <= brew_prefixes@.len(),
                lines(cands@) == lines(brew_prefixes@).take(i as int),
            decreases brew_prefixes.len() - i,
        {
            let ghost before = lines(cands@);
            cands.push(brew_prefixes[i].clone());
            assert(lines(cands@) =~= before.push(brew_prefixes@[i as int]@));
            assert(lines(cands@) =~= lines(brew_prefixes@).take(i + 1));
            i = i + 1;
        }
        assert(lines(brew_prefixes@).take(brew_prefixes@.len() as int) =~= lines(brew_prefixes@));
    }
    let ghost head = lines(cands@);
    assert(head =~= (if brew_available { lines(brew_prefixes@) } else { seq![] }));
    cands.push(owned("/opt/homebrew/opt/openssl@3"));
    cands.push(owned("/opt/homebrew/opt/openssl"));
    cands.push(owned("/usr/local/opt/openssl@3"));
    cands.push(owned("/usr/local/opt/openssl"));
    assert(lines(cands@) =~= head + openssl_fallbacks());
    let mut i: usize = 0;
    assert(lines(cands@).skip(0) =~= lines(cands@));
    while i < cands.len()
        invariant
            i <= cands@.len(),
            lines(cands@) == (if brew_available { lines(brew_prefixes@) } else { seq![] }) + openssl_fallbacks(),
            first_openssl(*fs, lines(cands@)) == first_openssl(*fs, lines(cands@).skip(i as int)),
        decreases cands.len() - i,
    {
        assert(lines(cands@).skip(i as int)[0] == cands@[i as int]@);
        assert(lines(cands@).skip(i as int).drop_first() =~= lines(cands@).skip(i + 1));
        let header = join_path_str(cands[i].as_str(), "include/openssl/ssl.h");
        if fs.is_file(header.as_str()) {
            let p = cands[i].clone();
            let d = cat3("OpenSSL headers available at ", p.as_str(), " (required for TLS-capable CPython builds)");
            return (Some(p), d);
        }
        i = i + 1;
    }
    if brew_available {
        (None, owned("OpenSSL development headers were not found; install with `brew install openssl@3`"))
    } else {
        (None, owned("OpenSSL development headers were not found and Homebrew is unavailable; install Homebrew then `brew install openssl@3`"))
    }
}

/// A `softwareupdate --list` line as a label: trimmed, leading `*`s dropped and trimmed
/// again, and `Label:` dropped and trimmed when present.
pub open spec fn update_label(line: Seq<char>) -> Seq<char> {
    let t = trim(trim_start_char(trim(line), '*'));
    if t.len() >= 6 && t.take(6) == "Label:"@ {
        trim(t.skip(6))
    } else {
        t
    }
}

/// The first label that mentions Command Line Tools (any case).
pub open spec fn clt_label(ls: Seq<Seq<char>>) -> Option<Seq<char>>
    decreases ls.len(),
{
    if ls.len() == 0 {
        None
    } else if contains_seq(lower_seq(update_label(ls[0])), "command line tools"@) {
        Some(update_label(ls[0]))
    } else {
        clt_label(ls.drop_first())
    }
}

fn update_label_of(line: &str) -> (r: String)
    ensures
        r@ == update_label(line@),
{
    let t = trim_str(line);
    let v = crate::strings::chars_of(t.as_str());
    let mut a: usize = 0;
    assert(v@.skip(0) =~= v@);
    while a < v.len() && v[a] == '*'
        invariant
            a <= v@.len(),
            trim_start_char(v@, '*') == trim_start_char(v@.skip(a as int), '*'),
        decreases v.len() - a,
    {
        assert(v@.skip(a as int).drop_first() =~= v@.skip(a + 1));
        a = a + 1;
    }
    assert(trim_start_char(v@.skip(a as int), '*') == v@.skip(a as int));
    let rest = crate::strings::string_from(&v, a, v.len());
    assert(rest@ =~= v@.skip(a as int));
    let t2 = trim_str(rest.as_str());
    proof {
        reveal_strlit("Label:");
    }
    if crate::strings::starts_with_str(t2.as_str(), "Label:") {
        let s = strip_prefix_str(t2.as_str(), "Label:");
        trim_str(s.as_str())
    } else {
        t2
    }
}

/// The Command Line Tools label in `softwareupdate --list` output (stdout, a newline, stderr).
pub fn find_clt_softwareupdate_label(output: &str) -> (r: Option<String>)
    ensures
        match r {
            Some(l) => clt_label(text_lines(output@)) == Some(l@),
            None => clt_label(text_lines(output@)) is None,
        },
{
    let ls = text_lines_of(output);
    let mut i: usize = 0;
    assert(lines(ls@).skip(0) =~= lines(ls@));
    while i < ls.len()
        invariant
            i <= ls@.len(),
            lines(ls@) == text_lines(output@),
            clt_label(text_lines(output@)) == clt_label(lines(ls@).skip(i as int)),
        decreases ls.len() - i,
    {
        assert(lines(ls@).skip(i as int)[0] == ls@[i as int]@);
        assert(lines(ls@).skip(i as int).drop_first() =~= lines(ls@).skip(i + 1));
        let label = update_label_of(ls[i].as_str());
        let low = lower_str(label.as_str());
        if contains_str(low.as_str(), "command line tools") {
            return Some(label);
        }
        i = i + 1;
    }
    None
}

} // verus!
