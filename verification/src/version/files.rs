//! Version files: finding `.python-version` up the directory tree, reading and validating
//! their contents, and what writing them puts on disk.
use vstd::prelude::*;

use crate::context::{join_path, join_path_str, AppContext, FsSnapshot};
use crate::error::{error_text, PyenvError};
use crate::strings::{
    cat, chars_of, is_ws, join, join_strings, lemma_split_char_nonempty, lemma_split_join, lines, nonempty, split_char,
    split_on, split_ws, str_eq, string_from, strip_cr, text_lines, text_lines_of, trim, trim_end,
    trim_end_char, trim_start, trim_str, words, words_of,
};

verus! {

broadcast use vstd::string::group_string_axioms;

pub open spec fn local_file_name() -> Seq<char> {
    ".python-version"@
}

pub open spec fn global_file_name() -> Seq<char> {
    "version"@
}

/// The position of the last `/` in `s`, or -1.
pub open spec fn last_slash(s: Seq<char>) -> int
    decreases s.len(),
{
    if s.len() == 0 {
        -1
    } else if s.last() == '/' {
        s.len() - 1
    } else {
        last_slash(s.drop_last())
    }
}

/// `PathBuf::pop`: the path without its last component, or `None` at a root or when empty.
pub open spec fn parent(p: Seq<char>) -> Option<Seq<char>> {
    let q = trim_end_char(p, '/');
    if q.len() == 0 {
        None
    } else {
        let k = last_slash(q);
        if k < 0 {
            Some(Seq::<char>::empty())
        } else {
            let head = trim_end_char(q.take(k), '/');
            if head.len() == 0 {
                Some(seq!['/'])
            } else {
                Some(head)
            }
        }
    }
}

proof fn lemma_last_slash(s: Seq<char>)
    ensures
        -1 <= last_slash(s) < s.len(),
        last_slash(s) >= 0 ==> s[last_slash(s)] == '/',
        forall|j: int| last_slash(s) < j < s.len() ==> s[j] != '/',
    decreases s.len(),
{
    if s.len() > 0 && s.last() != '/' {
        lemma_last_slash(s.drop_last());
        assert forall|j: int| last_slash(s) < j < s.len() implies s[j] != '/' by {
            if j < s.len() - 1 {
                assert(s.drop_last()[j] == s[j]);
            }
        }
    }
}

proof fn lemma_trim_end_char_prefix(s: Seq<char>, c: char)
    ensures
        trim_end_char(s, c).len() <= s.len(),
        trim_end_char(s, c) == s.take(trim_end_char(s, c).len() as int),
        trim_end_char(s, c).len() == 0 || trim_end_char(s, c).last() != c,
    decreases s.len(),
{
    if s.len() > 0 && s.last() == c {
        lemma_trim_end_char_prefix(s.drop_last(), c);
        assert(s.drop_last().take(trim_end_char(s, c).len() as int) =~= s.take(
            trim_end_char(s, c).len() as int,
        ));
    } else {
        assert(s.take(s.len() as int) =~= s);
    }
}

/// A parent is strictly shorter than the path.
pub proof fn lemma_parent_shorter(p: Seq<char>)
    ensures
        parent(p) matches Some(q) ==> q.len() < p.len(),
{
    let q = trim_end_char(p, '/');
    lemma_trim_end_char_prefix(p, '/');
    if q.len() > 0 {
        lemma_last_slash(q);
        let k = last_slash(q);
        if k >= 0 {
            lemma_trim_end_char_prefix(q.take(k), '/');
            assert(q.last() != '/');
            assert(k < q.len() - 1);
        }
    }
}

/// `PathBuf::pop` on a text path.
pub fn parent_path(p: &str) -> (r: Option<String>)
    ensures
        match r {
            Some(q) => parent(p@) == Some(q@),
            None => parent(p@) is None,
        },
{
    let v = chars_of(p);
    let mut n = v.len();
    assert(v@.take(v@.len() as int) =~= v@);
    while n > 0 && v[n - 1] == '/'
        invariant
            n <= v@.len(),
            trim_end_char(v@, '/') == trim_end_char(v@.take(n as int), '/'),
        decreases n,
    {
        assert(v@.take(n as int).drop_last() =~= v@.take(n - 1));
        n = n - 1;
    }
    let ghost q = v@.take(n as int);
    assert(trim_end_char(q, '/') == q);
    if n == 0 {
        return None;
    }
    let mut k = n;
    assert(q.take(n as int) =~= q);
    while k > 0 && v[k - 1] != '/'
        invariant
            k <= n,
            n <= v@.len(),
            q == v@.take(n as int),
            last_slash(q) == last_slash(q.take(k as int)),
        decreases k,
    {
        assert(q.take(k as int).drop_last() =~= q.take(k - 1));
        k = k - 1;
    }
    if k == 0 {
        assert(q.take(0) =~= Seq::<char>::empty());
        return Some(String::new());
    }
    assert(q.take(k as int).last() == '/');
    assert(last_slash(q) == k - 1);
    let mut h = k - 1;
    assert(q.take(k - 1) =~= q.take(k - 1).take(h as int));
    while h > 0 && v[h - 1] == '/'
        invariant
            h <= k - 1,
            k <= n,
            n <= v@.len(),
            q == v@.take(n as int),
            trim_end_char(q.take(k - 1), '/') == trim_end_char(q.take(h as int), '/'),
        decreases h,
    {
        assert(q.take(h as int).drop_last() =~= q.take(h - 1));
        h = h - 1;
    }
    assert(trim_end_char(q.take(h as int), '/') == q.take(h as int));
    if h == 0 {
        assert(q.take(0) =~= Seq::<char>::empty());
        let mut root = String::new();
        crate::strings::push_char(&mut root, '/');
        Some(root)
    } else {
        assert(q.take(h as int) =~= v@.subrange(0, h as int));
        Some(string_from(&v, 0, h))
    }
}

/// The first `.python-version` file at `dir` or one of its ancestors.
pub open spec fn find_local(fs: FsSnapshot, dir: Seq<char>) -> Option<Seq<char>>
    decreases dir.len(),
{
    let candidate = join_path(dir, local_file_name());
    if fs.has_file(candidate) {
        Some(candidate)
    } else {
        match parent(dir) {
            Some(p) => if p.len() < dir.len() {
                find_local(fs, p)
            } else {
                None
            },
            None => None,
        }
    }
}

/// Looks for `.python-version` in `start_dir` and then each parent directory.
pub fn find_local_version_file(fs: &FsSnapshot, start_dir: &str) -> (r: Option<String>)
    ensures
        match r {
            Some(p) => find_local(*fs, start_dir@) == Some(p@),
            None => find_local(*fs, start_dir@) is None,
        },
{
    let mut current = owned_str(start_dir);
    loop
        invariant
            find_local(*fs, start_dir@) == find_local(*fs, current@),
        decreases current@.len(),
    {
        let candidate = join_path_str(current.as_str(), ".python-version");
        if fs.is_file(candidate.as_str()) {
            return Some(candidate);
        }
        proof {
            lemma_parent_shorter(current@);
        }
        match parent_path(current.as_str()) {
            Some(p) => {
                current = p;
            },
            None => {
                return None;
            },
        }
    }
}

fn owned_str(s: &str) -> (r: String)
    ensures
        r@ == s@,
{
    crate::strings::owned(s)
}

/// The version file that governs a directory: the nearest `.python-version`, else the
/// global `<root>/version`.
pub open spec fn version_file_for(ctx: AppContext, dir: Seq<char>) -> Seq<char> {
    match find_local(ctx.fs, dir) {
        Some(p) => p,
        None => join_path(ctx.root@, global_file_name()),
    }
}

/// The version file for `target_dir`, or for the working directory.
pub fn version_file_path(ctx: &AppContext, target_dir: Option<&str>) -> (r: String)
    ensures
        r@ == version_file_for(
            *ctx,
            match target_dir {
                Some(d) => d@,
                None => ctx.dir@,
            },
        ),
{
    let dir = match target_dir {
        Some(d) => d,
        None => ctx.dir.as_str(),
    };
    match find_local_version_file(&ctx.fs, dir) {
        Some(p) => p,
        None => join_path_str(ctx.root.as_str(), "version"),
    }
}

/// Depth reached walking the components, `None` once `..` climbs above the start.
pub open spec fn component_depth(parts: Seq<Seq<char>>) -> Option<nat>
    decreases parts.len(),
{
    if parts.len() == 0 {
        Some(0)
    } else {
        match component_depth(parts.drop_last()) {
            None => None,
            Some(d) => {
                let p = parts.last();
                if p.len() == 0 || p == "."@ {
                    Some(d)
                } else if p == ".."@ {
                    if d == 0 {
                        None
                    } else {
                        Some((d - 1) as nat)
                    }
                } else {
                    Some(d + 1)
                }
            },
        }
    }
}

/// A version that stays inside the versions tree: relative, and no `..` above its start.
pub open spec fn version_safe(v: Seq<char>) -> bool {
    !(v.len() > 0 && v[0] == '/') && component_depth(split_char(v, '/')) is Some
}

/// Whether a version from a version file is safe to use as a path under the versions tree.
pub fn is_version_safe(version: &str) -> (r: bool)
    ensures
        r == version_safe(version@),
{
    let v = chars_of(version);
    if v.len() > 0 && v[0] == '/' {
        return false;
    }
    let parts = split_on(version, '/');
    let mut depth: usize = 0;
    let mut i: usize = 0;
    while i < parts.len()
        invariant
            i <= parts@.len(),
            lines(parts@) == split_char(version@, '/'),
            component_depth(lines(parts@).take(i as int)) == Some(depth as nat),
            depth <= i,
        decreases parts.len() - i,
    {
        let p = parts[i].as_str();
        assert(lines(parts@).take(i + 1).drop_last() =~= lines(parts@).take(i as int));
        assert(lines(parts@).take(i + 1).last() == p@);
        if p.is_empty() || str_eq(p, ".") {
        } else if str_eq(p, "..") {
            if depth == 0 {
                proof {
                    lemma_depth_none_sticks(lines(parts@), i as int + 1);
                }
                return false;
            }
            depth = depth - 1;
        } else {
            depth = depth + 1;
        }
        i = i + 1;
    }
    assert(lines(parts@).take(parts@.len() as int) =~= lines(parts@));
    true
}

proof fn lemma_depth_none_sticks(parts: Seq<Seq<char>>, k: int)
    requires
        0 <= k <= parts.len(),
        component_depth(parts.take(k)) is None,
    ensures
        component_depth(parts) is None,
    decreases parts.len() - k,
{
    if k < parts.len() {
        assert(parts.take(k + 1).drop_last() =~= parts.take(k));
        lemma_depth_none_sticks(parts, k + 1);
    } else {
        assert(parts.take(k) =~= parts);
    }
}

/// The version a line names: the first word of the trimmed line, unless the line is empty
/// or a `#` comment.
pub open spec fn line_version(line: Seq<char>) -> Option<Seq<char>> {
    let t = trim(line);
    if t.len() == 0 || t[0] == '#' || words(t).len() == 0 {
        None
    } else {
        Some(words(t)[0])
    }
}

/// Safe versions and rejected ones, in file order.
pub open spec fn scan_versions(ls: Seq<Seq<char>>) -> (Seq<Seq<char>>, Seq<Seq<char>>)
    decreases ls.len(),
{
    if ls.len() == 0 {
        (seq![], seq![])
    } else {
        let (ok, bad) = scan_versions(ls.drop_last());
        match line_version(ls.last()) {
            Some(v) => if version_safe(v) {
                (ok.push(v), bad)
            } else {
                (ok, bad.push(v))
            },
            None => (ok, bad),
        }
    }
}

/// The versions of a file and the warnings for versions that were rejected.
pub struct ParsedVersionFile {
    pub versions: Vec<String>,
    pub warnings: Vec<PyenvError>,
}

/// The messages of a list of errors.
pub open spec fn error_texts(es: Seq<PyenvError>) -> Seq<Seq<char>> {
    es.map_values(|e: PyenvError| error_text(e))
}

/// The warning messages for rejected versions of the file `path`.
pub open spec fn invalid_texts(bad: Seq<Seq<char>>, path: Seq<char>) -> Seq<Seq<char>> {
    bad.map_values(|v: Seq<char>| "pyenv: invalid version `"@ + v + "' ignored in `"@ + path + "'"@)
}

/// Scans file contents: the safe versions, and a warning per unsafe one.
pub fn parse_version_contents(contents: &str, path: &str) -> (r: ParsedVersionFile)
    ensures
        lines(r.versions@) == scan_versions(text_lines(contents@)).0,
        error_texts(r.warnings@) == invalid_texts(scan_versions(text_lines(contents@)).1, path@),
{
    let ls = text_lines_of(contents);
    let mut versions: Vec<String> = Vec::new();
    let mut warnings: Vec<PyenvError> = Vec::new();
    let mut i: usize = 0;
    while i < ls.len()
        invariant
            i <= ls@.len(),
            lines(ls@) == text_lines(contents@),
            lines(versions@) == scan_versions(lines(ls@).take(i as int)).0,
            error_texts(warnings@) == invalid_texts(scan_versions(lines(ls@).take(i as int)).1, path@),
        decreases ls.len() - i,
    {
        assert(lines(ls@).take(i + 1).drop_last() =~= lines(ls@).take(i as int));
        assert(lines(ls@).take(i + 1).last() == ls@[i as int]@);
        let t = trim_str(ls[i].as_str());
        let tv = chars_of(t.as_str());
        if tv.len() > 0 && tv[0] != '#' {
            let ws = words_of(t.as_str());
            if ws.len() > 0 {
                let v = ws[0].clone();
                assert(v@ == words(t@)[0]);
                let ghost bad0 = scan_versions(lines(ls@).take(i as int)).1;
                if is_version_safe(v.as_str()) {
                    let ghost before = lines(versions@);
                    versions.push(v);
                    assert(lines(versions@) =~= before.push(words(t@)[0]));
                } else {
                    let msg_path = crate::strings::owned(path);
                    let ghost before = error_texts(warnings@);
                    warnings.push(PyenvError::InvalidVersion(v, msg_path));
                    assert(error_texts(warnings@) =~= before.push(
                        "pyenv: invalid version `"@ + words(t@)[0] + "' ignored in `"@ + path@ + "'"@,
                    ));
                    assert(invalid_texts(bad0.push(words(t@)[0]), path@) =~= invalid_texts(bad0, path@).push(
                        "pyenv: invalid version `"@ + words(t@)[0] + "' ignored in `"@ + path@ + "'"@,
                    ));
                }
            }
        }
        i = i + 1;
    }
    assert(lines(ls@).take(ls@.len() as int) =~= lines(ls@));
    ParsedVersionFile { versions, warnings }
}

/// Reads and scans a version file. A missing file fails with no errors; a file with no safe
/// version fails with its warnings.
pub fn parse_version_file(fs: &FsSnapshot, path: &str) -> (r: Result<ParsedVersionFile, Vec<PyenvError>>)
    ensures
        match fs.file_text(path@) {
            None => r matches Err(es) && es@.len() == 0,
            Some(t) => {
                let (ok, bad) = scan_versions(text_lines(t));
                &&& ok.len() == 0 ==> (r matches Err(es) && error_texts(es@) == invalid_texts(bad, path@))
                &&& ok.len() > 0 ==> (r matches Ok(p) && lines(p.versions@) == ok && error_texts(
                    p.warnings@,
                ) == invalid_texts(bad, path@))
            },
        },
{
    match fs.read_file(path) {
        None => Err(Vec::new()),
        Some(contents) => {
            let parsed = parse_version_contents(contents.as_str(), path);
            if parsed.versions.len() == 0 {
                Err(parsed.warnings)
            } else {
                Ok(parsed)
            }
        },
    }
}

/// The safe versions of a version file, or the errors when it has none.
pub fn read_version_file(fs: &FsSnapshot, path: &str) -> (r: Result<Vec<String>, Vec<PyenvError>>)
    ensures
        match fs.file_text(path@) {
            None => r matches Err(es) && es@.len() == 0,
            Some(t) => {
                let (ok, bad) = scan_versions(text_lines(t));
                &&& ok.len() == 0 ==> (r matches Err(es) && error_texts(es@) == invalid_texts(bad, path@))
                &&& ok.len() > 0 ==> (r matches Ok(v) && lines(v@) == ok)
            },
        },
{
    match parse_version_file(fs, path) {
        Ok(parsed) => Ok(parsed.versions),
        Err(e) => Err(e),
    }
}

/// A file the caller is to write.
pub struct WritePlan {
    pub path: String,
    pub contents: String,
}

/// The contents of a version file: one version per line.
pub open spec fn version_file_text(versions: Seq<Seq<char>>) -> Seq<char> {
    join(versions, "\n"@) + "\n"@
}

/// What writing `versions` to `path` puts on disk; no versions is an error.
pub fn write_version_file(path: &str, versions: &Vec<String>) -> (r: Result<WritePlan, PyenvError>)
    ensures
        versions@.len() == 0 ==> (r matches Err(e) && error_text(e) == "pyenv: no versions specified"@),
        versions@.len() > 0 ==> (r matches Ok(w) && w.path@ == path@ && w.contents@ == version_file_text(
            lines(versions@),
        )),
{
    if versions.len() == 0 {
        return Err(PyenvError::Io(crate::strings::owned("pyenv: no versions specified")));
    }
    let body = join_strings(versions, "\n");
    let contents = cat(body.as_str(), "\n");
    Ok(WritePlan { path: crate::strings::owned(path), contents })
}

/// A version that a version file holds on a line of its own and reads back as it is: not
/// empty, no whitespace, not a comment, and safe.
pub open spec fn plain_version(v: Seq<char>) -> bool {
    &&& v.len() > 0
    &&& forall|k: int| 0 <= k < v.len() ==> !is_ws(#[trigger] v[k])
    &&& v[0] != '#'
    &&& version_safe(v)
}

proof fn lemma_split_lines_join(vs: Seq<Seq<char>>)
    requires
        vs.len() > 0,
        forall|i: int, k: int| 0 <= i < vs.len() && 0 <= k < vs[i].len() ==> #[trigger] vs[i][k] != '\n',
    ensures
        split_char(join(vs, "\n"@), '\n') == vs,
{
    reveal_strlit("\n");
    assert("\n"@ =~= seq!['\n']);
    lemma_split_join(vs, '\n');
}

proof fn lemma_split_ws_plain(x: Seq<char>)
    requires
        forall|k: int| 0 <= k < x.len() ==> !is_ws(#[trigger] x[k]),
    ensures
        split_ws(x) == seq![x],
    decreases x.len(),
{
    if x.len() > 0 {
        let y = x.drop_last();
        assert forall|k: int| 0 <= k < y.len() implies !is_ws(#[trigger] y[k]) by {
            assert(y[k] == x[k]);
        }
        lemma_split_ws_plain(y);
        assert(!is_ws(x.last()));
        assert(y.push(x.last()) =~= x);
        assert(split_ws(x) == seq![y].update(0, y.push(x.last())));
        assert(seq![y].update(0, y.push(x.last())) =~= seq![x]);
    } else {
        assert(x =~= Seq::<char>::empty());
    }
}

proof fn lemma_nonempty_first(parts: Seq<Seq<char>>)
    requires
        parts.len() >= 1,
        parts[0].len() > 0,
    ensures
        nonempty(parts).len() >= 1,
        nonempty(parts)[0] == parts[0],
    decreases parts.len(),
{
    if parts.len() == 1 {
        assert(parts.drop_last() =~= Seq::<Seq<char>>::empty());
        assert(parts.last() == parts[0]);
    } else {
        lemma_nonempty_first(parts.drop_last());
    }
}

/// Splitting a word followed by whitespace and more text: the word is the first piece.
proof fn lemma_split_ws_word_first(a: Seq<char>, b: Seq<char>)
    requires
        forall|k: int| 0 <= k < a.len() ==> !is_ws(#[trigger] a[k]),
        b.len() == 0 || is_ws(b[0]),
    ensures
        split_ws(a + b).len() >= 1,
        split_ws(a + b)[0] == a,
        b.len() > 0 ==> split_ws(a + b).len() >= 2,
    decreases b.len(),
{
    lemma_split_ws_plain(a);
    if b.len() == 0 {
        assert(a + b =~= a);
    } else {
        let c = b.drop_last();
        assert((a + b).drop_last() =~= a + c);
        assert((a + b).last() == b.last());
        if c.len() == 0 {
            assert(a + c =~= a);
            assert(b.last() == b[0]);
        } else {
            assert(c[0] == b[0]);
        }
        lemma_split_ws_word_first(a, c);
    }
}

proof fn lemma_trim_end_concat(a: Seq<char>, b: Seq<char>)
    ensures
        trim_end(a + b) == (if trim_end(b).len() > 0 { a + trim_end(b) } else { trim_end(a) }),
    decreases b.len(),
{
    if b.len() == 0 {
        assert(a + b =~= a);
    } else {
        assert((a + b).drop_last() =~= a + b.drop_last());
        assert((a + b).last() == b.last());
        lemma_trim_end_concat(a, b.drop_last());
    }
}

/// A line's version is its first word: after a version, a space and anything else (a comment,
/// more words) are ignored.
pub proof fn law_line_version_first_word(v: Seq<char>, w: Seq<char>)
    requires
        v.len() > 0,
        forall|k: int| 0 <= k < v.len() ==> !is_ws(#[trigger] v[k]),
        v[0] != '#',
    ensures
        line_version(v + seq![' '] + w) == Some(v),
        line_version(v) == Some(v),
        version_safe(v) ==> scan_versions(seq![v + seq![' '] + w]).0 == seq![v],
{
    let line = v + seq![' '] + w;
    assert(line[0] == v[0]);
    assert(trim_start(line) == line);
    assert(trim_start(v) == v);
    let rest = seq![' '] + w;
    assert(line =~= v + rest);
    lemma_trim_end_concat(v, rest);
    assert(!is_ws(v.last()));
    assert(trim_end(v) == v);
    let t = trim(line);
    let tail = if trim_end(rest).len() > 0 { trim_end(rest) } else { Seq::<char>::empty() };
    assert(t =~= v + tail);
    if trim_end(rest).len() > 0 {
        lemma_trim_end_prefix(rest);
        assert(tail[0] == ' ');
    }
    lemma_split_ws_word_first(v, tail);
    lemma_nonempty_first(split_ws(t));
    assert(t[0] == v[0]);
    lemma_split_ws_plain(v);
    lemma_nonempty_first(split_ws(v));
    let ls = seq![line];
    assert(ls.drop_last() =~= Seq::<Seq<char>>::empty());
    assert(ls.last() == line);
    assert(scan_versions(ls.drop_last()).0 =~= Seq::<Seq<char>>::empty());
    assert(Seq::<Seq<char>>::empty().push(v) =~= seq![v]);
    if version_safe(v) {
        assert(scan_versions(ls).0 == scan_versions(ls.drop_last()).0.push(v));
    }
}

proof fn lemma_trim_end_prefix(s: Seq<char>)
    ensures
        trim_end(s).len() <= s.len(),
        forall|k: int| 0 <= k < trim_end(s).len() ==> #[trigger] trim_end(s)[k] == s[k],
    decreases s.len(),
{
    if s.len() > 0 && is_ws(s.last()) {
        lemma_trim_end_prefix(s.drop_last());
    }
}

proof fn lemma_plain_line(v: Seq<char>)
    requires
        plain_version(v),
    ensures
        line_version(v) == Some(v),
        strip_cr(v) == v,
{
    assert(!is_ws(v[0]));
    assert(!is_ws(v.last()));
    assert(trim_start(v) == v);
    assert(trim_end(v) == v);
    assert(trim(v) == v);
    lemma_split_ws_plain(v);
    assert(nonempty(seq![v]) == nonempty(seq![v].drop_last()).push(v));
    assert(seq![v].drop_last() =~= Seq::<Seq<char>>::empty());
    assert(words(v) =~= seq![v]);
}

proof fn lemma_scan_plain(vs: Seq<Seq<char>>)
    requires
        forall|i: int| 0 <= i < vs.len() ==> plain_version(#[trigger] vs[i]),
    ensures
        scan_versions(vs) == (vs, Seq::<Seq<char>>::empty()),
    decreases vs.len(),
{
    if vs.len() > 0 {
        let w = vs.drop_last();
        assert forall|i: int| 0 <= i < w.len() implies plain_version(#[trigger] w[i]) by {
            assert(w[i] == vs[i]);
        }
        lemma_scan_plain(w);
        assert(plain_version(vs[vs.len() - 1]));
        lemma_plain_line(vs.last());
        assert(w.push(vs.last()) =~= vs);
    }
}

/// A version file written with plain versions reads back as exactly those versions, in order,
/// with nothing rejected.
pub proof fn law_version_file_round_trip(vs: Seq<Seq<char>>)
    requires
        vs.len() > 0,
        forall|i: int| 0 <= i < vs.len() ==> plain_version(#[trigger] vs[i]),
    ensures
        text_lines(version_file_text(vs)) == vs,
        scan_versions(text_lines(version_file_text(vs))) == (vs, Seq::<Seq<char>>::empty()),
{
    reveal_strlit("\n");
    assert forall|i: int, k: int| 0 <= i < vs.len() && 0 <= k < vs[i].len() implies #[trigger] vs[i][k] != '\n' by {
        assert(plain_version(vs[i]));
        assert(!is_ws(vs[i][k]));
    }
    lemma_split_lines_join(vs);
    let t = version_file_text(vs);
    assert(t.drop_last() =~= join(vs, "\n"@));
    assert(t.last() == '\n');
    assert(split_char(t, '\n') == vs.push(seq![]));
    assert(vs.push(seq![]).drop_last() =~= vs);
    assert forall|i: int| 0 <= i < vs.len() implies #[trigger] strip_cr(vs[i]) == vs[i] by {
        lemma_plain_line(vs[i]);
    }
    assert(vs.map_values(|p: Seq<char>| strip_cr(p)) =~= vs);
    lemma_scan_plain(vs);
}

} // verus!
