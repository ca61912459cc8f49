//! The command names a runtime prefix provides shims for: each file in its bin directories,
//! named by its stem when its extension is executable, by its file name when it has none.
use vstd::prelude::*;

use crate::context::{is_child_of, FsSnapshot};
use crate::runtime::inventory::{ci_le, lemma_ci_total};
use crate::runtime::search::{executable_extensions, exts_of, file_name_of, has_extension, prefix_bin_dirs, prefix_bins};
use crate::self_update::versioning::{lex_compare, VersionOrder};
use crate::strings::{chars_of, lines, lower_seq, lower_str, str_eq, string_from, trim_end_char, trim_start_char};
use crate::version::files::last_slash;

verus! {

broadcast use vstd::string::group_string_axioms;

/// The position of the last `.` in `f`, or -1.
pub open spec fn last_dot(f: Seq<char>) -> int
    decreases f.len(),
{
    if f.len() == 0 {
        -1
    } else if f.last() == '.' {
        f.len() - 1
    } else {
        last_dot(f.drop_last())
    }
}

/// The extension is one of the executable extensions, ignoring leading dots and ASCII case.
pub open spec fn ext_matches(ext: Seq<char>, exts: Seq<Seq<char>>) -> bool {
    exists|k: int| 0 <= k < exts.len() && lower_seq(trim_start_char(#[trigger] exts[k], '.')) == lower_seq(ext)
}

/// The shim name of a file: its stem when its extension is executable, its file name when it
/// has no extension or is executable itself, else none.
pub open spec fn shim_name(path: Seq<char>, path_ext: Option<Seq<char>>, executable: bool) -> Option<Seq<char>> {
    let f = file_name_of(path);
    if f.len() == 0 || f == ".."@ {
        None
    } else if has_extension(path) {
        let d = last_dot(f);
        if ext_matches(f.skip(d + 1), exts_of(path_ext)) {
            Some(f.take(d))
        } else if executable {
            Some(f)
        } else {
            None
        }
    } else {
        Some(f)
    }
}

/// `Path::file_name` of a `/`-separated path (trailing separators ignored).
pub fn file_name_str(path: &str) -> (r: String)
    ensures
        r@ == file_name_of(path@),
{
    let v = chars_of(path);
    let mut n = v.len();
    assert(v@.take(v@.len() as int) =~= v@);
    while n > 0 && v[n - 1] == '/'
        invariant
            n <= v@.len(),
            trim_end_char(v@, '/') == trim_end_char(v@.take(n as int), '/'),
        decreases n,
    {
        assert(v@.take(n as int).drop_last() =~= v@.take(n - 1));
        n = n - 1;
    }
    let ghost t = v@.take(n as int);
    assert(trim_end_char(t, '/') == t);
    let mut k = n;
    assert(t.take(n as int) =~= t);
    while k > 0 && v[k - 1] != '/'
        invariant
            k <= n,
            n <= v@.len(),
            t == v@.take(n as int),
            last_slash(t) == last_slash(t.take(k as int)),
        decreases k,
    {
        assert(t.take(k as int).drop_last() =~= t.take(k - 1));
        k = k - 1;
    }
    proof {
        if k > 0 {
            assert(t.take(k as int).last() == '/');
        } else {
            assert(t.take(0) =~= Seq::<char>::empty());
        }
    }
    assert(last_slash(t) + 1 == k);
    assert(t.skip(k as int) =~= v@.subrange(k as int, n as int));
    string_from(&v, k, n)
}

fn last_dot_of(f: &Vec<char>) -> (r: usize)
    ensures
        r as int == last_dot(f@) + 1,
{
    let mut k = f.len();
    assert(f@.take(f@.len() as int) =~= f@);
    while k > 0 && f[k - 1] != '.'
        invariant
            k <= f@.len(),
            last_dot(f@) == last_dot(f@.take(k as int)),
        decreases k,
    {
        assert(f@.take(k as int).drop_last() =~= f@.take(k - 1));
        k = k - 1;
    }
    proof {
        if k > 0 {
            assert(f@.take(k as int).last() == '.');
        } else {
            assert(f@.take(0) =~= Seq::<char>::empty());
        }
    }
    k
}

proof fn lemma_last_dot(f: Seq<char>)
    ensures
        -1 <= last_dot(f) < f.len(),
        last_dot(f) >= 0 ==> f[last_dot(f)] == '.',
        forall|i: int| last_dot(f) < i < f.len() ==> f[i] != '.',
    decreases f.len(),
{
    if f.len() > 0 && f.last() != '.' {
        lemma_last_dot(f.drop_last());
        assert forall|i: int| last_dot(f) < i < f.len() implies f[i] != '.' by {
            if i < f.len() - 1 {
                assert(f[i] == f.drop_last()[i]);
            }
        }
    }
}

fn strip_leading_dots(s: &str) -> (r: String)
    ensures
        r@ == trim_start_char(s@, '.'),
{
    let v = chars_of(s);
    let mut i: usize = 0;
    assert(v@.skip(0) =~= v@);
    while i < v.len() && v[i] == '.'
        invariant
            i <= v@.len(),
            trim_start_char(v@, '.') == trim_start_char(v@.skip(i as int), '.'),
        decreases v.len() - i,
    {
        assert(v@.skip(i as int).drop_first() =~= v@.skip(i + 1));
        i = i + 1;
    }
    assert(v@.skip(i as int) =~= v@.subrange(i as int, v@.len() as int));
    string_from(&v, i, v.len())
}

/// The shim name of the file at `path`; `executable` says whether the file's mode lets anyone
/// run it (never on Windows).
pub fn normalize_shim_name(path: &str, path_ext: Option<&str>, executable: bool) -> (r: Option<String>)
    ensures
        r matches Some(n) ==> (shim_name(path@, match path_ext { Some(v) => Some(v@), None => None }, executable) == Some(n@)),
        r is None ==> shim_name(path@, match path_ext { Some(v) => Some(v@), None => None }, executable) is None,
{
    let ghost pe = match path_ext {
        Some(v) => Some(v@),
        None => None,
    };
    let f = file_name_str(path);
    proof {
        reveal_strlit("..");
    }
    if f.as_str().is_empty() || str_eq(f.as_str(), "..") {
        return None;
    }
    let fv = chars_of(f.as_str());
    let e = last_dot_of(&fv);
    proof {
        lemma_last_dot(f@);
        assert(f@ != ".."@);
        assert(has_extension(path@) == (e > 1 || (e == 1 && false) || last_dot(f@) > 0)) by {
            if last_dot(f@) > 0 {
                assert(f@[last_dot(f@)] == '.');
            }
            if has_extension(path@) {
                let i = choose|i: int| 0 < i < f@.len() && f@[i] == '.';
                assert(i <= last_dot(f@));
            }
        }
    }
    if e <= 1 {
        return Some(f);
    }
    let d = e - 1;
    let stem = string_from(&fv, 0, d);
    let ext = string_from(&fv, e, fv.len());
    let ext_low = lower_str(ext.as_str());
    let exts = executable_extensions(path_ext);
    let mut found = false;
    let mut k: usize = 0;
    while k < exts.len()
        invariant
            k <= exts@.len(),
            lines(exts@) == exts_of(pe),
            ext_low@ == lower_seq(ext@),
            found == exists|q: int| 0 <= q < k && lower_seq(trim_start_char(#[trigger] lines(exts@)[q], '.')) == lower_seq(ext@),
        decreases exts.len() - k,
    {
        let t = strip_leading_dots(exts[k].as_str());
        let tl = lower_str(t.as_str());
        assert(lines(exts@)[k as int] == exts@[k as int]@);
        if str_eq(tl.as_str(), ext_low.as_str()) {
            found = true;
        }
        k = k + 1;
    }
    assert(f@.skip(d + 1) =~= ext@);
    assert(f@.take(d as int) =~= stem@);
    if found {
        Some(stem)
    } else if executable {
        Some(f)
    } else {
        None
    }
}

/// A file directly inside `dir` has the shim name `name`.
pub open spec fn dir_provides(fs: FsSnapshot, dir: Seq<char>, path_ext: Option<Seq<char>>, name: Seq<char>) -> bool {
    exists|i: int|
        0 <= i < fs.files@.len() && is_child_of(dir, (#[trigger] fs.files@[i]).path@) && shim_name(fs.files@[i].path@, path_ext, fs.files@[i].executable) == Some(name)
}

/// A bin directory of `prefix` that exists holds a file with the shim name `name`.
pub open spec fn prefix_provides(fs: FsSnapshot, prefix: Seq<char>, path_ext: Option<Seq<char>>, name: Seq<char>) -> bool {
    exists|d: int|
        0 <= d < 3 && fs.has_dir(#[trigger] prefix_bins(prefix)[d]) && dir_provides(fs, prefix_bins(prefix)[d], path_ext, name)
}

/// Sorted by name ignoring ASCII case, without repeats.
pub open spec fn names_sorted_distinct(s: Seq<Seq<char>>) -> bool {
    &&& forall|i: int, j: int| 0 <= i < j < s.len() ==> ci_le(#[trigger] s[i], #[trigger] s[j])
    &&& forall|i: int, j: int| 0 <= i < j < s.len() ==> #[trigger] s[i] != #[trigger] s[j]
}

/// Adds a name to a sorted list of distinct names, keeping it so.
pub fn insert_name(v: &mut Vec<String>, x: String)
    requires
        names_sorted_distinct(lines(old(v)@)),
    ensures
        names_sorted_distinct(lines(final(v)@)),
        forall|n: Seq<char>| #[trigger] lines(final(v)@).contains(n) <==> (lines(old(v)@).contains(n) || n == x@),
{
    let ghost s = lines(v@);
    let mut q: usize = 0;
    while q < v.len()
        invariant
            q <= v@.len(),
            v@ == old(v)@,
            names_sorted_distinct(lines(v@)),
            forall|j: int| 0 <= j < q ==> lines(v@)[j] != x@,
        decreases v.len() - q,
    {
        if str_eq(v[q].as_str(), x.as_str()) {
            assert(lines(v@)[q as int] == x@);
            assert(lines(v@) == lines(old(v)@));
            return;
        }
        q = q + 1;
    }
    assert(!s.contains(x@));
    let xk = lower_str(x.as_str());
    let mut p: usize = 0;
    let mut stop = false;
    while p < v.len() && !stop
        invariant
            p <= v@.len(),
            v@ == old(v)@,
            s == lines(v@),
            xk@ == lower_seq(x@),
            forall|k: int| 0 <= k < p ==> ci_le(#[trigger] s[k], x@),
            stop ==> p < v@.len() && !ci_le(s[p as int], x@),
        decreases v.len() - p + (if stop { 0int } else { 1int }),
    {
        let k = lower_str(v[p].as_str());
        if lex_compare(k.as_str(), xk.as_str()) == VersionOrder::Greater {
            stop = true;
        } else {
            p = p + 1;
        }
    }
    proof {
        if p < v@.len() {
            lemma_ci_total(s[p as int], x@, x@);
        }
    }
    v.insert(p, x);
    proof {
        let t = lines(v@);
        assert(t =~= s.insert(p as int, x@));
        assert forall|k: int| 0 <= k < p implies #[trigger] t[k] == s[k] by {}
        assert(t[p as int] == x@);
        assert forall|k: int| p < k < t.len() implies #[trigger] t[k] == s[k - 1] by {}
        assert forall|i: int, j: int| 0 <= i < j < t.len() implies ci_le(#[trigger] t[i], #[trigger] t[j]) by {
            if j < p {
            } else if i < p && j == p {
            } else if i < p {
                assert(t[j] == s[j - 1]);
                lemma_ci_total(t[i], x@, s[j - 1]);
                if p < s.len() {
                    lemma_ci_total(x@, s[p as int], s[j - 1]);
                }
                lemma_ci_total(t[i], s[p as int], s[j - 1]);
            } else if i == p {
                assert(t[j] == s[j - 1]);
                lemma_ci_total(s[p as int], x@, x@);
                lemma_ci_total(x@, s[p as int], s[j - 1]);
            } else {
                assert(t[i] == s[i - 1]);
                assert(t[j] == s[j - 1]);
            }
        }
        assert forall|i: int, j: int| 0 <= i < j < t.len() implies #[trigger] t[i] != #[trigger] t[j] by {
            if i < p && j == p {
                assert(s[i] == t[i]);
                assert(t[j] == x@);
                assert(s.contains(t[i]));
            } else if i == p {
                assert(t[i] == x@);
                assert(p < j);
                assert(t[j] == s[j - 1]);
                assert(s.contains(t[j]));
            } else if j < p {
                assert(t[i] == s[i]);
                assert(t[j] == s[j]);
            } else if i < p {
                assert(t[i] == s[i]);
                assert(t[j] == s[j - 1]);
            } else {
                assert(t[i] == s[i - 1]);
                assert(t[j] == s[j - 1]);
            }
        }
        assert forall|n: Seq<char>| #[trigger] t.contains(n) <==> (s.contains(n) || n == x@) by {
            if t.contains(n) {
                let w = choose|w: int| 0 <= w < t.len() && t[w] == n;
                if w < p {
                    assert(s[w] == n);
                } else if w > p {
                    assert(s[w - 1] == n);
                }
            }
            if s.contains(n) {
                let w = choose|w: int| 0 <= w < s.len() && s[w] == n;
                if w < p {
                    assert(t[w] == n);
                } else {
                    assert(t[w + 1] == n);
                }
            }
            if n == x@ {
                assert(t[p as int] == n);
            }
        }
    }
}

/// Adds the shim names of the files directly inside `dir`.
pub fn add_dir_shim_names(names: &mut Vec<String>, fs: &FsSnapshot, dir: &str, path_ext: Option<&str>)
    requires
        names_sorted_distinct(lines(old(names)@)),
    ensures
        names_sorted_distinct(lines(final(names)@)),
        forall|n: Seq<char>| #[trigger] lines(final(names)@).contains(n) <==> (lines(old(names)@).contains(n)
            || dir_provides(*fs, dir@, match path_ext { Some(v) => Some(v@), None => None }, n)),
{
    let ghost pe = match path_ext {
        Some(v) => Some(v@),
        None => None,
    };
    let ghost start = lines(names@);
    let idx = fs.child_files(dir);
    let mut k: usize = 0;
    while k < idx.len()
        invariant
            k <= idx@.len(),
            pe == match path_ext { Some(v) => Some(v@), None => None },
            forall|q: int| #![trigger idx@[q]] 0 <= q < idx@.len() ==> idx@[q] < fs.files@.len() && is_child_of(dir@, fs.files@[idx@[q] as int].path@),
            forall|i: int| 0 <= i < fs.files@.len() && is_child_of(dir@, #[trigger] fs.files@[i].path@) ==> exists|q: int| 0 <= q < idx@.len() && idx@[q] as int == i,
            names_sorted_distinct(lines(names@)),
            forall|n: Seq<char>| #[trigger] lines(names@).contains(n) <==> (start.contains(n) || exists|q: int|
                0 <= q < k && shim_name(fs.files@[#[trigger] idx@[q] as int].path@, pe, fs.files@[idx@[q] as int].executable) == Some(n)),
        decreases idx.len() - k,
    {
        let i = idx[k];
        let e = &fs.files[i];
        let found = normalize_shim_name(e.path.as_str(), path_ext, e.executable);
        assert(fs.files@[idx@[k as int] as int] == *e);
        let ghost before = lines(names@);
        match found {
            Some(n) => {
                let ghost nv = n@;
                assert(shim_name(e.path@, pe, e.executable) == Some(nv));
                insert_name(names, n);
                proof {
                    assert forall|m: Seq<char>| #[trigger] lines(names@).contains(m) <==> (start.contains(m) || exists|q: int|
                        0 <= q < k + 1 && shim_name(fs.files@[#[trigger] idx@[q] as int].path@, pe, fs.files@[idx@[q] as int].executable) == Some(m)) by {
                        if m == nv {
                            assert(shim_name(fs.files@[idx@[k as int] as int].path@, pe, fs.files@[idx@[k as int] as int].executable) == Some(m));
                        }
                        if exists|q: int| 0 <= q < k + 1 && shim_name(fs.files@[#[trigger] idx@[q] as int].path@, pe, fs.files@[idx@[q] as int].executable) == Some(m) {
                            let q = choose|q: int| 0 <= q < k + 1 && shim_name(fs.files@[#[trigger] idx@[q] as int].path@, pe, fs.files@[idx@[q] as int].executable) == Some(m);
                            if q == k {
                                assert(m == nv);
                            } else {
                                assert(before.contains(m));
                            }
                        }
                    }
                }
            },
            None => {
                proof {
                    assert forall|m: Seq<char>| #[trigger] lines(names@).contains(m) <==> (start.contains(m) || exists|q: int|
                        0 <= q < k + 1 && shim_name(fs.files@[#[trigger] idx@[q] as int].path@, pe, fs.files@[idx@[q] as int].executable) == Some(m)) by {
                        if exists|q: int| 0 <= q < k + 1 && shim_name(fs.files@[#[trigger] idx@[q] as int].path@, pe, fs.files@[idx@[q] as int].executable) == Some(m) {
                            let q = choose|q: int| 0 <= q < k + 1 && shim_name(fs.files@[#[trigger] idx@[q] as int].path@, pe, fs.files@[idx@[q] as int].executable) == Some(m);
                            if q == k {
                                assert(false);
                            }
                        }
                    }
                }
            },
        }
        k = k + 1;
    }
    proof {
        assert forall|n: Seq<char>| #[trigger] lines(names@).contains(n) <==> (start.contains(n) || dir_provides(*fs, dir@, pe, n)) by {
            if dir_provides(*fs, dir@, pe, n) {
                let i = choose|i: int| 0 <= i < fs.files@.len() && is_child_of(dir@, (#[trigger] fs.files@[i]).path@)
                    && shim_name(fs.files@[i].path@, pe, fs.files@[i].executable) == Some(n);
                let q = choose|q: int| 0 <= q < idx@.len() && idx@[q] as int == i;
                assert(shim_name(fs.files@[idx@[q] as int].path@, pe, fs.files@[idx@[q] as int].executable) == Some(n));
            }
            if exists|q: int| 0 <= q < idx@.len() && shim_name(fs.files@[#[trigger] idx@[q] as int].path@, pe, fs.files@[idx@[q] as int].executable) == Some(n) {
                let q = choose|q: int| 0 <= q < idx@.len() && shim_name(fs.files@[#[trigger] idx@[q] as int].path@, pe, fs.files@[idx@[q] as int].executable) == Some(n);
                let i = idx@[q] as int;
                assert(is_child_of(dir@, fs.files@[i].path@));
                assert(dir_provides(*fs, dir@, pe, n));
            }
        }
    }
}

/// Adds the shim names a prefix provides.
pub fn add_prefix_shim_names(names: &mut Vec<String>, fs: &FsSnapshot, prefix: &str, path_ext: Option<&str>)
    requires
        names_sorted_distinct(lines(old(names)@)),
    ensures
        names_sorted_distinct(lines(final(names)@)),
        forall|n: Seq<char>| #[trigger] lines(final(names)@).contains(n) <==> (lines(old(names)@).contains(n)
            || prefix_provides(*fs, prefix@, match path_ext { Some(v) => Some(v@), None => None }, n)),
{
    let ghost pe = match path_ext {
        Some(v) => Some(v@),
        None => None,
    };
    let ghost start = lines(names@);
    let dirs = prefix_bin_dirs(prefix);
    let mut d: usize = 0;
    while d < dirs.len()
        invariant
            d <= dirs@.len(),
            pe == match path_ext { Some(v) => Some(v@), None => None },
            lines(dirs@) == prefix_bins(prefix@),
            names_sorted_distinct(lines(names@)),
            forall|n: Seq<char>| #[trigger] lines(names@).contains(n) <==> (start.contains(n) || exists|q: int|
                0 <= q < d && fs.has_dir(#[trigger] prefix_bins(prefix@)[q]) && dir_provides(*fs, prefix_bins(prefix@)[q], pe, n)),
        decreases dirs.len() - d,
    {
        let ghost before = lines(names@);
        assert(lines(dirs@)[d as int] == dirs@[d as int]@);
        if fs.is_dir(dirs[d].as_str()) {
            add_dir_shim_names(names, fs, dirs[d].as_str(), path_ext);
        }
        proof {
            assert forall|n: Seq<char>| #[trigger] lines(names@).contains(n) <==> (start.contains(n) || exists|q: int|
                0 <= q < d + 1 && fs.has_dir(#[trigger] prefix_bins(prefix@)[q]) && dir_provides(*fs, prefix_bins(prefix@)[q], pe, n)) by {
                if exists|q: int| 0 <= q < d + 1 && fs.has_dir(#[trigger] prefix_bins(prefix@)[q]) && dir_provides(*fs, prefix_bins(prefix@)[q], pe, n) {
                    let q = choose|q: int| 0 <= q < d + 1 && fs.has_dir(#[trigger] prefix_bins(prefix@)[q]) && dir_provides(*fs, prefix_bins(prefix@)[q], pe, n);
                    if q < d {
                        assert(before.contains(n));
                    }
                }
                if lines(names@).contains(n) && !before.contains(n) {
                    assert(fs.has_dir(prefix_bins(prefix@)[d as int]) && dir_provides(*fs, prefix_bins(prefix@)[d as int], pe, n));
                }
            }
        }
        d = d + 1;
    }
    proof {
        assert(lines(dirs@).len() == dirs@.len());
        assert forall|n: Seq<char>| #[trigger] lines(names@).contains(n) <==> (start.contains(n) || prefix_provides(*fs, prefix@, pe, n)) by {
            if prefix_provides(*fs, prefix@, pe, n) {
                let q = choose|q: int| 0 <= q < 3 && fs.has_dir(#[trigger] prefix_bins(prefix@)[q]) && dir_provides(*fs, prefix_bins(prefix@)[q], pe, n);
                assert(q < d);
            }
        }
    }
}

/// The shim names a prefix provides, sorted ignoring ASCII case.
pub fn collect_shim_names_from_prefix(fs: &FsSnapshot, prefix: &str, path_ext: Option<&str>) -> (r: Vec<String>)
    ensures
        names_sorted_distinct(lines(r@)),
        forall|n: Seq<char>| #[trigger] lines(r@).contains(n) <==> prefix_provides(*fs, prefix@, match path_ext { Some(v) => Some(v@), None => None }, n),
{
    let mut names: Vec<String> = Vec::new();
    assert(lines(names@) =~= Seq::<Seq<char>>::empty());
    add_prefix_shim_names(&mut names, fs, prefix, path_ext);
    names
}

} // verus!
