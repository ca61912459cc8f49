//! Finding an executable under a runtime prefix: the directories looked in, the file names
//! tried for a command (with the executable extensions), and the first match on disk.
use vstd::prelude::*;

use crate::context::{join_path, join_path_str, FsSnapshot};
use crate::strings::{
    cat, chars_of, contains_seq, contains_str, lines, lower_seq, lower_str, nonempty, owned,
    split_char, split_on, str_eq, trim, trim_end_char, trim_str,
};
use crate::version::files::last_slash;

verus! {

broadcast use vstd::string::group_string_axioms;

/// `<prefix>`, `<prefix>/Scripts` and `<prefix>/bin`, in that order.
pub open spec fn prefix_bins(prefix: Seq<char>) -> Seq<Seq<char>> {
    seq![prefix, join_path(prefix, "Scripts"@), join_path(prefix, "bin"@)]
}

/// The directories an executable of a runtime prefix may live in.
pub fn prefix_bin_dirs(prefix: &str) -> (r: Vec<String>)
    ensures
        lines(r@) == prefix_bins(prefix@),
{
    let mut v: Vec<String> = Vec::new();
    v.push(owned(prefix));
    v.push(join_path_str(prefix, "Scripts"));
    v.push(join_path_str(prefix, "bin"));
    assert(lines(v@) =~= prefix_bins(prefix@));
    v
}

/// The last component of a path (trailing `/` ignored).
pub open spec fn file_name_of(c: Seq<char>) -> Seq<char> {
    let t = trim_end_char(c, '/');
    t.skip(last_slash(t) + 1)
}

/// `Path::extension` is `Some`: the file name has a `.` after its first character.
pub open spec fn has_extension(c: Seq<char>) -> bool {
    let f = file_name_of(c);
    f != ".."@ && exists|i: int| 0 < i < f.len() && f[i] == '.'
}

/// The extensions used when none are configured.
pub open spec fn default_exts() -> Seq<Seq<char>> {
    seq![".EXE"@, ".BAT"@, ".CMD"@, ".COM"@, ".PS1"@]
}

/// The `;`-separated, trimmed, non-empty entries of `PATHEXT`, or the defaults when there
/// are none.
pub open spec fn exts_of(path_ext: Option<Seq<char>>) -> Seq<Seq<char>> {
    match path_ext {
        Some(v) => {
            let parts = nonempty(split_char(v, ';').map_values(|p: Seq<char>| trim(p)));
            if parts.len() > 0 {
                parts
            } else {
                default_exts()
            }
        },
        None => default_exts(),
    }
}

fn default_extension_list() -> (r: Vec<String>)
    ensures
        lines(r@) == default_exts(),
{
    let mut v: Vec<String> = Vec::new();
    v.push(owned(".EXE"));
    v.push(owned(".BAT"));
    v.push(owned(".CMD"));
    v.push(owned(".COM"));
    v.push(owned(".PS1"));
    assert(lines(v@) =~= default_exts());
    v
}

/// The executable extensions: from `PATHEXT` when it names any, else the defaults.
pub fn executable_extensions(path_ext: Option<&str>) -> (r: Vec<String>)
    ensures
        lines(r@) == exts_of(
            match path_ext {
                Some(v) => Some(v@),
                None => None,
            },
        ),
{
    match path_ext {
        None => default_extension_list(),
        Some(value) => {
            let parts = split_on(value, ';');
            let ghost trimmed = lines(parts@).map_values(|p: Seq<char>| trim(p));
            let mut out: Vec<String> = Vec::new();
            let mut i: usize = 0;
            while i < parts.len()
                invariant
                    i <= parts@.len(),
                    lines(parts@) == split_char(value@, ';'),
                    trimmed == lines(parts@).map_values(|p: Seq<char>| trim(p)),
                    lines(out@) == nonempty(trimmed.take(i as int)),
                decreases parts.len() - i,
            {
                assert(trimmed.take(i + 1).drop_last() =~= trimmed.take(i as int));
                let t = trim_str(parts[i].as_str());
                assert(t@ == trimmed[i as int]);
                if !t.as_str().is_empty() {
                    let ghost before = lines(out@);
                    out.push(t);
                    assert(lines(out@) =~= before.push(trimmed[i as int]));
                }
                i = i + 1;
            }
            assert(trimmed.take(parts@.len() as int) =~= trimmed);
            if out.len() == 0 {
                default_extension_list()
            } else {
                out
            }
        },
    }
}

/// Keeps the first of each group of names equal ignoring ASCII case.
pub open spec fn dedup_ci(s: Seq<Seq<char>>) -> Seq<Seq<char>>
    decreases s.len(),
{
    if s.len() == 0 {
        seq![]
    } else {
        let r = dedup_ci(s.drop_last());
        if exists|k: int| 0 <= k < r.len() && lower_seq(r[k]) == lower_seq(s.last()) {
            r
        } else {
            r.push(s.last())
        }
    }
}

/// The file names tried for a command: the command itself when it has an extension, else
/// the command followed by the command with each extension, dropping case-insensitive repeats.
pub open spec fn candidates(command: Seq<char>, path_ext: Option<Seq<char>>) -> Seq<Seq<char>> {
    if has_extension(command) {
        seq![command]
    } else {
        dedup_ci(seq![command] + exts_of(path_ext).map_values(|e: Seq<char>| command + e))
    }
}

fn has_extension_str(command: &str) -> (r: bool)
    ensures
        r == has_extension(command@),
{
    proof {
        reveal_strlit("..");
    }
    let v = chars_of(command);
    let mut n = v.len();
    assert(v@.take(v@.len() as int) =~= v@);
    while n > 0 && v[n - 1] == '/'
        invariant
            n <= v@.len(),
            trim_end_char(v@, '/') == trim_end_char(v@.take(n as int), '/'),
        decreases n,
    {
        assert(v@.take(n as int).drop_last() =~= v@.take(n - 1));
        n = n - 1;
    }
    let ghost t = v@.take(n as int);
    assert(trim_end_char(t, '/') == t);
    let mut k = n;
    assert(t.take(n as int) =~= t);
    while k > 0 && v[k - 1] != '/'
        invariant
            k <= n,
            n <= v@.len(),
            t == v@.take(n as int),
            last_slash(t) == last_slash(t.take(k as int)),
        decreases k,
    {
        assert(t.take(k as int).drop_last() =~= t.take(k - 1));
        k = k - 1;
    }
    proof {
        if k > 0 {
            assert(t.take(k as int).last() == '/');
        } else {
            assert(t.take(0) =~= Seq::<char>::empty());
        }
    }
    assert(last_slash(t) + 1 == k);
    let ghost f = t.skip(k as int);
    assert(f =~= v@.subrange(k as int, n as int));
    assert(f == file_name_of(command@));
    if k >= n {
        return false;
    }
    if n - k == 2 && v[k] == '.' && v[k + 1] == '.' {
        assert(f =~= ".."@);
        return false;
    }
    proof {
        if n - k == 2 {
            assert(f != ".."@) by {
                if f == ".."@ {
                    assert(f[0] == '.' && f[1] == '.');
                }
            }
        } else {
            assert(f.len() != 2);
        }
    }
    let mut i = k + 1;
    while i < n
        invariant
            k < n,
            k + 1 <= i <= n,
            n <= v@.len(),
            f == v@.subrange(k as int, n as int),
            f == file_name_of(command@),
            f != ".."@,
            forall|j: int| 0 < j < i - k ==> f[j] != '.',
        decreases n - i,
    {
        if v[i] == '.' {
            assert(f[i - k] == '.');
            return true;
        }
        i = i + 1;
    }
    false
}

/// The file names tried, in order, when looking for `command`.
pub fn candidate_file_names(command: &str, path_ext: Option<&str>) -> (r: Vec<String>)
    ensures
        lines(r@) == candidates(
            command@,
            match path_ext {
                Some(v) => Some(v@),
                None => None,
            },
        ),
{
    let ghost pe = match path_ext {
        Some(v) => Some(v@),
        None => None,
    };
    if has_extension_str(command) {
        let mut v: Vec<String> = Vec::new();
        v.push(owned(command));
        assert(lines(v@) =~= seq![command@]);
        return v;
    }
    let exts = executable_extensions(path_ext);
    let ghost all = seq![command@] + exts_of(pe).map_values(|e: Seq<char>| command@ + e);
    let mut names: Vec<String> = Vec::new();
    let mut seen: Vec<String> = Vec::new();
    names.push(owned(command));
    seen.push(lower_str(command));
    proof {
        assert(all.take(1) =~= seq![command@]);
        assert(dedup_ci(all.take(1).drop_last()) =~= Seq::<Seq<char>>::empty());
        assert(dedup_ci(all.take(1)) =~= seq![command@]);
    }
    let mut i: usize = 0;
    while i < exts.len()
        invariant
            i <= exts@.len(),
            lines(exts@) == exts_of(pe),
            all == seq![command@] + exts_of(pe).map_values(|e: Seq<char>| command@ + e),
            lines(names@) == dedup_ci(all.take(i + 1)),
            seen@.len() == names@.len(),
            forall|k: int| 0 <= k < seen@.len() ==> seen@[k]@ == lower_seq(#[trigger] names@[k]@),
        decreases exts.len() - i,
    {
        let cand = cat(command, exts[i].as_str());
        let low = lower_str(cand.as_str());
        assert(all[i + 1] == cand@);
        assert(all.take(i + 2).drop_last() =~= all.take(i + 1));
        let mut found = false;
        let mut k: usize = 0;
        while k < seen.len()
            invariant
                k <= seen@.len(),
                seen@.len() == names@.len(),
                forall|q: int| 0 <= q < seen@.len() ==> seen@[q]@ == lower_seq(#[trigger] names@[q]@),
                found == exists|q: int| 0 <= q < k && lower_seq(names@[q]@) == low@,
            decreases seen.len() - k,
        {
            assert(seen@[k as int]@ == lower_seq(names@[k as int]@));
            if str_eq(seen[k].as_str(), low.as_str()) {
                found = true;
            }
            k = k + 1;
        }
        proof {
            let r = dedup_ci(all.take(i + 1));
            assert(found == exists|q: int| 0 <= q < r.len() && lower_seq(r[q]) == lower_seq(all[i + 1])) by {
                if found {
                    let q = choose|q: int| 0 <= q < k && lower_seq(names@[q]@) == low@;
                    assert(r[q] == names@[q]@);
                }
                if exists|q: int| 0 <= q < r.len() && lower_seq(r[q]) == lower_seq(all[i + 1]) {
                    let q = choose|q: int| 0 <= q < r.len() && lower_seq(r[q]) == lower_seq(all[i + 1]);
                    assert(r[q] == names@[q]@);
                }
            }
        }
        if !found {
            let ghost before = lines(names@);
            names.push(cand);
            seen.push(low);
            assert(lines(names@) =~= before.push(all[i + 1]));
        }
        i = i + 1;
    }
    assert(all.take(exts@.len() + 1 as int) =~= all);
    names
}

/// The directory is a Windows Store alias folder for Python.
pub open spec fn store_trap(d: Seq<char>) -> bool {
    contains_seq(lower_seq(d), "windowsapps\\python"@) || contains_seq(lower_seq(d), "windowsapps/python"@)
}

/// The first of `names` that is a file in `dir`.
pub open spec fn first_file(fs: FsSnapshot, dir: Seq<char>, names: Seq<Seq<char>>) -> Option<Seq<char>>
    decreases names.len(),
{
    if names.len() == 0 {
        None
    } else if fs.has_file(join_path(dir, names[0])) {
        Some(join_path(dir, names[0]))
    } else {
        first_file(fs, dir, names.drop_first())
    }
}

/// The first existing directory (skipping Store aliases on Windows) holding one of `names`,
/// and there the first of `names` present.
pub open spec fn search_dirs(fs: FsSnapshot, dirs: Seq<Seq<char>>, names: Seq<Seq<char>>, windows: bool) -> Option<Seq<char>>
    decreases dirs.len(),
{
    if dirs.len() == 0 {
        None
    } else {
        let d = dirs[0];
        let here = if fs.has_dir(d) && !(windows && store_trap(d)) {
            first_file(fs, d, names)
        } else {
            None
        };
        match here {
            Some(p) => Some(p),
            None => search_dirs(fs, dirs.drop_first(), names, windows),
        }
    }
}

fn first_file_in(fs: &FsSnapshot, dir: &str, names: &Vec<String>) -> (r: Option<String>)
    ensures
        match r {
            Some(p) => first_file(*fs, dir@, lines(names@)) == Some(p@),
            None => first_file(*fs, dir@, lines(names@)) is None,
        },
{
    let mut i: usize = 0;
    assert(lines(names@).skip(0) =~= lines(names@));
    while i < names.len()
        invariant
            i <= names@.len(),
            first_file(*fs, dir@, lines(names@)) == first_file(*fs, dir@, lines(names@).skip(i as int)),
        decreases names.len() - i,
    {
        let path = join_path_str(dir, names[i].as_str());
        assert(lines(names@).skip(i as int)[0] == names@[i as int]@);
        if fs.is_file(path.as_str()) {
            return Some(path);
        }
        assert(lines(names@).skip(i as int).drop_first() =~= lines(names@).skip(i + 1));
        i = i + 1;
    }
    None
}

fn is_store_trap(d: &str) -> (r: bool)
    ensures
        r == store_trap(d@),
{
    let low = lower_str(d);
    contains_str(low.as_str(), "windowsapps\\python") || contains_str(low.as_str(), "windowsapps/python")
}

/// Looks for `command` in each directory in turn.
pub fn search_path_entries(fs: &FsSnapshot, directories: &Vec<String>, command: &str, path_ext: Option<&str>, windows: bool) -> (r: Option<String>)
    ensures
        match r {
            Some(p) => search_dirs(
                *fs,
                lines(directories@),
                candidates(command@, match path_ext {
                    Some(v) => Some(v@),
                    None => None,
                }),
                windows,
            ) == Some(p@),
            None => search_dirs(
                *fs,
                lines(directories@),
                candidates(command@, match path_ext {
                    Some(v) => Some(v@),
                    None => None,
                }),
                windows,
            ) is None,
        },
{
    let names = candidate_file_names(command, path_ext);
    let ghost ns = lines(names@);
    let mut i: usize = 0;
    assert(lines(directories@).skip(0) =~= lines(directories@));
    while i < directories.len()
        invariant
            i <= directories@.len(),
            ns == lines(names@),
            ns == candidates(command@, match path_ext {
                Some(v) => Some(v@),
                None => None,
            }),
            search_dirs(*fs, lines(directories@), ns, windows) == search_dirs(
                *fs,
                lines(directories@).skip(i as int),
                ns,
                windows,
            ),
        decreases directories.len() - i,
    {
        let d = directories[i].as_str();
        assert(lines(directories@).skip(i as int)[0] == d@);
        assert(lines(directories@).skip(i as int).drop_first() =~= lines(directories@).skip(i + 1));
        proof {
            lemma_search_step(*fs, lines(directories@).skip(i as int), ns, windows);
        }
        if fs.is_dir(d) && !(windows && is_store_trap(d)) {
            match first_file_in(fs, d, &names) {
                Some(p) => {
                    assert(first_file(*fs, d@, ns) == Some(p@));
                    assert(search_dirs(*fs, lines(directories@).skip(i as int), ns, windows) == Some(p@));
                    return Some(p);
                },
                None => {},
            }
        }
        i = i + 1;
    }
    None
}

proof fn lemma_search_step(fs: FsSnapshot, dirs: Seq<Seq<char>>, names: Seq<Seq<char>>, windows: bool)
    requires
        dirs.len() > 0,
    ensures
        search_dirs(fs, dirs, names, windows) == (match (if fs.has_dir(dirs[0]) && !(windows
            && store_trap(dirs[0])) {
            first_file(fs, dirs[0], names)
        } else {
            None
        }) {
            Some(p) => Some(p),
            None => search_dirs(fs, dirs.drop_first(), names, windows),
        }),
{
}

/// The executable for `command` under a runtime prefix.
pub open spec fn command_in_prefix(fs: FsSnapshot, prefix: Seq<char>, command: Seq<char>, path_ext: Option<Seq<char>>, windows: bool) -> Option<Seq<char>> {
    search_dirs(fs, prefix_bins(prefix), candidates(command, path_ext), windows)
}

/// Looks for `command` in the directories of a runtime prefix.
pub fn find_command_in_prefix(fs: &FsSnapshot, prefix: &str, command: &str, path_ext: Option<&str>, windows: bool) -> (r: Option<String>)
    ensures
        match r {
            Some(p) => command_in_prefix(*fs, prefix@, command@, match path_ext {
                Some(v) => Some(v@),
                None => None,
            }, windows) == Some(p@),
            None => command_in_prefix(*fs, prefix@, command@, match path_ext {
                Some(v) => Some(v@),
                None => None,
            }, windows) is None,
        },
{
    let dirs = prefix_bin_dirs(prefix);
    search_path_entries(fs, &dirs, command, path_ext, windows)
}

/// A candidate list never names the same file twice, ignoring ASCII case, and starts with the
/// command itself.
pub proof fn law_candidates_distinct(command: Seq<char>, path_ext: Option<Seq<char>>)
    ensures
        candidates(command, path_ext).len() >= 1,
        candidates(command, path_ext)[0] == command,
        forall|i: int, j: int|
            0 <= i < j < candidates(command, path_ext).len() ==> lower_seq(
                #[trigger] candidates(command, path_ext)[i],
            ) != lower_seq(#[trigger] candidates(command, path_ext)[j]),
{
    if !has_extension(command) {
        let all = seq![command] + exts_of(path_ext).map_values(|e: Seq<char>| command + e);
        lemma_dedup_ci(all);
    }
}

proof fn lemma_dedup_ci(s: Seq<Seq<char>>)
    requires
        s.len() >= 1,
    ensures
        dedup_ci(s).len() >= 1,
        dedup_ci(s)[0] == s[0],
        forall|i: int, j: int|
            0 <= i < j < dedup_ci(s).len() ==> lower_seq(#[trigger] dedup_ci(s)[i]) != lower_seq(
                #[trigger] dedup_ci(s)[j],
            ),
    decreases s.len(),
{
    if s.len() == 1 {
        assert(s.drop_last() =~= Seq::<Seq<char>>::empty());
        assert(dedup_ci(s) =~= seq![s[0]]);
    } else {
        lemma_dedup_ci(s.drop_last());
        assert(s.drop_last()[0] == s[0]);
    }
}

} // verus!
