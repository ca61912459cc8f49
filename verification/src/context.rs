//! The state a command runs against: the install root, the working directory, the
//! environment values the tool reads, the configuration, and a snapshot of the files and
//! directories under the paths the commands look at. Paths are texts joined with `/`.
use vstd::prelude::*;

use crate::strings::{cat, cat3, chars_of, lines, occurs_at_vec, owned, str_eq, string_from};

verus! {

/// Settings that change how runtimes are looked up and registered.
pub struct AppConfig {
    /// Prefer `<version>/.pyenv-base-venv` as a search root when it exists.
    pub auto_use_base_venv: bool,
    /// `windows.registry_mode = pep514`.
    pub pep514_registry: bool,
}

/// One regular file of the snapshot.
pub struct FileEntry {
    pub path: String,
    pub contents: String,
    pub executable: bool,
}

/// The directories and regular files that exist, by full path.
pub struct FsSnapshot {
    pub dirs: Vec<String>,
    pub files: Vec<FileEntry>,
}

/// Everything a command reads.
pub struct AppContext {
    pub root: String,
    pub dir: String,
    pub exe_path: String,
    pub env_version: Option<String>,
    pub env_shell: Option<String>,
    pub path_env: Option<String>,
    pub path_ext: Option<String>,
    pub config: AppConfig,
    /// The tool runs on Windows.
    pub windows: bool,
    pub fs: FsSnapshot,
}

/// `Path::join` for a relative component: `base/name`, without doubling a trailing `/`.
pub open spec fn join_path(base: Seq<char>, name: Seq<char>) -> Seq<char> {
    if base.len() == 0 {
        name
    } else if base.last() == '/' {
        base + name
    } else {
        base + seq!['/'] + name
    }
}

/// The text that precedes a child name in `join_path(base, _)`.
pub open spec fn child_prefix(base: Seq<char>) -> Seq<char> {
    join_path(base, seq![])
}

/// A single path component: non-empty and without a separator.
pub open spec fn is_component(n: Seq<char>) -> bool {
    n.len() > 0 && !n.contains('/')
}

/// `p` names an entry directly inside `base`.
pub open spec fn is_child_of(base: Seq<char>, p: Seq<char>) -> bool {
    let pre = child_prefix(base);
    pre.len() <= p.len() && p.take(pre.len() as int) == pre && is_component(p.skip(pre.len() as int))
}

pub open spec fn dir_paths(fs: FsSnapshot) -> Seq<Seq<char>> {
    lines(fs.dirs@)
}

impl FsSnapshot {
    pub open spec fn has_dir(self, p: Seq<char>) -> bool {
        dir_paths(self).contains(p)
    }

    pub open spec fn has_file(self, p: Seq<char>) -> bool {
        exists|i: int| 0 <= i < self.files@.len() && (#[trigger] self.files@[i]).path@ == p
    }

    /// The position of the first file entry at `p`, if any.
    pub open spec fn file_index(self, p: Seq<char>) -> int
        recommends
            self.has_file(p),
    {
        choose|i: int|
            0 <= i < self.files@.len() && (#[trigger] self.files@[i]).path@ == p && forall|j: int|
                0 <= j < i ==> (#[trigger] self.files@[j]).path@ != p
    }

    /// The contents of the file at `p`, if it exists.
    pub open spec fn file_text(self, p: Seq<char>) -> Option<Seq<char>> {
        if self.has_file(p) {
            Some(self.files@[self.file_index(p)].contents@)
        } else {
            None
        }
    }

    /// `Path::is_dir`.
    pub fn is_dir(&self, p: &str) -> (r: bool)
        ensures
            r == self.has_dir(p@),
    {
        let mut i: usize = 0;
        while i < self.dirs.len()
            invariant
                i <= self.dirs@.len(),
                forall|j: int| 0 <= j < i ==> self.dirs@[j]@ != p@,
            decreases self.dirs.len() - i,
        {
            if str_eq(self.dirs[i].as_str(), p) {
                assert(dir_paths(*self)[i as int] == p@);
                return true;
            }
            i = i + 1;
        }
        assert(!dir_paths(*self).contains(p@));
        false
    }

    /// The first file entry at `p`.
    pub fn find_file(&self, p: &str) -> (r: Option<usize>)
        ensures
            r is Some <==> self.has_file(p@),
            r matches Some(i) ==> i < self.files@.len() && i == self.file_index(p@),
    {
        let mut i: usize = 0;
        while i < self.files.len()
            invariant
                i <= self.files@.len(),
                forall|j: int| 0 <= j < i ==> (#[trigger] self.files@[j]).path@ != p@,
            decreases self.files.len() - i,
        {
            if str_eq(self.files[i].path.as_str(), p) {
                let ghost k = self.file_index(p@);
                assert(self.has_file(p@));
                assert(k == i) by {
                    if k < i {
                    } else if k > i {
                    }
                }
                return Some(i);
            }
            i = i + 1;
        }
        None
    }

    /// `Path::is_file`.
    pub fn is_file(&self, p: &str) -> (r: bool)
        ensures
            r == self.has_file(p@),
    {
        self.find_file(p).is_some()
    }

    /// `fs::read_to_string`, where only a missing file fails.
    pub fn read_file(&self, p: &str) -> (r: Option<String>)
        ensures
            r matches Some(t) ==> self.file_text(p@) == Some(t@),
            r is None ==> self.file_text(p@) is None,
    {
        match self.find_file(p) {
            Some(i) => Some(self.files[i].contents.clone()),
            None => None,
        }
    }

    /// The positions of the files directly inside `base`, in snapshot order.
    pub fn child_files(&self, base: &str) -> (r: Vec<usize>)
        ensures
            forall|k: int| #![trigger r@[k]] 0 <= k < r@.len() ==> r@[k] < self.files@.len() && is_child_of(base@, self.files@[r@[k] as int].path@),
            forall|i: int| 0 <= i < self.files@.len() && is_child_of(base@, #[trigger] self.files@[i].path@) ==> exists|q: int| 0 <= q < r@.len() && r@[q] as int == i,
    {
        let prefix = join_path_str(base, "");
        proof {
            reveal_strlit("");
        }
        assert(prefix@ == child_prefix(base@));
        let pv = chars_of(prefix.as_str());
        let mut out: Vec<usize> = Vec::new();
        let mut i: usize = 0;
        while i < self.files.len()
            invariant
                i <= self.files@.len(),
                pv@ == child_prefix(base@),
                forall|k: int| #![trigger out@[k]] 0 <= k < out@.len() ==> out@[k] < self.files@.len() && is_child_of(base@, self.files@[out@[k] as int].path@),
                forall|j: int| 0 <= j < i && is_child_of(base@, #[trigger] self.files@[j].path@) ==> exists|q: int| 0 <= q < out@.len() && out@[q] as int == j,
            decreases self.files.len() - i,
        {
            let d = chars_of(self.files[i].path.as_str());
            let mut child = false;
            if occurs_at_vec(&d, &pv, 0) {
                let mut ok = d.len() > pv.len();
                let mut k: usize = pv.len();
                while k < d.len()
                    invariant
                        pv@.len() <= k <= d@.len(),
                        ok == (d@.len() > pv@.len() && forall|q: int| pv@.len() <= q < k ==> d@[q] != '/'),
                    decreases d.len() - k,
                {
                    if d[k] == '/' {
                        ok = false;
                    }
                    k = k + 1;
                }
                proof {
                    let t = d@.skip(pv@.len() as int);
                    assert(d@.take(pv@.len() as int) =~= d@.subrange(0, pv@.len() as int));
                    if ok {
                        assert(!t.contains('/')) by {
                            if t.contains('/') {
                                let q = choose|q: int| 0 <= q < t.len() && t[q] == '/';
                                assert(d@[pv@.len() + q] == '/');
                            }
                        }
                    } else if d@.len() > pv@.len() {
                        let q = choose|q: int| pv@.len() <= q < d@.len() && d@[q] == '/';
                        assert(t[q - pv@.len()] == '/');
                    }
                }
                child = ok;
            } else {
                proof {
                    if pv@.len() <= d@.len() {
                        assert(d@.take(pv@.len() as int) =~= d@.subrange(0, pv@.len() as int));
                    }
                }
            }
            assert(child == is_child_of(base@, self.files@[i as int].path@));
            if child {
                let ghost before = out@;
                out.push(i);
                proof {
                    assert(out@[before.len() as int] == i);
                    assert forall|j: int| 0 <= j < i + 1 && is_child_of(base@, #[trigger] self.files@[j].path@) implies exists|q: int| 0 <= q < out@.len() && out@[q] as int == j by {
                        if j < i {
                            let w = choose|w: int| 0 <= w < before.len() && before[w] as int == j;
                            assert(out@[w] == before[w]);
                        } else {
                            assert(out@[before.len() as int] as int == j);
                        }
                    }
                }
            }
            i = i + 1;
        }
        out
    }

    /// The names of the directories directly under `base`, in snapshot order.
    pub fn child_dirs(&self, base: &str) -> (r: Vec<String>)
        ensures
            forall|k: int|
                0 <= k < r@.len() ==> is_component(#[trigger] r@[k]@) && self.has_dir(
                    join_path(base@, r@[k]@),
                ),
            forall|n: Seq<char>|
                is_component(n) && #[trigger] self.has_dir(join_path(base@, n)) ==> lines(
                    r@,
                ).contains(n),
    {
        let prefix = join_path_str(base, "");
        proof {
            reveal_strlit("");
        }
        assert(prefix@ == child_prefix(base@));
        let pv = chars_of(prefix.as_str());
        let mut out: Vec<String> = Vec::new();
        let mut i: usize = 0;
        while i < self.dirs.len()
            invariant
                i <= self.dirs@.len(),
                pv@ == child_prefix(base@),
                forall|k: int|
                    0 <= k < out@.len() ==> is_component(#[trigger] out@[k]@) && self.has_dir(
                        join_path(base@, out@[k]@),
                    ),
                forall|n: Seq<char>, j: int|
                    #![trigger self.dirs@[j], join_path(base@, n)] 0 <= j < i && is_component(n) && self.dirs@[j]@ == join_path(
                        base@,
                        n,
                    ) ==> lines(out@).contains(n),
            decreases self.dirs.len() - i,
        {
            let d = chars_of(self.dirs[i].as_str());
            let ghost dv = self.dirs@[i as int]@;
            if occurs_at_vec(&d, &pv, 0) {
                let tail = string_from(&d, pv.len(), d.len());
                let tv = chars_of(tail.as_str());
                let mut has_sep = false;
                let mut k: usize = 0;
                while k < tv.len()
                    invariant
                        k <= tv@.len(),
                        has_sep == tv@.take(k as int).contains('/'),
                    decreases tv.len() - k,
                {
                    assert(tv@.take(k + 1) == tv@.take(k as int).push(tv@[k as int]));
                    proof {
                        lemma_push_contains(tv@.take(k as int), tv@[k as int], '/');
                    }
                    if tv[k] == '/' {
                        has_sep = true;
                    }
                    k = k + 1;
                }
                assert(tv@.take(tv@.len() as int) == tv@);
                proof {
                    assert(dv == pv@ + tv@) by {
                        assert(dv =~= pv@ + dv.subrange(pv@.len() as int, dv.len() as int));
                    }
                    assert(join_path(base@, tv@) == pv@ + tv@);
                    assert(dir_paths(*self)[i as int] == dv);
                }
                let ghost old_out = out@;
                if tv.len() > 0 && !has_sep {
                    out.push(tail);
                    proof {
                        assert(lines(out@) == lines(old_out).push(tv@));
                        assert forall|n: Seq<char>, j: int|
                            #![trigger self.dirs@[j], join_path(base@, n)] 0 <= j < i + 1 && is_component(n) && self.dirs@[j]@
                                == join_path(base@, n) implies lines(out@).contains(n) by {
                            if j < i {
                                assert(lines(old_out).contains(n));
                                let w = choose|w: int|
                                    0 <= w < lines(old_out).len() && lines(old_out)[w] == n;
                                assert(lines(out@)[w] == n);
                            } else {
                                assert(pv@ + n == pv@ + tv@);
                                assert(n =~= tv@) by {
                                    assert(n == (pv@ + n).skip(pv@.len() as int));
                                    assert(tv@ == (pv@ + tv@).skip(pv@.len() as int));
                                }
                                assert(lines(out@)[old_out.len() as int] == n);
                            }
                        }
                    }
                } else {
                    proof {
                        assert forall|n: Seq<char>, j: int|
                            #![trigger self.dirs@[j], join_path(base@, n)] 0 <= j < i + 1 && is_component(n) && self.dirs@[j]@
                                == join_path(base@, n) implies lines(out@).contains(n) by {
                            if j == i {
                                assert(n =~= tv@) by {
                                    assert(n == (pv@ + n).skip(pv@.len() as int));
                                    assert(tv@ == (pv@ + tv@).skip(pv@.len() as int));
                                }
                            }
                        }
                    }
                }
            } else {
                proof {
                    assert forall|n: Seq<char>, j: int|
                        #![trigger self.dirs@[j], join_path(base@, n)] 0 <= j < i + 1 && is_component(n) && self.dirs@[j]@
                            == join_path(base@, n) implies lines(out@).contains(n) by {
                        if j == i {
                            assert(join_path(base@, n) == pv@ + n);
                            assert(d@.subrange(0, pv@.len() as int) =~= pv@);
                        }
                    }
                }
            }
            i = i + 1;
        }
        proof {
            assert forall|n: Seq<char>|
                is_component(n) && #[trigger] self.has_dir(join_path(base@, n)) implies lines(
                out@,
            ).contains(n) by {
                let j = choose|j: int|
                    0 <= j < dir_paths(*self).len() && dir_paths(*self)[j] == join_path(base@, n);
                assert(self.dirs@[j]@ == join_path(base@, n));
            }
        }
        out
    }
}

pub proof fn lemma_push_contains(s: Seq<char>, c: char, x: char)
    ensures
        s.push(c).contains(x) <==> (s.contains(x) || c == x),
{
    if s.contains(x) {
        let i = choose|i: int| 0 <= i < s.len() && s[i] == x;
        assert(s.push(c)[i] == x);
    }
    if c == x {
        assert(s.push(c)[s.len() as int] == x);
    }
    if s.push(c).contains(x) {
        let i = choose|i: int| 0 <= i < s.push(c).len() && s.push(c)[i] == x;
        if i < s.len() {
            assert(s[i] == x);
        }
    }
}

/// `Path::join` for a relative component.
pub fn join_path_str(base: &str, name: &str) -> (r: String)
    ensures
        r@ == join_path(base@, name@),
{
    proof {
        reveal_strlit("/");
        reveal_strlit("");
    }
    let b = chars_of(base);
    if b.len() == 0 {
        owned(name)
    } else if b[b.len() - 1] == '/' {
        cat(base, name)
    } else {
        cat3(base, "/", name)
    }
}

impl AppContext {
    pub open spec fn shims_dir_spec(self) -> Seq<char> {
        join_path(self.root@, "shims"@)
    }

    pub open spec fn versions_dir_spec(self) -> Seq<char> {
        join_path(self.root@, "versions"@)
    }

    /// `<root>/shims`.
    pub fn shims_dir(&self) -> (r: String)
        ensures
            r@ == self.shims_dir_spec(),
    {
        join_path_str(self.root.as_str(), "shims")
    }

    /// `<root>/versions`.
    pub fn versions_dir(&self) -> (r: String)
        ensures
            r@ == self.versions_dir_spec(),
    {
        join_path_str(self.root.as_str(), "versions")
    }
}

} // verus!
