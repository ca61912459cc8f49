//! What the host probes' raw answers mean: the OS's display name, the Command Line Tools state,
//! the `xcodebuild` version, the Homebrew prefixes and the macOS build environment, and the
//! steps and messages of a Command Line Tools install.
use vstd::prelude::*;

use crate::context::{join_path, join_path_str, FsSnapshot};
use crate::preflight::macos::{
    detect_openssl_prefix, merge_env_flags, merge_path_list, merged_flags, merged_paths, openssl_probe, MacosToolchainState,
};
use crate::strings::{cat, cat3, chars_of, lines, owned, starts_with, starts_with_str, str_eq, string_from, eq_ignore_case, lower_seq, text_lines, text_lines_of, trim, trim_str, trim_start_char, trim_end_char};

verus! {

broadcast use vstd::string::group_string_axioms;

/// The trimmed output of a command that succeeded, when it is not empty.
pub open spec fn command_text(stdout: Seq<char>) -> Option<Seq<char>> {
    if trim(stdout).len() == 0 {
        None
    } else {
        Some(trim(stdout))
    }
}

/// The trimmed output of a command that succeeded, when it is not empty.
pub fn read_command_line(stdout: &str) -> (r: Option<String>)
    ensures
        match r {
            Some(t) => command_text(stdout@) == Some(t@),
            None => command_text(stdout@) is None,
        },
{
    let t = trim_str(stdout);
    if t.as_str().is_empty() {
        None
    } else {
        Some(t)
    }
}

/// `s` without leading and trailing `"`.
pub open spec fn trim_quotes(s: Seq<char>) -> Seq<char> {
    trim_end_char(trim_start_char(s, '"'), '"')
}

/// The `PRETTY_NAME=` value of the first line that sets it, trimmed and unquoted.
pub open spec fn pretty_name_in(ls: Seq<Seq<char>>) -> Option<Seq<char>>
    decreases ls.len(),
{
    if ls.len() == 0 {
        None
    } else if starts_with(ls[0], "PRETTY_NAME="@) {
        Some(trim_quotes(trim(ls[0].skip(12))))
    } else {
        pretty_name_in(ls.drop_first())
    }
}

fn trim_quotes_str(s: &str) -> (r: String)
    ensures
        r@ == trim_quotes(s@),
{
    let v = chars_of(s);
    let mut a: usize = 0;
    assert(v@.skip(0) =~= v@);
    while a < v.len() && v[a] == '"'
        invariant
            a <= v@.len(),
            trim_start_char(v@, '"') == trim_start_char(v@.skip(a as int), '"'),
        decreases v.len() - a,
    {
        assert(v@.skip(a as int).drop_first() =~= v@.skip(a + 1));
        a = a + 1;
    }
    let ghost t = v@.skip(a as int);
    assert(trim_start_char(t, '"') == t);
    let mut b: usize = v.len();
    assert(t.take(t.len() as int) =~= t);
    while b > a && v[b - 1] == '"'
        invariant
            a <= b <= v@.len(),
            t == v@.skip(a as int),
            trim_end_char(t, '"') == trim_end_char(t.take(b - a), '"'),
        decreases b,
    {
        assert(t.take(b - a).drop_last() =~= t.take(b - a - 1));
        b = b - 1;
    }
    assert(t.take(b - a) =~= v@.subrange(a as int, b as int));
    string_from(&v, a, b)
}

/// The display name in `/etc/os-release`, when it names one.
pub fn os_release_pretty_name(contents: &str) -> (r: Option<String>)
    ensures
        match r {
            Some(t) => pretty_name_in(text_lines(contents@)) == Some(t@),
            None => pretty_name_in(text_lines(contents@)) is None,
        },
{
    let ls = text_lines_of(contents);
    let mut i: usize = 0;
    assert(lines(ls@).skip(0) =~= lines(ls@));
    while i < ls.len()
        invariant
            i <= ls@.len(),
            lines(ls@) == text_lines(contents@),
            pretty_name_in(lines(ls@)) == pretty_name_in(lines(ls@).skip(i as int)),
        decreases ls.len() - i,
    {
        assert(lines(ls@).skip(i as int)[0] == ls@[i as int]@);
        assert(lines(ls@).skip(i as int).drop_first() =~= lines(ls@).skip(i + 1));
        proof {
            reveal_strlit("PRETTY_NAME=");
        }
        if starts_with_str(ls[i].as_str(), "PRETTY_NAME=") {
            let lv = chars_of(ls[i].as_str());
            let value = string_from(&lv, 12, lv.len());
            assert(value@ =~= ls@[i as int]@.skip(12));
            let t = trim_str(value.as_str());
            return Some(trim_quotes_str(t.as_str()));
        }
        i = i + 1;
    }
    assert(lines(ls@).skip(i as int) =~= Seq::<Seq<char>>::empty());
    None
}

/// What the display-name probes answered.
pub struct OsNameProbe {
    /// `sw_vers -productName` (macOS).
    pub product: Option<String>,
    /// `sw_vers -productVersion` (macOS).
    pub product_version: Option<String>,
    /// The `OS` environment variable (Windows).
    pub os_env: Option<String>,
    /// `getprop ro.build.version.release` (Android).
    pub android_release: Option<String>,
    /// The contents of `/etc/os-release`, when readable.
    pub os_release: Option<String>,
    pub arch: String,
}

/// The host's display name.
pub open spec fn pretty_name_of(os: Seq<char>, p: OsNameProbe) -> Seq<char> {
    if os == "macos"@ {
        let product = match p.product {
            Some(x) => x@,
            None => "macOS"@,
        };
        match p.product_version {
            Some(v) => if v@.len() == 0 { product } else { product + " "@ + v@ },
            None => product,
        }
    } else if os == "windows"@ {
        match p.os_env {
            Some(x) => x@,
            None => "Windows"@,
        }
    } else if os == "android"@ {
        let release = match p.android_release {
            Some(x) => x@,
            None => "Android"@,
        };
        if lower_seq(release) == lower_seq("android"@) {
            "Android / Termux"@
        } else {
            "Android "@ + release + " (Termux)"@
        }
    } else {
        match p.os_release {
            Some(c) => match pretty_name_in(text_lines(c@)) {
                Some(n) => n,
                None => os + " "@ + p.arch@,
            },
            None => os + " "@ + p.arch@,
        }
    }
}

/// The host's display name: `sw_vers` on macOS, `OS` on Windows, the Android release under
/// Termux, `/etc/os-release` elsewhere, and the OS and architecture as a last resort.
pub fn detect_os_pretty_name(os: &str, p: &OsNameProbe) -> (r: String)
    ensures
        r@ == pretty_name_of(os@, *p),
{
    proof {
        reveal_strlit("android");
    }
    if str_eq(os, "macos") {
        let product = match &p.product {
            Some(x) => owned(x.as_str()),
            None => owned("macOS"),
        };
        match &p.product_version {
            Some(v) => if v.as_str().is_empty() {
                product
            } else {
                cat3(product.as_str(), " ", v.as_str())
            },
            None => product,
        }
    } else if str_eq(os, "windows") {
        match &p.os_env {
            Some(x) => owned(x.as_str()),
            None => owned("Windows"),
        }
    } else if str_eq(os, "android") {
        let release = match &p.android_release {
            Some(x) => owned(x.as_str()),
            None => owned("Android"),
        };
        if eq_ignore_case(release.as_str(), "android") {
            owned("Android / Termux")
        } else {
            cat3("Android ", release.as_str(), " (Termux)")
        }
    } else {
        let fallback = cat3(os, " ", p.arch.as_str());
        match &p.os_release {
            Some(c) => match os_release_pretty_name(c.as_str()) {
                Some(n) => n,
                None => fallback,
            },
            None => fallback,
        }
    }
}

/// How `xcode-select -p` went.
pub enum XcodeSelectOutput {
    /// It ran and succeeded with this output.
    Succeeded(String),
    /// It ran and failed with this error output.
    Failed(String),
    /// It could not be started.
    NotRun(String),
}

/// What the Command Line Tools probe found: (developer directory, usable, detail).
pub open spec fn clt_state(o: XcodeSelectOutput, fs: FsSnapshot) -> (Option<Seq<char>>, bool, Seq<char>) {
    match o {
        XcodeSelectOutput::Succeeded(out) => {
            let path = trim(out@);
            if path.len() == 0 {
                (None, false, "xcode-select -p returned an empty developer directory"@)
            } else {
                let sdk_ok = fs.has_dir(join_path(path, "SDKs"@)) || fs.has_dir(join_path(path, "Platforms/MacOSX.platform/Developer/SDKs"@))
                    || fs.has_dir("/Library/Developer/CommandLineTools/SDKs"@);
                if fs.has_dir(path) || fs.has_file(path) {
                    (Some(path), true, if sdk_ok {
                        "Xcode/CLT developer directory available at "@ + path
                    } else {
                        "Xcode/CLT developer directory found at "@ + path + "; SDK layout looks incomplete"@
                    })
                } else {
                    (Some(path), false, "xcode-select points to "@ + path + ", but that path is missing; reinstall Command Line Tools"@)
                }
            }
        },
        XcodeSelectOutput::Failed(err) => (None, false, if trim(err@).len() == 0 {
            "Xcode Command Line Tools are not installed (`xcode-select -p` failed)"@
        } else {
            "Xcode Command Line Tools are not ready: "@ + trim(err@)
        }),
        XcodeSelectOutput::NotRun(e) => (None, false, "unable to run xcode-select: "@ + e@),
    }
}

/// The Command Line Tools state from the answer of `xcode-select -p`.
pub fn detect_xcode_clt(o: &XcodeSelectOutput, fs: &FsSnapshot) -> (r: (Option<String>, bool, String))
    ensures
        (match r.0 {
            Some(p) => Some(p@),
            None => None,
        }, r.1, r.2@) == clt_state(*o, *fs),
{
    match o {
        XcodeSelectOutput::Succeeded(out) => {
            let path = trim_str(out.as_str());
            if path.as_str().is_empty() {
                return (None, false, owned("xcode-select -p returned an empty developer directory"));
            }
            let a = join_path_str(path.as_str(), "SDKs");
            let b = join_path_str(path.as_str(), "Platforms/MacOSX.platform/Developer/SDKs");
            let sdk_ok = fs.is_dir(a.as_str()) || fs.is_dir(b.as_str()) || fs.is_dir("/Library/Developer/CommandLineTools/SDKs");
            if fs.is_dir(path.as_str()) || fs.is_file(path.as_str()) {
                let detail = if sdk_ok {
                    cat("Xcode/CLT developer directory available at ", path.as_str())
                } else {
                    cat3("Xcode/CLT developer directory found at ", path.as_str(), "; SDK layout looks incomplete")
                };
                (Some(path), true, detail)
            } else {
                let detail = cat3("xcode-select points to ", path.as_str(), ", but that path is missing; reinstall Command Line Tools");
                (Some(path), false, detail)
            }
        },
        XcodeSelectOutput::Failed(err) => {
            let e = trim_str(err.as_str());
            if e.as_str().is_empty() {
                (None, false, owned("Xcode Command Line Tools are not installed (`xcode-select -p` failed)"))
            } else {
                (None, false, cat("Xcode Command Line Tools are not ready: ", e.as_str()))
            }
        },
        XcodeSelectOutput::NotRun(e) => (None, false, cat("unable to run xcode-select: ", e.as_str())),
    }
}

/// The `xcodebuild -version` answer: its first line, trimmed.
pub open spec fn xcodebuild_version_of(stdout: Seq<char>) -> Option<Seq<char>> {
    if text_lines(stdout).len() == 0 {
        None
    } else {
        Some(trim(text_lines(stdout)[0]))
    }
}

/// The `xcodebuild` version from the output of `xcodebuild -version` that succeeded.
pub fn detect_xcodebuild_version(stdout: &str) -> (r: Option<String>)
    ensures
        match r {
            Some(v) => xcodebuild_version_of(stdout@) == Some(v@),
            None => xcodebuild_version_of(stdout@) is None,
        },
{
    let ls = text_lines_of(stdout);
    if ls.len() == 0 {
        None
    } else {
        assert(lines(ls@)[0] == ls@[0]@);
        Some(trim_str(ls[0].as_str()))
    }
}

/// `brew --prefix <formula>` as a prefix: its trimmed output, when not empty and present.
pub open spec fn brew_prefix_of(stdout: Option<Seq<char>>, fs: FsSnapshot) -> Option<Seq<char>> {
    match stdout {
        Some(out) => {
            let p = trim(out);
            if p.len() > 0 && (fs.has_dir(p) || fs.has_file(p)) {
                Some(p)
            } else {
                None
            }
        },
        None => None,
    }
}

/// The prefix Homebrew answered for a formula (`None` when the command failed).
pub fn brew_prefix(stdout: Option<&str>, fs: &FsSnapshot) -> (r: Option<String>)
    ensures
        match r {
            Some(p) => brew_prefix_of(match stdout { Some(s) => Some(s@), None => None }, *fs) == Some(p@),
            None => brew_prefix_of(match stdout { Some(s) => Some(s@), None => None }, *fs) is None,
        },
{
    match stdout {
        Some(out) => {
            let p = trim_str(out);
            if !p.as_str().is_empty() && (fs.is_dir(p.as_str()) || fs.is_file(p.as_str())) {
                Some(p)
            } else {
                None
            }
        },
        None => None,
    }
}

/// A formula's directory under the usual Homebrew roots.
pub open spec fn opt_fallback(fs: FsSnapshot, formula: Seq<char>) -> Option<Seq<char>> {
    if fs.has_dir(join_path("/opt/homebrew/opt"@, formula)) {
        Some(join_path("/opt/homebrew/opt"@, formula))
    } else if fs.has_dir(join_path("/usr/local/opt"@, formula)) {
        Some(join_path("/usr/local/opt"@, formula))
    } else {
        None
    }
}

/// A formula's directory under the usual Homebrew roots.
pub fn homebrew_opt_fallback(fs: &FsSnapshot, formula: &str) -> (r: Option<String>)
    ensures
        match r {
            Some(p) => opt_fallback(*fs, formula@) == Some(p@),
            None => opt_fallback(*fs, formula@) is None,
        },
{
    let a = join_path_str("/opt/homebrew/opt", formula);
    if fs.is_dir(a.as_str()) {
        return Some(a);
    }
    let b = join_path_str("/usr/local/opt", formula);
    if fs.is_dir(b.as_str()) {
        return Some(b);
    }
    None
}

/// The build dependencies whose Homebrew prefixes feed the flags, in order.
pub open spec fn build_formulas() -> Seq<Seq<char>> {
    seq!["readline"@, "sqlite"@, "xz"@, "zlib"@, "bzip2"@]
}

/// The flags and `pkg-config` directories of one dependency prefix: (cpp, ld, pkg).
pub open spec fn formula_flags(fs: FsSnapshot, q: Seq<char>) -> (Seq<Seq<char>>, Seq<Seq<char>>, Seq<Seq<char>>) {
    let inc = join_path(q, "include"@);
    let lib = join_path(q, "lib"@);
    let pkg = join_path(lib, "pkgconfig"@);
    (
        if fs.has_dir(inc) { seq!["-I"@ + inc] } else { seq![] },
        if fs.has_dir(lib) { seq!["-L"@ + lib] } else { seq![] },
        if fs.has_dir(pkg) { seq![pkg] } else { seq![] },
    )
}

/// The flags of the dependencies: each one's Homebrew prefix, else its usual directory.
pub open spec fn deps_flags(fs: FsSnapshot, brew: Seq<Option<Seq<char>>>, formulas: Seq<Seq<char>>) -> (Seq<Seq<char>>, Seq<Seq<char>>, Seq<Seq<char>>)
    decreases formulas.len(),
{
    if formulas.len() == 0 || brew.len() < formulas.len() {
        (seq![], seq![], seq![])
    } else {
        let (c, l, p) = deps_flags(fs, brew, formulas.drop_last());
        let k = formulas.len() - 1;
        let prefix = match brew[k] {
            Some(b) => Some(b),
            None => opt_fallback(fs, formulas[k]),
        };
        match prefix {
            Some(q) => {
                let (c2, l2, p2) = formula_flags(fs, q);
                (c + c2, l + l2, p + p2)
            },
            None => (c, l, p),
        }
    }
}

/// The flags contributed by OpenSSL: (cpp, ld, pkg).
pub open spec fn openssl_flags(fs: FsSnapshot, openssl: Option<Seq<char>>) -> (Seq<Seq<char>>, Seq<Seq<char>>, Seq<Seq<char>>) {
    match openssl {
        Some(p) => (
            seq!["-I"@ + p + "/include"@],
            seq!["-L"@ + p + "/lib"@],
            if fs.has_dir(join_path(p, "lib/pkgconfig"@)) { seq![join_path(p, "lib/pkgconfig"@)] } else { seq![] },
        ),
        None => (seq![], seq![], seq![]),
    }
}

/// The variables a macOS source build runs with: `CPPFLAGS`, `LDFLAGS` and `PKG_CONFIG_PATH`,
/// each merged into the inherited value and only when there is something to add.
pub open spec fn macos_env(fs: FsSnapshot, openssl: Option<Seq<char>>, brew: Seq<Option<Seq<char>>>, cpp: Option<Seq<char>>, ld: Option<Seq<char>>, pkg: Option<Seq<char>>) -> Seq<(Seq<char>, Seq<char>)> {
    let (c1, l1, p1) = openssl_flags(fs, openssl);
    let (c2, l2, p2) = deps_flags(fs, brew, build_formulas());
    let c = c1 + c2;
    let l = l1 + l2;
    let p = p1 + p2;
    (if c.len() > 0 { seq![("CPPFLAGS"@, merged_flags(cpp, c))] } else { seq![] })
        + (if l.len() > 0 { seq![("LDFLAGS"@, merged_flags(ld, l))] } else { seq![] })
        + (if p.len() > 0 { seq![("PKG_CONFIG_PATH"@, merged_paths(pkg, p))] } else { seq![] })
}

fn push_all(v: &mut Vec<String>, Ghost(items): Ghost<Seq<Seq<char>>>, a: Option<String>)
    requires
        items.len() <= 1,
        items.len() == 1 <==> a is Some,
        a matches Some(x) ==> items[0] == x@,
    ensures
        lines(final(v)@) == lines(old(v)@) + items,
{
    let ghost before = lines(v@);
    match a {
        Some(x) => {
            v.push(x);
            assert(lines(v@) =~= before + items);
        },
        None => {
            assert(lines(v@) =~= before + items);
        },
    }
}

fn opt_str_view(o: &Option<String>) -> (r: Option<&str>)
    ensures
        match r {
            Some(s) => *o matches Some(x) && s@ == x@,
            None => o is None,
        },
{
    match o {
        Some(x) => Some(x.as_str()),
        None => None,
    }
}

/// The flags one dependency adds, given the triple before it.
pub open spec fn dep_step(fs: FsSnapshot, acc: (Seq<Seq<char>>, Seq<Seq<char>>, Seq<Seq<char>>), brew: Option<Seq<char>>, formula: Seq<char>) -> (Seq<Seq<char>>, Seq<Seq<char>>, Seq<Seq<char>>) {
    let prefix = match brew {
        Some(b) => Some(b),
        None => opt_fallback(fs, formula),
    };
    match prefix {
        Some(q) => {
            let (c2, l2, p2) = formula_flags(fs, q);
            (acc.0 + c2, acc.1 + l2, acc.2 + p2)
        },
        None => acc,
    }
}

proof fn lemma_deps_step(fs: FsSnapshot, brew: Seq<Option<Seq<char>>>, f: Seq<Seq<char>>, k: int)
    requires
        1 <= k <= f.len(),
        brew.len() >= f.len(),
    ensures
        deps_flags(fs, brew, f.take(k)) == dep_step(fs, deps_flags(fs, brew, f.take(k - 1)), brew[k - 1], f[k - 1]),
{
    assert(f.take(k).drop_last() =~= f.take(k - 1));
    assert(f.take(k)[k - 1] == f[k - 1]);
}

fn add_formula_flags(c: &mut Vec<String>, l: &mut Vec<String>, p: &mut Vec<String>, fs: &FsSnapshot, brew: &Option<String>, formula: &str)
    ensures
        (lines(final(c)@), lines(final(l)@), lines(final(p)@)) == dep_step(*fs, (lines(old(c)@), lines(old(l)@), lines(old(p)@)),
            match *brew { Some(s) => Some(s@), None => None }, formula@),
{
    let prefix = match brew {
        Some(b) => Some(owned(b.as_str())),
        None => homebrew_opt_fallback(fs, formula),
    };
    match prefix {
        Some(q) => {
            let inc = join_path_str(q.as_str(), "include");
            let lib = join_path_str(q.as_str(), "lib");
            let pk = join_path_str(lib.as_str(), "pkgconfig");
            let ghost ff = formula_flags(*fs, q@);
            push_all(c, Ghost(ff.0), if fs.is_dir(inc.as_str()) { Some(cat("-I", inc.as_str())) } else { None });
            push_all(l, Ghost(ff.1), if fs.is_dir(lib.as_str()) { Some(cat("-L", lib.as_str())) } else { None });
            push_all(p, Ghost(ff.2), if fs.is_dir(pk.as_str()) { Some(pk) } else { None });
        },
        None => {},
    }
}

fn append_lines(v: &mut Vec<String>, w: &Vec<String>)
    ensures
        lines(final(v)@) == lines(old(v)@) + lines(w@),
{
    let ghost start = lines(v@);
    let mut i: usize = 0;
    while i < w.len()
        invariant
            i <= w@.len(),
            lines(v@) == start + lines(w@).take(i as int),
        decreases w.len() - i,
    {
        let ghost before = lines(v@);
        v.push(owned(w[i].as_str()));
        assert(lines(v@) =~= before.push(w@[i as int]@));
        assert(lines(w@).take(i + 1) =~= lines(w@).take(i as int).push(w@[i as int]@));
        i = i + 1;
    }
    assert(lines(w@).take(w@.len() as int) =~= lines(w@));
}

#[verifier::rlimit(40)]
fn dependency_flags(fs: &FsSnapshot, brew: &Vec<Option<String>>) -> (r: (Vec<String>, Vec<String>, Vec<String>))
    requires
        brew@.len() == 5,
    ensures
        (lines(r.0@), lines(r.1@), lines(r.2@)) == deps_flags(*fs, brew@.map_values(|o: Option<String>| match o { Some(s) => Some(s@), None => None }), build_formulas()),
{
    let ghost bv = brew@.map_values(|o: Option<String>| match o { Some(s) => Some(s@), None => None });
    let ghost f = build_formulas();
    let mut c: Vec<String> = Vec::new();
    let mut l: Vec<String> = Vec::new();
    let mut p: Vec<String> = Vec::new();
    proof {
        assert(f.take(0) =~= Seq::<Seq<char>>::empty());
        assert((lines(c@), lines(l@), lines(p@)) == deps_flags(*fs, bv, f.take(0)));
    }
    add_formula_flags(&mut c, &mut l, &mut p, fs, &brew[0], "readline");
    proof {
        lemma_deps_step(*fs, bv, f, 1);
    }
    add_formula_flags(&mut c, &mut l, &mut p, fs, &brew[1], "sqlite");
    proof {
        lemma_deps_step(*fs, bv, f, 2);
    }
    add_formula_flags(&mut c, &mut l, &mut p, fs, &brew[2], "xz");
    proof {
        lemma_deps_step(*fs, bv, f, 3);
    }
    add_formula_flags(&mut c, &mut l, &mut p, fs, &brew[3], "zlib");
    proof {
        lemma_deps_step(*fs, bv, f, 4);
    }
    add_formula_flags(&mut c, &mut l, &mut p, fs, &brew[4], "bzip2");
    proof {
        lemma_deps_step(*fs, bv, f, 5);
        assert(f.take(5) =~= f);
    }
    (c, l, p)
}

/// The variables a macOS source build runs with, from the OpenSSL prefix, Homebrew's answer for
/// each of the build dependencies (in the order of `build_formulas`), and the inherited values.
pub fn macos_source_build_env(fs: &FsSnapshot, openssl: Option<&str>, brew: &Vec<Option<String>>, cppflags: Option<&str>, ldflags: Option<&str>, pkg_config_path: Option<&str>) -> (r: Vec<(String, String)>)
    requires
        brew@.len() == 5,
    ensures
        r@.map_values(|p: (String, String)| (p.0@, p.1@)) == macos_env(*fs,
            match openssl { Some(s) => Some(s@), None => None },
            brew@.map_values(|o: Option<String>| match o { Some(s) => Some(s@), None => None }),
            match cppflags { Some(s) => Some(s@), None => None },
            match ldflags { Some(s) => Some(s@), None => None },
            match pkg_config_path { Some(s) => Some(s@), None => None }),
{
    let ghost bv = brew@.map_values(|o: Option<String>| match o { Some(s) => Some(s@), None => None });
    let mut c: Vec<String> = Vec::new();
    let mut l: Vec<String> = Vec::new();
    let mut p: Vec<String> = Vec::new();
    let ghost ov = match openssl { Some(s) => Some(s@), None => None };
    match openssl {
        Some(pre) => {
            c.push(cat3("-I", pre, "/include"));
            l.push(cat3("-L", pre, "/lib"));
            let pk = join_path_str(pre, "lib/pkgconfig");
            if fs.is_dir(pk.as_str()) {
                p.push(pk);
            }
        },
        None => {},
    }
    assert(lines(c@) == openssl_flags(*fs, ov).0);
    assert(lines(l@) == openssl_flags(*fs, ov).1);
    assert(lines(p@) == openssl_flags(*fs, ov).2);
    let (dc, dl, dp) = dependency_flags(fs, brew);
    append_lines(&mut c, &dc);
    append_lines(&mut l, &dl);
    append_lines(&mut p, &dp);
    let mut out: Vec<(String, String)> = Vec::new();
    if c.len() > 0 {
        out.push((owned("CPPFLAGS"), merge_env_flags(cppflags, &c)));
    }
    if l.len() > 0 {
        out.push((owned("LDFLAGS"), merge_env_flags(ldflags, &l)));
    }
    if p.len() > 0 {
        out.push((owned("PKG_CONFIG_PATH"), merge_path_list(pkg_config_path, &p)));
    }
    assert(out@.map_values(|q: (String, String)| (q.0@, q.1@)) =~= macos_env(*fs, ov, bv,
        match cppflags { Some(s) => Some(s@), None => None },
        match ldflags { Some(s) => Some(s@), None => None },
        match pkg_config_path { Some(s) => Some(s@), None => None }));
    out
}

/// The first step of a Command Line Tools install: update by label when one is pending, else
/// report that the tools are fine (when they are), else start `xcode-select --install`.
pub enum CltStep {
    SoftwareUpdate(String),
    AlreadyCurrent,
    XcodeSelectInstall,
}

/// The first step of a Command Line Tools install.
pub fn clt_install_step(clt_ok: bool, label: Option<&str>) -> (r: CltStep)
    ensures
        match label {
            Some(l) => r matches CltStep::SoftwareUpdate(x) && x@ == l@,
            None => if clt_ok { r is AlreadyCurrent } else { r is XcodeSelectInstall },
        },
{
    match label {
        Some(l) => CltStep::SoftwareUpdate(owned(l)),
        None => if clt_ok { CltStep::AlreadyCurrent } else { CltStep::XcodeSelectInstall },
    }
}

/// The message when the tools are fine and nothing is pending.
pub fn clt_already_current() -> (r: &'static str)
    ensures
        r@ == "Xcode Command Line Tools already look installed; no CLT softwareupdate was pending"@,
{
    "Xcode Command Line Tools already look installed; no CLT softwareupdate was pending"
}

/// The outcome of `softwareupdate -i <label>`: `None` when it could not be started (with the
/// error), else whether it succeeded and its error output.
pub fn clt_update_result(clt_ok: bool, label: &str, launch_error: Option<&str>, success: bool, stderr: &str) -> (r: Result<String, String>)
    ensures
        launch_error matches Some(e) ==> (r matches Err(m) && m@ == "failed to run softwareupdate: "@ + e@),
        launch_error is None && success ==> (r matches Ok(m) && m@ == (if clt_ok {
            "Installed/updated macOS Command Line Tools via softwareupdate ("@
        } else {
            "Installed macOS Command Line Tools via softwareupdate ("@
        }) + label@ + ")"@),
        launch_error is None && !success ==> (r matches Err(m) && m@ == (if clt_ok {
            "softwareupdate could not install `"@ + label@ + "`: "@ + trim(stderr@)
        } else {
            "softwareupdate failed for `"@ + label@ + "`: "@ + trim(stderr@)
                + ". Fallback: run `xcode-select --install` (may show a system dialog)."@
        })),
{
    match launch_error {
        Some(e) => Err(cat("failed to run softwareupdate: ", e)),
        None => {
            if success {
                let head = if clt_ok {
                    "Installed/updated macOS Command Line Tools via softwareupdate ("
                } else {
                    "Installed macOS Command Line Tools via softwareupdate ("
                };
                Ok(cat3(head, label, ")"))
            } else {
                let t = trim_str(stderr);
                if clt_ok {
                    let a = cat3("softwareupdate could not install `", label, "`: ");
                    Err(cat(a.as_str(), t.as_str()))
                } else {
                    let a = cat3("softwareupdate failed for `", label, "`: ");
                    Err(cat3(a.as_str(), t.as_str(), ". Fallback: run `xcode-select --install` (may show a system dialog)."))
                }
            }
        },
    }
}

/// The outcome of `xcode-select --install`.
pub fn clt_xcode_select_result(launch_error: Option<&str>, success: bool, stderr: &str) -> (r: Result<String, String>)
    ensures
        launch_error matches Some(e) ==> (r matches Err(m) && m@ == "failed to run xcode-select --install: "@ + e@),
        launch_error is None && success ==> (r matches Ok(m) && m@ == "Triggered `xcode-select --install`. macOS may show a system dialog to finish Command Line Tools setup."@),
        launch_error is None && !success ==> (r matches Err(m) && m@ == "unable to auto-install Command Line Tools ("@ + trim(stderr@)
            + "). Install the latest Xcode-compatible Command Line Tools for this macOS release, then re-run `pyenv preflight`."@),
{
    match launch_error {
        Some(e) => Err(cat("failed to run xcode-select --install: ", e)),
        None => {
            if success {
                Ok(owned("Triggered `xcode-select --install`. macOS may show a system dialog to finish Command Line Tools setup."))
            } else {
                let t = trim_str(stderr);
                Err(cat3("unable to auto-install Command Line Tools (", t.as_str(),
                    "). Install the latest Xcode-compatible Command Line Tools for this macOS release, then re-run `pyenv preflight`."))
            }
        },
    }
}

/// A text option as an option of its characters.
pub open spec fn opt_text(o: Option<String>) -> Option<Seq<char>> {
    match o {
        Some(s) => Some(s@),
        None => None,
    }
}

/// The macOS toolchain from what was probed: the answer of `xcode-select -p`, the output of
/// `xcodebuild -version` when it succeeded, whether Homebrew is there, and the OpenSSL prefixes
/// Homebrew named.
pub fn inspect_macos_toolchain(
    xcode: &XcodeSelectOutput,
    xcodebuild_stdout: Option<&str>,
    brew_available: bool,
    brew_prefixes: &Vec<String>,
    fs: &FsSnapshot,
) -> (r: MacosToolchainState)
    ensures
        (opt_text(r.clt_path), r.clt_ok, r.clt_detail@) == clt_state(*xcode, *fs),
        opt_text(r.xcodebuild_version) == match xcodebuild_stdout {
            Some(s) => xcodebuild_version_of(s@),
            None => None,
        },
        r.brew_available == brew_available,
        (opt_text(r.openssl_prefix), r.openssl_detail@) == openssl_probe(lines(brew_prefixes@), brew_available, *fs),
{
    let (clt_path, clt_ok, clt_detail) = detect_xcode_clt(xcode, fs);
    let xcodebuild_version = match xcodebuild_stdout {
        Some(s) => detect_xcodebuild_version(s),
        None => None,
    };
    let (openssl_prefix, openssl_detail) = detect_openssl_prefix(brew_prefixes, brew_available, fs);
    MacosToolchainState { clt_path, clt_ok, clt_detail, xcodebuild_version, openssl_prefix, openssl_detail, brew_available }
}

} // verus!
