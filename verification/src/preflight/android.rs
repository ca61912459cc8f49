//! Termux/Android source-build readiness: the Termux prefix, the packages and headers a
//! CPython build needs there, and the build environment for an API level.
use vstd::prelude::*;

use crate::context::{join_path, join_path_str, FsSnapshot};
use crate::hooks::pair_views;
use crate::self_update::versioning::{parse_u64, parse_u64_str};
use crate::strings::{
    cat, cat3, contains_seq, contains_str, dec, join, join_strings, lines, owned, split_char,
    split_on, str_eq, trim, trim_str, u64_text,
};

verus! {

broadcast use vstd::string::group_string_axioms;

/// What the Termux toolchain probe found.
pub struct AndroidToolchainState {
    pub is_termux: bool,
    pub prefix: Option<String>,
    pub api_level: Option<u32>,
    pub ready: bool,
    pub missing: Vec<String>,
    pub detail: String,
}

/// The usual Termux prefix.
pub open spec fn termux_default_prefix() -> Seq<char> {
    "/data/data/com.termux/files/usr"@
}

/// Running under Termux: `TERMUX_VERSION` is set, `PREFIX` points into the Termux data
/// directory, or the Termux prefix exists.
pub fn is_termux_environment(termux_version_set: bool, env_prefix: Option<&str>, fs: &FsSnapshot) -> (r: bool)
    ensures
        r == (termux_version_set || (env_prefix is Some && contains_seq(env_prefix.unwrap()@, "/data/data/com.termux"@))
            || fs.has_dir(termux_default_prefix())),
{
    if termux_version_set {
        return true;
    }
    match env_prefix {
        Some(p) => {
            if contains_str(p, "/data/data/com.termux") {
                return true;
            }
        },
        None => {},
    }
    fs.is_dir("/data/data/com.termux/files/usr")
}

/// The Termux prefix: `PREFIX` when it is a directory, else the usual prefix when present.
pub fn resolve_termux_prefix(env_prefix: Option<&str>, fs: &FsSnapshot) -> (r: Option<String>)
    ensures
        env_prefix is Some && fs.has_dir(env_prefix.unwrap()@) ==> (r matches Some(p) && p@ == env_prefix.unwrap()@),
        !(env_prefix is Some && fs.has_dir(env_prefix.unwrap()@)) ==> (if fs.has_dir(termux_default_prefix()) {
            r matches Some(p) && p@ == termux_default_prefix()
        } else {
            r is None
        }),
{
    match env_prefix {
        Some(p) => {
            if fs.is_dir(p) {
                return Some(owned(p));
            }
        },
        None => {},
    }
    if fs.is_dir("/data/data/com.termux/files/usr") {
        Some(owned("/data/data/com.termux/files/usr"))
    } else {
        None
    }
}

/// A value that parses as an API level (`u32`) once trimmed.
pub open spec fn api_value(v: Seq<char>) -> Option<u32> {
    match parse_u64(trim(v)) {
        Some(n) => if n <= u32::MAX { Some(n as u32) } else { None },
        None => None,
    }
}

/// The first of the values that parses as an API level.
pub open spec fn first_api(values: Seq<Option<Seq<char>>>) -> Option<u32>
    decreases values.len(),
{
    if values.len() == 0 {
        None
    } else {
        match values[0] {
            Some(v) => match api_value(v) {
                Some(n) => Some(n),
                None => first_api(values.drop_first()),
            },
            None => first_api(values.drop_first()),
        }
    }
}

/// The views of optional texts.
pub open spec fn opt_views(v: Seq<Option<String>>) -> Seq<Option<Seq<char>>> {
    v.map_values(|o: Option<String>| match o {
        Some(s) => Some(s@),
        None => None,
    })
}

/// The API level from the values of `TERMUX_PKG_API_LEVEL`, `ANDROID_API_LEVEL` and
/// `TERMUX_API_LEVEL`, in that order.
pub fn api_level_from_env(values: &Vec<Option<String>>) -> (r: Option<u32>)
    ensures
        r == first_api(opt_views(values@)),
{
    let mut i: usize = 0;
    assert(opt_views(values@).skip(0) =~= opt_views(values@));
    while i < values.len()
        invariant
            i <= values@.len(),
            first_api(opt_views(values@)) == first_api(opt_views(values@).skip(i as int)),
        decreases values.len() - i,
    {
        assert(opt_views(values@).skip(i as int).drop_first() =~= opt_views(values@).skip(i + 1));
        match &values[i] {
            Some(v) => {
                let t = trim_str(v.as_str());
                match parse_u64_str(t.as_str()) {
                    Some(n) => {
                        if n <= 4294967295u64 {
                            return Some(n as u32);
                        }
                    },
                    None => {},
                }
            },
            None => {},
        }
        i = i + 1;
    }
    None
}

/// The Termux packages a CPython build needs.
pub open spec fn termux_packages() -> Seq<Seq<char>> {
    seq!["clang"@, "make"@, "pkg-config"@, "libffi"@, "openssl"@, "readline"@, "ncurses"@, "sqlite"@, "zlib"@, "bzip2"@, "xz"@]
}

/// The Termux packages a CPython build needs.
pub fn termux_required_pkg_packages() -> (r: Vec<String>)
    ensures
        lines(r@) == termux_packages(),
{
    let mut v: Vec<String> = Vec::new();
    v.push(owned("clang"));
    v.push(owned("make"));
    v.push(owned("pkg-config"));
    v.push(owned("libffi"));
    v.push(owned("openssl"));
    v.push(owned("readline"));
    v.push(owned("ncurses"));
    v.push(owned("sqlite"));
    v.push(owned("zlib"));
    v.push(owned("bzip2"));
    v.push(owned("xz"));
    assert(lines(v@) =~= termux_packages());
    v
}

/// The file under the prefix that shows each package is installed, in package order.
pub open spec fn package_files() -> Seq<Seq<char>> {
    seq![
        "bin/clang"@, "bin/make"@, "bin/pkg-config"@, "include/ffi.h"@, "include/openssl/ssl.h"@,
        "include/readline/readline.h"@, "include/ncurses.h"@, "include/sqlite3.h"@, "include/zlib.h"@,
        "include/bzlib.h"@, "include/lzma.h"@,
    ]
}

/// The other file that also shows a package is installed (for libffi and ncurses).
pub open spec fn package_alt_file(name: Seq<char>) -> Option<Seq<char>> {
    if name == "libffi"@ {
        Some("include/ffi/ffi.h"@)
    } else if name == "ncurses"@ {
        Some("include/ncursesw/ncurses.h"@)
    } else {
        None
    }
}

/// The package is present under the prefix.
pub open spec fn package_present(fs: FsSnapshot, prefix: Seq<char>, k: int) -> bool {
    fs.has_file(join_path(prefix, package_files()[k])) || match package_alt_file(termux_packages()[k]) {
        Some(alt) => fs.has_file(join_path(prefix, alt)),
        None => false,
    }
}

/// The missing packages, in package order.
pub open spec fn missing_packages(fs: FsSnapshot, prefix: Seq<char>, n: int) -> Seq<Seq<char>>
    decreases n,
{
    if n <= 0 {
        seq![]
    } else if package_present(fs, prefix, n - 1) {
        missing_packages(fs, prefix, n - 1)
    } else {
        missing_packages(fs, prefix, n - 1).push(termux_packages()[n - 1])
    }
}

/// The readiness line for a complete prefix.
pub open spec fn ready_detail(prefix: Seq<char>, api: Option<u32>) -> Seq<char> {
    "Termux source-build prefix ready at "@ + prefix + match api {
        Some(l) => " (API "@ + dec(l as nat) + ")"@,
        None => seq![],
    }
}

/// The readiness line when packages are missing.
pub open spec fn missing_detail(missing: Seq<Seq<char>>) -> Seq<char> {
    "Termux is missing packages/headers for: "@ + join(missing, ", "@)
        + ". Run `pkg install clang make pkg-config libffi openssl readline ncurses sqlite zlib bzip2 xz -y`"@
}

/// The message when there is no Termux prefix.
pub open spec fn no_prefix_detail() -> Seq<char> {
    "Termux PREFIX was not found; open Termux and ensure $PREFIX points at /data/data/com.termux/files/usr"@
}

/// What the toolchain probe reports: off Termux and Android nothing is needed; without a
/// prefix the build is blocked; else the missing packages decide.
pub fn inspect_android_toolchain(is_termux: bool, on_android: bool, prefix: Option<String>, api_level: Option<u32>, fs: &FsSnapshot) -> (r: AndroidToolchainState)
    ensures
        !is_termux && !on_android ==> !r.is_termux && r.prefix is None && r.api_level is None && r.ready && r.missing@.len() == 0
            && r.detail@ == "not running under Termux/Android"@,
        (is_termux || on_android) && prefix is None ==> r.is_termux == is_termux && r.prefix is None && r.api_level == api_level && !r.ready
            && lines(r.missing@) == seq!["termux-prefix"@] && r.detail@ == no_prefix_detail(),
        (is_termux || on_android) && prefix is Some ==> {
            let p = prefix.unwrap()@;
            let m = missing_packages(*fs, p, 11);
            &&& r.is_termux
            &&& r.prefix == prefix
            &&& r.api_level == api_level
            &&& lines(r.missing@) == m
            &&& r.ready == (m.len() == 0)
            &&& r.detail@ == (if m.len() == 0 { ready_detail(p, api_level) } else { missing_detail(m) })
        },
{
    if !is_termux && !on_android {
        return AndroidToolchainState {
            is_termux: false,
            prefix: None,
            api_level: None,
            ready: true,
            missing: Vec::new(),
            detail: owned("not running under Termux/Android"),
        };
    }
    let p = match prefix {
        None => {
            let mut m: Vec<String> = Vec::new();
            m.push(owned("termux-prefix"));
            assert(lines(m@) =~= seq!["termux-prefix"@]);
            return AndroidToolchainState {
                is_termux,
                prefix: None,
                api_level,
                ready: false,
                missing: m,
                detail: owned("Termux PREFIX was not found; open Termux and ensure $PREFIX points at /data/data/com.termux/files/usr"),
            };
        },
        Some(p) => p,
    };
    let names = termux_required_pkg_packages();
    let mut files: Vec<String> = Vec::new();
    files.push(owned("bin/clang"));
    files.push(owned("bin/make"));
    files.push(owned("bin/pkg-config"));
    files.push(owned("include/ffi.h"));
    files.push(owned("include/openssl/ssl.h"));
    files.push(owned("include/readline/readline.h"));
    files.push(owned("include/ncurses.h"));
    files.push(owned("include/sqlite3.h"));
    files.push(owned("include/zlib.h"));
    files.push(owned("include/bzlib.h"));
    files.push(owned("include/lzma.h"));
    assert(lines(files@) =~= package_files());
    assert(files@.len() == lines(files@).len());
    assert(names@.len() == lines(names@).len());
    let mut missing: Vec<String> = Vec::new();
    let mut k: usize = 0;
    while k < 11
        invariant
            k <= 11,
            names@.len() == 11,
            files@.len() == 11,
            lines(names@) == termux_packages(),
            lines(files@) == package_files(),
            lines(missing@) == missing_packages(*fs, p@, k as int),
        decreases 11 - k,
    {
        let main = join_path_str(p.as_str(), files[k].as_str());
        let mut present = fs.is_file(main.as_str());
        assert(lines(files@)[k as int] == files@[k as int]@);
        assert(lines(names@)[k as int] == names@[k as int]@);
        proof {
            reveal_strlit("libffi");
            reveal_strlit("ncurses");
        }
        if !present {
            if str_eq(names[k].as_str(), "libffi") {
                let alt = join_path_str(p.as_str(), "include/ffi/ffi.h");
                present = fs.is_file(alt.as_str());
            } else if str_eq(names[k].as_str(), "ncurses") {
                let alt = join_path_str(p.as_str(), "include/ncursesw/ncurses.h");
                present = fs.is_file(alt.as_str());
            }
        }
        assert(present == package_present(*fs, p@, k as int));
        if !present {
            let ghost before = lines(missing@);
            missing.push(names[k].clone());
            assert(lines(missing@) =~= before.push(termux_packages()[k as int]));
        }
        k = k + 1;
    }
    let ready = missing.len() == 0;
    let detail = if ready {
        let head = cat("Termux source-build prefix ready at ", p.as_str());
        match api_level {
            Some(l) => {
                let t = u64_text(l as u64);
                cat(head.as_str(), cat3(" (API ", t.as_str(), ")").as_str())
            },
            None => {
                proof {
                    assert(head@ =~= head@ + Seq::<char>::empty());
                }
                head
            },
        }
    } else {
        let list = join_strings(&missing, ", ");
        cat3("Termux is missing packages/headers for: ", list.as_str(), ". Run `pkg install clang make pkg-config libffi openssl readline ncurses sqlite zlib bzip2 xz -y`")
    };
    AndroidToolchainState { is_termux: true, prefix: Some(p), api_level, ready, missing, detail }
}

/// A non-blank existing value (trimmed) followed by the addition, or the addition alone.
pub open spec fn appended_flag(existing: Option<Seq<char>>, addition: Seq<char>) -> Seq<char> {
    match existing {
        Some(e) => if trim(e).len() > 0 {
            trim(e) + " "@ + addition
        } else {
            addition
        },
        None => addition,
    }
}

/// Appends a flag to an existing flags value.
pub fn append_shell_flag(existing: Option<&str>, addition: &str) -> (r: String)
    ensures
        r@ == appended_flag(match existing {
            Some(e) => Some(e@),
            None => None,
        }, addition@),
{
    match existing {
        Some(e) => {
            let t = trim_str(e);
            if !t.as_str().is_empty() {
                return cat3(t.as_str(), " ", addition);
            }
            owned(addition)
        },
        None => owned(addition),
    }
}

/// The addition put in front of a non-blank existing `:`-list, unless it is already one of
/// its entries.
pub open spec fn prepended_entry(existing: Option<Seq<char>>, addition: Seq<char>) -> Seq<char> {
    match existing {
        Some(e) => if trim(e).len() > 0 {
            if split_char(trim(e), ':').contains(addition) {
                trim(e)
            } else {
                addition + ":"@ + trim(e)
            }
        } else {
            addition
        },
        None => addition,
    }
}

/// Puts a directory in front of a `:`-separated search list.
pub fn append_path_entry(existing: Option<&str>, addition: &str) -> (r: String)
    ensures
        r@ == prepended_entry(match existing {
            Some(e) => Some(e@),
            None => None,
        }, addition@),
{
    match existing {
        Some(e) => {
            let t = trim_str(e);
            if t.as_str().is_empty() {
                return owned(addition);
            }
            let parts = split_on(t.as_str(), ':');
            let mut found = false;
            let mut i: usize = 0;
            while i < parts.len()
                invariant
                    i <= parts@.len(),
                    found == exists|j: int| 0 <= j < i && lines(parts@)[j] == addition@,
                decreases parts.len() - i,
            {
                assert(lines(parts@)[i as int] == parts@[i as int]@);
                if str_eq(parts[i].as_str(), addition) {
                    found = true;
                }
                i = i + 1;
            }
            if found {
                t
            } else {
                cat3(addition, ":", t.as_str())
            }
        },
        None => owned(addition),
    }
}

/// The configure overrides for functions missing below each API level.
pub open spec fn api_overrides(api: u32) -> Seq<Seq<char>> {
    (if api < 28 { seq!["ac_cv_func_fexecve"@, "ac_cv_func_getlogin_r"@] } else { seq![] })
        + (if api < 29 { seq!["ac_cv_func_getloadavg"@] } else { seq![] })
        + (if api < 30 { seq!["ac_cv_func_sem_clockwait"@] } else { seq![] })
        + (if api < 33 { seq!["ac_cv_func_preadv2"@, "ac_cv_func_pwritev2"@] } else { seq![] })
        + (if api < 34 { seq!["ac_cv_func_close_range"@, "ac_cv_func_copy_file_range"@] } else { seq![] })
}

/// The build environment for a Termux prefix and API level.
pub open spec fn android_env(prefix: Option<Seq<char>>, api: Option<u32>, cppflags: Option<Seq<char>>, ldflags: Option<Seq<char>>, pkg_config_path: Option<Seq<char>>, pkgconfig_dir: bool) -> Seq<(Seq<char>, Seq<char>)> {
    (match prefix {
        Some(p) => {
            let inc = join_path(p, "include"@);
            let lib = join_path(p, "lib"@);
            seq![
                ("CPPFLAGS"@, appended_flag(cppflags, "-I"@ + inc)),
                ("LDFLAGS"@, appended_flag(ldflags, "-L"@ + lib + " -Wl,-rpath,"@ + lib)),
                ("LIBCRYPT_LIBS"@, "-lcrypt"@),
            ] + (if pkgconfig_dir {
                seq![("PKG_CONFIG_PATH"@, prepended_entry(pkg_config_path, join_path(lib, "pkgconfig"@)))]
            } else {
                seq![]
            })
        },
        None => seq![],
    }) + match api {
        Some(a) => api_overrides(a).map_values(|k: Seq<char>| (k, "no"@)),
        None => seq![],
    }
}

fn push_no(out: &mut Vec<(String, String)>, key: &str)
    ensures
        pair_views(final(out)@) == pair_views(old(out)@).push((key@, "no"@)),
{
    let ghost before = pair_views(out@);
    out.push((owned(key), owned("no")));
    assert(pair_views(out@) =~= before.push((key@, "no"@)));
}

/// The environment a CPython build under Termux needs: include, library and pkg-config
/// paths for the prefix, and overrides for functions the API level lacks.
pub fn android_source_build_env(
    prefix: Option<&str>,
    api_level: Option<u32>,
    cppflags: Option<&str>,
    ldflags: Option<&str>,
    pkg_config_path: Option<&str>,
    fs: &FsSnapshot,
) -> (r: Vec<(String, String)>)
    ensures
        pair_views(r@) == android_env(
            match prefix { Some(p) => Some(p@), None => None },
            api_level,
            match cppflags { Some(p) => Some(p@), None => None },
            match ldflags { Some(p) => Some(p@), None => None },
            match pkg_config_path { Some(p) => Some(p@), None => None },
            match prefix { Some(p) => fs.has_dir(join_path(join_path(p@, "lib"@), "pkgconfig"@)), None => false },
        ),
{
    let mut out: Vec<(String, String)> = Vec::new();
    match prefix {
        Some(p) => {
            let inc = join_path_str(p, "include");
            let lib = join_path_str(p, "lib");
            let ghost before = pair_views(out@);
            out.push((owned("CPPFLAGS"), append_shell_flag(cppflags, cat("-I", inc.as_str()).as_str())));
            let l = cat3("-L", lib.as_str(), " -Wl,-rpath,");
            out.push((owned("LDFLAGS"), append_shell_flag(ldflags, cat(l.as_str(), lib.as_str()).as_str())));
            out.push((owned("LIBCRYPT_LIBS"), owned("-lcrypt")));
            let pkg = join_path_str(lib.as_str(), "pkgconfig");
            if fs.is_dir(pkg.as_str()) {
                out.push((owned("PKG_CONFIG_PATH"), append_path_entry(pkg_config_path, pkg.as_str())));
            }
        },
        None => {},
    }
    let ghost head = pair_views(out@);
    match api_level {
        Some(a) => {
            if a < 28 {
                push_no(&mut out, "ac_cv_func_fexecve");
                push_no(&mut out, "ac_cv_func_getlogin_r");
            }
            if a < 29 {
                push_no(&mut out, "ac_cv_func_getloadavg");
            }
            if a < 30 {
                push_no(&mut out, "ac_cv_func_sem_clockwait");
            }
            if a < 33 {
                push_no(&mut out, "ac_cv_func_preadv2");
                push_no(&mut out, "ac_cv_func_pwritev2");
            }
            if a < 34 {
                push_no(&mut out, "ac_cv_func_close_range");
                push_no(&mut out, "ac_cv_func_copy_file_range");
            }
            assert(pair_views(out@) =~= head + api_overrides(a).map_values(|k: Seq<char>| (k, "no"@)));
        },
        None => {
            assert(pair_views(out@) =~= head + Seq::<(Seq<char>, Seq<char>)>::empty());
        },
    }
    out
}

/// The API level: from the environment values, else from what `getprop ro.build.version.sdk`
/// printed (`None` when it failed).
pub fn detect_android_api_level(values: &Vec<Option<String>>, getprop: Option<&str>) -> (r: Option<u32>)
    ensures
        r == match first_api(opt_views(values@)) {
            Some(n) => Some(n),
            None => match getprop {
                Some(o) => api_value(o@),
                None => None,
            },
        },
{
    match api_level_from_env(values) {
        Some(n) => Some(n),
        None => match getprop {
            Some(o) => {
                let mut one: Vec<Option<String>> = Vec::new();
                one.push(Some(owned(o)));
                proof {
                    let v = opt_views(one@);
                    assert(v =~= seq![Some(o@)]);
                    assert(v.drop_first() =~= Seq::<Option<Seq<char>>>::empty());
                    assert(first_api(v.drop_first()) is None);
                    assert(first_api(v) == api_value(o@));
                }
                api_level_from_env(&one)
            },
            None => None,
        },
    }
}

} // verus!
