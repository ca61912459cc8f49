//! The preflight model: health checks, repairs, the verdict, host facts, and the whole
//! platform intelligence record.
use vstd::prelude::*;

use crate::strings::{lines, owned, str_eq};

verus! {

broadcast use vstd::string::group_string_axioms;

/// The status of one health check.
#[derive(Debug, Clone, Copy, PartialEq, Eq, Structural)]
pub enum DoctorStatus {
    Pass,
    Warn,
    Info,
}

/// How a check status is printed.
pub open spec fn status_label(s: DoctorStatus) -> Seq<char> {
    match s {
        DoctorStatus::Pass => "OK"@,
        DoctorStatus::Warn => "WARN"@,
        DoctorStatus::Info => "INFO"@,
    }
}

impl DoctorStatus {
    /// How the status is printed.
    pub fn label(self) -> (r: &'static str)
        ensures
            r@ == status_label(self),
    {
        match self {
            DoctorStatus::Pass => "OK",
            DoctorStatus::Warn => "WARN",
            DoctorStatus::Info => "INFO",
        }
    }
}

/// One health check of the host.
pub struct DoctorCheck {
    pub name: String,
    pub status: DoctorStatus,
    pub detail: String,
}

/// A repair the doctor can suggest or apply.
pub struct DoctorFix {
    pub key: String,
    pub description: String,
    pub automated: bool,
    pub command_hint: Option<String>,
}

/// Whether the host can install runtimes.
#[derive(Debug, Clone, Copy, PartialEq, Eq, Structural)]
pub enum PreflightVerdict {
    Ready,
    NeedsAttention,
    Blocked,
}

/// How a verdict is printed.
pub open spec fn verdict_label(v: PreflightVerdict) -> Seq<char> {
    match v {
        PreflightVerdict::Ready => "READY"@,
        PreflightVerdict::NeedsAttention => "NEEDS ATTENTION"@,
        PreflightVerdict::Blocked => "BLOCKED"@,
    }
}

impl PreflightVerdict {
    /// How the verdict is printed.
    pub fn label(self) -> (r: &'static str)
        ensures
            r@ == verdict_label(self),
    {
        match self {
            PreflightVerdict::Ready => "READY",
            PreflightVerdict::NeedsAttention => "NEEDS ATTENTION",
            PreflightVerdict::Blocked => "BLOCKED",
        }
    }
}

/// A labelled fact about the host.
pub struct PlatformFact {
    pub key: String,
    pub label: String,
    pub value: String,
}

/// What preflight knows about the host and its readiness to install runtimes.
pub struct PlatformIntelligence {
    pub os: String,
    pub arch: String,
    pub os_pretty_name: String,
    pub shell: Option<String>,
    pub pyenv_root: String,
    pub install_strategy: String,
    pub source_build_required: bool,
    pub ready_to_install: bool,
    pub verdict: PreflightVerdict,
    pub summary: String,
    pub facts: Vec<PlatformFact>,
    pub checks: Vec<DoctorCheck>,
    pub blocking_issues: Vec<String>,
    pub warnings: Vec<String>,
    pub recommended_actions: Vec<DoctorFix>,
}

/// The checks whose warning blocks runtime installs.
pub open spec fn blocking_names() -> Seq<Seq<char>> {
    seq![
        "source-build-shell"@, "source-build-make"@, "source-build-compiler"@, "source-build-readiness"@,
        "macos-xcode-clt"@, "macos-openssl"@, "termux-tool-clang"@, "termux-tool-make"@,
        "termux-tool-pkg-config"@, "termux-lib-openssl"@, "termux-lib-libffi"@, "android-termux-prefix"@,
        "android-source-build-readiness"@,
    ]
}

/// The other checks that bear on installing: the root directory and pyenv-win conflicts.
pub open spec fn readiness_names() -> Seq<Seq<char>> {
    seq!["root-directory"@, "pyenv-win-root"@, "pyenv-win-path-conflict"@]
}

fn blocking_name_list() -> (r: Vec<String>)
    ensures
        lines(r@) == blocking_names(),
{
    let mut v: Vec<String> = Vec::new();
    v.push(owned("source-build-shell"));
    v.push(owned("source-build-make"));
    v.push(owned("source-build-compiler"));
    v.push(owned("source-build-readiness"));
    v.push(owned("macos-xcode-clt"));
    v.push(owned("macos-openssl"));
    v.push(owned("termux-tool-clang"));
    v.push(owned("termux-tool-make"));
    v.push(owned("termux-tool-pkg-config"));
    v.push(owned("termux-lib-openssl"));
    v.push(owned("termux-lib-libffi"));
    v.push(owned("android-termux-prefix"));
    v.push(owned("android-source-build-readiness"));
    assert(lines(v@) =~= blocking_names());
    v
}

fn contains_name(list: &Vec<String>, name: &str) -> (r: bool)
    ensures
        r == lines(list@).contains(name@),
{
    let mut i: usize = 0;
    while i < list.len()
        invariant
            i <= list@.len(),
            forall|j: int| 0 <= j < i ==> lines(list@)[j] != name@,
        decreases list.len() - i,
    {
        if str_eq(list[i].as_str(), name) {
            assert(lines(list@)[i as int] == name@);
            return true;
        }
        i = i + 1;
    }
    false
}

/// Whether a warning of the named check blocks installs.
pub fn is_blocking_check(name: &str) -> (r: bool)
    ensures
        r == blocking_names().contains(name@),
{
    let list = blocking_name_list();
    contains_name(&list, name)
}

/// Whether a warning of the named check is an install blocker.
pub fn is_install_blocker(name: &str) -> (r: bool)
    ensures
        r == blocking_names().contains(name@),
{
    is_blocking_check(name)
}

/// Whether a warning of the named check bears on installing at all.
pub fn affects_install_readiness(name: &str) -> (r: bool)
    ensures
        r == (blocking_names().contains(name@) || readiness_names().contains(name@)),
{
    if is_blocking_check(name) {
        return true;
    }
    let mut v: Vec<String> = Vec::new();
    v.push(owned("root-directory"));
    v.push(owned("pyenv-win-root"));
    v.push(owned("pyenv-win-path-conflict"));
    assert(lines(v@) =~= readiness_names());
    contains_name(&v, name)
}

/// A check warns and its name is in the list.
pub open spec fn warns_in(checks: Seq<DoctorCheck>, names: Seq<Seq<char>>) -> bool {
    exists|i: int| 0 <= i < checks.len() && checks[i].status == DoctorStatus::Warn && names.contains(#[trigger] checks[i].name@)
}

/// Blocked with blocking issues or a warning from a blocking check; needing attention with a
/// warning that bears on installing; else ready.
pub open spec fn verdict_of(checks: Seq<DoctorCheck>, blocking_count: nat) -> PreflightVerdict {
    if blocking_count > 0 || warns_in(checks, blocking_names()) {
        PreflightVerdict::Blocked
    } else if warns_in(checks, blocking_names() + readiness_names()) {
        PreflightVerdict::NeedsAttention
    } else {
        PreflightVerdict::Ready
    }
}

impl PlatformIntelligence {
    /// The verdict for the checks and blocking issues.
    pub fn derive_verdict(checks: &Vec<DoctorCheck>, blocking_issues: &Vec<String>) -> (r: PreflightVerdict)
        ensures
            r == verdict_of(checks@, blocking_issues@.len()),
    {
        let mut blocked = blocking_issues.len() > 0;
        let mut attention = false;
        let mut i: usize = 0;
        while i < checks.len()
            invariant
                i <= checks@.len(),
                blocked == (blocking_issues@.len() > 0 || exists|k: int| 0 <= k < i && checks@[k].status == DoctorStatus::Warn
                    && blocking_names().contains(#[trigger] checks@[k].name@)),
                attention == exists|k: int| 0 <= k < i && checks@[k].status == DoctorStatus::Warn
                    && (blocking_names() + readiness_names()).contains(#[trigger] checks@[k].name@),
            decreases checks.len() - i,
        {
            let c = &checks[i];
            if c.status == DoctorStatus::Warn {
                let b = is_blocking_check(c.name.as_str());
                let a = affects_install_readiness(c.name.as_str());
                proof {
                    lemma_concat_contains(blocking_names(), readiness_names(), c.name@);
                }
                if b {
                    blocked = true;
                }
                if a {
                    attention = true;
                }
            }
            i = i + 1;
        }
        if blocked {
            PreflightVerdict::Blocked
        } else if attention {
            PreflightVerdict::NeedsAttention
        } else {
            PreflightVerdict::Ready
        }
    }
}

/// Membership in a concatenation is membership in either part.
pub proof fn lemma_concat_contains(a: Seq<Seq<char>>, b: Seq<Seq<char>>, x: Seq<char>)
    ensures
        (a + b).contains(x) <==> (a.contains(x) || b.contains(x)),
{
    if a.contains(x) {
        let i = choose|i: int| 0 <= i < a.len() && a[i] == x;
        assert((a + b)[i] == x);
    }
    if b.contains(x) {
        let i = choose|i: int| 0 <= i < b.len() && b[i] == x;
        assert((a + b)[a.len() + i] == x);
    }
    if (a + b).contains(x) {
        let i = choose|i: int| 0 <= i < (a + b).len() && (a + b)[i] == x;
        if i < a.len() {
            assert(a[i] == x);
        } else {
            assert(b[i - a.len()] == x);
        }
    }
}

} // verus!
