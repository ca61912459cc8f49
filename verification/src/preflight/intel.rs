//! Platform intelligence: the install strategy of each OS, and the report assembled from what
//! the host probes found: blocking issues and warnings, the verdict, the summary, the facts
//! and the recommended repairs.
use vstd::prelude::*;

use crate::preflight::android::AndroidToolchainState;
use crate::preflight::macos::MacosToolchainState;
use crate::preflight::types::{
    blocking_names, is_install_blocker, verdict_of, DoctorCheck, DoctorFix, DoctorStatus,
    PlatformFact, PlatformIntelligence, PreflightVerdict,
};
use crate::strings::{cat, cat3, contains_seq, contains_str, dec, lines, owned, str_eq, u64_text};

verus! {

broadcast use vstd::string::group_string_axioms;

/// How runtimes are installed on an OS.
pub open spec fn install_strategy(os: Seq<char>) -> Seq<char> {
    if os == "windows"@ {
        "windows NuGet / embeddable packages (no local CPython compile)"@
    } else if os == "macos"@ {
        "official CPython source build (requires Xcode CLT + OpenSSL)"@
    } else if os == "android"@ {
        "Termux CPython source build (requires clang/make/OpenSSL headers)"@
    } else if os == "linux"@ {
        "official CPython source build (requires compiler toolchain + headers)"@
    } else {
        os + " native provider resolution"@
    }
}

/// How runtimes are installed on an OS.
pub fn describe_install_strategy(os: &str) -> (r: String)
    ensures
        r@ == install_strategy(os@),
{
    if str_eq(os, "windows") {
        owned("windows NuGet / embeddable packages (no local CPython compile)")
    } else if str_eq(os, "macos") {
        owned("official CPython source build (requires Xcode CLT + OpenSSL)")
    } else if str_eq(os, "android") {
        owned("Termux CPython source build (requires clang/make/OpenSSL headers)")
    } else if str_eq(os, "linux") {
        owned("official CPython source build (requires compiler toolchain + headers)")
    } else {
        cat(os, " native provider resolution")
    }
}

/// Runtimes are compiled from source on macOS, Linux and Android.
pub open spec fn builds_from_source(os: Seq<char>) -> bool {
    os == "macos"@ || os == "linux"@ || os == "android"@
}

/// What the host probes found.
pub struct HostProbe {
    pub os: String,
    pub arch: String,
    pub os_pretty_name: String,
    pub shell: Option<String>,
    pub checks: Vec<DoctorCheck>,
    pub fixes: Vec<DoctorFix>,
    /// The macOS toolchain, probed on macOS.
    pub macos: Option<MacosToolchainState>,
    pub android: AndroidToolchainState,
    /// The provider and version a request for `3` resolves to, when it resolves.
    pub sample_provider: Option<(String, String)>,
}

/// `<name>: <detail>` of a check.
pub open spec fn check_line(c: DoctorCheck) -> Seq<char> {
    c.name@ + ": "@ + c.detail@
}

/// The warnings of blocking checks.
pub open spec fn blocking_of(cs: Seq<DoctorCheck>) -> Seq<Seq<char>>
    decreases cs.len(),
{
    if cs.len() == 0 {
        seq![]
    } else {
        let r = blocking_of(cs.drop_last());
        let c = cs.last();
        if c.status == DoctorStatus::Warn && blocking_names().contains(c.name@) {
            r.push(check_line(c))
        } else {
            r
        }
    }
}

/// The warnings of the other checks.
pub open spec fn warnings_of(cs: Seq<DoctorCheck>) -> Seq<Seq<char>>
    decreases cs.len(),
{
    if cs.len() == 0 {
        seq![]
    } else {
        let r = warnings_of(cs.drop_last());
        let c = cs.last();
        if c.status == DoctorStatus::Warn && !blocking_names().contains(c.name@) {
            r.push(check_line(c))
        } else {
            r
        }
    }
}

/// A repair worth recommending before installing: automated, or about source builds, macOS,
/// Termux, Android or PATH.
pub open spec fn fix_kept(f: DoctorFix) -> bool {
    contains_seq(f.key@, "source-build"@) || contains_seq(f.key@, "macos"@) || contains_seq(f.key@, "termux"@)
        || contains_seq(f.key@, "android"@) || contains_seq(f.key@, "path-"@) || f.automated
}

/// The kept repairs, in order.
pub open spec fn kept_fixes(fs: Seq<DoctorFix>) -> Seq<DoctorFix>
    decreases fs.len(),
{
    if fs.len() == 0 {
        seq![]
    } else if fix_kept(fs.last()) {
        kept_fixes(fs.drop_last()).push(fs.last())
    } else {
        kept_fixes(fs.drop_last())
    }
}

/// The one-line summary for a verdict.
pub open spec fn summary_of(pretty: Seq<char>, strategy: Seq<char>, v: PreflightVerdict) -> Seq<char> {
    match v {
        PreflightVerdict::Ready => pretty + " looks ready for pyenv-native runtime installs via "@ + strategy + "."@,
        PreflightVerdict::NeedsAttention => pretty + " can mostly install runtimes via "@ + strategy
            + ", but some optional prerequisites need attention."@,
        PreflightVerdict::Blocked => pretty + " is not ready for a successful source/runtime install yet. Resolve blocking prerequisites first."@,
    }
}

/// The facts every host has: OS, architecture, strategy, root, shell and build mode.
pub open spec fn base_facts(p: HostProbe, root: Seq<char>) -> Seq<(Seq<char>, Seq<char>, Seq<char>)> {
    let os = p.os@;
    seq![
        ("os"@, "Operating system"@, p.os_pretty_name@),
        ("arch"@, "CPU architecture"@, p.arch@),
        ("install-strategy"@, "Python install strategy"@, install_strategy(os)),
        ("pyenv-root"@, "PYENV_ROOT"@, root),
    ] + (match p.shell {
        Some(s) => seq![("shell"@, "Shell"@, s@)],
        None => seq![],
    }) + seq![
        ("build-mode"@, "Build mode"@, if builds_from_source(os) { "Source compile (configure + make)"@ } else { "Prebuilt package extract"@ }),
    ]
}

/// The macOS toolchain facts, on macOS with a probed toolchain.
pub open spec fn macos_facts(p: HostProbe) -> Seq<(Seq<char>, Seq<char>, Seq<char>)> {
    if p.os@ == "macos"@ && p.macos is Some {
        let m = p.macos.unwrap();
        seq![("xcode-clt"@, "Xcode / CLT"@, m.clt_detail@)] + (match m.xcodebuild_version {
            Some(v) => seq![("xcodebuild"@, "xcodebuild"@, v@)],
            None => seq![],
        }) + seq![
            ("openssl"@, "OpenSSL (TLS build dep)"@, m.openssl_detail@),
            ("homebrew"@, "Homebrew"@, if m.brew_available { "available"@ } else { "not found"@ }),
        ]
    } else {
        seq![]
    }
}

/// The Termux facts, on Android or under Termux.
pub open spec fn android_facts(p: HostProbe) -> Seq<(Seq<char>, Seq<char>, Seq<char>)> {
    if p.os@ == "android"@ || p.android.is_termux {
        seq![("termux-prefix"@, "Termux PREFIX"@, match p.android.prefix {
            Some(x) => x@,
            None => "missing"@,
        })] + (match p.android.api_level {
            Some(a) => seq![("android-api"@, "Android API level"@, dec(a as nat))],
            None => seq![],
        }) + seq![("termux-readiness"@, "Termux build readiness"@, p.android.detail@)]
    } else {
        seq![]
    }
}

/// The provider fact, when a request for `3` resolved.
pub open spec fn provider_facts(p: HostProbe) -> Seq<(Seq<char>, Seq<char>, Seq<char>)> {
    match p.sample_provider {
        Some((prov, ver)) => seq![("sample-provider"@, "Latest CPython provider"@, prov@ + " → "@ + ver@)],
        None => seq![],
    }
}

/// The host facts as (key, label, value).
pub open spec fn facts_of(p: HostProbe, root: Seq<char>) -> Seq<(Seq<char>, Seq<char>, Seq<char>)> {
    base_facts(p, root) + macos_facts(p) + android_facts(p) + provider_facts(p)
}

/// The facts as (key, label, value).
pub open spec fn fact_views(v: Seq<PlatformFact>) -> Seq<(Seq<char>, Seq<char>, Seq<char>)> {
    v.map_values(|f: PlatformFact| (f.key@, f.label@, f.value@))
}

fn push_fact(v: &mut Vec<PlatformFact>, key: &str, label: &str, value: String)
    ensures
        fact_views(final(v)@) == fact_views(old(v)@).push((key@, label@, value@)),
{
    let ghost before = fact_views(v@);
    v.push(PlatformFact { key: owned(key), label: owned(label), value });
    assert(fact_views(v@) =~= before.push((key@, label@, value@)));
}

fn copy_checks(cs: &Vec<DoctorCheck>) -> (r: Vec<DoctorCheck>)
    ensures
        r@ == cs@,
{
    let mut out: Vec<DoctorCheck> = Vec::new();
    let mut i: usize = 0;
    while i < cs.len()
        invariant
            i <= cs@.len(),
            out@ == cs@.take(i as int),
        decreases cs.len() - i,
    {
        out.push(DoctorCheck { name: cs[i].name.clone(), status: cs[i].status, detail: cs[i].detail.clone() });
        assert(out@ =~= cs@.take(i + 1));
        i = i + 1;
    }
    assert(cs@.take(cs@.len() as int) =~= cs@);
    out
}

fn copy_fix(f: &DoctorFix) -> (r: DoctorFix)
    ensures
        r == *f,
{
    DoctorFix {
        key: f.key.clone(),
        description: f.description.clone(),
        automated: f.automated,
        command_hint: match &f.command_hint {
            Some(h) => Some(h.clone()),
            None => None,
        },
    }
}

fn partition_checks(cs: &Vec<DoctorCheck>) -> (r: (Vec<String>, Vec<String>))
    ensures
        lines(r.0@) == blocking_of(cs@),
        lines(r.1@) == warnings_of(cs@),
{
    let mut blocking: Vec<String> = Vec::new();
    let mut warnings: Vec<String> = Vec::new();
    let mut i: usize = 0;
    while i < cs.len()
        invariant
            i <= cs@.len(),
            lines(blocking@) == blocking_of(cs@.take(i as int)),
            lines(warnings@) == warnings_of(cs@.take(i as int)),
        decreases cs.len() - i,
    {
        assert(cs@.take(i + 1).drop_last() =~= cs@.take(i as int));
        let c = &cs[i];
        if c.status == DoctorStatus::Warn {
            let line = cat3(c.name.as_str(), ": ", c.detail.as_str());
            if is_install_blocker(c.name.as_str()) {
                let ghost before = lines(blocking@);
                blocking.push(line);
                assert(lines(blocking@) =~= before.push(check_line(*c)));
            } else {
                let ghost before = lines(warnings@);
                warnings.push(line);
                assert(lines(warnings@) =~= before.push(check_line(*c)));
            }
        }
        i = i + 1;
    }
    assert(cs@.take(cs@.len() as int) =~= cs@);
    (blocking, warnings)
}

fn kept_fix_list(fs: &Vec<DoctorFix>) -> (r: Vec<DoctorFix>)
    ensures
        r@ == kept_fixes(fs@),
{
    let mut actions: Vec<DoctorFix> = Vec::new();
    let mut j: usize = 0;
    while j < fs.len()
        invariant
            j <= fs@.len(),
            actions@ == kept_fixes(fs@.take(j as int)),
        decreases fs.len() - j,
    {
        assert(fs@.take(j + 1).drop_last() =~= fs@.take(j as int));
        let f = &fs[j];
        let k = f.key.as_str();
        if contains_str(k, "source-build") || contains_str(k, "macos") || contains_str(k, "termux") || contains_str(k, "android")
            || contains_str(k, "path-") || f.automated {
            actions.push(copy_fix(f));
        }
        j = j + 1;
    }
    assert(fs@.take(fs@.len() as int) =~= fs@);
    actions
}

fn summary_text(pretty: &str, strategy: &str, verdict: PreflightVerdict) -> (r: String)
    ensures
        r@ == summary_of(pretty@, strategy@, verdict),
{
    match verdict {
        PreflightVerdict::Ready => cat3(pretty, " looks ready for pyenv-native runtime installs via ", cat(strategy, ".").as_str()),
        PreflightVerdict::NeedsAttention => cat3(pretty, " can mostly install runtimes via ", cat(strategy, ", but some optional prerequisites need attention.").as_str()),
        PreflightVerdict::Blocked => cat(pretty, " is not ready for a successful source/runtime install yet. Resolve blocking prerequisites first."),
    }
}

fn push_base_facts(facts: &mut Vec<PlatformFact>, root: &str, probe: &HostProbe, strategy: &String)
    requires
        strategy@ == install_strategy(probe.os@),
    ensures
        fact_views(final(facts)@) == fact_views(old(facts)@) + base_facts(*probe, root@),
{
    let ghost start = fact_views(facts@);
    let os = probe.os.as_str();
    let source = str_eq(os, "macos") || str_eq(os, "linux") || str_eq(os, "android");
    push_fact(facts, "os", "Operating system", probe.os_pretty_name.clone());
    push_fact(facts, "arch", "CPU architecture", probe.arch.clone());
    push_fact(facts, "install-strategy", "Python install strategy", strategy.clone());
    push_fact(facts, "pyenv-root", "PYENV_ROOT", owned(root));
    match &probe.shell {
        Some(s) => push_fact(facts, "shell", "Shell", s.clone()),
        None => {},
    }
    push_fact(facts, "build-mode", "Build mode", if source { owned("Source compile (configure + make)") } else { owned("Prebuilt package extract") });
    assert(fact_views(facts@) =~= start + base_facts(*probe, root@));
}

fn push_macos_facts(facts: &mut Vec<PlatformFact>, probe: &HostProbe)
    ensures
        fact_views(final(facts)@) == fact_views(old(facts)@) + macos_facts(*probe),
{
    let ghost start = fact_views(facts@);
    if str_eq(probe.os.as_str(), "macos") {
        match &probe.macos {
            Some(m) => {
                push_fact(facts, "xcode-clt", "Xcode / CLT", m.clt_detail.clone());
                match &m.xcodebuild_version {
                    Some(v) => push_fact(facts, "xcodebuild", "xcodebuild", v.clone()),
                    None => {},
                }
                push_fact(facts, "openssl", "OpenSSL (TLS build dep)", m.openssl_detail.clone());
                push_fact(facts, "homebrew", "Homebrew", if m.brew_available { owned("available") } else { owned("not found") });
            },
            None => {},
        }
    }
    assert(fact_views(facts@) =~= start + macos_facts(*probe));
}

fn push_android_facts(facts: &mut Vec<PlatformFact>, probe: &HostProbe)
    ensures
        fact_views(final(facts)@) == fact_views(old(facts)@) + android_facts(*probe),
{
    let ghost start = fact_views(facts@);
    let a = &probe.android;
    if str_eq(probe.os.as_str(), "android") || a.is_termux {
        push_fact(facts, "termux-prefix", "Termux PREFIX", match &a.prefix {
            Some(x) => x.clone(),
            None => owned("missing"),
        });
        match a.api_level {
            Some(l) => push_fact(facts, "android-api", "Android API level", u64_text(l as u64)),
            None => {},
        }
        push_fact(facts, "termux-readiness", "Termux build readiness", a.detail.clone());
    }
    assert(fact_views(facts@) =~= start + android_facts(*probe));
}

fn host_facts(root: &str, probe: &HostProbe, strategy: &String) -> (r: Vec<PlatformFact>)
    requires
        strategy@ == install_strategy(probe.os@),
    ensures
        fact_views(r@) == facts_of(*probe, root@),
{
    let mut facts: Vec<PlatformFact> = Vec::new();
    assert(fact_views(facts@) =~= Seq::<(Seq<char>, Seq<char>, Seq<char>)>::empty());
    push_base_facts(&mut facts, root, probe, strategy);
    push_macos_facts(&mut facts, probe);
    push_android_facts(&mut facts, probe);
    let ghost mid = fact_views(facts@);
    match &probe.sample_provider {
        Some((prov, ver)) => push_fact(&mut facts, "sample-provider", "Latest CPython provider", cat3(prov.as_str(), " → ", ver.as_str())),
        None => {},
    }
    assert(fact_views(facts@) =~= mid + provider_facts(*probe));
    assert(facts_of(*probe, root@) =~= Seq::<(Seq<char>, Seq<char>, Seq<char>)>::empty() + base_facts(*probe, root@) + macos_facts(*probe) + android_facts(*probe) + provider_facts(*probe));
    facts
}

/// The intelligence assembled from the probes of a host: blocking issues are the warnings of
/// blocking checks and the other warnings are warnings; the verdict follows from them; the host is
/// ready to install exactly when it is not blocked.
pub open spec fn describes_host(r: PlatformIntelligence, root: Seq<char>, probe: HostProbe) -> bool {
    &&& r.os == probe.os && r.arch == probe.arch && r.os_pretty_name == probe.os_pretty_name && r.shell == probe.shell
    &&& r.pyenv_root@ == root
    &&& r.install_strategy@ == install_strategy(probe.os@)
    &&& r.source_build_required == builds_from_source(probe.os@)
    &&& r.checks@ == probe.checks@
    &&& lines(r.blocking_issues@) == blocking_of(probe.checks@)
    &&& lines(r.warnings@) == warnings_of(probe.checks@)
    &&& r.recommended_actions@ == kept_fixes(probe.fixes@)
    &&& r.verdict == verdict_of(probe.checks@, blocking_of(probe.checks@).len())
    &&& r.ready_to_install == (r.verdict != PreflightVerdict::Blocked)
    &&& r.summary@ == summary_of(probe.os_pretty_name@, install_strategy(probe.os@), r.verdict)
    &&& fact_views(r.facts@) == facts_of(probe, root)
}

/// Assembles platform intelligence from the probes of a host.
pub fn build_platform_intelligence(root: &str, probe: &HostProbe) -> (r: PlatformIntelligence)
    ensures
        describes_host(r, root@, *probe),
{
    let strategy = describe_install_strategy(probe.os.as_str());
    let os = probe.os.as_str();
    let source = str_eq(os, "macos") || str_eq(os, "linux") || str_eq(os, "android");
    let (blocking, warnings) = partition_checks(&probe.checks);
    let actions = kept_fix_list(&probe.fixes);
    let verdict = PlatformIntelligence::derive_verdict(&probe.checks, &blocking);
    let ready = (verdict == PreflightVerdict::Ready || verdict == PreflightVerdict::NeedsAttention) && blocking.len() == 0;
    let summary = summary_text(probe.os_pretty_name.as_str(), strategy.as_str(), verdict);
    let facts = host_facts(root, probe, &strategy);
    proof {
        if blocking_of(probe.checks@).len() > 0 {
            assert(verdict == PreflightVerdict::Blocked);
        }
    }
    PlatformIntelligence {
        os: probe.os.clone(),
        arch: probe.arch.clone(),
        os_pretty_name: probe.os_pretty_name.clone(),
        shell: match &probe.shell {
            Some(s) => Some(s.clone()),
            None => None,
        },
        pyenv_root: owned(root),
        install_strategy: strategy,
        source_build_required: source,
        ready_to_install: ready,
        verdict,
        summary,
        facts,
        checks: copy_checks(&probe.checks),
        blocking_issues: blocking,
        warnings,
        recommended_actions: actions,
    }
}

} // verus!
