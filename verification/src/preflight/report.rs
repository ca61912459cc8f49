//! The human rendering of platform intelligence, and the `preflight` / `environment` commands.
use vstd::prelude::*;

use crate::preflight::intel::{blocking_of, build_platform_intelligence, describes_host, HostProbe};
use crate::preflight::types::{
    status_label, verdict_label, verdict_of, DoctorCheck, DoctorFix, PlatformFact, PlatformIntelligence,
    PreflightVerdict,
};
use crate::report::CommandReport;
use crate::strings::{cat, cat3, cat5, lines, owned};

verus! {

broadcast use vstd::string::group_string_axioms;

/// `  <label>: <value>`.
pub open spec fn fact_row(f: PlatformFact) -> Seq<char> {
    "  "@ + f.label@ + ": "@ + f.value@
}

/// `  [<status>] <name>: <detail>`.
pub open spec fn check_row(c: DoctorCheck) -> Seq<char> {
    "  ["@ + status_label(c.status) + "] "@ + c.name@ + ": "@ + c.detail@
}

/// `  - <item>`.
pub open spec fn bullet(s: Seq<char>) -> Seq<char> {
    "  - "@ + s
}

/// The lines of one recommended action: its kind and description, then its hint if any.
pub open spec fn action_rows(a: DoctorFix) -> Seq<Seq<char>> {
    seq!["  - ["@ + (if a.automated { "automated"@ } else { "manual"@ }) + "] "@ + a.description@] + match a.command_hint {
        Some(h) => seq!["      hint: "@ + h@],
        None => seq![],
    }
}

/// The lines of the recommended actions, in order.
pub open spec fn actions_rows(v: Seq<DoctorFix>) -> Seq<Seq<char>>
    decreases v.len(),
{
    if v.len() == 0 {
        seq![]
    } else {
        actions_rows(v.drop_last()) + action_rows(v.last())
    }
}

/// A titled section, preceded by a blank line, when it has items.
pub open spec fn section(title: Seq<char>, rows: Seq<Seq<char>>) -> Seq<Seq<char>> {
    if rows.len() == 0 {
        seq![]
    } else {
        seq![""@, title] + rows
    }
}

/// What `pyenv preflight` prints for the intelligence.
pub open spec fn intelligence_lines(i: PlatformIntelligence) -> Seq<Seq<char>> {
    seq!["pyenv platform intelligence ["@ + verdict_label(i.verdict) + "]"@, i.summary@, ""@, "Host facts:"@]
        + i.facts@.map_values(|f: PlatformFact| fact_row(f))
        + seq![""@, "Preflight checks:"@]
        + i.checks@.map_values(|c: DoctorCheck| check_row(c))
        + section("Blocking issues:"@, lines(i.blocking_issues@).map_values(|s: Seq<char>| bullet(s)))
        + section("Warnings:"@, lines(i.warnings@).map_values(|s: Seq<char>| bullet(s)))
        + (if i.recommended_actions@.len() == 0 {
            seq![]
        } else {
            seq![""@, "Recommended actions:"@] + actions_rows(i.recommended_actions@)
                + seq![""@, "Tip: run `pyenv doctor --fix` to apply safe automated repairs."@]
        })
}

fn push_line(out: &mut Vec<String>, s: String)
    ensures
        lines(final(out)@) == lines(old(out)@).push(s@),
{
    let ghost before = lines(out@);
    out.push(s);
    assert(lines(out@) =~= before.push(s@));
}

fn push_fact_rows(out: &mut Vec<String>, facts: &Vec<PlatformFact>)
    ensures
        lines(final(out)@) == lines(old(out)@) + facts@.map_values(|f: PlatformFact| fact_row(f)),
{
    let ghost start = lines(out@);
    let mut i: usize = 0;
    while i < facts.len()
        invariant
            i <= facts@.len(),
            lines(out@) == start + facts@.take(i as int).map_values(|f: PlatformFact| fact_row(f)),
        decreases facts.len() - i,
    {
        let f = &facts[i];
        proof {
            reveal_strlit("");
        }
        push_line(out, cat5("  ", f.label.as_str(), ": ", f.value.as_str(), ""));
        assert(facts@.take(i + 1).map_values(|f: PlatformFact| fact_row(f))
            =~= facts@.take(i as int).map_values(|f: PlatformFact| fact_row(f)).push(fact_row(facts@[i as int])));
        i = i + 1;
    }
    assert(facts@.take(facts@.len() as int) =~= facts@);
}

fn push_check_rows(out: &mut Vec<String>, checks: &Vec<DoctorCheck>)
    ensures
        lines(final(out)@) == lines(old(out)@) + checks@.map_values(|c: DoctorCheck| check_row(c)),
{
    let ghost start = lines(out@);
    let mut i: usize = 0;
    while i < checks.len()
        invariant
            i <= checks@.len(),
            lines(out@) == start + checks@.take(i as int).map_values(|c: DoctorCheck| check_row(c)),
        decreases checks.len() - i,
    {
        let c = &checks[i];
        proof {
            reveal_strlit("");
        }
        let head = cat3("  [", c.status.label(), "] ");
        push_line(out, cat5(head.as_str(), c.name.as_str(), ": ", c.detail.as_str(), ""));
        assert(checks@.take(i + 1).map_values(|c: DoctorCheck| check_row(c))
            =~= checks@.take(i as int).map_values(|c: DoctorCheck| check_row(c)).push(check_row(checks@[i as int])));
        i = i + 1;
    }
    assert(checks@.take(checks@.len() as int) =~= checks@);
}

fn push_bullet_section(out: &mut Vec<String>, title: &str, items: &Vec<String>)
    ensures
        lines(final(out)@) == lines(old(out)@) + section(title@, lines(items@).map_values(|s: Seq<char>| bullet(s))),
{
    let ghost start = lines(out@);
    if items.len() == 0 {
        assert(lines(out@) =~= start + section(title@, lines(items@).map_values(|s: Seq<char>| bullet(s))));
        return;
    }
    push_line(out, owned(""));
    push_line(out, owned(title));
    let ghost head = lines(out@);
    let mut i: usize = 0;
    while i < items.len()
        invariant
            i <= items@.len(),
            lines(out@) == head + lines(items@.take(i as int)).map_values(|s: Seq<char>| bullet(s)),
        decreases items.len() - i,
    {
        push_line(out, cat("  - ", items[i].as_str()));
        assert(lines(items@.take(i + 1)).map_values(|s: Seq<char>| bullet(s))
            =~= lines(items@.take(i as int)).map_values(|s: Seq<char>| bullet(s)).push(bullet(items@[i as int]@)));
        i = i + 1;
    }
    assert(items@.take(items@.len() as int) =~= items@);
    assert(lines(out@) =~= start + section(title@, lines(items@).map_values(|s: Seq<char>| bullet(s))));
}

fn push_action_rows(out: &mut Vec<String>, actions: &Vec<DoctorFix>)
    ensures
        lines(final(out)@) == lines(old(out)@) + actions_rows(actions@),
{
    let ghost start = lines(out@);
    let mut i: usize = 0;
    while i < actions.len()
        invariant
            i <= actions@.len(),
            lines(out@) == start + actions_rows(actions@.take(i as int)),
        decreases actions.len() - i,
    {
        assert(actions@.take(i + 1).drop_last() =~= actions@.take(i as int));
        let a = &actions[i];
        let ghost before = lines(out@);
        let kind = if a.automated { "automated" } else { "manual" };
        proof {
            reveal_strlit("");
        }
        push_line(out, cat5("  - [", kind, "] ", a.description.as_str(), ""));
        match &a.command_hint {
            Some(h) => push_line(out, cat("      hint: ", h.as_str())),
            None => {},
        }
        assert(lines(out@) =~= before + action_rows(actions@[i as int]));
        assert(lines(out@) =~= start + actions_rows(actions@.take(i + 1)));
        i = i + 1;
    }
    assert(actions@.take(actions@.len() as int) =~= actions@);
}

/// The human rendering of platform intelligence. It exits with 0 when the host is ready to
/// install, and with 1 and a note on stderr when it is not.
pub fn render_intelligence(intel: &PlatformIntelligence) -> (r: CommandReport)
    ensures
        r.out() == intelligence_lines(*intel),
        r.exit_code == (if intel.ready_to_install { 0i32 } else { 1i32 }),
        r.err() == (if intel.ready_to_install {
            Seq::<Seq<char>>::empty()
        } else {
            seq!["pyenv: preflight reports the host is not ready for a successful install"@]
        }),
{
    let mut out: Vec<String> = Vec::new();
    push_line(&mut out, cat3("pyenv platform intelligence [", intel.verdict.label(), "]"));
    push_line(&mut out, intel.summary.clone());
    push_line(&mut out, owned(""));
    push_line(&mut out, owned("Host facts:"));
    push_fact_rows(&mut out, &intel.facts);
    push_line(&mut out, owned(""));
    push_line(&mut out, owned("Preflight checks:"));
    push_check_rows(&mut out, &intel.checks);
    push_bullet_section(&mut out, "Blocking issues:", &intel.blocking_issues);
    push_bullet_section(&mut out, "Warnings:", &intel.warnings);
    let ghost mid = lines(out@);
    if intel.recommended_actions.len() > 0 {
        push_line(&mut out, owned(""));
        push_line(&mut out, owned("Recommended actions:"));
        push_action_rows(&mut out, &intel.recommended_actions);
        push_line(&mut out, owned(""));
        push_line(&mut out, owned("Tip: run `pyenv doctor --fix` to apply safe automated repairs."));
    }
    proof {
        reveal_strlit("");
    }
    assert(lines(out@) =~= intelligence_lines(*intel));
    if intel.ready_to_install {
        CommandReport::success(out)
    } else {
        let err = vec![owned("pyenv: preflight reports the host is not ready for a successful install")];
        assert(lines(err@) =~= seq!["pyenv: preflight reports the host is not ready for a successful install"@]);
        CommandReport { stdout: out, stderr: err, exit_code: 1 }
    }
}

/// The verdict that the probes of a host lead to.
pub open spec fn probe_verdict(probe: HostProbe) -> PreflightVerdict {
    verdict_of(probe.checks@, blocking_of(probe.checks@).len())
}

/// `pyenv preflight`: platform intelligence for the probed host, rendered for people. It exits
/// with 0 exactly when the host is not blocked.
pub fn cmd_preflight(root: &str, probe: &HostProbe) -> (r: CommandReport)
    ensures
        exists|i: PlatformIntelligence| describes_host(i, root@, *probe) && #[trigger] intelligence_lines(i) == r.out(),
        r.exit_code == (if probe_verdict(*probe) == PreflightVerdict::Blocked { 1i32 } else { 0i32 }),
        r.err() == (if probe_verdict(*probe) == PreflightVerdict::Blocked {
            seq!["pyenv: preflight reports the host is not ready for a successful install"@]
        } else {
            Seq::<Seq<char>>::empty()
        }),
{
    let intel = build_platform_intelligence(root, probe);
    let r = render_intelligence(&intel);
    assert(describes_host(intel, root@, *probe) && intelligence_lines(intel) == r.out());
    r
}

/// `pyenv environment`: the same dashboard as `pyenv preflight`.
pub fn cmd_environment(root: &str, probe: &HostProbe) -> (r: CommandReport)
    ensures
        exists|i: PlatformIntelligence| describes_host(i, root@, *probe) && #[trigger] intelligence_lines(i) == r.out(),
        r.exit_code == (if probe_verdict(*probe) == PreflightVerdict::Blocked { 1i32 } else { 0i32 }),
        r.err() == (if probe_verdict(*probe) == PreflightVerdict::Blocked {
            seq!["pyenv: preflight reports the host is not ready for a successful install"@]
        } else {
            Seq::<Seq<char>>::empty()
        }),
{
    cmd_preflight(root, probe)
}

} // verus!
