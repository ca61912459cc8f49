//! `pyenv venv upgrade`: moving a managed venv to another runtime by recreating it and
//! reinstalling its packages. The checks, the packages carried over, the question asked, and
//! the progress report are decided here; creating, installing and removing are done by the caller.
use vstd::prelude::*;

use crate::context::AppContext;
use crate::error::{error_text, not_installed_text};
use crate::report::CommandReport;
use crate::strings::{cat, cat3, cat5, dec, i32_text, lines, lower_seq, lower_str, owned, signed_dec, str_eq, strip_prefix_or_self, text_lines, text_lines_of, trim, u64_text};
use crate::shim::paths::{components, paths_equal};
use crate::venv::commands::path_exists;
use crate::venv::inventory::{
    lemma_resolve_ok_unique, opt_view, resolve_err, resolve_installed_runtime_version, resolve_managed_venv, resolve_ok, runtime_for,
    ManagedVenvInfo,
};

verus! {

broadcast use vstd::string::group_string_axioms;

/// One installed package, as `pip list --format=json` reports it.
pub struct PipPackage {
    pub name: String,
    pub version: String,
}

/// Packages that come with every venv and are not carried over.
pub open spec fn bundled_package(name: Seq<char>) -> bool {
    let l = lower_seq(name);
    l == "pip"@ || l == "setuptools"@ || l == "wheel"@ || l == "distribute"@
}

/// The `name==version` requirements carried over, in order.
pub open spec fn package_specs(pkgs: Seq<PipPackage>) -> Seq<Seq<char>>
    decreases pkgs.len(),
{
    if pkgs.len() == 0 {
        seq![]
    } else if bundled_package(pkgs.last().name@) {
        package_specs(pkgs.drop_last())
    } else {
        package_specs(pkgs.drop_last()).push(pkgs.last().name@ + "=="@ + pkgs.last().version@)
    }
}

/// The requirements to reinstall: every package but the bundled ones, as `name==version`.
pub fn upgrade_package_specs(pkgs: &Vec<PipPackage>) -> (r: Vec<String>)
    ensures
        lines(r@) == package_specs(pkgs@),
{
    let mut out: Vec<String> = Vec::new();
    let mut i: usize = 0;
    while i < pkgs.len()
        invariant
            i <= pkgs@.len(),
            lines(out@) == package_specs(pkgs@.take(i as int)),
        decreases pkgs.len() - i,
    {
        assert(pkgs@.take(i + 1).drop_last() =~= pkgs@.take(i as int));
        let p = &pkgs[i];
        let l = lower_str(p.name.as_str());
        if !(str_eq(l.as_str(), "pip") || str_eq(l.as_str(), "setuptools") || str_eq(l.as_str(), "wheel")
            || str_eq(l.as_str(), "distribute")) {
            let ghost before = lines(out@);
            out.push(cat3(p.name.as_str(), "==", p.version.as_str()));
            assert(lines(out@) =~= before.push(p.name@ + "=="@ + p.version@));
        }
        i = i + 1;
    }
    assert(pkgs@.take(pkgs@.len() as int) =~= pkgs@);
    out
}

/// An upgrade checked: the venv, the runtime it moves to, and its current interpreter.
pub struct VenvUpgradePlan {
    pub info: ManagedVenvInfo,
    pub new_version: String,
    pub python: String,
}

/// The report when the target runtime is not installed.
pub open spec fn runtime_missing_lines(new_runtime: Seq<char>, error: Seq<char>) -> Seq<Seq<char>> {
    seq![
        "pyenv: target new runtime `"@ + new_runtime + "` is not installed."@,
        "Error: "@ + error,
        "Hint: install it first with `pyenv install "@ + new_runtime + "`"@,
    ]
}

/// The report when the venv's interpreter is gone.
pub open spec fn python_missing_text(spec: Seq<char>) -> Seq<char> {
    "pyenv: python interpreter for managed venv `"@ + spec + "` is missing from disk."@
}

/// The venv's interpreter is known and on disk.
pub open spec fn interpreter_present(ctx: AppContext, i: ManagedVenvInfo) -> bool {
    match i.python_path {
        Some(p) => path_exists(ctx, p@),
        None => false,
    }
}

/// `pyenv venv upgrade`, checked: the venv resolves, the new runtime is installed, and the
/// venv's interpreter exists; else the report of the first check that fails.
#[verifier::rlimit(50)]
#[verifier::spinoff_prover]
pub fn cmd_venv_upgrade(ctx: &AppContext, spec: &str, new_runtime: &str) -> (r: Result<VenvUpgradePlan, CommandReport>)
    ensures
        r matches Ok(p) ==> (resolve_ok(*ctx, spec@, p.info) && runtime_for(*ctx, new_runtime@) == Some(p.new_version@)
            && (match p.info.python_path {
                Some(q) => q@ == p.python@,
                None => false,
            }) && path_exists(*ctx, p.python@)),
        r matches Err(rep) ==> (rep.exit_code == 1 && rep.stdout@.len() == 0 && (
            (exists|m: Seq<char>| #[trigger] resolve_err(*ctx, spec@, m) && rep.err() == seq![m])
            || (exists|i: ManagedVenvInfo| #[trigger] resolve_ok(*ctx, spec@, i) && (
                (runtime_for(*ctx, new_runtime@) is None && rep.err() == runtime_missing_lines(new_runtime@,
                    not_installed_text(trim(strip_prefix_or_self(new_runtime@, "python-"@)), "pyenv venv create"@)))
                || (runtime_for(*ctx, new_runtime@) is Some && !(match i.python_path {
                    Some(p) => path_exists(*ctx, p@),
                    None => false,
                }) && rep.err() == seq![python_missing_text(i.spec@)]))))),
        forall|i: ManagedVenvInfo| #[trigger] resolve_ok(*ctx, spec@, i) ==> {
            &&& runtime_for(*ctx, new_runtime@) is None ==> (r matches Err(rep) && rep.err() == runtime_missing_lines(new_runtime@,
                not_installed_text(trim(strip_prefix_or_self(new_runtime@, "python-"@)), "pyenv venv create"@)))
            &&& runtime_for(*ctx, new_runtime@) is Some && interpreter_present(*ctx, i) ==> r is Ok
            &&& runtime_for(*ctx, new_runtime@) is Some && !interpreter_present(*ctx, i) ==> (r matches Err(rep)
                && rep.err() == seq![python_missing_text(i.spec@)])
        },
{
    let info = match resolve_managed_venv(ctx, spec) {
        Ok(i) => i,
        Err(e) => {
            let m = e.message();
            assert(resolve_err(*ctx, spec@, m@));
            return Err(CommandReport::failure_one(m));
        },
    };
    proof {
        assert forall|i: ManagedVenvInfo| #[trigger] resolve_ok(*ctx, spec@, i) implies i.spec@ == info.spec@
            && opt_view(i.python_path) == opt_view(info.python_path) by {
            lemma_resolve_ok_unique(*ctx, spec@, i, info);
        }
    }
    let new_version = match resolve_installed_runtime_version(ctx, new_runtime) {
        Ok(v) => v,
        Err(e) => {
            let msg = e.message();
            let mut err: Vec<String> = Vec::new();
            err.push(cat3("pyenv: target new runtime `", new_runtime, "` is not installed."));
            err.push(cat("Error: ", msg.as_str()));
            err.push(cat3("Hint: install it first with `pyenv install ", new_runtime, "`"));
            assert(lines(err@) =~= runtime_missing_lines(new_runtime@, msg@));
            return Err(CommandReport::failure(err, 1));
        },
    };
    let python = match &info.python_path {
        Some(p) => {
            if ctx.fs.is_file(p.as_str()) || ctx.fs.is_dir(p.as_str()) {
                owned(p.as_str())
            } else {
                return Err(CommandReport::failure_one(cat3("pyenv: python interpreter for managed venv `", info.spec.as_str(), "` is missing from disk.")));
            }
        },
        None => {
            return Err(CommandReport::failure_one(cat3("pyenv: python interpreter for managed venv `", info.spec.as_str(), "` is missing from disk.")));
        },
    };
    Ok(VenvUpgradePlan { info, new_version, python })
}

/// The question asked before an upgrade.
pub open spec fn upgrade_prompt_text(spec: Seq<char>, new_version: Seq<char>, count: nat) -> Seq<char> {
    "pyenv: migrate managed venv "@ + spec + " to runtime "@ + new_version
        + "? (this will recreate the environment and attempt to reinstall "@ + dec(count) + " packages) [y/N] "@
}

/// The confirmation question for an upgrade that reinstalls `count` packages.
pub fn upgrade_prompt(plan: &VenvUpgradePlan, count: usize) -> (r: String)
    ensures
        r@ == upgrade_prompt_text(plan.info.spec@, plan.new_version@, count as nat),
{
    let a = cat3("pyenv: migrate managed venv ", plan.info.spec.as_str(), " to runtime ");
    let b = cat3(a.as_str(), plan.new_version.as_str(), "? (this will recreate the environment and attempt to reinstall ");
    let n = u64_text(count as u64);
    cat3(b.as_str(), n.as_str(), " packages) [y/N] ")
}

/// The report when the upgrade is not confirmed.
pub fn upgrade_cancelled() -> (r: CommandReport)
    ensures
        r.stdout@.len() == 0,
        r.err() == seq!["pyenv: virtual environment upgrade cancelled"@],
        r.exit_code == 1,
{
    CommandReport::failure_one(owned("pyenv: virtual environment upgrade cancelled"))
}

/// The report when the new venv could not be created.
pub fn upgrade_create_failed(error: &str) -> (r: CommandReport)
    ensures
        r.stdout@.len() == 0,
        r.err() == seq!["pyenv: failed to create new venv: "@ + error@],
        r.exit_code == 1,
{
    CommandReport::failure_one(cat("pyenv: failed to create new venv: ", error))
}

/// How one package reinstall went.
pub enum InstallOutcome {
    Installed,
    /// pip exited with this code (none when killed by a signal).
    Failed(Option<i32>),
    /// pip could not be started.
    LaunchError(String),
}

/// How `pip check` went.
pub enum CheckOutcome {
    Passed,
    /// pip reported conflicts on its standard output.
    Conflicts(String),
    LaunchError(String),
}

/// What happened to the old venv.
pub enum CleanupOutcome {
    /// The new venv is at the same place; nothing was removed.
    SamePlace,
    Removed,
    Failed(String),
}

/// What the caller did after the confirmation.
pub struct UpgradeOutcome {
    /// The package list of the old venv could be read.
    pub backup_ok: bool,
    /// The lines of the creation of the new venv.
    pub create_steps: Vec<String>,
    /// The new venv's spec.
    pub new_spec: String,
    pub pip_updated: bool,
    /// One outcome per carried-over requirement, in order.
    pub installs: Vec<InstallOutcome>,
    pub check: CheckOutcome,
    pub cleanup: CleanupOutcome,
}

/// `{:?}` of an exit code.
pub open spec fn code_debug(c: Option<i32>) -> Seq<char> {
    match c {
        Some(v) => "Some("@ + signed_dec(v as int) + ")"@,
        None => "None"@,
    }
}

/// The lines of one reinstall: the step, then its outcome.
pub open spec fn install_rows(k: nat, n: nat, spec: Seq<char>, o: InstallOutcome) -> Seq<Seq<char>> {
    seq!["    ["@ + dec(k) + "/"@ + dec(n) + "] installing "@ + spec + "..."@, match o {
        InstallOutcome::Installed => "      - installed "@ + spec,
        InstallOutcome::Failed(c) => "      - [WARNING] failed to install "@ + spec + " (exit code "@ + code_debug(c) + ")"@,
        InstallOutcome::LaunchError(e) => "      - [WARNING] failed to launch pip install for "@ + spec + ": "@ + e@,
    }]
}

/// The lines of the reinstalls, numbered from 1 of `n`.
pub open spec fn installs_rows(specs: Seq<Seq<char>>, outs: Seq<InstallOutcome>, n: nat) -> Seq<Seq<char>>
    decreases specs.len(),
{
    if specs.len() == 0 || outs.len() < specs.len() {
        seq![]
    } else {
        installs_rows(specs.drop_last(), outs, n) + install_rows(specs.len(), n, specs.last(), outs[specs.len() - 1])
    }
}

/// The lines of the dependency check.
pub open spec fn check_rows(c: CheckOutcome) -> Seq<Seq<char>> {
    match c {
        CheckOutcome::Passed => seq!["    - verification success: all dependency constraints satisfied!"@],
        CheckOutcome::Conflicts(out) => seq!["    - [WARNING] dependency conflicts detected:"@]
            + text_lines(out@).map_values(|l: Seq<char>| "      ! "@ + l),
        CheckOutcome::LaunchError(e) => seq!["    - failed to run verification check: "@ + e@],
    }
}

/// The lines of the cleanup of the old venv at `path`.
pub open spec fn cleanup_rows(c: CleanupOutcome, path: Seq<char>) -> Seq<Seq<char>> {
    match c {
        CleanupOutcome::SamePlace => seq![],
        CleanupOutcome::Removed => seq!["  - cleanup: removing old virtual environment..."@, "    - removed old managed venv at "@ + path],
        CleanupOutcome::Failed(e) => seq![
            "  - cleanup: removing old virtual environment..."@,
            "    - [WARNING] failed to remove old venv at "@ + path + ": "@ + e@,
        ],
    }
}

/// The progress report of an upgrade that carried over `specs`.
pub open spec fn upgrade_lines(info: ManagedVenvInfo, specs: Seq<Seq<char>>, o: UpgradeOutcome) -> Seq<Seq<char>> {
    upgrade_head(info, specs, o) + restore_rows(specs, o) + seq!["  - verify: checking dependency constraints..."@]
        + check_rows(o.check) + cleanup_rows(o.cleanup, info.path@) + seq!["Managed venv successfully upgraded to: "@ + o.new_spec@]
}

fn push_line(out: &mut Vec<String>, s: String)
    ensures
        lines(final(out)@) == lines(old(out)@).push(s@),
{
    let ghost before = lines(out@);
    out.push(s);
    assert(lines(out@) =~= before.push(s@));
}

pub(crate) fn code_text(c: Option<i32>) -> (r: String)
    ensures
        r@ == code_debug(c),
{
    match c {
        Some(v) => {
            let t = i32_text(v);
            cat3("Some(", t.as_str(), ")")
        },
        None => owned("None"),
    }
}

fn push_install_rows(out: &mut Vec<String>, specs: &Vec<String>, installs: &Vec<InstallOutcome>)
    requires
        installs@.len() == specs@.len(),
        specs@.len() < u64::MAX,
    ensures
        lines(final(out)@) == lines(old(out)@) + installs_rows(lines(specs@), installs@, specs@.len()),
{
    let ghost start = lines(out@);
    let n = u64_text(specs.len() as u64);
    let mut i: usize = 0;
    assert(installs_rows(lines(specs@).take(0), installs@, specs@.len()) =~= Seq::<Seq<char>>::empty());
    while i < specs.len()
        invariant
            i <= specs@.len(),
            installs@.len() == specs@.len(),
            specs@.len() < u64::MAX,
            n@ == dec(specs@.len()),
            lines(out@) == start + installs_rows(lines(specs@).take(i as int), installs@, specs@.len()),
        decreases specs.len() - i,
    {
        let ghost before = lines(out@);
        let k = u64_text((i + 1) as u64);
        let s = specs[i].as_str();
        let head = cat5("    [", k.as_str(), "/", n.as_str(), "] installing ");
        push_line(out, cat3(head.as_str(), s, "..."));
        let row = match &installs[i] {
            InstallOutcome::Installed => cat("      - installed ", s),
            InstallOutcome::Failed(c) => {
                let ct = code_text(*c);
                let a = cat3("      - [WARNING] failed to install ", s, " (exit code ");
                cat3(a.as_str(), ct.as_str(), ")")
            },
            InstallOutcome::LaunchError(e) => {
                let a = cat3("      - [WARNING] failed to launch pip install for ", s, ": ");
                cat(a.as_str(), e.as_str())
            },
        };
        push_line(out, row);
        proof {
            let t = lines(specs@).take(i + 1);
            assert(t.drop_last() =~= lines(specs@).take(i as int));
            assert(t.last() == specs@[i as int]@);
            assert(t.len() == i + 1);
            assert(lines(out@) =~= before + install_rows((i + 1) as nat, specs@.len(), specs@[i as int]@, installs@[i as int]));
        }
        i = i + 1;
    }
    assert(lines(specs@).take(specs@.len() as int) =~= lines(specs@));
}

/// The lines before the reinstalls: the backup, the creation steps and the pip update.
pub open spec fn upgrade_head(info: ManagedVenvInfo, specs: Seq<Seq<char>>, o: UpgradeOutcome) -> Seq<Seq<char>> {
    seq!["Progress:"@] + seq![if o.backup_ok {
        "  - backup: captured "@ + dec(specs.len()) + " custom packages from "@ + info.spec@
    } else {
        "  - [WARNING] failed to query old packages list; creating clean environment"@
    }] + lines(o.create_steps@).map_values(|s: Seq<char>| "  - "@ + s) + seq![
        "  - pip: updating pip to the latest version..."@,
        if o.pip_updated {
            "    - pip updated successfully"@
        } else {
            "    - [WARNING] pip update failed, continuing with default version"@
        },
    ]
}

/// The reinstall lines.
pub open spec fn restore_rows(specs: Seq<Seq<char>>, o: UpgradeOutcome) -> Seq<Seq<char>> {
    if specs.len() > 0 {
        seq!["  - restore: restoring "@ + dec(specs.len()) + " custom packages..."@] + installs_rows(specs, o.installs@, specs.len())
    } else {
        seq![]
    }
}

fn push_head(out: &mut Vec<String>, info: &ManagedVenvInfo, specs: &Vec<String>, o: &UpgradeOutcome)
    requires
        specs@.len() < u64::MAX,
    ensures
        lines(final(out)@) == lines(old(out)@) + upgrade_head(*info, lines(specs@), *o),
{
    let ghost s0 = lines(out@);
    push_line(out, owned("Progress:"));
    if o.backup_ok {
        let n = u64_text(specs.len() as u64);
        proof {
            reveal_strlit("");
        }
        push_line(out, cat5("  - backup: captured ", n.as_str(), " custom packages from ", info.spec.as_str(), ""));
    } else {
        push_line(out, owned("  - [WARNING] failed to query old packages list; creating clean environment"));
    }
    let ghost s1 = lines(out@);
    let mut i: usize = 0;
    while i < o.create_steps.len()
        invariant
            i <= o.create_steps@.len(),
            lines(out@) == s1 + lines(o.create_steps@).take(i as int).map_values(|s: Seq<char>| "  - "@ + s),
        decreases o.create_steps.len() - i,
    {
        push_line(out, cat("  - ", o.create_steps[i].as_str()));
        assert(lines(o.create_steps@).take(i + 1).map_values(|s: Seq<char>| "  - "@ + s)
            =~= lines(o.create_steps@).take(i as int).map_values(|s: Seq<char>| "  - "@ + s).push("  - "@ + o.create_steps@[i as int]@));
        i = i + 1;
    }
    assert(lines(o.create_steps@).take(o.create_steps@.len() as int) =~= lines(o.create_steps@));
    push_line(out, owned("  - pip: updating pip to the latest version..."));
    if o.pip_updated {
        push_line(out, owned("    - pip updated successfully"));
    } else {
        push_line(out, owned("    - [WARNING] pip update failed, continuing with default version"));
    }
    assert(lines(out@) =~= s0 + upgrade_head(*info, lines(specs@), *o));
}

fn push_restore(out: &mut Vec<String>, specs: &Vec<String>, o: &UpgradeOutcome)
    requires
        o.installs@.len() == specs@.len(),
        specs@.len() < u64::MAX,
    ensures
        lines(final(out)@) == lines(old(out)@) + restore_rows(lines(specs@), *o),
{
    let ghost s0 = lines(out@);
    if specs.len() > 0 {
        let n = u64_text(specs.len() as u64);
        push_line(out, cat3("  - restore: restoring ", n.as_str(), " custom packages..."));
        push_install_rows(out, specs, &o.installs);
    }
    assert(lines(out@) =~= s0 + restore_rows(lines(specs@), *o));
}

fn push_check(out: &mut Vec<String>, c: &CheckOutcome)
    ensures
        lines(final(out)@) == lines(old(out)@) + check_rows(*c),
{
    let ghost s0 = lines(out@);
    match c {
        CheckOutcome::Passed => push_line(out, owned("    - verification success: all dependency constraints satisfied!")),
        CheckOutcome::Conflicts(text) => {
            push_line(out, owned("    - [WARNING] dependency conflicts detected:"));
            let ls = text_lines_of(text.as_str());
            let ghost s4 = lines(out@);
            let mut j: usize = 0;
            while j < ls.len()
                invariant
                    j <= ls@.len(),
                    lines(out@) == s4 + lines(ls@).take(j as int).map_values(|l: Seq<char>| "      ! "@ + l),
                decreases ls.len() - j,
            {
                push_line(out, cat("      ! ", ls[j].as_str()));
                assert(lines(ls@).take(j + 1).map_values(|l: Seq<char>| "      ! "@ + l)
                    =~= lines(ls@).take(j as int).map_values(|l: Seq<char>| "      ! "@ + l).push("      ! "@ + ls@[j as int]@));
                j = j + 1;
            }
            assert(lines(ls@).take(ls@.len() as int) =~= lines(ls@));
        },
        CheckOutcome::LaunchError(e) => push_line(out, cat("    - failed to run verification check: ", e.as_str())),
    }
    assert(lines(out@) =~= s0 + check_rows(*c));
}

fn push_cleanup(out: &mut Vec<String>, c: &CleanupOutcome, path: &str)
    ensures
        lines(final(out)@) == lines(old(out)@) + cleanup_rows(*c, path@),
{
    let ghost s0 = lines(out@);
    match c {
        CleanupOutcome::SamePlace => {},
        CleanupOutcome::Removed => {
            push_line(out, owned("  - cleanup: removing old virtual environment..."));
            push_line(out, cat("    - removed old managed venv at ", path));
        },
        CleanupOutcome::Failed(e) => {
            push_line(out, owned("  - cleanup: removing old virtual environment..."));
            proof {
                reveal_strlit("");
            }
            push_line(out, cat5("    - [WARNING] failed to remove old venv at ", path, ": ", e.as_str(), ""));
        },
    }
    assert(lines(out@) =~= s0 + cleanup_rows(*c, path@));
}

/// The progress report of an upgrade: the backup, the creation steps, the pip update, each
/// reinstall, the dependency check, the cleanup of the old venv, and where the venv now is.
pub fn upgrade_report(info: &ManagedVenvInfo, specs: &Vec<String>, o: &UpgradeOutcome) -> (r: CommandReport)
    requires
        o.installs@.len() == specs@.len(),
        specs@.len() < u64::MAX,
    ensures
        r.out() == upgrade_lines(*info, lines(specs@), *o),
        r.stderr@.len() == 0,
        r.exit_code == 0,
{
    let mut out: Vec<String> = Vec::new();
    assert(lines(out@) =~= Seq::<Seq<char>>::empty());
    push_head(&mut out, info, specs, o);
    push_restore(&mut out, specs, o);
    push_line(&mut out, owned("  - verify: checking dependency constraints..."));
    push_check(&mut out, &o.check);
    push_cleanup(&mut out, &o.cleanup, info.path.as_str());
    push_line(&mut out, cat("Managed venv successfully upgraded to: ", o.new_spec.as_str()));
    assert(lines(out@) =~= upgrade_lines(*info, lines(specs@), *o));
    CommandReport::success(out)
}

/// A character as `{:?}` writes it inside a quoted string, for the escapes it uses for
/// `"`, `\\`, newline, carriage return, tab and NUL.
pub open spec fn debug_char(c: char) -> Seq<char> {
    if c == '"' {
        seq!['\\', '"']
    } else if c == '\\' {
        seq!['\\', '\\']
    } else if c == '\n' {
        seq!['\\', 'n']
    } else if c == '\r' {
        seq!['\\', 'r']
    } else if c == '\t' {
        seq!['\\', 't']
    } else if c == '\0' {
        seq!['\\', '0']
    } else {
        seq![c]
    }
}

/// A text as `{:?}` writes it, between double quotes.
pub open spec fn debug_body(s: Seq<char>) -> Seq<char>
    decreases s.len(),
{
    if s.len() == 0 {
        seq![]
    } else {
        debug_body(s.drop_last()) + debug_char(s.last())
    }
}

/// `{:?}` of an optional path.
pub open spec fn debug_opt_path(p: Option<Seq<char>>) -> Seq<char> {
    match p {
        Some(x) => seq!['S', 'o', 'm', 'e', '(', '"'] + debug_body(x) + seq!['"', ')'],
        None => seq!['N', 'o', 'n', 'e'],
    }
}

fn debug_opt_text(p: Option<&str>) -> (r: String)
    ensures
        r@ == debug_opt_path(match p { Some(x) => Some(x@), None => None }),
{
    match p {
        None => {
            let mut r = String::new();
            crate::strings::push_char(&mut r, 'N');
            crate::strings::push_char(&mut r, 'o');
            crate::strings::push_char(&mut r, 'n');
            crate::strings::push_char(&mut r, 'e');
            assert(r@ =~= seq!['N', 'o', 'n', 'e']);
            r
        },
        Some(x) => {
            let mut r = String::new();
            crate::strings::push_char(&mut r, 'S');
            crate::strings::push_char(&mut r, 'o');
            crate::strings::push_char(&mut r, 'm');
            crate::strings::push_char(&mut r, 'e');
            crate::strings::push_char(&mut r, '(');
            crate::strings::push_char(&mut r, '"');
            let v = crate::strings::chars_of(x);
            let ghost head = r@;
            assert(head =~= seq!['S', 'o', 'm', 'e', '(', '"']);
            let mut i: usize = 0;
            assert(v@.take(0) =~= Seq::<char>::empty());
            while i < v.len()
                invariant
                    i <= v@.len(),
                    r@ == head + debug_body(v@.take(i as int)),
                decreases v.len() - i,
            {
                assert(v@.take(i + 1).drop_last() =~= v@.take(i as int));
                let c = v[i];
                let ghost before = r@;
                if c == '"' || c == '\\' || c == '\n' || c == '\r' || c == '\t' || c == '\0' {
                    crate::strings::push_char(&mut r, '\\');
                    let e = if c == '"' { '"' } else if c == '\\' { '\\' } else if c == '\n' { 'n' } else if c == '\r' { 'r' } else if c == '\t' { 't' } else { '0' };
                    crate::strings::push_char(&mut r, e);
                } else {
                    crate::strings::push_char(&mut r, c);
                }
                assert(r@ =~= before + debug_char(c));
                i = i + 1;
            }
            assert(v@.take(v@.len() as int) =~= v@);
            crate::strings::push_char(&mut r, '"');
            crate::strings::push_char(&mut r, ')');
            assert(r@ =~= debug_opt_path(Some(x@)));
            r
        },
    }
}

/// The report when the new venv has no interpreter on disk (`python` as the new venv records it).
pub fn upgrade_python_missing(python: Option<&str>) -> (r: CommandReport)
    ensures
        r.stdout@.len() == 0,
        r.err() == seq!["pyenv: new python interpreter was not found on disk at "@ + debug_opt_path(match python { Some(x) => Some(x@), None => None })],
        r.exit_code == 1,
{
    let d = debug_opt_text(python);
    CommandReport::failure_one(cat("pyenv: new python interpreter was not found on disk at ", d.as_str()))
}

/// The old venv is removed after an upgrade exactly when the new one is elsewhere: the two
/// paths differ in their components (as `Path` equality compares them).
pub fn needs_cleanup(old_path: &str, new_path: &str) -> (r: bool)
    ensures
        r == (components(old_path@) != components(new_path@)),
{
    !paths_equal(old_path, new_path, false)
}

} // verus!
