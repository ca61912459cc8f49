//! The interactive `pyenv global` / `pyenv local`: the state shown, the menu offered, how an
//! answer is read, and the questions of the venv-creation path. Reading the answers is the
//! caller's part.
use vstd::prelude::*;

use crate::catalog::{installed, installed_version_names, names_sorted};
use crate::context::{join_path, join_path_str, AppContext};
use crate::report::CommandReport;
use crate::runtime::inventory::ci_le;
use crate::self_update::versioning::{lex_compare, parse_u64, parse_u64_str, VersionOrder};
use crate::strings::{cat, cat3, cat5, dec, join, join_strings, lines, lower_str, owned, str_eq, trim, trim_str, u64_text};
use crate::venv::commands::venv_listing;
use crate::venv::inventory::{list_managed_venvs, ManagedVenvInfo};
use crate::version::commands::{file_versions, global_versions};
use crate::version::files::{find_local, find_local_version_file, read_version_file};
use crate::version::selection::{origin_of, resolve_selected_versions, selection};

verus! {

broadcast use vstd::string::group_string_axioms;

/// `s` with `x` inserted before the first element that sorts after it ignoring ASCII case.
pub open spec fn ci_insert(s: Seq<Seq<char>>, x: Seq<char>) -> Seq<Seq<char>>
    decreases s.len(),
{
    if s.len() == 0 {
        seq![x]
    } else if !ci_le(s[0], x) {
        seq![x] + s
    } else {
        seq![s[0]] + ci_insert(s.drop_first(), x)
    }
}

/// A stable sort by the lowercased text (`sort_by_key` with `to_ascii_lowercase`).
pub open spec fn ci_sort(s: Seq<Seq<char>>) -> Seq<Seq<char>>
    decreases s.len(),
{
    if s.len() == 0 {
        seq![]
    } else {
        ci_insert(ci_sort(s.drop_last()), s.last())
    }
}

fn insert_ci(v: &mut Vec<String>, x: String)
    ensures
        lines(final(v)@) == ci_insert(lines(old(v)@), x@),
{
    let ghost s = lines(v@);
    let xk = lower_str(x.as_str());
    let mut p: usize = 0;
    let mut stop = false;
    assert(s.skip(0) =~= s);
    while p < v.len() && !stop
        invariant
            p <= v@.len(),
            stop ==> p < v@.len() && !ci_le(s[p as int], x@),
            v@ == old(v)@,
            s == lines(v@),
            xk@ == crate::strings::lower_seq(x@),
            forall|k: int| 0 <= k < p ==> ci_le(#[trigger] s[k], x@),
            ci_insert(s, x@) == s.take(p as int) + ci_insert(s.skip(p as int), x@),
        decreases v.len() - p + (if stop { 0int } else { 1int }),
    {
        let k = lower_str(v[p].as_str());
        if lex_compare(k.as_str(), xk.as_str()) == VersionOrder::Greater {
            stop = true;
        } else {
            proof {
                let t = s.skip(p as int);
                assert(t[0] == s[p as int]);
                assert(t.drop_first() =~= s.skip(p + 1));
                assert(s.take(p + 1) =~= s.take(p as int) + seq![s[p as int]]);
                assert(ci_insert(t, x@) == seq![t[0]] + ci_insert(t.drop_first(), x@));
                assert(s.take(p as int) + (seq![s[p as int]] + ci_insert(s.skip(p + 1), x@)) =~= s.take(p + 1) + ci_insert(s.skip(p + 1), x@));
            }
            p = p + 1;
        }
    }
    proof {
        let t = s.skip(p as int);
        if p < s.len() {
            assert(t[0] == s[p as int]);
            assert(!ci_le(t[0], x@));
            assert(ci_insert(t, x@) == seq![x@] + t);
        } else {
            assert(t =~= Seq::<Seq<char>>::empty());
        }
    }
    v.insert(p, x);
    assert(lines(v@) =~= s.take(p as int) + ci_insert(s.skip(p as int), x@));
}

fn sort_ci(v: &Vec<String>) -> (r: Vec<String>)
    ensures
        lines(r@) == ci_sort(lines(v@)),
{
    let mut out: Vec<String> = Vec::new();
    let mut i: usize = 0;
    assert(lines(v@).take(0) =~= Seq::<Seq<char>>::empty());
    while i < v.len()
        invariant
            i <= v@.len(),
            lines(out@) == ci_sort(lines(v@).take(i as int)),
        decreases v.len() - i,
    {
        assert(lines(v@).take(i + 1).drop_last() =~= lines(v@).take(i as int));
        assert(lines(v@).take(i + 1).last() == v@[i as int]@);
        insert_ci(&mut out, owned(v[i].as_str()));
        i = i + 1;
    }
    assert(lines(v@).take(v@.len() as int) =~= lines(v@));
    out
}

/// The two actions at the end of the menu.
pub open spec fn install_action() -> Seq<char> {
    "[Install a new Python version]"@
}

pub open spec fn create_action() -> Seq<char> {
    "[Create a new virtual environment]"@
}

/// The menu: `system`, the installed runtimes, the managed venvs by spec ignoring case, then
/// the install and create actions.
pub open spec fn menu_options(names: Seq<Seq<char>>, venvs: Seq<ManagedVenvInfo>) -> Seq<Seq<char>> {
    seq!["system"@] + names + ci_sort(venvs.map_values(|i: ManagedVenvInfo| i.spec@)) + seq![install_action(), create_action()]
}

/// The options offered by the interactive selection.
pub fn selection_options(ctx: &AppContext) -> (r: Vec<String>)
    ensures
        exists|names: Seq<Seq<char>>, venvs: Seq<ManagedVenvInfo>|
            names_sorted(names) && (forall|n: Seq<char>| #[trigger] names.contains(n) <==> installed(*ctx, n))
            && venv_listing(*ctx, venvs) && lines(r@) == #[trigger] menu_options(names, venvs),
{
    let names = installed_version_names(ctx);
    let venvs = list_managed_venvs(ctx);
    let mut specs: Vec<String> = Vec::new();
    let mut i: usize = 0;
    while i < venvs.len()
        invariant
            i <= venvs@.len(),
            lines(specs@) == venvs@.take(i as int).map_values(|x: ManagedVenvInfo| x.spec@),
        decreases venvs.len() - i,
    {
        let ghost before = lines(specs@);
        specs.push(owned(venvs[i].spec.as_str()));
        assert(lines(specs@) =~= before.push(venvs@[i as int].spec@));
        assert(venvs@.take(i + 1).map_values(|x: ManagedVenvInfo| x.spec@) =~= venvs@.take(i as int).map_values(|x: ManagedVenvInfo| x.spec@).push(venvs@[i as int].spec@));
        i = i + 1;
    }
    assert(venvs@.take(venvs@.len() as int) =~= venvs@);
    let sorted = sort_ci(&specs);
    let mut out: Vec<String> = Vec::new();
    out.push(owned("system"));
    let mut j: usize = 0;
    while j < names.len()
        invariant
            j <= names@.len(),
            lines(out@) == seq!["system"@] + lines(names@).take(j as int),
        decreases names.len() - j,
    {
        let ghost before = lines(out@);
        out.push(owned(names[j].as_str()));
        assert(lines(out@) =~= before.push(names@[j as int]@));
        assert(lines(names@).take(j + 1) =~= lines(names@).take(j as int).push(names@[j as int]@));
        j = j + 1;
    }
    assert(lines(names@).take(names@.len() as int) =~= lines(names@));
    let ghost mid = lines(out@);
    let mut k: usize = 0;
    while k < sorted.len()
        invariant
            k <= sorted@.len(),
            lines(out@) == mid + lines(sorted@).take(k as int),
        decreases sorted.len() - k,
    {
        let ghost before = lines(out@);
        out.push(owned(sorted[k].as_str()));
        assert(lines(out@) =~= before.push(sorted@[k as int]@));
        assert(lines(sorted@).take(k + 1) =~= lines(sorted@).take(k as int).push(sorted@[k as int]@));
        k = k + 1;
    }
    assert(lines(sorted@).take(sorted@.len() as int) =~= lines(sorted@));
    out.push(owned("[Install a new Python version]"));
    out.push(owned("[Create a new virtual environment]"));
    assert(lines(out@) =~= menu_options(lines(names@), venvs@));
    out
}

/// The versions of the nearest `.python-version`, joined by `:`, or `(none)`.
pub open spec fn local_display(ctx: AppContext) -> Seq<char> {
    match find_local(ctx.fs, ctx.dir@) {
        Some(p) => match file_versions(ctx.fs, p) {
            Some(v) => join(v, seq![':']),
            None => "(none)"@,
        },
        None => "(none)"@,
    }
}

/// The state shown before the menu, with a blank line after it.
pub open spec fn selection_header_lines(ctx: AppContext) -> Seq<Seq<char>> {
    seq![
        "Current State:"@,
        "  Global: "@ + join(global_versions(ctx), seq![':']),
        "  Local:  "@ + local_display(ctx),
        "  Active: "@ + join(selection(ctx, false).0, seq![':']) + " (set by "@ + origin_of(ctx) + ")"@,
        ""@,
    ]
}

/// The current global, local and active versions, as shown before the menu.
#[verifier::rlimit(50)]
#[verifier::spinoff_prover]
pub fn selection_header(ctx: &AppContext) -> (r: Vec<String>)
    ensures
        lines(r@) == selection_header_lines(*ctx),
{
    proof {
        reveal_strlit(":");
        reveal_strlit("system");
    }
    let global = crate::version::commands::show_global_versions(ctx);
    let g = join_strings(&global.stdout, ":");
    let local = match find_local_version_file(&ctx.fs, ctx.dir.as_str()) {
        Some(p) => match read_version_file(&ctx.fs, p.as_str()) {
            Ok(v) => join_strings(&v, ":"),
            Err(_) => owned("(none)"),
        },
        None => owned("(none)"),
    };
    let selected = resolve_selected_versions(ctx, false);
    let active = join_strings(&selected.versions, ":");
    let origin = selected.origin.to_string();
    let mut out: Vec<String> = Vec::new();
    out.push(owned("Current State:"));
    out.push(cat("  Global: ", g.as_str()));
    out.push(cat("  Local:  ", local.as_str()));
    out.push(cat5("  Active: ", active.as_str(), " (set by ", origin.as_str(), ")"));
    out.push(owned(""));
    assert(":"@ =~= seq![':']);
    assert(lines(out@) =~= selection_header_lines(*ctx));
    out
}

/// `global` or `local`.
pub open spec fn scope_label(is_global: bool) -> Seq<char> {
    if is_global {
        "global"@
    } else {
        "local"@
    }
}

/// Numbered menu lines: `  <k>) <option>`.
pub open spec fn numbered(options: Seq<Seq<char>>) -> Seq<Seq<char>>
    decreases options.len(),
{
    if options.len() == 0 {
        seq![]
    } else {
        numbered(options.drop_last()).push("  "@ + dec(options.len()) + ") "@ + options.last())
    }
}

fn numbered_lines(options: &Vec<String>) -> (r: Vec<String>)
    requires
        options@.len() < u64::MAX,
    ensures
        lines(r@) == numbered(lines(options@)),
{
    let mut out: Vec<String> = Vec::new();
    let mut i: usize = 0;
    assert(lines(options@).take(0) =~= Seq::<Seq<char>>::empty());
    while i < options.len()
        invariant
            i <= options@.len(),
            options@.len() < u64::MAX,
            lines(out@) == numbered(lines(options@).take(i as int)),
        decreases options.len() - i,
    {
        assert(lines(options@).take(i + 1).drop_last() =~= lines(options@).take(i as int));
        assert(lines(options@).take(i + 1).last() == options@[i as int]@);
        let k = u64_text((i + 1) as u64);
        let ghost before = lines(out@);
        out.push(cat5("  ", k.as_str(), ") ", options[i].as_str(), ""));
        proof {
            reveal_strlit("");
        }
        assert(lines(out@) =~= before.push("  "@ + dec((i + 1) as nat) + ") "@ + options@[i as int]@));
        i = i + 1;
    }
    assert(lines(options@).take(options@.len() as int) =~= lines(options@));
    out
}

/// The menu printed for the options.
pub fn selection_menu(options: &Vec<String>) -> (r: Vec<String>)
    requires
        options@.len() < u64::MAX,
    ensures
        lines(r@) == seq!["Available Options:"@] + numbered(lines(options@)),
{
    let body = numbered_lines(options);
    let mut out: Vec<String> = Vec::new();
    out.push(owned("Available Options:"));
    let mut i: usize = 0;
    while i < body.len()
        invariant
            i <= body@.len(),
            lines(out@) == seq!["Available Options:"@] + lines(body@).take(i as int),
        decreases body.len() - i,
    {
        let ghost before = lines(out@);
        out.push(owned(body[i].as_str()));
        assert(lines(out@) =~= before.push(body@[i as int]@));
        assert(lines(body@).take(i + 1) =~= lines(body@).take(i as int).push(body@[i as int]@));
        i = i + 1;
    }
    assert(lines(body@).take(body@.len() as int) =~= lines(body@));
    out
}

/// The question after the menu.
pub fn selection_prompt(is_global: bool, count: usize) -> (r: String)
    ensures
        r@ == "Select a version to set "@ + scope_label(is_global) + " [1-"@ + dec(count as nat) + " or 'q' to quit]: "@,
{
    let n = u64_text(count as u64);
    let label = if is_global { "global" } else { "local" };
    cat5("Select a version to set ", label, " [1-", n.as_str(), " or 'q' to quit]: ")
}

/// An answer to a numbered menu.
pub enum MenuChoice {
    /// `q`, `quit` or nothing.
    Cancel,
    /// Not a number of the menu.
    Invalid,
    /// The option at this position (from 0).
    Pick(usize),
}

/// How an answer reads for a menu of `n` options (after trimming).
pub open spec fn menu_choice(input: Seq<char>, n: nat) -> MenuChoice {
    let t = trim(input);
    if t == "q"@ || t == "quit"@ || t.len() == 0 {
        MenuChoice::Cancel
    } else {
        match parse_u64(t) {
            Some(k) => if 1 <= k && k <= n {
                MenuChoice::Pick((k - 1) as usize)
            } else {
                MenuChoice::Invalid
            },
            None => MenuChoice::Invalid,
        }
    }
}

/// Reads an answer to a menu of `n` options.
pub fn parse_menu_choice(input: &str, n: usize) -> (r: MenuChoice)
    ensures
        r == menu_choice(input@, n as nat),
{
    let t = trim_str(input);
    if str_eq(t.as_str(), "q") || str_eq(t.as_str(), "quit") || t.as_str().is_empty() {
        return MenuChoice::Cancel;
    }
    match parse_u64_str(t.as_str()) {
        Some(k) => {
            if 1 <= k && k <= n as u64 {
                MenuChoice::Pick((k - 1) as usize)
            } else {
                MenuChoice::Invalid
            }
        },
        None => MenuChoice::Invalid,
    }
}

/// What the interactive selection does with an answer.
pub enum SelectionStep {
    /// Stop with this report.
    Done(CommandReport),
    /// Run the installer.
    Install,
    /// Ask for a venv to create.
    CreateVenv,
    /// Set this version.
    Choose(String),
}

/// The report for a cancelled selection.
pub open spec fn cancelled_text(is_global: bool) -> Seq<char> {
    "pyenv: "@ + scope_label(is_global) + " selection cancelled"@
}

/// What an answer to the selection menu leads to: the cancellation or invalid-selection
/// report, one of the two actions, or setting the chosen version.
pub fn selection_step(options: &Vec<String>, input: &str, is_global: bool) -> (r: SelectionStep)
    ensures
        match menu_choice(input@, options@.len()) {
            MenuChoice::Cancel => r matches SelectionStep::Done(rep) && rep.err() == seq![cancelled_text(is_global)] && rep.exit_code == 1 && rep.stdout@.len() == 0,
            MenuChoice::Invalid => r matches SelectionStep::Done(rep) && rep.err() == seq!["pyenv: invalid selection"@] && rep.exit_code == 1 && rep.stdout@.len() == 0,
            MenuChoice::Pick(k) => {
                let o = options@[k as int]@;
                if o == install_action() {
                    r is Install
                } else if o == create_action() {
                    r is CreateVenv
                } else {
                    r matches SelectionStep::Choose(v) && v@ == o
                }
            },
        },
{
    match parse_menu_choice(input, options.len()) {
        MenuChoice::Cancel => {
            let label = if is_global { "global" } else { "local" };
            SelectionStep::Done(CommandReport::failure_one(cat3("pyenv: ", label, " selection cancelled")))
        },
        MenuChoice::Invalid => SelectionStep::Done(CommandReport::failure_one(owned("pyenv: invalid selection"))),
        MenuChoice::Pick(k) => {
            let o = options[k].as_str();
            if str_eq(o, "[Install a new Python version]") {
                SelectionStep::Install
            } else if str_eq(o, "[Create a new virtual environment]") {
                SelectionStep::CreateVenv
            } else {
                SelectionStep::Choose(owned(o))
            }
        },
    }
}

/// The hint after installing from the menu.
pub fn install_hint(is_global: bool) -> (r: String)
    ensures
        r@ == "\nHint: Run `pyenv "@ + scope_label(is_global) + "` again to select your newly installed version."@,
{
    let label = if is_global { "global" } else { "local" };
    cat3("\nHint: Run `pyenv ", label, "` again to select your newly installed version.")
}

/// The report when an answer could not be read.
pub fn input_failed(in_venv_create: bool) -> (r: CommandReport)
    ensures
        r.stdout@.len() == 0,
        r.exit_code == 1,
        r.err() == seq![if in_venv_create { "pyenv: input failed"@ } else { "pyenv: failed to read interactive input"@ }],
{
    if in_venv_create {
        CommandReport::failure_one(owned("pyenv: input failed"))
    } else {
        CommandReport::failure_one(owned("pyenv: failed to read interactive input"))
    }
}

/// The base-version menu of the venv-creation path: its lines and question, or the report that
/// there is nothing to base a venv on.
pub fn venv_base_menu(installed: &Vec<String>) -> (r: Result<(Vec<String>, String), CommandReport>)
    requires
        installed@.len() < u64::MAX,
    ensures
        installed@.len() == 0 <==> r is Err,
        r matches Err(rep) ==> (rep.exit_code == 1 && rep.stdout@.len() == 0
            && rep.err() == seq!["pyenv: no Python versions installed to base a venv on. Please install one first."@]),
        r matches Ok(m) ==> (lines(m.0@) == seq!["Select a base installed Python version for your new venv:"@] + numbered(lines(installed@))
            && m.1@ == "Select base version [1-"@ + dec(installed@.len()) + " or 'q' to quit]: "@),
{
    if installed.len() == 0 {
        return Err(CommandReport::failure_one(owned("pyenv: no Python versions installed to base a venv on. Please install one first.")));
    }
    let body = numbered_lines(installed);
    let mut out: Vec<String> = Vec::new();
    out.push(owned("Select a base installed Python version for your new venv:"));
    let mut i: usize = 0;
    while i < body.len()
        invariant
            i <= body@.len(),
            lines(out@) == seq!["Select a base installed Python version for your new venv:"@] + lines(body@).take(i as int),
        decreases body.len() - i,
    {
        let ghost before = lines(out@);
        out.push(owned(body[i].as_str()));
        assert(lines(out@) =~= before.push(body@[i as int]@));
        assert(lines(body@).take(i + 1) =~= lines(body@).take(i as int).push(body@[i as int]@));
        i = i + 1;
    }
    assert(lines(body@).take(body@.len() as int) =~= lines(body@));
    let n = u64_text(installed.len() as u64);
    Ok((out, cat3("Select base version [1-", n.as_str(), " or 'q' to quit]: ")))
}

/// The base version picked from the menu, or the cancellation or invalid-selection report.
pub fn venv_base_choice(installed: &Vec<String>, input: &str) -> (r: Result<String, CommandReport>)
    ensures
        match menu_choice(input@, installed@.len()) {
            MenuChoice::Cancel => r matches Err(rep) && rep.err() == seq!["pyenv: cancelled venv creation"@] && rep.exit_code == 1,
            MenuChoice::Invalid => r matches Err(rep) && rep.err() == seq!["pyenv: invalid selection"@] && rep.exit_code == 1,
            MenuChoice::Pick(k) => r matches Ok(v) && v@ == installed@[k as int]@,
        },
{
    match parse_menu_choice(input, installed.len()) {
        MenuChoice::Cancel => Err(CommandReport::failure_one(owned("pyenv: cancelled venv creation"))),
        MenuChoice::Invalid => Err(CommandReport::failure_one(owned("pyenv: invalid selection"))),
        MenuChoice::Pick(k) => Ok(owned(installed[k].as_str())),
    }
}

/// The venv name given, trimmed, or the report that it is empty.
pub fn venv_name_choice(input: &str) -> (r: Result<String, CommandReport>)
    ensures
        trim(input@).len() == 0 ==> (r matches Err(rep) && rep.err() == seq!["pyenv: venv name cannot be empty"@] && rep.exit_code == 1),
        trim(input@).len() > 0 ==> (r matches Ok(n) && n@ == trim(input@)),
{
    let t = trim_str(input);
    if t.as_str().is_empty() {
        Err(CommandReport::failure_one(owned("pyenv: venv name cannot be empty")))
    } else {
        Ok(t)
    }
}

/// The question for the venv's name.
pub fn venv_name_prompt() -> (r: &'static str)
    ensures
        r@ == "Enter a name for your new virtual environment (e.g., 'my-project'): "@,
{
    "Enter a name for your new virtual environment (e.g., 'my-project'): "
}

/// The lines printed before the venv is created: a blank line, the step, a blank line.
pub fn venv_creating_lines(name: &str, base: &str) -> (r: Vec<String>)
    ensures
        lines(r@) == seq![""@, "Creating managed venv '"@ + name@ + "' hosted by "@ + base@ + "..."@, ""@],
{
    let mut out: Vec<String> = Vec::new();
    out.push(owned(""));
    out.push(cat5("Creating managed venv '", name, "' hosted by ", base, "..."));
    out.push(owned(""));
    assert(lines(out@) =~= seq![""@, "Creating managed venv '"@ + name@ + "' hosted by "@ + base@ + "..."@, ""@]);
    out
}

/// The lines printed once the venv exists, and the version then set: `venv:<name>`.
pub fn venv_created_step(name: &str) -> (r: (Vec<String>, String))
    ensures
        lines(r.0@) == seq!["Successfully created managed venv "@ + name@, ""@],
        r.1@ == "venv:"@ + name@,
{
    let mut out: Vec<String> = Vec::new();
    out.push(cat("Successfully created managed venv ", name));
    out.push(owned(""));
    assert(lines(out@) =~= seq!["Successfully created managed venv "@ + name@, ""@]);
    (out, cat("venv:", name))
}

} // verus!
