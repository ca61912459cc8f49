//! `pyenv exec`: the executable a shim runs (from the first selected version that has the
//! command, else from the system `PATH`), the hook variables, and how the command is started.
use vstd::prelude::*;

use crate::context::AppContext;
use crate::hooks::{pair_views, HookActions};
use crate::report::CommandReport;
use crate::runtime::inventory::{managed_search_roots_for_version, search_roots};
use crate::runtime::search::{candidates, command_in_prefix, find_command_in_prefix, prefix_bin_dirs, prefix_bins, search_dirs, search_path_entries};
use crate::shim::paths::{adjusted_path, adjusted_path_of, inherited_paths, paths_equal, same_path, split_path_value};
use crate::shim::rehash::path_ext_of;
use crate::strings::{cat, cat3, chars_of, join, join_strings, lines, owned, starts_with, starts_with_str, str_eq, string_from};
use crate::version::commands::{missing_messages, missing_texts};
use crate::version::selection::{origin_of, resolve_selected_versions, selection};

verus! {

broadcast use vstd::string::group_string_axioms;

/// The executable for `command` under the first of `roots` that has it.
pub open spec fn first_in_roots(ctx: AppContext, roots: Seq<Seq<char>>, command: Seq<char>) -> Option<Seq<char>>
    decreases roots.len(),
{
    if roots.len() == 0 {
        None
    } else {
        match command_in_prefix(ctx.fs, roots[0], command, path_ext_of(ctx), ctx.windows) {
            Some(p) => Some(p),
            None => first_in_roots(ctx, roots.drop_first(), command),
        }
    }
}

/// The executable for `command` in a version's prefixes.
pub open spec fn command_in_version(ctx: AppContext, version: Seq<char>, command: Seq<char>) -> Option<Seq<char>> {
    first_in_roots(ctx, search_roots(ctx, version), command)
}

/// The `PATH` entries searched for system commands: every inherited entry but the shims
/// directory.
pub open spec fn system_dirs_from(ps: Seq<Seq<char>>, shims: Seq<char>, windows: bool) -> Seq<Seq<char>>
    decreases ps.len(),
{
    if ps.len() == 0 {
        seq![]
    } else if same_path(ps.last(), shims, windows) {
        system_dirs_from(ps.drop_last(), shims, windows)
    } else {
        system_dirs_from(ps.drop_last(), shims, windows).push(ps.last())
    }
}

/// The executable for `command` on the system `PATH`, shims excluded.
pub open spec fn system_command(ctx: AppContext, command: Seq<char>) -> Option<Seq<char>> {
    search_dirs(ctx.fs, system_dirs_from(inherited_paths(ctx), ctx.shims_dir_spec(), ctx.windows), candidates(command, path_ext_of(ctx)), ctx.windows)
}

/// Where a selected version finds the command: the system `PATH` for `system`, else the
/// version's prefixes.
#[verifier::opaque]
pub open spec fn hit_of(ctx: AppContext, v: Seq<char>, command: Seq<char>) -> Option<Seq<char>> {
    if v == "system"@ {
        system_command(ctx, command)
    } else {
        command_in_version(ctx, v, command)
    }
}

/// The first of `versions` that has the command, as (executable, version name).
pub open spec fn exec_lookup(ctx: AppContext, versions: Seq<Seq<char>>, command: Seq<char>) -> Option<(Seq<char>, Seq<char>)>
    decreases versions.len(),
{
    if versions.len() == 0 {
        None
    } else {
        let v = versions[0];
        match hit_of(ctx, v, command) {
            Some(p) => Some((p, v)),
            None => exec_lookup(ctx, versions.drop_first(), command),
        }
    }
}

/// What a shim runs: the first selected version with the command, else the system command when
/// `system` was not among them.
pub open spec fn exec_target_of(ctx: AppContext, command: Seq<char>) -> Option<(Seq<char>, Seq<char>)> {
    let vs = selection(ctx, false).0;
    match exec_lookup(ctx, vs, command) {
        Some(t) => Some(t),
        None => if !vs.contains("system"@) {
            match system_command(ctx, command) {
                Some(p) => Some((p, "system"@)),
                None => None,
            }
        } else {
            None
        },
    }
}

/// The bin directories of each prefix, in order.
pub open spec fn bins_of_roots(roots: Seq<Seq<char>>) -> Seq<Seq<char>>
    decreases roots.len(),
{
    if roots.len() == 0 {
        seq![]
    } else {
        prefix_bins(roots[0]) + bins_of_roots(roots.drop_first())
    }
}

/// The directories put in front of `PATH` for a target from `version`: none for the system.
pub open spec fn target_dirs(ctx: AppContext, version: Seq<char>) -> Seq<Seq<char>> {
    if version == "system"@ {
        seq![]
    } else {
        bins_of_roots(search_roots(ctx, version))
    }
}

/// The executable a shim runs.
pub struct ExecTarget {
    pub executable: String,
    pub prefix_dirs: Vec<String>,
    pub version_name: String,
}

fn path_ext_ref(ctx: &AppContext) -> (r: Option<&str>)
    ensures
        match r {
            Some(v) => path_ext_of(*ctx) == Some(v@),
            None => path_ext_of(*ctx) is None,
        },
{
    match &ctx.path_ext {
        Some(v) => Some(v.as_str()),
        None => None,
    }
}

/// The executable for `command` in a version's prefixes, if any.
pub fn find_command_in_version(ctx: &AppContext, version: &str, command: &str) -> (r: Option<String>)
    ensures
        match r {
            Some(p) => command_in_version(*ctx, version@, command@) == Some(p@),
            None => command_in_version(*ctx, version@, command@) is None,
        },
{
    let roots = managed_search_roots_for_version(ctx, version);
    let pe = path_ext_ref(ctx);
    let mut i: usize = 0;
    assert(lines(roots@).skip(0) =~= lines(roots@));
    while i < roots.len()
        invariant
            i <= roots@.len(),
            lines(roots@) == search_roots(*ctx, version@),
            match pe {
                Some(v) => path_ext_of(*ctx) == Some(v@),
                None => path_ext_of(*ctx) is None,
            },
            first_in_roots(*ctx, lines(roots@), command@) == first_in_roots(*ctx, lines(roots@).skip(i as int), command@),
        decreases roots.len() - i,
    {
        assert(lines(roots@).skip(i as int)[0] == roots@[i as int]@);
        assert(lines(roots@).skip(i as int).drop_first() =~= lines(roots@).skip(i + 1));
        match find_command_in_prefix(&ctx.fs, roots[i].as_str(), command, pe, ctx.windows) {
            Some(p) => return Some(p),
            None => {},
        }
        i = i + 1;
    }
    assert(lines(roots@).skip(i as int) =~= Seq::<Seq<char>>::empty());
    None
}

/// The executable for `command` on the system `PATH`, shims excluded.
pub fn find_system_command(ctx: &AppContext, command: &str) -> (r: Option<String>)
    ensures
        match r {
            Some(p) => system_command(*ctx, command@) == Some(p@),
            None => system_command(*ctx, command@) is None,
        },
{
    let shims = ctx.shims_dir();
    let inherited = match &ctx.path_env {
        Some(v) => split_path_value(v.as_str(), ctx.windows),
        None => Vec::new(),
    };
    assert(lines(inherited@) == inherited_paths(*ctx));
    let mut dirs: Vec<String> = Vec::new();
    let mut i: usize = 0;
    assert(lines(inherited@).take(0) =~= Seq::<Seq<char>>::empty());
    while i < inherited.len()
        invariant
            i <= inherited@.len(),
            shims@ == ctx.shims_dir_spec(),
            lines(dirs@) == system_dirs_from(lines(inherited@).take(i as int), shims@, ctx.windows),
        decreases inherited.len() - i,
    {
        assert(lines(inherited@).take(i + 1).drop_last() =~= lines(inherited@).take(i as int));
        assert(lines(inherited@).take(i + 1).last() == inherited@[i as int]@);
        if !paths_equal(inherited[i].as_str(), shims.as_str(), ctx.windows) {
            let ghost before = lines(dirs@);
            dirs.push(owned(inherited[i].as_str()));
            assert(lines(dirs@) =~= before.push(inherited@[i as int]@));
        }
        i = i + 1;
    }
    assert(lines(inherited@).take(inherited@.len() as int) =~= lines(inherited@));
    search_path_entries(&ctx.fs, &dirs, command, path_ext_ref(ctx), ctx.windows)
}

fn bin_dirs_for(ctx: &AppContext, version: &str) -> (r: Vec<String>)
    ensures
        version@ != "system"@ ==> lines(r@) == bins_of_roots(search_roots(*ctx, version@)),
{
    let roots = managed_search_roots_for_version(ctx, version);
    let mut out: Vec<String> = Vec::new();
    assert(lines(out@) =~= Seq::<Seq<char>>::empty());
    proof {
        lemma_bins_split(lines(roots@), 0);
    }
    let mut k: usize = 0;
    while k < roots.len()
        invariant
            k <= roots@.len(),
            lines(roots@) == search_roots(*ctx, version@),
            bins_of_roots(lines(roots@)) == bins_of_roots(lines(roots@).take(k as int)) + bins_of_roots(lines(roots@).skip(k as int)),
            lines(out@) == bins_of_roots(lines(roots@).take(k as int)),
        decreases roots.len() - k,
    {
        let bins = prefix_bin_dirs(roots[k].as_str());
        let ghost before = lines(out@);
        let mut j: usize = 0;
        while j < bins.len()
            invariant
                j <= bins@.len(),
                lines(out@) == before + lines(bins@).take(j as int),
            decreases bins.len() - j,
        {
            let ghost b2 = lines(out@);
            out.push(owned(bins[j].as_str()));
            assert(lines(out@) =~= b2.push(bins@[j as int]@));
            assert(lines(bins@).take(j + 1) =~= lines(bins@).take(j as int).push(bins@[j as int]@));
            assert(lines(out@) =~= before + lines(bins@).take(j + 1));
            j = j + 1;
        }
        assert(lines(bins@).take(bins@.len() as int) =~= lines(bins@));
        proof {
            let t = lines(roots@).take(k as int);
            let t2 = lines(roots@).take(k + 1);
            lemma_bins_push(t, roots@[k as int]@);
            assert(t2 =~= t.push(roots@[k as int]@));
            lemma_bins_split(lines(roots@), k + 1);
        }
        k = k + 1;
    }
    assert(lines(roots@).take(roots@.len() as int) =~= lines(roots@));
    out
}

proof fn lemma_bins_push(roots: Seq<Seq<char>>, x: Seq<char>)
    ensures
        bins_of_roots(roots.push(x)) == bins_of_roots(roots) + prefix_bins(x),
    decreases roots.len(),
{
    if roots.len() == 0 {
        assert(roots.push(x).drop_first() =~= Seq::<Seq<char>>::empty());
        assert(bins_of_roots(roots.push(x)) =~= prefix_bins(x) + bins_of_roots(Seq::<Seq<char>>::empty()));
    } else {
        assert(roots.push(x).drop_first() =~= roots.drop_first().push(x));
        lemma_bins_push(roots.drop_first(), x);
        assert(bins_of_roots(roots.push(x)) =~= prefix_bins(roots[0]) + (bins_of_roots(roots.drop_first()) + prefix_bins(x)));
    }
}

proof fn lemma_bins_split(roots: Seq<Seq<char>>, k: int)
    requires
        0 <= k <= roots.len(),
    ensures
        bins_of_roots(roots) == bins_of_roots(roots.take(k)) + bins_of_roots(roots.skip(k)),
    decreases k,
{
    if k == 0 {
        assert(roots.take(0) =~= Seq::<Seq<char>>::empty());
        assert(roots.skip(0) =~= roots);
        assert(bins_of_roots(roots) =~= Seq::<Seq<char>>::empty() + bins_of_roots(roots));
    } else {
        lemma_bins_split(roots, k - 1);
        lemma_bins_push(roots.take(k - 1), roots[k - 1]);
        assert(roots.take(k) =~= roots.take(k - 1).push(roots[k - 1]));
        assert(roots.skip(k - 1).drop_first() =~= roots.skip(k));
        assert(roots.skip(k - 1)[0] == roots[k - 1]);
        assert(bins_of_roots(roots.skip(k - 1)) == prefix_bins(roots[k - 1]) + bins_of_roots(roots.skip(k)));
        assert(bins_of_roots(roots) =~= bins_of_roots(roots.take(k)) + bins_of_roots(roots.skip(k)));
    }
}

fn try_version(ctx: &AppContext, v: &str, command: &str) -> (r: Option<ExecTarget>)
    ensures
        match r {
            Some(t) => hit_of(*ctx, v@, command@) == Some(t.executable@) && t.version_name@ == v@
                && lines(t.prefix_dirs@) == target_dirs(*ctx, v@),
            None => hit_of(*ctx, v@, command@) is None,
        },
{
    proof {
        reveal_strlit("system");
        reveal(hit_of);
    }
    if str_eq(v, "system") {
        match find_system_command(ctx, command) {
            Some(p) => {
                let t = ExecTarget { executable: p, prefix_dirs: Vec::new(), version_name: owned(v) };
                assert(lines(t.prefix_dirs@) =~= Seq::<Seq<char>>::empty());
                Some(t)
            },
            None => None,
        }
    } else {
        match find_command_in_version(ctx, v, command) {
            Some(p) => {
                let dirs = bin_dirs_for(ctx, v);
                Some(ExecTarget { executable: p, prefix_dirs: dirs, version_name: owned(v) })
            },
            None => None,
        }
    }
}

/// The report when nothing provides the command: each missing version, then "command not
/// found", with exit code 127.
pub open spec fn not_found_lines(ctx: AppContext, command: Seq<char>) -> Seq<Seq<char>> {
    missing_texts(selection(ctx, false).1, origin_of(ctx)).push("pyenv: "@ + command + ": command not found"@)
}

/// The executable `command` runs as, with the directories to put in front of `PATH` and the
/// version it came from; or the report that nothing provides it.
pub fn resolve_exec_target(ctx: &AppContext, command: &str) -> (r: Result<ExecTarget, CommandReport>)
    ensures
        match r {
            Ok(t) => exec_target_of(*ctx, command@) == Some((t.executable@, t.version_name@))
                && lines(t.prefix_dirs@) == target_dirs(*ctx, t.version_name@),
            Err(rep) => exec_target_of(*ctx, command@) is None && rep.stdout@.len() == 0
                && rep.err() == not_found_lines(*ctx, command@) && rep.exit_code == 127,
        },
{
    proof {
        reveal_strlit("system");
    }
    let selected = resolve_selected_versions(ctx, false);
    let origin = selected.origin.to_string();
    let ghost vs = lines(selected.versions@);
    let mut searched_system = false;
    let mut i: usize = 0;
    assert(vs.skip(0) =~= vs);
    while i < selected.versions.len()
        invariant
            i <= selected.versions@.len(),
            vs == lines(selected.versions@),
            vs == selection(*ctx, false).0,
            exec_lookup(*ctx, vs, command@) == exec_lookup(*ctx, vs.skip(i as int), command@),
            searched_system ==> vs.contains("system"@),
            !searched_system ==> forall|k: int| 0 <= k < i ==> vs[k] != "system"@,
        decreases selected.versions.len() - i,
    {
        let v = selected.versions[i].as_str();
        assert(vs[i as int] == v@);
        assert(vs.skip(i as int)[0] == v@);
        assert(vs.skip(i as int).drop_first() =~= vs.skip(i + 1));
        match try_version(ctx, v, command) {
            Some(t) => return Ok(t),
            None => {},
        }
        proof {
            reveal_strlit("system");
        }
        if str_eq(v, "system") {
            searched_system = true;
        }
        i = i + 1;
    }
    assert(vs.skip(i as int) =~= Seq::<Seq<char>>::empty());
    if !searched_system {
        match find_system_command(ctx, command) {
            Some(p) => {
                return Ok(ExecTarget { executable: p, prefix_dirs: Vec::new(), version_name: owned("system") });
            },
            None => {},
        }
    }
    let mut stderr = missing_messages(&selected.missing, origin.as_str());
    let ghost before = lines(stderr@);
    stderr.push(cat3("pyenv: ", command, ": command not found"));
    assert(lines(stderr@) =~= before.push("pyenv: "@ + command@ + ": command not found"@));
    Err(CommandReport::failure(stderr, 127))
}

/// The variables the `exec` hooks run with.
pub open spec fn exec_hook_vars(ctx: AppContext, command: Seq<char>, executable: Seq<char>, version_name: Seq<char>) -> Seq<(Seq<char>, Seq<char>)> {
    seq![
        ("PYENV_COMMAND"@, command),
        ("PYENV_COMMAND_PATH"@, executable),
        ("PYENV_VERSION"@, join(selection(ctx, false).0, seq![':'])),
        ("PYENV_VERSION_ORIGIN"@, origin_of(ctx)),
        ("PYENV_VERSION_RESOLVED"@, version_name),
    ]
}

/// The variables the `exec` hooks of a resolved target run with.
pub fn exec_hook_env(ctx: &AppContext, command: &str, target: &ExecTarget) -> (r: Vec<(String, String)>)
    ensures
        pair_views(r@) == exec_hook_vars(*ctx, command@, target.executable@, target.version_name@),
{
    let selected = resolve_selected_versions(ctx, false);
    proof {
        reveal_strlit(":");
    }
    let joined = join_strings(&selected.versions, ":");
    assert(":"@ =~= seq![':']);
    let origin = selected.origin.to_string();
    let mut v: Vec<(String, String)> = Vec::new();
    v.push((owned("PYENV_COMMAND"), owned(command)));
    v.push((owned("PYENV_COMMAND_PATH"), owned(target.executable.as_str())));
    v.push((owned("PYENV_VERSION"), joined));
    v.push((owned("PYENV_VERSION_ORIGIN"), origin));
    v.push((owned("PYENV_VERSION_RESOLVED"), owned(target.version_name.as_str())));
    assert(pair_views(v@) =~= exec_hook_vars(*ctx, command@, target.executable@, target.version_name@));
    v
}

/// The path an `exec` hook redirects to: the last `PYENV_COMMAND_PATH=<path>` line it printed.
pub open spec fn hook_command_path(other: Seq<Seq<char>>) -> Option<Seq<char>>
    decreases other.len(),
{
    if other.len() == 0 {
        None
    } else if starts_with(other.last(), "PYENV_COMMAND_PATH="@) {
        Some(other.last().skip(19))
    } else {
        hook_command_path(other.drop_last())
    }
}

fn command_path_of(actions: &HookActions) -> (r: Option<String>)
    ensures
        match r {
            Some(p) => hook_command_path(lines(actions.passthrough_lines@)) == Some(p@),
            None => hook_command_path(lines(actions.passthrough_lines@)) is None,
        },
{
    let ls = &actions.passthrough_lines;
    let mut i: usize = ls.len();
    assert(lines(ls@).take(ls@.len() as int) =~= lines(ls@));
    while i > 0
        invariant
            i <= ls@.len(),
            ls@ == actions.passthrough_lines@,
            hook_command_path(lines(ls@)) == hook_command_path(lines(ls@).take(i as int)),
        decreases i,
    {
        assert(lines(ls@).take(i as int).last() == ls@[i - 1]@);
        assert(lines(ls@).take(i as int).drop_last() =~= lines(ls@).take(i - 1));
        proof {
            reveal_strlit("PYENV_COMMAND_PATH=");
        }
        if starts_with_str(ls[i - 1].as_str(), "PYENV_COMMAND_PATH=") {
            let cv = chars_of(ls[i - 1].as_str());
            let p = string_from(&cv, 19, cv.len());
            assert(p@ =~= ls@[i - 1]@.skip(19));
            assert(hook_command_path(lines(ls@).take(i as int)) == Some(p@));
            return Some(p);
        }
        i = i - 1;
    }
    assert(lines(ls@).take(0) =~= Seq::<Seq<char>>::empty());
    None
}

/// How to start the command behind a shim.
pub struct ExecPlan {
    pub program: String,
    pub args: Vec<String>,
    pub dir: String,
    /// Variables to set, in order (a later one wins).
    pub env: Vec<(String, String)>,
}

/// The variables the command runs with: `PYENV_COMMAND`, `PATH` when it can be written, then
/// the hooks' pairs.
pub open spec fn exec_env_of(ctx: AppContext, command: Seq<char>, dirs: Seq<Seq<char>>, hook_pairs: Seq<(Seq<char>, Seq<char>)>) -> Seq<(Seq<char>, Seq<char>)> {
    seq![("PYENV_COMMAND"@, command)] + (match adjusted_path_of(ctx, dirs) {
        Some(p) => seq![("PATH"@, p)],
        None => seq![],
    }) + hook_pairs
}

/// `pyenv exec`, decided: run the resolved target (or the path a hook redirected to) with the
/// arguments, in the working directory, with the variables of `exec_env_of`.
pub fn cmd_exec(ctx: &AppContext, command: &str, args: &Vec<String>, hooks: &HookActions) -> (r: Result<ExecPlan, CommandReport>)
    ensures
        match r {
            Ok(plan) => exec_target_of(*ctx, command@) matches Some(t) && plan.program@ == (match hook_command_path(lines(hooks.passthrough_lines@)) {
                Some(p) => p,
                None => t.0,
            }) && lines(plan.args@) == lines(args@) && plan.dir@ == ctx.dir@
                && pair_views(plan.env@) == exec_env_of(*ctx, command@, target_dirs(*ctx, t.1), pair_views(hooks.env_pairs@)),
            Err(rep) => exec_target_of(*ctx, command@) is None && rep.err() == not_found_lines(*ctx, command@) && rep.exit_code == 127,
        },
{
    let target = match resolve_exec_target(ctx, command) {
        Ok(t) => t,
        Err(rep) => return Err(rep),
    };
    let program = match command_path_of(hooks) {
        Some(p) => p,
        None => owned(target.executable.as_str()),
    };
    let path = adjusted_path(ctx, &target.prefix_dirs);
    let mut env: Vec<(String, String)> = Vec::new();
    env.push((owned("PYENV_COMMAND"), owned(command)));
    match path {
        Some(p) => env.push((owned("PATH"), p)),
        None => {},
    }
    let ghost head = pair_views(env@);
    let mut i: usize = 0;
    while i < hooks.env_pairs.len()
        invariant
            i <= hooks.env_pairs@.len(),
            pair_views(env@) == head + pair_views(hooks.env_pairs@).take(i as int),
        decreases hooks.env_pairs.len() - i,
    {
        let ghost before = pair_views(env@);
        let k = owned(hooks.env_pairs[i].0.as_str());
        let val = owned(hooks.env_pairs[i].1.as_str());
        env.push((k, val));
        assert(pair_views(env@) =~= before.push((hooks.env_pairs@[i as int].0@, hooks.env_pairs@[i as int].1@)));
        assert(pair_views(hooks.env_pairs@).take(i + 1) =~= pair_views(hooks.env_pairs@).take(i as int).push((hooks.env_pairs@[i as int].0@, hooks.env_pairs@[i as int].1@)));
        i = i + 1;
    }
    assert(pair_views(hooks.env_pairs@).take(hooks.env_pairs@.len() as int) =~= pair_views(hooks.env_pairs@));
    assert(pair_views(env@) =~= exec_env_of(*ctx, command@, target_dirs(*ctx, target.version_name@), pair_views(hooks.env_pairs@)));
    let mut argv: Vec<String> = Vec::new();
    let mut j: usize = 0;
    while j < args.len()
        invariant
            j <= args@.len(),
            lines(argv@) == lines(args@).take(j as int),
        decreases args.len() - j,
    {
        let ghost before = lines(argv@);
        argv.push(owned(args[j].as_str()));
        assert(lines(argv@) =~= before.push(args@[j as int]@));
        assert(lines(args@).take(j + 1) =~= lines(args@).take(j as int).push(args@[j as int]@));
        j = j + 1;
    }
    assert(lines(args@).take(args@.len() as int) =~= lines(args@));
    Ok(ExecPlan { program, args: argv, dir: owned(ctx.dir.as_str()), env })
}

/// The report once the command ran: its exit code, or 1 when it had none (killed by a signal).
pub fn exec_status_report(code: Option<i32>) -> (r: CommandReport)
    ensures
        r.stdout@.len() == 0 && r.stderr@.len() == 0,
        r.exit_code == match code {
            Some(c) => c,
            None => 1i32,
        },
{
    CommandReport { stdout: Vec::new(), stderr: Vec::new(), exit_code: match code {
        Some(c) => c,
        None => 1,
    } }
}

/// The report when the command could not be started.
pub fn exec_failure_report(program: &str, error: &str) -> (r: CommandReport)
    ensures
        r.stdout@.len() == 0,
        r.err() == seq!["pyenv: failed to execute "@ + program@ + ": "@ + error@],
        r.exit_code == 1,
{
    let head = cat3("pyenv: failed to execute ", program, ": ");
    CommandReport::failure_one(cat(head.as_str(), error))
}

} // verus!
