//! Rehashing: which commands get shims, which shims from the last run are stale, and the rehash
//! lock that keeps two runs apart.
use vstd::prelude::*;

use crate::catalog::{installed, installed_version_names};
use crate::context::AppContext;
use crate::error::{error_text, PyenvError};
use crate::report::CommandReport;
use crate::runtime::inventory::{inventory_root, inventory_roots_for_version};
use crate::runtime::shim_names::{add_prefix_shim_names, insert_name, names_sorted_distinct, prefix_provides};
use crate::self_update::versioning::{parse_u64, parse_u64_str};
use crate::strings::{cat, cat3, lines, owned, starts_with, starts_with_str, str_eq, string_from, chars_of, text_lines, text_lines_of, u64_text, dec};

verus! {

broadcast use vstd::string::group_string_axioms;

/// The configured `PATHEXT`.
pub open spec fn path_ext_of(ctx: AppContext) -> Option<Seq<char>> {
    match ctx.path_ext {
        Some(v) => Some(v@),
        None => None,
    }
}

/// Some inventory root of `version` provides a shim named `n`.
pub open spec fn version_provides(ctx: AppContext, version: Seq<char>, n: Seq<char>) -> bool {
    exists|p: Seq<char>| #[trigger] inventory_root(ctx, version, p) && prefix_provides(ctx.fs, p, path_ext_of(ctx), n)
}

/// `n` gets a shim: an installed runtime provides it, or a rehash hook named it.
pub open spec fn rehash_command(ctx: AppContext, hooks: Seq<Seq<char>>, n: Seq<char>) -> bool {
    hooks.contains(n) || exists|v: Seq<char>| #[trigger] installed(ctx, v) && version_provides(ctx, v, n)
}

fn path_ext_str(ctx: &AppContext) -> (r: Option<&str>)
    ensures
        match r {
            Some(v) => path_ext_of(*ctx) == Some(v@),
            None => path_ext_of(*ctx) is None,
        },
{
    match &ctx.path_ext {
        Some(v) => Some(v.as_str()),
        None => None,
    }
}

fn add_version_shim_names(names: &mut Vec<String>, ctx: &AppContext, version: &str, pe: Option<&str>)
    requires
        names_sorted_distinct(lines(old(names)@)),
        match pe {
            Some(w) => path_ext_of(*ctx) == Some(w@),
            None => path_ext_of(*ctx) is None,
        },
    ensures
        names_sorted_distinct(lines(final(names)@)),
        forall|n: Seq<char>| #[trigger] lines(final(names)@).contains(n) <==> (lines(old(names)@).contains(n) || version_provides(*ctx, version@, n)),
{
    let ghost before = lines(names@);
    let ghost v = version@;
    let roots = inventory_roots_for_version(ctx, version);
    let mut j: usize = 0;
    while j < roots.len()
        invariant
            j <= roots@.len(),
            forall|p: Seq<char>| #[trigger] lines(roots@).contains(p) <==> inventory_root(*ctx, v, p),
            match pe {
                Some(w) => path_ext_of(*ctx) == Some(w@),
                None => path_ext_of(*ctx) is None,
            },
            names_sorted_distinct(lines(names@)),
            forall|n: Seq<char>| #[trigger] lines(names@).contains(n) <==> (before.contains(n) || exists|q: int|
                0 <= q < j && prefix_provides(ctx.fs, #[trigger] lines(roots@)[q], path_ext_of(*ctx), n)),
        decreases roots.len() - j,
    {
        let ghost mid = lines(names@);
        assert(lines(roots@)[j as int] == roots@[j as int]@);
        add_prefix_shim_names(names, &ctx.fs, roots[j].as_str(), pe);
        proof {
            assert forall|n: Seq<char>| #[trigger] lines(names@).contains(n) <==> (before.contains(n) || exists|q: int|
                0 <= q < j + 1 && prefix_provides(ctx.fs, #[trigger] lines(roots@)[q], path_ext_of(*ctx), n)) by {
                if exists|q: int| 0 <= q < j + 1 && prefix_provides(ctx.fs, #[trigger] lines(roots@)[q], path_ext_of(*ctx), n) {
                    let q = choose|q: int| 0 <= q < j + 1 && prefix_provides(ctx.fs, #[trigger] lines(roots@)[q], path_ext_of(*ctx), n);
                    if q < j {
                        assert(mid.contains(n));
                    }
                }
            }
        }
        j = j + 1;
    }
    proof {
        assert forall|n: Seq<char>| #[trigger] lines(names@).contains(n) <==> (before.contains(n) || version_provides(*ctx, v, n)) by {
            if version_provides(*ctx, v, n) {
                let p = choose|p: Seq<char>| #[trigger] inventory_root(*ctx, v, p) && prefix_provides(ctx.fs, p, path_ext_of(*ctx), n);
                assert(lines(roots@).contains(p));
                let q = choose|q: int| 0 <= q < lines(roots@).len() && lines(roots@)[q] == p;
                assert(prefix_provides(ctx.fs, lines(roots@)[q], path_ext_of(*ctx), n));
            }
            if lines(names@).contains(n) && !before.contains(n) {
                let q = choose|q: int| 0 <= q < j && prefix_provides(ctx.fs, #[trigger] lines(roots@)[q], path_ext_of(*ctx), n);
                assert(lines(roots@).contains(lines(roots@)[q]));
                assert(inventory_root(*ctx, v, lines(roots@)[q]));
            }
        }
    }
}

/// The commands that get shims, sorted ignoring ASCII case, each once: every name an installed
/// runtime's inventory roots provide, and every name the rehash hooks printed.
#[verifier::rlimit(50)]
pub fn rehash_commands(ctx: &AppContext, hook_names: &Vec<String>) -> (r: Vec<String>)
    ensures
        names_sorted_distinct(lines(r@)),
        forall|n: Seq<char>| #[trigger] lines(r@).contains(n) <==> rehash_command(*ctx, lines(hook_names@), n),
{
    let versions = installed_version_names(ctx);
    let pe = path_ext_str(ctx);
    let mut names: Vec<String> = Vec::new();
    assert(lines(names@) =~= Seq::<Seq<char>>::empty());
    let mut i: usize = 0;
    while i < versions.len()
        invariant
            i <= versions@.len(),
            forall|n: Seq<char>| #[trigger] lines(versions@).contains(n) <==> installed(*ctx, n),
            match pe {
                Some(v) => path_ext_of(*ctx) == Some(v@),
                None => path_ext_of(*ctx) is None,
            },
            names_sorted_distinct(lines(names@)),
            forall|n: Seq<char>| #[trigger] lines(names@).contains(n) <==> exists|q: int|
                0 <= q < i && version_provides(*ctx, #[trigger] lines(versions@)[q], n),
        decreases versions.len() - i,
    {
        let ghost before = lines(names@);
        let ghost v = versions@[i as int]@;
        assert(lines(versions@)[i as int] == v);
        add_version_shim_names(&mut names, ctx, versions[i].as_str(), pe);
        proof {
            assert forall|n: Seq<char>| #[trigger] lines(names@).contains(n) <==> exists|q: int|
                0 <= q < i + 1 && version_provides(*ctx, #[trigger] lines(versions@)[q], n) by {
                if exists|q: int| 0 <= q < i + 1 && version_provides(*ctx, #[trigger] lines(versions@)[q], n) {
                    let q = choose|q: int| 0 <= q < i + 1 && version_provides(*ctx, #[trigger] lines(versions@)[q], n);
                    if q < i {
                        assert(before.contains(n));
                    }
                }
            }
        }
        i = i + 1;
    }
    let ghost base = lines(names@);
    let mut k: usize = 0;
    while k < hook_names.len()
        invariant
            k <= hook_names@.len(),
            names_sorted_distinct(lines(names@)),
            forall|n: Seq<char>| #[trigger] lines(names@).contains(n) <==> (base.contains(n) || lines(hook_names@).take(k as int).contains(n)),
        decreases hook_names.len() - k,
    {
        let ghost before = lines(names@);
        insert_name(&mut names, owned(hook_names[k].as_str()));
        proof {
            let h = lines(hook_names@);
            assert(h[k as int] == hook_names@[k as int]@);
            assert(h.take(k + 1) =~= h.take(k as int).push(h[k as int]));
            assert forall|n: Seq<char>| #[trigger] lines(names@).contains(n) <==> (base.contains(n) || h.take(k + 1).contains(n)) by {
                let a = h.take(k + 1);
                let b = h.take(k as int);
                assert(a[k as int] == h[k as int]);
                if n == h[k as int] {
                    assert(a.contains(n));
                }
                if a.contains(n) {
                    let w = choose|w: int| 0 <= w < a.len() && a[w] == n;
                    if w < k {
                        assert(b[w] == n);
                    }
                }
                if b.contains(n) {
                    let w = choose|w: int| 0 <= w < b.len() && b[w] == n;
                    assert(a[w] == n);
                }
            }
        }
        k = k + 1;
    }
    proof {
        let h = lines(hook_names@);
        assert(h.take(h.len() as int) =~= h);
        assert forall|n: Seq<char>| #[trigger] lines(names@).contains(n) <==> rehash_command(*ctx, h, n) by {
            if base.contains(n) {
                let q = choose|q: int| 0 <= q < versions@.len() && version_provides(*ctx, #[trigger] lines(versions@)[q], n);
                assert(lines(versions@).contains(lines(versions@)[q]));
                assert(installed(*ctx, lines(versions@)[q]));
            }
            if exists|v: Seq<char>| #[trigger] installed(*ctx, v) && version_provides(*ctx, v, n) {
                let v = choose|v: Seq<char>| #[trigger] installed(*ctx, v) && version_provides(*ctx, v, n);
                assert(lines(versions@).contains(v));
                let q = choose|q: int| 0 <= q < lines(versions@).len() && lines(versions@)[q] == v;
                assert(version_provides(*ctx, lines(versions@)[q], n));
            }
        }
    }
    names
}

/// What a rehash writes and removes.
pub struct RehashPlan {
    /// The commands that get shims, in order.
    pub commands: Vec<String>,
    /// The commands of the last run that no longer get shims, in the last run's order.
    pub stale: Vec<String>,
}

/// The entries of `previous` that are not in `current`, in order.
pub open spec fn stale_of(previous: Seq<Seq<char>>, current: Seq<Seq<char>>) -> Seq<Seq<char>>
    decreases previous.len(),
{
    if previous.len() == 0 {
        seq![]
    } else if current.contains(previous.last()) {
        stale_of(previous.drop_last(), current)
    } else {
        stale_of(previous.drop_last(), current).push(previous.last())
    }
}

/// No stale command is still a current one, and every stale command came from the last run.
pub proof fn law_stale_disjoint(previous: Seq<Seq<char>>, current: Seq<Seq<char>>)
    ensures
        forall|k: int| 0 <= k < stale_of(previous, current).len() ==> !current.contains(#[trigger] stale_of(previous, current)[k])
            && previous.contains(stale_of(previous, current)[k]),
    decreases previous.len(),
{
    if previous.len() > 0 {
        let p = previous.drop_last();
        law_stale_disjoint(p, current);
        let r = stale_of(p, current);
        assert forall|k: int| 0 <= k < stale_of(previous, current).len() implies !current.contains(#[trigger] stale_of(previous, current)[k])
            && previous.contains(stale_of(previous, current)[k]) by {
            let t = stale_of(previous, current);
            if k < r.len() {
                assert(t[k] == r[k]);
                let w = choose|w: int| 0 <= w < p.len() && p[w] == r[k];
                assert(previous[w] == r[k]);
            } else {
                assert(t[k] == previous.last());
                assert(previous[previous.len() - 1] == previous.last());
            }
        }
    }
}

fn contains_text(v: &Vec<String>, x: &str) -> (r: bool)
    ensures
        r == lines(v@).contains(x@),
{
    let mut i: usize = 0;
    while i < v.len()
        invariant
            i <= v@.len(),
            forall|j: int| 0 <= j < i ==> lines(v@)[j] != x@,
        decreases v.len() - i,
    {
        if str_eq(v[i].as_str(), x) {
            assert(lines(v@)[i as int] == x@);
            return true;
        }
        i = i + 1;
    }
    false
}

/// `pyenv rehash`, decided: the commands that get shims, and the stale commands of the last
/// run (from its manifest, when one could be read) whose shims are removed.
pub fn cmd_rehash(ctx: &AppContext, hook_names: &Vec<String>, previous: Option<Vec<String>>) -> (r: RehashPlan)
    ensures
        names_sorted_distinct(lines(r.commands@)),
        forall|n: Seq<char>| #[trigger] lines(r.commands@).contains(n) <==> rehash_command(*ctx, lines(hook_names@), n),
        lines(r.stale@) == stale_of(match previous { Some(p) => lines(p@), None => seq![] }, lines(r.commands@)),
{
    let commands = rehash_commands(ctx, hook_names);
    let prev = match previous {
        Some(p) => p,
        None => Vec::new(),
    };
    assert(lines(prev@) == match previous { Some(p) => lines(p@), None => Seq::<Seq<char>>::empty() });
    let mut stale: Vec<String> = Vec::new();
    let mut i: usize = 0;
    while i < prev.len()
        invariant
            i <= prev@.len(),
            lines(stale@) == stale_of(lines(prev@).take(i as int), lines(commands@)),
        decreases prev.len() - i,
    {
        assert(lines(prev@).take(i + 1).drop_last() =~= lines(prev@).take(i as int));
        assert(lines(prev@).take(i + 1).last() == prev@[i as int]@);
        if !contains_text(&commands, prev[i].as_str()) {
            let ghost before = lines(stale@);
            stale.push(prev[i].clone());
            assert(lines(stale@) =~= before.push(prev@[i as int]@));
        }
        i = i + 1;
    }
    assert(lines(prev@).take(prev@.len() as int) =~= lines(prev@));
    RehashPlan { commands, stale }
}

/// The report of a rehash: nothing on success, else the error and exit code 1.
pub fn rehash_report(outcome: &Result<usize, PyenvError>) -> (r: CommandReport)
    ensures
        outcome is Ok ==> r.stdout@.len() == 0 && r.stderr@.len() == 0 && r.exit_code == 0,
        outcome matches Err(e) ==> (r.stdout@.len() == 0 && r.err() == seq![error_text(*e)] && r.exit_code == 1),
{
    match outcome {
        Ok(_) => CommandReport::empty_success(),
        Err(e) => CommandReport::failure_one(e.message()),
    }
}

/// The record a rehash leaves in the shims directory: when it ran and the commands that got
/// shims, which the next rehash compares against.
pub struct ShimManifest {
    pub generated_at_epoch_seconds: u64,
    pub commands: Vec<String>,
}

/// The manifest of a rehash at `now` (seconds since the epoch).
pub fn shim_manifest(plan: &RehashPlan, now: u64) -> (r: ShimManifest)
    ensures
        r.generated_at_epoch_seconds == now,
        lines(r.commands@) == lines(plan.commands@),
{
    let mut commands: Vec<String> = Vec::new();
    let mut i: usize = 0;
    while i < plan.commands.len()
        invariant
            i <= plan.commands@.len(),
            lines(commands@) == lines(plan.commands@).take(i as int),
        decreases plan.commands.len() - i,
    {
        let ghost before = lines(commands@);
        commands.push(plan.commands[i].clone());
        assert(lines(commands@) =~= before.push(plan.commands@[i as int]@));
        assert(lines(plan.commands@).take(i + 1) =~= lines(plan.commands@).take(i as int).push(plan.commands@[i as int]@));
        i = i + 1;
    }
    assert(lines(plan.commands@).take(plan.commands@.len() as int) =~= lines(plan.commands@));
    ShimManifest { generated_at_epoch_seconds: now, commands }
}

/// The name of the rehash lock file in the shims directory.
pub open spec fn lock_file_name() -> Seq<char> {
    ".pyenv-shims.lock"@
}

/// The name of the manifest file in the shims directory.
pub open spec fn manifest_file_name() -> Seq<char> {
    ".pyenv-shims.json"@
}

/// What a rehash writes into its lock: the process id and when it was taken.
pub fn lock_payload(pid: u32, created_at: u64) -> (r: String)
    ensures
        r@ == "pid="@ + dec(pid as nat) + "\ncreated_at="@ + dec(created_at as nat) + "\n"@,
{
    let a = u64_text(pid as u64);
    let b = u64_text(created_at);
    let head = cat3("pid=", a.as_str(), "\ncreated_at=");
    cat3(head.as_str(), b.as_str(), "\n")
}

/// The text after `created_at=` on the first line that starts with it.
pub open spec fn created_at_field(ls: Seq<Seq<char>>) -> Option<Seq<char>>
    decreases ls.len(),
{
    if ls.len() == 0 {
        None
    } else if starts_with(ls[0], "created_at="@) {
        Some(ls[0].skip(11))
    } else {
        created_at_field(ls.drop_first())
    }
}

/// A lock is stale when it records a creation time more than ten minutes before `now`.
pub open spec fn lock_stale(contents: Option<Seq<char>>, now: u64) -> bool {
    match contents {
        None => false,
        Some(c) => match created_at_field(text_lines(c)) {
            None => false,
            Some(v) => match parse_u64(v) {
                None => false,
                Some(t) => now > t && now - t > 600,
            },
        },
    }
}

fn stale_text(c: &str, now: u64) -> (r: bool)
    ensures
        r == lock_stale(Some(c@), now),
{
    let ls = text_lines_of(c);
    assert(lines(ls@).skip(0) =~= lines(ls@));
    let mut i: usize = 0;
    while i < ls.len()
        invariant
            i <= ls@.len(),
            lines(ls@) == text_lines(c@),
            created_at_field(lines(ls@)) == created_at_field(lines(ls@).skip(i as int)),
        decreases ls.len() - i,
    {
        assert(lines(ls@).skip(i as int)[0] == ls@[i as int]@);
        assert(lines(ls@).skip(i as int).drop_first() =~= lines(ls@).skip(i + 1));
        proof {
            reveal_strlit("created_at=");
        }
        if starts_with_str(ls[i].as_str(), "created_at=") {
            let lv = chars_of(ls[i].as_str());
            let value = string_from(&lv, 11, lv.len());
            assert(value@ =~= ls@[i as int]@.skip(11));
            assert(created_at_field(text_lines(c@)) == Some(value@));
            let parsed = parse_u64_str(value.as_str());
            let stale = match parsed {
                None => false,
                Some(t) => now > t && now - t > 600,
            };
            return stale;
        }
        i = i + 1;
    }
    assert(lines(ls@).skip(i as int) =~= Seq::<Seq<char>>::empty());
    false
}

/// Whether a lock with these contents (`None` when it could not be read) is stale at `now`.
pub fn lock_file_is_stale(contents: Option<&str>, now: u64) -> (r: bool)
    ensures
        r == lock_stale(match contents { Some(c) => Some(c@), None => None }, now),
{
    match contents {
        Some(c) => stale_text(c, now),
        None => false,
    }
}

/// The error when a fresh lock is held by another run.
pub fn lock_held_message(lock_path: &str) -> (r: String)
    ensures
        r@ == "pyenv: cannot rehash: lock "@ + lock_path@ + " already exists"@,
{
    cat3("pyenv: cannot rehash: lock ", lock_path, " already exists")
}

/// The error when the lock could not be taken after removing a stale one.
pub fn lock_failed_message(lock_path: &str) -> (r: String)
    ensures
        r@ == "pyenv: cannot rehash: failed to acquire lock "@ + lock_path@,
{
    cat("pyenv: cannot rehash: failed to acquire lock ", lock_path)
}

/// The number of tries at taking the rehash lock.
pub open spec fn lock_tries() -> u32 {
    2
}

/// What happened when the rehash lock file was to be created.
pub enum LockEvent {
    /// It was created (with the payload written).
    Created,
    /// A lock file is already there, with these contents when they could be read.
    Exists(Option<String>),
    /// Creating it failed otherwise, with this error.
    Failed(String),
}

/// What to do next about the rehash lock.
pub enum LockAction {
    /// The lock is held; go on with the rehash and remove the lock after it.
    Acquired,
    /// Remove the stale lock and try again.
    RemoveStaleThenRetry,
    /// Remove the stale lock and give up with this error.
    RemoveStaleThenFail(String),
    /// Give up with this error; the existing lock stays.
    Refuse(String),
}

/// The step after try number `attempt` (from 0) at creating the lock at `lock_path`, at time
/// `now`: a created lock is held; a stale one is removed and tried again while tries remain;
/// a fresh one refuses the rehash.
pub fn lock_step(lock_path: &str, attempt: u32, event: &LockEvent, now: u64) -> (r: LockAction)
    requires
        attempt < lock_tries(),
    ensures
        event is Created ==> r is Acquired,
        event matches LockEvent::Failed(m) ==> (r matches LockAction::Refuse(x) && x@ == m@),
        event matches LockEvent::Exists(c) ==> if lock_stale(match c { Some(t) => Some(t@), None => None }, now) {
            if attempt + 1 < lock_tries() {
                r is RemoveStaleThenRetry
            } else {
                r matches LockAction::RemoveStaleThenFail(x) && x@ == "pyenv: cannot rehash: failed to acquire lock "@ + lock_path@
            }
        } else {
            r matches LockAction::Refuse(x) && x@ == "pyenv: cannot rehash: lock "@ + lock_path@ + " already exists"@
        },
{
    match event {
        LockEvent::Created => LockAction::Acquired,
        LockEvent::Failed(m) => LockAction::Refuse(owned(m.as_str())),
        LockEvent::Exists(c) => {
            let contents = match c {
                Some(t) => Some(t.as_str()),
                None => None,
            };
            if lock_file_is_stale(contents, now) {
                if attempt + 1 < 2 {
                    LockAction::RemoveStaleThenRetry
                } else {
                    LockAction::RemoveStaleThenFail(lock_failed_message(lock_path))
                }
            } else {
                LockAction::Refuse(lock_held_message(lock_path))
            }
        },
    }
}

} // verus!
