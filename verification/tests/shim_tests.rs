use pyenv_core::shim::rehash::{lock_step, LockAction, LockEvent};
use pyenv_core::context::{AppConfig, AppContext, FileEntry, FsSnapshot};
use pyenv_core::hooks::{parse_hook_actions, HookActions};
use pyenv_core::shim::artifacts::{copy_is_current, shim_artifact_paths, shim_artifacts, ShimArtifact};
use pyenv_core::shim::exec::{cmd_exec, exec_status_report};
use pyenv_core::shim::paths::{adjusted_path, join_path_value, split_path_value};
use pyenv_core::shim::rehash::{cmd_rehash, lock_file_is_stale, lock_held_message, lock_payload, rehash_report};

const ROOT: &str = "/tmp/s/.pyenv";
const SHIMS: &str = "/tmp/s/.pyenv/shims";

fn entry(path: &str, contents: &str) -> FileEntry {
    FileEntry { path: path.to_string(), contents: contents.to_string(), executable: true }
}

fn shim_ctx(windows: bool, dirs: &[&str], files: Vec<FileEntry>) -> AppContext {
    let mut all = vec![ROOT.to_string(), format!("{ROOT}/versions"), "/tmp/s/work".to_string()];
    all.extend(dirs.iter().map(|d| d.to_string()));
    let mut files = files;
    files.push(entry("/tmp/s/pyenv.exe", "shim source"));
    AppContext {
        root: ROOT.to_string(),
        dir: "/tmp/s/work".to_string(),
        exe_path: "/tmp/s/pyenv.exe".to_string(),
        env_version: None,
        env_shell: None,
        path_env: None,
        path_ext: if windows { Some(".exe;.cmd;.bat".to_string()) } else { None },
        config: AppConfig { auto_use_base_venv: false, pep514_registry: false },
        windows,
        fs: FsSnapshot { dirs: all, files },
    }
}

fn runtime_ctx(windows: bool) -> AppContext {
    let v = format!("{ROOT}/versions/3.12.6");
    if windows {
        let s = format!("{v}/Scripts");
        shim_ctx(
            true,
            &[v.as_str(), s.as_str()],
            vec![entry(&format!("{v}/python.exe"), ""), entry(&format!("{s}/pip.cmd"), "")],
        )
    } else {
        let b = format!("{v}/bin");
        shim_ctx(
            false,
            &[v.as_str(), b.as_str()],
            vec![entry(&format!("{b}/python"), ""), entry(&format!("{b}/pip"), "")],
        )
    }
}

fn artifact_paths(ctx: &AppContext, command: &str) -> Vec<String> {
    shim_artifacts(ctx, command)
        .into_iter()
        .map(|a| match a {
            ShimArtifact::CopyTool { destination, .. } => destination,
            ShimArtifact::Write { path, .. } => path,
        })
        .collect()
}

fn generates_case() {
    let ctx = runtime_ctx(false);
    let plan = cmd_rehash(&ctx, &vec![], None);
    assert_eq!(plan.commands, vec!["pip", "python"]);
    assert!(plan.stale.is_empty());
    assert_eq!(artifact_paths(&ctx, "python"), vec![format!("{SHIMS}/python")]);
    assert_eq!(rehash_report(&Ok(plan.commands.len())).exit_code, 0);

    let ctx = runtime_ctx(true);
    let plan = cmd_rehash(&ctx, &vec![], None);
    assert_eq!(plan.commands, vec!["pip", "python"]);
    assert_eq!(
        artifact_paths(&ctx, "python"),
        vec![
            format!("{SHIMS}/python.exe"),
            format!("{SHIMS}/python.cmd"),
            format!("{SHIMS}/python.bat"),
            format!("{SHIMS}/python.ps1"),
        ]
    );
    assert!(artifact_paths(&ctx, "pip").contains(&format!("{SHIMS}/pip.cmd")));
}

fn stale_case() {
    let ctx = runtime_ctx(false);
    let first = cmd_rehash(&ctx, &vec![], None);
    assert!(first.commands.contains(&"python".to_string()));
    let empty = shim_ctx(false, &[], vec![]);
    let second = cmd_rehash(&empty, &vec![], Some(first.commands.clone()));
    assert!(second.commands.is_empty());
    assert_eq!(second.stale, vec!["pip", "python"]);
}

fn hook_case() {
    let ctx = shim_ctx(true, &[], vec![]);
    let plan = cmd_rehash(&ctx, &vec!["extra-tool".to_string()], None);
    assert_eq!(plan.commands, vec!["extra-tool"]);
    assert_eq!(
        artifact_paths(&ctx, "extra-tool"),
        vec![
            format!("{SHIMS}/extra-tool.exe"),
            format!("{SHIMS}/extra-tool.cmd"),
            format!("{SHIMS}/extra-tool.bat"),
            format!("{SHIMS}/extra-tool.ps1"),
        ]
    );
    let ctx = shim_ctx(false, &[], vec![]);
    let plan = cmd_rehash(&ctx, &vec!["extra-tool".to_string()], None);
    assert_eq!(artifact_paths(&ctx, &plan.commands[0]), vec![format!("{SHIMS}/extra-tool")]);
}

fn exec_hook_case() {
    let v = format!("{ROOT}/versions/3.12.6");
    let mut ctx = shim_ctx(false, &[v.as_str()], vec![entry(&format!("{v}/python"), "#!/usr/bin/env sh\nexit 0\n")]);
    ctx.env_version = Some("3.12.6".to_string());
    let target = format!("{ROOT}/override.sh");
    let hooks = parse_hook_actions(&vec!["ENV:DEMO_ENV=from-hook".to_string(), format!("PYENV_COMMAND_PATH={target}")]);
    let plan = match cmd_exec(&ctx, "python", &vec![], &hooks) {
        Ok(p) => p,
        Err(r) => panic!("exec refused: {:?}", r.stderr),
    };
    assert_eq!(plan.program, target);
    assert!(plan.env.contains(&("DEMO_ENV".to_string(), "from-hook".to_string())));
    assert_eq!(plan.env[0], ("PYENV_COMMAND".to_string(), "python".to_string()));
    assert_eq!(exec_status_report(Some(0)).exit_code, 0);
}

fn fresh_lock_case() {
    let now: u64 = 1_700_000_000;
    let payload = lock_payload(9999, now);
    assert_eq!(payload, format!("pid=9999\ncreated_at={now}\n"));
    assert!(!lock_file_is_stale(Some(payload.as_str()), now));
    let msg = lock_held_message(&format!("{SHIMS}/.pyenv-shims.lock"));
    assert!(msg.contains("cannot rehash"));
}

fn stale_lock_case() {
    let now: u64 = 1_700_000_000;
    let payload = lock_payload(9999, now - 60 * 60);
    assert!(lock_file_is_stale(Some(payload.as_str()), now));
    assert!(!lock_file_is_stale(None, now));
    assert!(!lock_file_is_stale(Some("pid=1\n"), now));
}

fn adjusted_path_case() {
    let first = format!("{ROOT}/versions/3.12.6/bin");
    let second = "/usr/bin".to_string();
    let mut ctx = shim_ctx(false, &[], vec![]);
    ctx.path_env = Some(format!("{first}:{SHIMS}:{second}:{first}"));
    let joined = adjusted_path(&ctx, &vec![first.clone(), second.clone(), first.clone()]).expect("adjusted path");
    assert_eq!(split_path_value(&joined, false), vec![first, second]);
}

#[test]
fn tests_rehash_generates_cmd_shims_and_manifest() {
    generates_case();
}

#[test]
fn shim_rehash_generates_cmd_shims_and_manifest() {
    generates_case();
}

#[test]
fn tests_rehash_removes_stale_shims() {
    stale_case();
}

#[test]
fn shim_rehash_removes_stale_shims() {
    stale_case();
}

#[test]
fn tests_rehash_hooks_can_register_additional_commands() {
    hook_case();
}

#[test]
fn shim_rehash_hooks_can_register_additional_commands() {
    hook_case();
}

#[test]
fn tests_exec_hooks_can_override_target_and_set_environment() {
    exec_hook_case();
}

#[test]
fn shim_exec_hooks_can_override_target_and_set_environment() {
    exec_hook_case();
}

#[test]
fn tests_rehash_fails_when_fresh_lock_exists() {
    fresh_lock_case();
}

#[test]
fn shim_rehash_fails_when_fresh_lock_exists() {
    fresh_lock_case();
}

#[test]
fn tests_rehash_replaces_stale_lock_file() {
    stale_lock_case();
}

#[test]
fn shim_rehash_replaces_stale_lock_file() {
    stale_lock_case();
}

#[test]
fn tests_adjusted_path_deduplicates_prefix_and_existing_entries() {
    adjusted_path_case();
}

#[test]
fn shim_adjusted_path_deduplicates_prefix_and_existing_entries() {
    adjusted_path_case();
}

#[test]
fn exec_reports_unknown_command_with_127() {
    let mut ctx = shim_ctx(false, &[], vec![]);
    ctx.env_version = Some("system".to_string());
    let hooks = HookActions { env_pairs: vec![], passthrough_lines: vec![] };
    match cmd_exec(&ctx, "no-such-tool", &vec![], &hooks) {
        Err(r) => assert_eq!(r.exit_code, 127),
        Ok(_) => panic!("nothing provides the command"),
    }
}

#[test]
fn windows_shim_paths_cover_every_launcher() {
    assert_eq!(shim_artifact_paths("/s", "tool", false), vec!["/s/tool", "/s/tool.cmd", "/s/tool.bat", "/s/tool.ps1", "/s/tool"]);
    assert_eq!(shim_artifact_paths("/s", "tool", true)[0], "/s/tool.exe");
}

#[test]
fn tool_copy_is_current_only_when_identical() {
    assert!(copy_is_current(&b"abc".to_vec(), &b"abc".to_vec()));
    assert!(!copy_is_current(&b"abd".to_vec(), &b"abc".to_vec()));
    assert!(!copy_is_current(&b"ab".to_vec(), &b"abc".to_vec()));
}

#[test]
fn joined_path_values_split_back() {
    let unix = vec!["/a/bin".to_string(), "".to_string(), "/usr/bin".to_string()];
    let joined = join_path_value(&unix, false).expect("joinable");
    assert_eq!(joined, "/a/bin::/usr/bin");
    assert_eq!(split_path_value(&joined, false), unix);
    assert_eq!(join_path_value(&vec!["/a:b".to_string()], false), None);

    let win = vec!["C:\\Tools".to_string(), "C:\\odd;dir".to_string()];
    let joined = join_path_value(&win, true).expect("joinable");
    assert_eq!(joined, "C:\\Tools;\"C:\\odd;dir\"");
    assert_eq!(split_path_value(&joined, true), win);
    assert_eq!(join_path_value(&vec!["C:\\\"q".to_string()], true), None);
}

#[test]
fn rehash_lock_steps() {
    let now: u64 = 1_700_000_000;
    let path = "/s/.pyenv-shims.lock";
    assert!(matches!(lock_step(path, 0, &LockEvent::Created, now), LockAction::Acquired));
    let fresh = LockEvent::Exists(Some(lock_payload(9999, now)));
    match lock_step(path, 0, &fresh, now) {
        LockAction::Refuse(m) => assert_eq!(m, "pyenv: cannot rehash: lock /s/.pyenv-shims.lock already exists"),
        _ => panic!("a fresh lock refuses"),
    }
    let stale = LockEvent::Exists(Some(lock_payload(9999, now - 3600)));
    assert!(matches!(lock_step(path, 0, &stale, now), LockAction::RemoveStaleThenRetry));
    match lock_step(path, 1, &stale, now) {
        LockAction::RemoveStaleThenFail(m) => assert_eq!(m, "pyenv: cannot rehash: failed to acquire lock /s/.pyenv-shims.lock"),
        _ => panic!("the last try gives up"),
    }
    assert!(matches!(lock_step(path, 0, &LockEvent::Exists(None), now), LockAction::Refuse(_)));
    match lock_step(path, 0, &LockEvent::Failed("disk full".to_string()), now) {
        LockAction::Refuse(m) => assert_eq!(m, "disk full"),
        _ => panic!("other errors refuse"),
    }
}
