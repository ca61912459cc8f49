//! Self-update: the release to move to and how it compares, what `--check` prints, the
//! confirmation, the installer downloads, and the helper scripts that run the installer.
use vstd::prelude::*;

use crate::context::{join_path, join_path_str, AppContext};
use crate::report::CommandReport;
use crate::self_update::versioning::{
    compare_versions, law_release_order_antisymmetric, normalize_tag, normalized_tag, release_order, VersionOrder,
};
use crate::shell::quotes::{ps_single, ps_single_quote};
use crate::strings::{
    cat, cat3, cat5, dec, ends_with, i32_text, join, join_strings, lines, lower_seq, lower_str,
    owned, replace_char, replace_char_str, signed_dec, str_eq, trim, trim_end_char, trim_str,
};

verus! {

broadcast use vstd::string::group_string_axioms;

/// The options of `pyenv self-update`.
pub struct SelfUpdateOptions {
    pub check: bool,
    pub yes: bool,
    pub force: bool,
    pub github_repo: Option<String>,
    pub tag: Option<String>,
    /// On POSIX, run the installer in the background and relaunch the GUI.
    pub restart_gui: bool,
}

/// How the published release compares with the running one.
#[derive(Debug, Clone, Copy, PartialEq, Eq, Structural)]
pub enum SelfUpdateCheckStatus {
    Current,
    Available,
    Ahead,
}

/// The outcome of `--check`.
pub struct SelfUpdateCheck {
    pub status: SelfUpdateCheckStatus,
    pub current_tag: String,
    pub target_tag: String,
    pub release_url: Option<String>,
}

/// The release an update moves to.
pub struct ReleaseTarget {
    pub current_version: String,
    pub current_tag: String,
    pub target_tag: String,
    pub release_url: Option<String>,
    /// The target compared with the current tag.
    pub comparison: VersionOrder,
    pub repo: String,
}

/// The repository releases come from by default.
pub open spec fn default_repo() -> Seq<char> {
    "imyourboyroy/pyenv-native"@
}

/// The repository releases come from by default.
pub fn default_github_repo() -> (r: String)
    ensures
        r@ == default_repo(),
{
    owned("imyourboyroy/pyenv-native")
}

/// The release target: the current tag is `v<current version>`, the target tag normalized,
/// and the two compared.
pub fn release_target(repo: &str, current_version: &str, target_tag: &str, release_url: Option<String>) -> (r: ReleaseTarget)
    ensures
        r.current_version@ == current_version@,
        r.current_tag@ == "v"@ + current_version@,
        r.target_tag@ == normalized_tag(target_tag@),
        r.release_url == release_url,
        r.comparison == release_order(normalized_tag(target_tag@), "v"@ + current_version@),
        r.repo@ == repo@,
{
    let current_tag = cat("v", current_version);
    let target = normalize_tag(target_tag);
    let comparison = compare_versions(target.as_str(), current_tag.as_str());
    ReleaseTarget {
        current_version: owned(current_version),
        current_tag,
        target_tag: target,
        release_url,
        comparison,
        repo: owned(repo),
    }
}

/// The status for a comparison: equal is current, a newer target is available, an older one
/// means the running build is ahead.
pub open spec fn status_of(o: VersionOrder) -> SelfUpdateCheckStatus {
    match o {
        VersionOrder::Equal => SelfUpdateCheckStatus::Current,
        VersionOrder::Greater => SelfUpdateCheckStatus::Available,
        VersionOrder::Less => SelfUpdateCheckStatus::Ahead,
    }
}

fn copy_opt(o: &Option<String>) -> (r: Option<String>)
    ensures
        r == *o,
{
    match o {
        Some(s) => Some(s.clone()),
        None => None,
    }
}

impl SelfUpdateCheck {
    /// The check outcome for a release target.
    pub fn from_target(target: &ReleaseTarget) -> (r: SelfUpdateCheck)
        ensures
            r.status == status_of(target.comparison),
            r.current_tag == target.current_tag,
            r.target_tag == target.target_tag,
            r.release_url == target.release_url,
    {
        let status = match target.comparison {
            VersionOrder::Equal => SelfUpdateCheckStatus::Current,
            VersionOrder::Greater => SelfUpdateCheckStatus::Available,
            VersionOrder::Less => SelfUpdateCheckStatus::Ahead,
        };
        SelfUpdateCheck {
            status,
            current_tag: target.current_tag.clone(),
            target_tag: target.target_tag.clone(),
            release_url: copy_opt(&target.release_url),
        }
    }
}

/// What `--check` prints.
pub open spec fn check_lines(t: ReleaseTarget) -> Seq<Seq<char>> {
    match t.comparison {
        VersionOrder::Less => seq![
            "Installed version "@ + t.current_tag@ + " is newer than the latest published release "@ + t.target_tag@ + "."@,
        ],
        VersionOrder::Equal => seq!["pyenv-native "@ + t.current_tag@ + " is up to date."@],
        VersionOrder::Greater => seq!["Update available: "@ + t.target_tag@ + " (current "@ + t.current_tag@ + ")."@] + (match t.release_url {
            Some(u) => seq!["Release: "@ + u@],
            None => seq![],
        }) + seq!["Run `pyenv self-update --yes` to install it."@],
    }
}

/// What `--check` says follows from comparing the target tag with the current one: a newer
/// target is announced as an update with the command to install it, an older one reports the
/// installed version as ahead, and an equal one as up to date.
pub proof fn law_check_lines_follow_order(t: ReleaseTarget)
    requires
        t.comparison == release_order(t.target_tag@, t.current_tag@),
    ensures
        release_order(t.target_tag@, t.current_tag@) == VersionOrder::Greater ==> {
            &&& check_lines(t).len() >= 2
            &&& check_lines(t)[0] == "Update available: "@ + t.target_tag@ + " (current "@ + t.current_tag@ + ")."@
            &&& check_lines(t).last() == "Run `pyenv self-update --yes` to install it."@
        },
        release_order(t.target_tag@, t.current_tag@) == VersionOrder::Less ==> check_lines(t) == seq![
            "Installed version "@ + t.current_tag@ + " is newer than the latest published release "@ + t.target_tag@ + "."@,
        ],
        release_order(t.target_tag@, t.current_tag@) == VersionOrder::Equal ==> check_lines(t) == seq![
            "pyenv-native "@ + t.current_tag@ + " is up to date."@,
        ],
        release_order(t.current_tag@, t.target_tag@) == VersionOrder::Less ==> check_lines(t)[0] == "Update available: "@
            + t.target_tag@ + " (current "@ + t.current_tag@ + ")."@,
{
    law_release_order_antisymmetric(t.current_tag@, t.target_tag@);
}

/// The lines `--check` prints for a release target.
pub fn render_check_lines(target: &ReleaseTarget) -> (r: Vec<String>)
    ensures
        lines(r@) == check_lines(*target),
{
    let mut out: Vec<String> = Vec::new();
    match target.comparison {
        VersionOrder::Less => {
            let a = cat3("Installed version ", target.current_tag.as_str(), " is newer than the latest published release ");
            out.push(cat3(a.as_str(), target.target_tag.as_str(), "."));
        },
        VersionOrder::Equal => {
            out.push(cat3("pyenv-native ", target.current_tag.as_str(), " is up to date."));
        },
        VersionOrder::Greater => {
            let a = cat3("Update available: ", target.target_tag.as_str(), " (current ");
            out.push(cat3(a.as_str(), target.current_tag.as_str(), ")."));
            match &target.release_url {
                Some(u) => {
                    out.push(cat("Release: ", u.as_str()));
                },
                None => {},
            }
            out.push(owned("Run `pyenv self-update --yes` to install it."));
        },
    }
    assert(lines(out@) =~= check_lines(*target));
    out
}

/// What `self-update` reports without installing anything: the check lines, or that the
/// running build is current (unless `force`); `None` when an update is to run.
pub fn cmd_self_update(options: &SelfUpdateOptions, target: &ReleaseTarget) -> (r: Option<CommandReport>)
    ensures
        options.check ==> (r matches Some(rep) && rep.out() == check_lines(*target) && rep.exit_code == 0 && rep.stderr@.len() == 0),
        !options.check && target.comparison == VersionOrder::Equal && !options.force ==> (r matches Some(rep)
            && rep.out() == seq!["pyenv-native "@ + target.current_tag@ + " is already up to date."@] && rep.exit_code == 0 && rep.stderr@.len() == 0),
        !options.check && !(target.comparison == VersionOrder::Equal && !options.force) ==> r is None,
{
    if options.check {
        return Some(CommandReport::success(render_check_lines(target)));
    }
    if target.comparison == VersionOrder::Equal && !options.force {
        return Some(CommandReport::success_one(cat3("pyenv-native ", target.current_tag.as_str(), " is already up to date.")));
    }
    None
}

/// The confirmation question: reinstall when current or forced, else update.
pub fn confirm_prompt(root: &str, target: &ReleaseTarget, force: bool) -> (r: String)
    ensures
        r@ == (if target.comparison == VersionOrder::Equal || force { "Reinstall"@ } else { "Update"@ }) + " pyenv-native "@
            + target.target_tag@ + " under "@ + root@ + "? [y/N] "@,
{
    let action = if target.comparison == VersionOrder::Equal || force { "Reinstall" } else { "Update" };
    let a = cat3(action, " pyenv-native ", target.target_tag.as_str());
    proof {
        reveal_strlit("");
    }
    cat5(a.as_str(), " under ", root, "? [y/N] ", "")
}

/// An answer confirms when it is `y` or `yes`, trimmed and in any case.
pub open spec fn confirms(answer: Seq<char>) -> bool {
    lower_seq(trim(answer)) == "y"@ || lower_seq(trim(answer)) == "yes"@
}

/// Whether a typed answer confirms.
pub fn confirm_answer(answer: &str) -> (r: bool)
    ensures
        r == confirms(answer@),
{
    let t = trim_str(answer);
    let l = lower_str(t.as_str());
    str_eq(l.as_str(), "y") || str_eq(l.as_str(), "yes")
}

/// The API address of the latest release.
pub fn latest_release_url(repo: &str, api_base_url: Option<&str>) -> (r: String)
    ensures
        r@ == trim_end_char(match api_base_url {
            Some(b) => b@,
            None => "https://api.github.com"@,
        }, '/') + "/repos/"@ + repo@ + "/releases/latest"@,
{
    let base = match api_base_url {
        Some(b) => b,
        None => "https://api.github.com",
    };
    let v = crate::strings::chars_of(base);
    let mut n = v.len();
    assert(v@.take(v@.len() as int) =~= v@);
    while n > 0 && v[n - 1] == '/'
        invariant
            n <= v@.len(),
            trim_end_char(v@, '/') == trim_end_char(v@.take(n as int), '/'),
        decreases n,
    {
        assert(v@.take(n as int).drop_last() =~= v@.take(n - 1));
        n = n - 1;
    }
    assert(trim_end_char(v@.take(n as int), '/') == v@.take(n as int));
    let trimmed = crate::strings::string_from(&v, 0, n);
    assert(trimmed@ =~= v@.take(n as int));
    proof {
        reveal_strlit("");
    }
    cat5(trimmed.as_str(), "/repos/", repo, "/releases/latest", "")
}

/// The installer's file extension: `ps1` on Windows, `sh` elsewhere.
pub open spec fn installer_ext(windows: bool) -> Seq<char> {
    if windows { "ps1"@ } else { "sh"@ }
}

/// Where the installer is downloaded from: the release asset, then the raw file at the tag.
pub fn installer_urls(repo: &str, tag: &str, windows: bool) -> (r: (String, String))
    ensures
        r.0@ == "https://github.com/"@ + repo@ + "/releases/download/"@ + tag@ + "/install."@ + installer_ext(windows),
        r.1@ == "https://raw.githubusercontent.com/"@ + repo@ + "/"@ + tag@ + "/install."@ + installer_ext(windows),
{
    let ext = if windows { "ps1" } else { "sh" };
    let a = cat5("https://github.com/", repo, "/releases/download/", tag, "/install.");
    let b = cat5("https://raw.githubusercontent.com/", repo, "/", tag, "/install.");
    (cat(a.as_str(), ext), cat(b.as_str(), ext))
}

/// The message when neither installer download works.
pub fn download_failure_message(release_url: &str, release_error: &str, raw_url: &str, raw_error: &str) -> (r: String)
    ensures
        r@ == "pyenv: failed to download installer from either "@ + release_url@ + " ("@ + release_error@ + ") or "@ + raw_url@
            + " ("@ + raw_error@ + ")"@,
{
    let a = cat5("pyenv: failed to download installer from either ", release_url, " (", release_error, ") or ");
    cat5(a.as_str(), raw_url, " (", raw_error, ")")
}

/// A POSIX shell single-quoted word: `'` becomes `'"'"'`.
pub open spec fn posix_quoted(v: Seq<char>) -> Seq<char> {
    "'"@ + replace_char(v, '\'', "'\"'\"'"@) + "'"@
}

/// Quotes a value as one POSIX shell word.
pub fn shell_single_quote(value: &str) -> (r: String)
    ensures
        r@ == posix_quoted(value@),
{
    let inner = replace_char_str(value, '\'', "'\"'\"'");
    cat3("'", inner.as_str(), "'")
}

/// A PowerShell single-quoted string body: `'` doubled.
pub fn escape_powershell_single_quoted(value: &str) -> (r: String)
    ensures
        r@ == ps_single(value@),
{
    ps_single_quote(value)
}

/// The installer's arguments on Windows, after `powershell.exe`.
pub open spec fn windows_installer_args(installer: Seq<char>, repo: Seq<char>, tag: Seq<char>, root: Seq<char>) -> Seq<Seq<char>> {
    seq![
        "-NoProfile"@, "-ExecutionPolicy"@, "Bypass"@, "-File"@, installer, "-GitHubRepo"@, repo, "-Tag"@, tag,
        "-InstallRoot"@, root, "-Shell"@, "none"@, "-AddToUserPath"@, "false"@, "-UpdatePowerShellProfile"@,
        "false"@, "-RefreshShims"@, "true"@, "-Yes"@, "-Force"@,
    ]
}

/// The arguments, each single-quoted, joined with `, `.
pub open spec fn ps_arg_list(args: Seq<Seq<char>>) -> Seq<char> {
    join(args.map_values(|a: Seq<char>| "'"@ + ps_single(a) + "'"@), ", "@)
}

/// The GUI restart block of the Windows helper.
pub open spec fn restart_block(gui_exe: Seq<char>) -> Seq<char> {
    "\n$guiExe = '"@ + ps_single(gui_exe) + "'\nif (Test-Path $guiExe) {\n  Start-Process -FilePath $guiExe\n}\n"@
}

/// The PowerShell helper that waits for this process, runs the installer, and restarts the
/// GUI when asked.
pub open spec fn windows_launcher_text(rendered_args: Seq<char>, restart_script: Seq<char>) -> Seq<char> {
    "param([int]$ParentPid)\n\
         $ErrorActionPreference = 'Stop'\n\
         for ($attempt = 0; $attempt -lt 240; $attempt++) {\n\
           if (-not (Get-Process -Id $ParentPid -ErrorAction SilentlyContinue)) { break }\n\
           Start-Sleep -Milliseconds 500\n\
         }\n\
         $installerArgs = @("@ + rendered_args + ")\n\
         & powershell.exe @installerArgs\n\
         "@ + restart_script + "\n\
         exit $LASTEXITCODE\n"@
}
fn windows_launcher_body(rendered_args: &str, restart_script: &str) -> (r: String)
    ensures
        r@ == windows_launcher_text(rendered_args@, restart_script@),
{
    let mut s = String::new();
    s.append("param([int]$ParentPid)\n\
         $ErrorActionPreference = 'Stop'\n\
         for ($attempt = 0; $attempt -lt 240; $attempt++) {\n\
           if (-not (Get-Process -Id $ParentPid -ErrorAction SilentlyContinue)) { break }\n\
           Start-Sleep -Milliseconds 500\n\
         }\n\
         $installerArgs = @(");
    s.append(rendered_args);
    s.append(")\n\
         & powershell.exe @installerArgs\n\
         ");
    s.append(restart_script);
    s.append("\n\
         exit $LASTEXITCODE\n");
    s
}

/// The POSIX helper that waits for this process, runs the installer with a log, and relaunches
/// the GUI.
pub open spec fn posix_launcher_text(log_file: Seq<char>, installer: Seq<char>, repo: Seq<char>, tag: Seq<char>, root: Seq<char>, gui: Seq<char>, app_id: Seq<char>) -> Seq<char> {
    "#!/bin/sh\n\
         set -eu\n\
         PARENT_PID=\"$1\"\n\
         LOG_FILE="@ + log_file + "\n\
         mkdir -p \"$(dirname \"$LOG_FILE\")\"\n\
         {\n\
           printf '%%s pyenv-native GUI updater started (parent pid %%s)\\n' \"$(date -u '+%Y-%m-%dT%H:%M:%SZ')\" \"$PARENT_PID\"\n\
         } >>\"$LOG_FILE\" 2>&1\n\
         attempt=0\n\
         while [ \"$attempt\" -lt 240 ]; do\n\
           if ! kill -0 \"$PARENT_PID\" 2>/dev/null; then\n\
             break\n\
           fi\n\
           attempt=$((attempt + 1))\n\
           sleep 0.5\n\
         done\n\
         if sh "@ + installer + " \\\n\
           --github-repo "@ + repo + " \\\n\
           --tag "@ + tag + " \\\n\
           --install-root "@ + root + " \\\n\
           --shell none \\\n\
           --add-to-user-path false \\\n\
           --update-shell-profile false \\\n\
           --refresh-shims true \\\n\
           --yes \\\n\
           --force >>\"$LOG_FILE\" 2>&1; then\n\
           printf '%%s installer finished successfully\\n' \"$(date -u '+%Y-%m-%dT%H:%M:%SZ')\" >>\"$LOG_FILE\" 2>&1\n\
         else\n\
           status=$?\n\
           printf '%%s installer failed with exit code %%s\\n' \"$(date -u '+%Y-%m-%dT%H:%M:%SZ')\" \"$status\" >>\"$LOG_FILE\" 2>&1\n\
           exit \"$status\"\n\
         fi\n\
         relaunch_gui() {\n\
           if [ ! -x "@ + gui + " ]; then\n\
             printf '%%s GUI binary missing or not executable: "@ + gui + "\\n' \"$(date -u '+%Y-%m-%dT%H:%M:%SZ')\" >>\"$LOG_FILE\" 2>&1\n\
             return 1\n\
           fi\n\
           if command -v gtk-launch >/dev/null 2>&1; then\n\
             if DISPLAY=\"${DISPLAY:-}\" WAYLAND_DISPLAY=\"${WAYLAND_DISPLAY:-}\" XDG_RUNTIME_DIR=\"${XDG_RUNTIME_DIR:-}\" DBUS_SESSION_BUS_ADDRESS=\"${DBUS_SESSION_BUS_ADDRESS:-}\" gtk-launch "@ + app_id + " >>\"$LOG_FILE\" 2>&1 & then\n\
               printf '%%s relaunched GUI via gtk-launch\\n' \"$(date -u '+%Y-%m-%dT%H:%M:%SZ')\" >>\"$LOG_FILE\" 2>&1\n\
               return 0\n\
             fi\n\
           fi\n\
           DISPLAY=\"${DISPLAY:-}\" WAYLAND_DISPLAY=\"${WAYLAND_DISPLAY:-}\" XDG_RUNTIME_DIR=\"${XDG_RUNTIME_DIR:-}\" DBUS_SESSION_BUS_ADDRESS=\"${DBUS_SESSION_BUS_ADDRESS:-}\" nohup "@ + gui + " >>\"$LOG_FILE\" 2>&1 &\n\
           printf '%%s relaunched GUI via nohup\\n' \"$(date -u '+%Y-%m-%dT%H:%M:%SZ')\" >>\"$LOG_FILE\" 2>&1\n\
         }\n\
         relaunch_gui\n"@
}
fn posix_launcher_body(log_file: &str, installer: &str, repo: &str, tag: &str, root: &str, gui: &str, app_id: &str) -> (r: String)
    ensures
        r@ == posix_launcher_text(log_file@, installer@, repo@, tag@, root@, gui@, app_id@),
{
    let mut s = String::new();
    s.append("#!/bin/sh\n\
         set -eu\n\
         PARENT_PID=\"$1\"\n\
         LOG_FILE=");
    s.append(log_file);
    s.append("\n\
         mkdir -p \"$(dirname \"$LOG_FILE\")\"\n\
         {\n\
           printf '%%s pyenv-native GUI updater started (parent pid %%s)\\n' \"$(date -u '+%Y-%m-%dT%H:%M:%SZ')\" \"$PARENT_PID\"\n\
         } >>\"$LOG_FILE\" 2>&1\n\
         attempt=0\n\
         while [ \"$attempt\" -lt 240 ]; do\n\
           if ! kill -0 \"$PARENT_PID\" 2>/dev/null; then\n\
             break\n\
           fi\n\
           attempt=$((attempt + 1))\n\
           sleep 0.5\n\
         done\n\
         if sh ");
    s.append(installer);
    s.append(" \\\n\
           --github-repo ");
    s.append(repo);
    s.append(" \\\n\
           --tag ");
    s.append(tag);
    s.append(" \\\n\
           --install-root ");
    s.append(root);
    s.append(" \\\n\
           --shell none \\\n\
           --add-to-user-path false \\\n\
           --update-shell-profile false \\\n\
           --refresh-shims true \\\n\
           --yes \\\n\
           --force >>\"$LOG_FILE\" 2>&1; then\n\
           printf '%%s installer finished successfully\\n' \"$(date -u '+%Y-%m-%dT%H:%M:%SZ')\" >>\"$LOG_FILE\" 2>&1\n\
         else\n\
           status=$?\n\
           printf '%%s installer failed with exit code %%s\\n' \"$(date -u '+%Y-%m-%dT%H:%M:%SZ')\" \"$status\" >>\"$LOG_FILE\" 2>&1\n\
           exit \"$status\"\n\
         fi\n\
         relaunch_gui() {\n\
           if [ ! -x ");
    s.append(gui);
    s.append(" ]; then\n\
             printf '%%s GUI binary missing or not executable: ");
    s.append(gui);
    s.append("\\n' \"$(date -u '+%Y-%m-%dT%H:%M:%SZ')\" >>\"$LOG_FILE\" 2>&1\n\
             return 1\n\
           fi\n\
           if command -v gtk-launch >/dev/null 2>&1; then\n\
             if DISPLAY=\"${DISPLAY:-}\" WAYLAND_DISPLAY=\"${WAYLAND_DISPLAY:-}\" XDG_RUNTIME_DIR=\"${XDG_RUNTIME_DIR:-}\" DBUS_SESSION_BUS_ADDRESS=\"${DBUS_SESSION_BUS_ADDRESS:-}\" gtk-launch ");
    s.append(app_id);
    s.append(" >>\"$LOG_FILE\" 2>&1 & then\n\
               printf '%%s relaunched GUI via gtk-launch\\n' \"$(date -u '+%Y-%m-%dT%H:%M:%SZ')\" >>\"$LOG_FILE\" 2>&1\n\
               return 0\n\
             fi\n\
           fi\n\
           DISPLAY=\"${DISPLAY:-}\" WAYLAND_DISPLAY=\"${WAYLAND_DISPLAY:-}\" XDG_RUNTIME_DIR=\"${XDG_RUNTIME_DIR:-}\" DBUS_SESSION_BUS_ADDRESS=\"${DBUS_SESSION_BUS_ADDRESS:-}\" nohup ");
    s.append(gui);
    s.append(" >>\"$LOG_FILE\" 2>&1 &\n\
           printf '%%s relaunched GUI via nohup\\n' \"$(date -u '+%Y-%m-%dT%H:%M:%SZ')\" >>\"$LOG_FILE\" 2>&1\n\
         }\n\
         relaunch_gui\n");
    s
}

fn ps_arg_list_text(args: &Vec<String>) -> (r: String)
    ensures
        r@ == ps_arg_list(lines(args@)),
{
    let mut parts: Vec<String> = Vec::new();
    let mut i: usize = 0;
    while i < args.len()
        invariant
            i <= args@.len(),
            lines(parts@) == lines(args@).take(i as int).map_values(|a: Seq<char>| "'"@ + ps_single(a) + "'"@),
        decreases args.len() - i,
    {
        let q = ps_single_quote(args[i].as_str());
        let ghost before = lines(parts@);
        parts.push(cat3("'", q.as_str(), "'"));
        assert(lines(parts@) =~= before.push("'"@ + ps_single(args@[i as int]@) + "'"@));
        assert(lines(args@).take(i + 1).map_values(|a: Seq<char>| "'"@ + ps_single(a) + "'"@) =~= lines(args@).take(i as int).map_values(
            |a: Seq<char>| "'"@ + ps_single(a) + "'"@,
        ).push("'"@ + ps_single(args@[i as int]@) + "'"@));
        i = i + 1;
    }
    assert(lines(args@).take(args@.len() as int) =~= lines(args@));
    join_strings(&parts, ", ")
}

/// `<root>/bin/pyenv-gui.exe`.
pub open spec fn windows_gui_exe(root: Seq<char>) -> Seq<char> {
    join_path(join_path(root, "bin"@), "pyenv-gui.exe"@)
}

/// The Windows helper script for a release target.
pub fn render_windows_launcher(root: &str, target: &ReleaseTarget, installer_path: &str, restart_gui: bool) -> (r: String)
    ensures
        r@ == windows_launcher_text(
            ps_arg_list(windows_installer_args(installer_path@, target.repo@, target.target_tag@, root@)),
            if restart_gui { restart_block(windows_gui_exe(root@)) } else { seq![] },
        ),
{
    let mut args: Vec<String> = Vec::new();
    args.push(owned("-NoProfile"));
    args.push(owned("-ExecutionPolicy"));
    args.push(owned("Bypass"));
    args.push(owned("-File"));
    args.push(owned(installer_path));
    args.push(owned("-GitHubRepo"));
    args.push(target.repo.clone());
    args.push(owned("-Tag"));
    args.push(target.target_tag.clone());
    args.push(owned("-InstallRoot"));
    args.push(owned(root));
    args.push(owned("-Shell"));
    args.push(owned("none"));
    args.push(owned("-AddToUserPath"));
    args.push(owned("false"));
    args.push(owned("-UpdatePowerShellProfile"));
    args.push(owned("false"));
    args.push(owned("-RefreshShims"));
    args.push(owned("true"));
    args.push(owned("-Yes"));
    args.push(owned("-Force"));
    assert(lines(args@) =~= windows_installer_args(installer_path@, target.repo@, target.target_tag@, root@));
    let rendered = ps_arg_list_text(&args);
    let restart = if restart_gui {
        let bin = join_path_str(root, "bin");
        let gui = join_path_str(bin.as_str(), "pyenv-gui.exe");
        let q = ps_single_quote(gui.as_str());
        let a = cat3("\n$guiExe = '", q.as_str(), "'\nif (Test-Path $guiExe) {\n  Start-Process -FilePath $guiExe\n}\n");
        a
    } else {
        String::new()
    };
    proof {
        reveal_strlit("");
    }
    windows_launcher_body(rendered.as_str(), restart.as_str())
}

/// `<root>/logs/gui-relaunch.log`.
pub open spec fn relaunch_log(root: Seq<char>) -> Seq<char> {
    join_path(join_path(root, "logs"@), "gui-relaunch.log"@)
}

/// The POSIX helper script for a release target.
pub fn render_posix_launcher(root: &str, target: &ReleaseTarget, installer_path: &str, gui_exe: &str) -> (r: String)
    ensures
        r@ == posix_launcher_text(
            posix_quoted(relaunch_log(root@)),
            posix_quoted(installer_path@),
            posix_quoted(target.repo@),
            posix_quoted(target.target_tag@),
            posix_quoted(root@),
            posix_quoted(gui_exe@),
            posix_quoted("com.pyenv-native.gui"@),
        ),
{
    let installer = shell_single_quote(installer_path);
    let gui = shell_single_quote(gui_exe);
    let root_q = shell_single_quote(root);
    let repo = shell_single_quote(target.repo.as_str());
    let tag = shell_single_quote(target.target_tag.as_str());
    let logs = join_path_str(root, "logs");
    let log_path = join_path_str(logs.as_str(), "gui-relaunch.log");
    let log_file = shell_single_quote(log_path.as_str());
    let app_id = shell_single_quote("com.pyenv-native.gui");
    posix_launcher_body(
        log_file.as_str(),
        installer.as_str(),
        repo.as_str(),
        tag.as_str(),
        root_q.as_str(),
        gui.as_str(),
        app_id.as_str(),
    )
}

/// The installer's arguments on POSIX, after `sh`.
pub open spec fn posix_installer_args(installer: Seq<char>, repo: Seq<char>, tag: Seq<char>, root: Seq<char>) -> Seq<Seq<char>> {
    seq![
        installer, "--github-repo"@, repo, "--tag"@, tag, "--install-root"@, root, "--shell"@, "none"@,
        "--add-to-user-path"@, "false"@, "--update-shell-profile"@, "false"@, "--refresh-shims"@, "true"@,
        "--yes"@, "--force"@,
    ]
}

/// The arguments `sh` runs the installer with.
pub fn posix_installer_command(root: &str, target: &ReleaseTarget, installer_path: &str) -> (r: Vec<String>)
    ensures
        lines(r@) == posix_installer_args(installer_path@, target.repo@, target.target_tag@, root@),
{
    let mut args: Vec<String> = Vec::new();
    args.push(owned(installer_path));
    args.push(owned("--github-repo"));
    args.push(target.repo.clone());
    args.push(owned("--tag"));
    args.push(target.target_tag.clone());
    args.push(owned("--install-root"));
    args.push(owned(root));
    args.push(owned("--shell"));
    args.push(owned("none"));
    args.push(owned("--add-to-user-path"));
    args.push(owned("false"));
    args.push(owned("--update-shell-profile"));
    args.push(owned("false"));
    args.push(owned("--refresh-shims"));
    args.push(owned("true"));
    args.push(owned("--yes"));
    args.push(owned("--force"));
    assert(lines(args@) =~= posix_installer_args(installer_path@, target.repo@, target.target_tag@, root@));
    args
}

/// `Some(<code>)` or `None`, as `{:?}` prints an exit code.
pub open spec fn code_text(code: Option<i32>) -> Seq<char> {
    match code {
        Some(c) => "Some("@ + signed_dec(c as int) + ")"@,
        None => "None"@,
    }
}

/// The error when the POSIX installer fails: its status, then its trimmed stderr and stdout
/// when not blank, one per line.
pub fn posix_installer_failure(code: Option<i32>, stderr: &str, stdout: &str) -> (r: String)
    ensures
        r@ == join(
            seq!["pyenv: self-update installer exited with status "@ + code_text(code)]
                + (if trim(stderr@).len() > 0 { seq!["pyenv: installer stderr:\n"@ + trim(stderr@)] } else { seq![] })
                + (if trim(stdout@).len() > 0 { seq!["pyenv: installer stdout:\n"@ + trim(stdout@)] } else { seq![] }),
            "\n"@,
        ),
{
    let status = match code {
        Some(c) => {
            let t = i32_text(c);
            cat3("Some(", t.as_str(), ")")
        },
        None => owned("None"),
    };
    let mut details: Vec<String> = Vec::new();
    details.push(cat("pyenv: self-update installer exited with status ", status.as_str()));
    let e = trim_str(stderr);
    if !e.as_str().is_empty() {
        details.push(cat("pyenv: installer stderr:\n", e.as_str()));
    }
    let o = trim_str(stdout);
    if !o.as_str().is_empty() {
        details.push(cat("pyenv: installer stdout:\n", o.as_str()));
    }
    assert(lines(details@) =~= seq!["pyenv: self-update installer exited with status "@ + code_text(code)]
        + (if trim(stderr@).len() > 0 { seq!["pyenv: installer stderr:\n"@ + trim(stderr@)] } else { seq![] })
        + (if trim(stdout@).len() > 0 { seq!["pyenv: installer stdout:\n"@ + trim(stdout@)] } else { seq![] }));
    join_strings(&details, "\n")
}

/// What a started or finished update reports: on Windows a background update, on POSIX a GUI
/// relaunch or an update done in place.
pub fn update_started_lines(root: &str, target: &ReleaseTarget, windows: bool, gui: bool) -> (r: Vec<String>)
    ensures
        windows ==> lines(r@) == seq![
            "Started pyenv-native update to "@ + target.target_tag@ + " for install root "@ + root@ + "."@,
            "Keep this shell open until the updater finishes."@,
        ],
        !windows && gui ==> lines(r@) == seq![
            "Started pyenv-native update to "@ + target.target_tag@ + " for install root "@ + root@ + "."@,
            "The application will close, apply the update, and relaunch automatically."@,
        ],
        !windows && !gui ==> lines(r@) == seq!["Updated pyenv-native to "@ + target.target_tag@ + " in "@ + root@ + "."@],
{
    let mut out: Vec<String> = Vec::new();
    if windows || gui {
        out.push(cat5("Started pyenv-native update to ", target.target_tag.as_str(), " for install root ", root, "."));
        if windows {
            out.push(owned("Keep this shell open until the updater finishes."));
        } else {
            out.push(owned("The application will close, apply the update, and relaunch automatically."));
        }
    } else {
        out.push(cat5("Updated pyenv-native to ", target.target_tag.as_str(), " in ", root, "."));
    }
    proof {
        if windows {
            assert(lines(out@) =~= seq![
                "Started pyenv-native update to "@ + target.target_tag@ + " for install root "@ + root@ + "."@,
                "Keep this shell open until the updater finishes."@,
            ]);
        } else if gui {
            assert(lines(out@) =~= seq![
                "Started pyenv-native update to "@ + target.target_tag@ + " for install root "@ + root@ + "."@,
                "The application will close, apply the update, and relaunch automatically."@,
            ]);
        } else {
            assert(lines(out@) =~= seq!["Updated pyenv-native to "@ + target.target_tag@ + " in "@ + root@ + "."@]);
        }
    }
    out
}

/// `<root>/bin/pyenv`, with `.exe` on Windows.
pub fn portable_executable_path(root: &str, windows: bool) -> (r: String)
    ensures
        r@ == join_path(join_path(root@, "bin"@), if windows { "pyenv.exe"@ } else { "pyenv"@ }),
{
    let bin = join_path_str(root, "bin");
    join_path_str(bin.as_str(), if windows { "pyenv.exe" } else { "pyenv" })
}

/// `<bin>/pyenv-gui`, with `.exe` on Windows.
pub fn gui_executable_path(bin_dir: &str, windows: bool) -> (r: String)
    ensures
        r@ == join_path(bin_dir@, if windows { "pyenv-gui.exe"@ } else { "pyenv-gui"@ }),
{
    join_path_str(bin_dir, if windows { "pyenv-gui.exe" } else { "pyenv-gui" })
}

/// The executable is the GUI: the same file as the GUI binary, or named `pyenv-gui`
/// (`.exe`), in any case.
pub open spec fn gui_launch(exe_name: Seq<char>, same_as_gui: bool) -> bool {
    same_as_gui || lower_seq(exe_name) == "pyenv-gui"@ || lower_seq(exe_name) == "pyenv-gui.exe"@
}

/// Whether the running executable is the GUI, given its file name and whether it is the
/// same file as the GUI binary.
pub fn is_gui_launch(exe_name: &str, same_as_gui: bool) -> (r: bool)
    ensures
        r == gui_launch(exe_name@, same_as_gui),
{
    if same_as_gui {
        return true;
    }
    let l = lower_str(exe_name);
    str_eq(l.as_str(), "pyenv-gui") || str_eq(l.as_str(), "pyenv-gui.exe")
}

/// Self-update runs only from a portable install: the CLI or the GUI binary under
/// `<root>/bin`, or when the GUI asked for it.
pub fn ensure_portable_install(root: &str, current_exe: &str, is_pyenv: bool, is_gui: bool, allow_gui_launcher: bool) -> (r: Result<(), String>)
    ensures
        is_pyenv || is_gui || allow_gui_launcher ==> r is Ok,
        !(is_pyenv || is_gui || allow_gui_launcher) ==> (r matches Err(m) && m@ == "pyenv: self-update only supports portable installs launched from `"@
            + join_path(join_path(root@, "bin"@), "pyenv"@) + "`; current executable is `"@ + current_exe@ + "`"@),
{
    if is_pyenv || is_gui || allow_gui_launcher {
        return Ok(());
    }
    let bin = join_path_str(root, "bin");
    let p = join_path_str(bin.as_str(), "pyenv");
    let a = cat3("pyenv: self-update only supports portable installs launched from `", p.as_str(), "`; current executable is `");
    Err(cat3(a.as_str(), current_exe, "`"))
}

} // verus!
