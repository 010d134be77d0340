//! Shell integration: what each flavor of shell needs so that it loads the
//! integration script by itself, without a change to the user's own files.
//!
//! Nothing here touches a file or the environment. The caller looks things up
//! and writes the files; these functions say what to look for, what to write,
//! and what the plan for the shell becomes once the outcome is known. Setup
//! that fails leaves the plan as it was: the shell still starts.

use vstd::prelude::*;
use crate::flavor::{applies, flavor_applies, ShellFlavor};
use crate::plan::{LaunchPlan, PlanView};
use crate::platform::Platform;
use crate::text::{crlf, to_crlf};

verus! {

/// The directory that holds the user's own zsh startup files: `ZDOTDIR` where
/// it is set, else the home directory, else the root.
pub fn user_zdotdir(zdotdir: Option<&str>, home: Option<&str>) -> (dir: String)
    ensures
        dir@ == match zdotdir {
            Some(z) => z@,
            None => match home {
                Some(h) => h@,
                None => "/"@,
            },
        },
{
    match zdotdir {
        Some(z) => String::from_str(z),
        None => match home {
            Some(h) => String::from_str(h),
            None => String::from_str("/"),
        },
    }
}

/// The plan for a shell on a system other than Windows, before any
/// integration: the shell itself, no arguments, the terminal type and the
/// mark by which scripts tell this terminal from others.
pub open spec fn unix_plan(shell: Seq<char>) -> PlanView {
    PlanView {
        program: shell,
        args: seq![],
        env: seq![("TERM"@, "xterm-256color"@), ("TERM_PROGRAM"@, "command-line-cookbook"@)],
    }
}

/// The plan for PowerShell: no banner, and the profile looked up under
/// `profile_root`, where the integration script was written as the profile.
pub open spec fn powershell_plan(profile_root: Seq<char>) -> PlanView {
    PlanView {
        program: "powershell.exe"@,
        args: seq!["-NoLogo"@],
        env: seq![
            ("USERPROFILE"@, profile_root),
            ("TERM"@, "cygwin"@),
            ("TERM_PROGRAM"@, "command-line-cookbook"@),
        ],
    }
}

/// `later` starts the same program as `earlier` and keeps every argument and
/// variable of it, in place; it may have more of both after them.
pub open spec fn extends(later: PlanView, earlier: PlanView) -> bool {
    &&& later.program == earlier.program
    &&& earlier.args.is_prefix_of(later.args)
    &&& earlier.env.is_prefix_of(later.env)
}

/// The plan for the shell at `shell` on a system other than Windows, before
/// any integration is added.
pub fn plan_unix(shell: &str) -> (plan: LaunchPlan)
    ensures
        plan@ == unix_plan(shell@),
{
    proof {
        reveal_strlit("TERM");
        reveal_strlit("TERM_PROGRAM");
    }
    let plan = LaunchPlan::new(shell).with_env("TERM", "xterm-256color").with_env(
        "TERM_PROGRAM",
        "command-line-cookbook",
    );
    assert(plan@.env =~= unix_plan(shell@).env);
    plan
}

/// The plan for PowerShell with its profile under `profile_root`.
pub fn plan_powershell(profile_root: &str) -> (plan: LaunchPlan)
    ensures
        plan@ == powershell_plan(profile_root@),
{
    proof {
        reveal_strlit("USERPROFILE");
        reveal_strlit("TERM");
        reveal_strlit("TERM_PROGRAM");
    }
    let plan = LaunchPlan::new("powershell.exe").with_arg("-NoLogo").with_env(
        "USERPROFILE",
        profile_root,
    ).with_env("TERM", "cygwin").with_env("TERM_PROGRAM", "command-line-cookbook");
    assert(plan@.args =~= powershell_plan(profile_root@).args);
    assert(plan@.env =~= powershell_plan(profile_root@).env);
    plan
}

/// `plan` once zsh has been dealt with. Where the startup file was written
/// into `temp_dir`, zsh is sent there for its startup files, and the
/// directory with the user's own is handed along; where it was not, nothing
/// changes.
pub open spec fn zsh_added(
    plan: PlanView,
    temp_dir: Seq<char>,
    user_zdotdir: Seq<char>,
    rc_written: bool,
) -> PlanView {
    if rc_written {
        PlanView {
            env: plan.env.push(("ZDOTDIR"@, temp_dir)).push(("USER_ZDOTDIR"@, user_zdotdir)),
            ..plan
        }
    } else {
        plan
    }
}

/// `plan` once bash has been dealt with. Where the integration script is
/// there, its path is handed along in a variable; where, on top of that, the
/// rc file was written, bash is told to read it in place of its own. Where
/// the script is missing nothing changes.
pub open spec fn bash_added(
    plan: PlanView,
    script: Seq<char>,
    script_exists: bool,
    rc_file: Seq<char>,
    rc_written: bool,
) -> PlanView {
    if !script_exists {
        plan
    } else if rc_written {
        PlanView {
            args: plan.args.push("--rcfile"@).push(rc_file),
            env: plan.env.push(("COMMAND_LINE_COOKBOOK_SHELL_INTEGRATION_SCRIPT"@, script)),
            ..plan
        }
    } else {
        PlanView {
            env: plan.env.push(("COMMAND_LINE_COOKBOOK_SHELL_INTEGRATION_SCRIPT"@, script)),
            ..plan
        }
    }
}

/// The directories in which fish looks for data, with `resource_dir` put
/// first: before `existing` where the variable was set, else before the
/// two directories that are the default.
pub open spec fn fish_data_dirs(resource_dir: Seq<char>, existing: Option<Seq<char>>) -> Seq<char> {
    resource_dir + ":"@ + match existing {
        Some(dirs) => dirs,
        None => "/usr/local/share:/usr/share"@,
    }
}

/// `plan` once fish has been dealt with. Where the directory with the
/// packaged resources was found, it is put first among the data directories;
/// where it was not, nothing changes.
pub open spec fn fish_added(
    plan: PlanView,
    resource_dir: Option<Seq<char>>,
    existing: Option<Seq<char>>,
) -> PlanView {
    match resource_dir {
        Some(dir) => PlanView {
            env: plan.env.push(("XDG_DATA_DIRS"@, fish_data_dirs(dir, existing))),
            ..plan
        },
        None => plan,
    }
}

/// Adds to `plan` what zsh needs, given whether the startup file could be
/// written into `temp_dir`.
pub fn add_zsh(plan: LaunchPlan, temp_dir: &str, user_zdotdir: &str, rc_written: bool) -> (out:
    LaunchPlan)
    ensures
        out@ == zsh_added(plan@, temp_dir@, user_zdotdir@, rc_written),
        extends(out@, plan@),
{
    if rc_written {
        proof {
            reveal_strlit("ZDOTDIR");
            reveal_strlit("USER_ZDOTDIR");
        }
        plan.with_env("ZDOTDIR", temp_dir).with_env("USER_ZDOTDIR", user_zdotdir)
    } else {
        plan
    }
}

/// Adds to `plan` what bash needs, given whether the integration script is
/// there and whether the rc file could be written.
pub fn add_bash(
    plan: LaunchPlan,
    script: &str,
    script_exists: bool,
    rc_file: &str,
    rc_written: bool,
) -> (out: LaunchPlan)
    ensures
        out@ == bash_added(plan@, script@, script_exists, rc_file@, rc_written),
        extends(out@, plan@),
{
    if !script_exists {
        return plan;
    }
    proof {
        reveal_strlit("COMMAND_LINE_COOKBOOK_SHELL_INTEGRATION_SCRIPT");
    }
    let with_script = plan.with_env("COMMAND_LINE_COOKBOOK_SHELL_INTEGRATION_SCRIPT", script);
    if rc_written {
        with_script.with_arg("--rcfile").with_arg(rc_file)
    } else {
        with_script
    }
}

/// Adds to `plan` what fish needs, given the directory with the packaged
/// resources, if it was found, and the data directories set so far, if any.
pub fn add_fish(plan: LaunchPlan, resource_dir: Option<&str>, existing: Option<&str>) -> (out:
    LaunchPlan)
    ensures
        out@ == fish_added(
            plan@,
            match resource_dir {
                Some(dir) => Some(dir@),
                None => None,
            },
            match existing {
                Some(dirs) => Some(dirs@),
                None => None,
            },
        ),
        extends(out@, plan@),
{
    match resource_dir {
        Some(dir) => {
            let mut dirs = String::from_str(dir);
            dirs.append(":");
            match existing {
                Some(set) => dirs.append(set),
                None => dirs.append("/usr/local/share:/usr/share"),
            }
            proof {
                reveal_strlit("XDG_DATA_DIRS");
            }
            plan.with_env("XDG_DATA_DIRS", dirs.as_str())
        },
        None => plan,
    }
}

/// What the host found and did for zsh.
#[derive(Debug, PartialEq, Eq)]
pub struct ZshSetup {
    /// The directory that the startup file was to be written into.
    pub temp_dir: String,
    /// The directory that holds the user's own startup files.
    pub user_zdotdir: String,
    /// Whether the startup file was written.
    pub rc_written: bool,
}

/// What the host found and did for bash.
#[derive(Debug, PartialEq, Eq)]
pub struct BashSetup {
    /// Where the packaged integration script lies.
    pub script: String,
    /// Whether it is there.
    pub script_exists: bool,
    /// Where the rc file was to be written.
    pub rc_file: String,
    /// Whether it was written.
    pub rc_written: bool,
}

/// What the host found for fish.
#[derive(Debug, PartialEq, Eq)]
pub struct FishSetup {
    /// The directory with the packaged resources, if it was found.
    pub resource_dir: Option<String>,
    /// The data directories set in the host's environment, if any.
    pub data_dirs: Option<String>,
}

/// What the host found and did for each flavor that it dealt with.
#[derive(Debug, PartialEq, Eq)]
pub struct UnixSetup {
    pub zsh: Option<ZshSetup>,
    pub bash: Option<BashSetup>,
    pub fish: Option<FishSetup>,
}

/// The text of `s`, if there is one.
pub open spec fn text_of(s: Option<String>) -> Option<Seq<char>> {
    match s {
        Some(s) => Some(s@),
        None => None,
    }
}

/// The plan for the shell at `shell` on a system other than Windows, with
/// the integration of every flavor that the path names and that the host has
/// dealt with added in the order zsh, bash, fish. What the host reports for
/// a flavor that the path does not name is left aside.
pub open spec fn unix_launch(shell: Seq<char>, setup: UnixSetup) -> PlanView {
    let base = unix_plan(shell);
    let with_zsh = match setup.zsh {
        Some(zsh) if flavor_applies(ShellFlavor::Zsh, Platform::Unix, shell) => zsh_added(
            base,
            zsh.temp_dir@,
            zsh.user_zdotdir@,
            zsh.rc_written,
        ),
        _ => base,
    };
    let with_bash = match setup.bash {
        Some(bash) if flavor_applies(ShellFlavor::Bash, Platform::Unix, shell) => bash_added(
            with_zsh,
            bash.script@,
            bash.script_exists,
            bash.rc_file@,
            bash.rc_written,
        ),
        _ => with_zsh,
    };
    match setup.fish {
        Some(fish) if flavor_applies(ShellFlavor::Fish, Platform::Unix, shell) => fish_added(
            with_bash,
            text_of(fish.resource_dir),
            text_of(fish.data_dirs),
        ),
        _ => with_bash,
    }
}

/// The text in `s`, if there is one.
fn as_text(s: &Option<String>) -> (t: Option<&str>)
    ensures
        match t {
            Some(t) => text_of(*s) == Some(t@),
            None => text_of(*s) is None,
        },
{
    match s {
        Some(s) => Some(s.as_str()),
        None => None,
    }
}

/// The plan for the shell at `shell` on a system other than Windows, given
/// what the host found and did. Whatever that was, the shell is started, with
/// the terminal type and the mark of this terminal set.
pub fn prepare_unix(shell: &str, setup: &UnixSetup) -> (plan: LaunchPlan)
    ensures
        plan@ == unix_launch(shell@, *setup),
        extends(plan@, unix_plan(shell@)),
{
    let mut plan = plan_unix(shell);
    if applies(ShellFlavor::Zsh, Platform::Unix, shell) {
        match &setup.zsh {
            Some(zsh) => {
                plan = add_zsh(plan, zsh.temp_dir.as_str(), zsh.user_zdotdir.as_str(), zsh.rc_written);
            },
            None => {},
        }
    }
    if applies(ShellFlavor::Bash, Platform::Unix, shell) {
        match &setup.bash {
            Some(bash) => {
                plan = add_bash(
                    plan,
                    bash.script.as_str(),
                    bash.script_exists,
                    bash.rc_file.as_str(),
                    bash.rc_written,
                );
            },
            None => {},
        }
    }
    if applies(ShellFlavor::Fish, Platform::Unix, shell) {
        match &setup.fish {
            Some(fish) => {
                plan = add_fish(plan, as_text(&fish.resource_dir), as_text(&fish.data_dirs));
            },
            None => {},
        }
    }
    plan
}

/// The startup file that is written for zsh. It sets the two directories,
/// reads the user's own startup file from `user_zdotdir` if there is one, and
/// then the integration script at `script` if there is one.
pub open spec fn zshrc_text(user_zdotdir: Seq<char>, temp_dir: Seq<char>, script: Seq<char>) -> Seq<
    char,
> {
    "# Command Line Cookbook temporary zshrc\nUSER_ZDOTDIR='"@ + user_zdotdir + "'\nZDOTDIR='"@
        + temp_dir
        + "'\n\n# Source user's original .zshrc if it exists\nif [[ -f \"$USER_ZDOTDIR/.zshrc\" ]]; then\nsource \"$USER_ZDOTDIR/.zshrc\"\nfi\n\n# Load Command Line Cookbook shell integration\nif [[ -f '"@
        + script + "' ]]; then\nsource '"@ + script + "'\nfi\n"@
}

/// The rc file that is written for bash, to stand at `rc_file`. It reads the
/// user's own rc file unless that is this very file, and then the integration
/// script, if the shell runs in this terminal and the variable names one.
pub open spec fn bashrc_text(rc_file: Seq<char>) -> Seq<char> {
    "# Command Line Cookbook bash integration loader\n# Load user's bashrc first if it exists\nif [[ -f \"$HOME/.bashrc\" && \"$HOME/.bashrc\" != \""@
        + rc_file
        + "\" ]]; then\nsource \"$HOME/.bashrc\"\nfi\n\n# Load Command Line Cookbook shell integration if running in our terminal\nif [[ \"$TERM_PROGRAM\" == \"command-line-cookbook\" && -n \"$COMMAND_LINE_COOKBOOK_SHELL_INTEGRATION_SCRIPT\" ]]; then\nsource \"$COMMAND_LINE_COOKBOOK_SHELL_INTEGRATION_SCRIPT\"\nfi\n"@
}

/// The integration script as it is written out for PowerShell: each line
/// ends in a carriage return and a line feed, and one more such pair comes
/// last, so that the last statement runs.
pub open spec fn powershell_script_text(script: Seq<char>) -> Seq<char> {
    crlf(script) + "\r\n"@
}

/// The line written to PowerShell after it has started, which runs the
/// script at `script_file`.
pub open spec fn source_command_text(script_file: Seq<char>) -> Seq<char> {
    "& '"@ + script_file + "'\r\n"@
}

/// The startup file that is written for zsh.
pub fn zshrc(user_zdotdir: &str, temp_dir: &str, script: &str) -> (text: String)
    ensures
        text@ == zshrc_text(user_zdotdir@, temp_dir@, script@),
{
    let mut text = String::from_str("# Command Line Cookbook temporary zshrc\nUSER_ZDOTDIR='");
    text.append(user_zdotdir);
    text.append("'\nZDOTDIR='");
    text.append(temp_dir);
    text.append(
        "'\n\n# Source user's original .zshrc if it exists\nif [[ -f \"$USER_ZDOTDIR/.zshrc\" ]]; then\nsource \"$USER_ZDOTDIR/.zshrc\"\nfi\n\n# Load Command Line Cookbook shell integration\nif [[ -f '",
    );
    text.append(script);
    text.append("' ]]; then\nsource '");
    text.append(script);
    text.append("'\nfi\n");
    text
}

/// The rc file that is written for bash, to stand at `rc_file`.
pub fn bashrc(rc_file: &str) -> (text: String)
    ensures
        text@ == bashrc_text(rc_file@),
{
    let mut text = String::from_str(
        "# Command Line Cookbook bash integration loader\n# Load user's bashrc first if it exists\nif [[ -f \"$HOME/.bashrc\" && \"$HOME/.bashrc\" != \"",
    );
    text.append(rc_file);
    text.append(
        "\" ]]; then\nsource \"$HOME/.bashrc\"\nfi\n\n# Load Command Line Cookbook shell integration if running in our terminal\nif [[ \"$TERM_PROGRAM\" == \"command-line-cookbook\" && -n \"$COMMAND_LINE_COOKBOOK_SHELL_INTEGRATION_SCRIPT\" ]]; then\nsource \"$COMMAND_LINE_COOKBOOK_SHELL_INTEGRATION_SCRIPT\"\nfi\n",
    );
    text
}

/// The integration script as it is written out for PowerShell.
pub fn powershell_script(script: &str) -> (text: String)
    ensures
        text@ == powershell_script_text(script@),
{
    let mut text = to_crlf(script);
    text.append("\r\n");
    text
}

/// The line that runs the script at `script_file` in PowerShell.
pub fn source_command(script_file: &str) -> (text: String)
    ensures
        text@ == source_command_text(script_file@),
{
    let mut text = String::from_str("& '");
    text.append(script_file);
    text.append("'\r\n");
    text
}

/// How long the host waits, in milliseconds, after PowerShell was spawned
/// and before it writes the line that runs the script. PowerShell gives no
/// sign of being ready, so the wait is a guess.
pub fn source_delay_millis() -> (millis: u64)
    ensures
        millis == 100,
{
    100
}

/// The name of the copy of the script that PowerShell is told to run once it
/// has started. It lies beside the profile.
pub fn powershell_script_copy() -> (name: &'static str)
    ensures
        name@ == "integration.ps1"@,
{
    "integration.ps1"
}

/// Why a shell could not be created.
#[derive(Debug, PartialEq, Eq)]
pub enum SpawnError {
    /// The PowerShell integration script could not be read.
    ScriptNotLoaded(String),
    /// The PowerShell profile could not be written.
    ProfileNotWritten(String),
    /// The copy of the PowerShell integration script could not be written.
    ScriptNotWritten(String),
    /// A packaged resource was not found, or the shell did not start. What
    /// went wrong is reported as it was received.
    Other(String),
}

impl SpawnError {
    /// The text that reports this error: what failed, then the detail.
    pub open spec fn message_text(self) -> Seq<char> {
        match self {
            SpawnError::ScriptNotLoaded(detail) => "Failed to load PowerShell integration script: "@
                + detail@,
            SpawnError::ProfileNotWritten(detail) => "Failed to write PowerShell profile: "@
                + detail@,
            SpawnError::ScriptNotWritten(detail) =>
                "Failed to write PowerShell integration script: "@ + detail@,
            SpawnError::Other(detail) => detail@,
        }
    }

    /// The text that reports this error.
    pub fn message(&self) -> (m: String)
        ensures
            m@ == self.message_text(),
    {
        match self {
            SpawnError::ScriptNotLoaded(detail) => {
                let mut m = String::from_str("Failed to load PowerShell integration script: ");
                m.append(detail.as_str());
                m
            },
            SpawnError::ProfileNotWritten(detail) => {
                let mut m = String::from_str("Failed to write PowerShell profile: ");
                m.append(detail.as_str());
                m
            },
            SpawnError::ScriptNotWritten(detail) => {
                let mut m = String::from_str("Failed to write PowerShell integration script: ");
                m.append(detail.as_str());
                m
            },
            SpawnError::Other(detail) => String::from_str(detail.as_str()),
        }
    }
}

} // verus!
