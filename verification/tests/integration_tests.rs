use command_line_cookbook_lib::flavor::{applies, flavors_for, login_shell, ShellFlavor};
use command_line_cookbook_lib::integration::{
    add_bash, add_fish, add_zsh, bashrc, plan_powershell, plan_unix, powershell_script,
    powershell_script_copy, prepare_unix, source_command, source_delay_millis, user_zdotdir,
    zshrc, BashSetup, FishSetup, SpawnError, UnixSetup, ZshSetup,
};
use command_line_cookbook_lib::plan::{EnvVar, LaunchPlan};
use command_line_cookbook_lib::platform::Platform;

fn var(name: &str, value: &str) -> EnvVar {
    EnvVar { name: name.to_string(), value: value.to_string() }
}

fn args_of(plan: &LaunchPlan) -> Vec<String> {
    plan.args().iter().map(|a| a.to_string()).collect()
}

fn env_of(plan: &LaunchPlan) -> Vec<(String, String)> {
    plan.env().iter().map(|v| (v.name.clone(), v.value.clone())).collect()
}

fn pair(name: &str, value: &str) -> (String, String) {
    (name.to_string(), value.to_string())
}

const ALL_FLAVORS: [ShellFlavor; 5] = [
    ShellFlavor::PowerShell,
    ShellFlavor::Zsh,
    ShellFlavor::Bash,
    ShellFlavor::Fish,
    ShellFlavor::GenericPosix,
];

#[test]
fn windows_is_powershell_whatever_the_path() {
    for shell in ["", "/bin/zsh", "C:\\bash.exe", "fish"] {
        for flavor in ALL_FLAVORS {
            assert_eq!(
                applies(flavor, Platform::Windows, shell),
                flavor == ShellFlavor::PowerShell
            );
        }
    }
}

#[test]
fn the_flavor_is_told_by_the_name_in_the_path() {
    assert!(applies(ShellFlavor::Zsh, Platform::Unix, "/bin/zsh"));
    assert!(applies(ShellFlavor::Zsh, Platform::Unix, "/opt/homebrew/bin/zsh-5.9"));
    assert!(applies(ShellFlavor::Bash, Platform::Unix, "/bin/bash"));
    assert!(applies(ShellFlavor::Bash, Platform::Unix, "/usr/bin/rbash"));
    assert!(applies(ShellFlavor::Fish, Platform::Unix, "/usr/local/bin/fish"));
    assert!(!applies(ShellFlavor::Zsh, Platform::Unix, "/bin/bash"));
    assert!(!applies(ShellFlavor::Bash, Platform::Unix, "/bin/zsh"));
    assert!(!applies(ShellFlavor::Fish, Platform::Unix, "/bin/sh"));
    assert!(!applies(ShellFlavor::PowerShell, Platform::Unix, "/usr/bin/pwsh"));
}

#[test]
fn a_path_without_a_known_name_is_generic() {
    for shell in ["/bin/sh", "/bin/dash", "/usr/bin/ksh", "", "/bin/ZSH"] {
        assert!(applies(ShellFlavor::GenericPosix, Platform::Unix, shell), "{:?}", shell);
        assert!(!applies(ShellFlavor::Zsh, Platform::Unix, shell));
        assert!(!applies(ShellFlavor::Bash, Platform::Unix, shell));
        assert!(!applies(ShellFlavor::Fish, Platform::Unix, shell));
    }
    assert!(!applies(ShellFlavor::GenericPosix, Platform::Unix, "/bin/bash"));
}

#[test]
fn a_path_with_two_names_gets_both() {
    let shell = "/home/fisher/bin/zsh";
    assert!(applies(ShellFlavor::Zsh, Platform::Unix, shell));
    assert!(applies(ShellFlavor::Fish, Platform::Unix, shell));
    assert!(!applies(ShellFlavor::Bash, Platform::Unix, shell));
    assert!(!applies(ShellFlavor::GenericPosix, Platform::Unix, shell));
}

#[test]
fn some_flavor_always_applies() {
    for platform in [Platform::Windows, Platform::Unix] {
        for shell in ["", "/bin/sh", "/bin/zsh", "/bin/bash", "/bin/fish", "/zsh/bash/fish"] {
            assert!(ALL_FLAVORS.iter().any(|f| applies(*f, platform, shell)));
        }
    }
}

#[test]
fn flavors_come_in_their_order() {
    assert_eq!(flavors_for(Platform::Unix, "/bin/zsh"), vec![ShellFlavor::Zsh]);
    assert_eq!(flavors_for(Platform::Unix, "/bin/bash"), vec![ShellFlavor::Bash]);
    assert_eq!(flavors_for(Platform::Unix, "/usr/bin/fish"), vec![ShellFlavor::Fish]);
    assert_eq!(flavors_for(Platform::Unix, "/bin/sh"), vec![ShellFlavor::GenericPosix]);
    assert_eq!(flavors_for(Platform::Unix, ""), vec![ShellFlavor::GenericPosix]);
    assert_eq!(
        flavors_for(Platform::Unix, "/fish/bash/zsh"),
        vec![ShellFlavor::Zsh, ShellFlavor::Bash, ShellFlavor::Fish]
    );
    assert_eq!(
        flavors_for(Platform::Unix, "/home/fisher/bin/bash"),
        vec![ShellFlavor::Bash, ShellFlavor::Fish]
    );
    assert_eq!(flavors_for(Platform::Windows, "/bin/zsh"), vec![ShellFlavor::PowerShell]);
    assert_eq!(flavors_for(Platform::Windows, ""), vec![ShellFlavor::PowerShell]);
}

#[test]
fn flavors_are_those_that_apply() {
    for platform in [Platform::Windows, Platform::Unix] {
        for shell in ["", "/bin/sh", "/bin/zsh", "/bin/bash", "/bin/fish", "/zsh/bash", "zshfish"] {
            let flavors = flavors_for(platform, shell);
            for flavor in ALL_FLAVORS {
                assert_eq!(flavors.contains(&flavor), applies(flavor, platform, shell));
            }
        }
    }
}

#[test]
fn powershell_is_given_a_tenth_of_a_second() {
    assert_eq!(source_delay_millis(), 100);
}

#[test]
fn login_shell_falls_back_to_bash() {
    assert_eq!(login_shell(Some("/bin/zsh")), "/bin/zsh");
    assert_eq!(login_shell(Some("")), "");
    assert_eq!(login_shell(None), "/bin/bash");
}

#[test]
fn user_zdotdir_prefers_zdotdir_then_home_then_root() {
    assert_eq!(user_zdotdir(Some("/z"), Some("/home/u")), "/z");
    assert_eq!(user_zdotdir(Some("/z"), None), "/z");
    assert_eq!(user_zdotdir(None, Some("/home/u")), "/home/u");
    assert_eq!(user_zdotdir(None, None), "/");
}

#[test]
fn unix_plan_runs_the_shell_with_term_set() {
    let plan = plan_unix("/bin/zsh");
    assert_eq!(plan.program(), "/bin/zsh");
    assert_eq!(args_of(&plan), Vec::<String>::new());
    assert_eq!(
        plan.env(),
        &vec![var("TERM", "xterm-256color"), var("TERM_PROGRAM", "command-line-cookbook")]
    );
}

#[test]
fn powershell_plan_points_the_profile_at_the_temp_dir() {
    let plan = plan_powershell("C:\\Temp\\command-line-cookbook-powershell");
    assert_eq!(plan.program(), "powershell.exe");
    assert_eq!(args_of(&plan), vec!["-NoLogo".to_string()]);
    assert_eq!(
        env_of(&plan),
        vec![
            pair("USERPROFILE", "C:\\Temp\\command-line-cookbook-powershell"),
            pair("TERM", "cygwin"),
            pair("TERM_PROGRAM", "command-line-cookbook"),
        ]
    );
}

#[test]
fn zsh_redirects_when_the_startup_file_was_written() {
    let plan = add_zsh(plan_unix("/bin/zsh"), "/tmp/command-line-cookbook-zsh", "/home/u", true);
    assert_eq!(plan.program(), "/bin/zsh");
    assert_eq!(args_of(&plan), Vec::<String>::new());
    assert_eq!(
        env_of(&plan),
        vec![
            pair("TERM", "xterm-256color"),
            pair("TERM_PROGRAM", "command-line-cookbook"),
            pair("ZDOTDIR", "/tmp/command-line-cookbook-zsh"),
            pair("USER_ZDOTDIR", "/home/u"),
        ]
    );
}

#[test]
fn zsh_is_left_alone_when_the_write_failed() {
    let plan = add_zsh(plan_unix("/bin/zsh"), "/tmp/command-line-cookbook-zsh", "/home/u", false);
    assert_eq!(plan.program(), "/bin/zsh");
    assert_eq!(args_of(&plan), Vec::<String>::new());
    assert_eq!(env_of(&plan), env_of(&plan_unix("/bin/zsh")));
}

#[test]
fn bash_gets_the_script_and_the_rc_file() {
    let plan = add_bash(
        plan_unix("/bin/bash"),
        "/res/shell_integration/bash.sh",
        true,
        "/tmp/command-line-cookbook-bash/bashrc",
        true,
    );
    assert_eq!(plan.program(), "/bin/bash");
    assert_eq!(
        args_of(&plan),
        vec!["--rcfile".to_string(), "/tmp/command-line-cookbook-bash/bashrc".to_string()]
    );
    assert_eq!(
        env_of(&plan),
        vec![
            pair("TERM", "xterm-256color"),
            pair("TERM_PROGRAM", "command-line-cookbook"),
            pair("COMMAND_LINE_COOKBOOK_SHELL_INTEGRATION_SCRIPT", "/res/shell_integration/bash.sh"),
        ]
    );
}

#[test]
fn bash_gets_no_rc_file_when_the_write_failed() {
    let plan = add_bash(plan_unix("/bin/bash"), "/res/bash.sh", true, "/tmp/x/bashrc", false);
    assert_eq!(args_of(&plan), Vec::<String>::new());
    assert_eq!(
        env_of(&plan),
        vec![
            pair("TERM", "xterm-256color"),
            pair("TERM_PROGRAM", "command-line-cookbook"),
            pair("COMMAND_LINE_COOKBOOK_SHELL_INTEGRATION_SCRIPT", "/res/bash.sh"),
        ]
    );
}

#[test]
fn bash_is_left_alone_when_the_script_is_missing() {
    for rc_written in [false, true] {
        let plan =
            add_bash(plan_unix("/bin/bash"), "/res/bash.sh", false, "/tmp/x/bashrc", rc_written);
        assert_eq!(plan.program(), "/bin/bash");
        assert_eq!(args_of(&plan), Vec::<String>::new());
        assert_eq!(env_of(&plan), env_of(&plan_unix("/bin/bash")));
    }
}

#[test]
fn fish_puts_the_resources_first() {
    let plan = add_fish(plan_unix("/usr/bin/fish"), Some("/app/shell_integration"), Some("/a:/b"));
    assert_eq!(
        env_of(&plan),
        vec![
            pair("TERM", "xterm-256color"),
            pair("TERM_PROGRAM", "command-line-cookbook"),
            pair("XDG_DATA_DIRS", "/app/shell_integration:/a:/b"),
        ]
    );
    assert_eq!(args_of(&plan), Vec::<String>::new());
}

#[test]
fn fish_uses_the_default_directories_when_none_are_set() {
    let plan = add_fish(plan_unix("/usr/bin/fish"), Some("/app/shell_integration"), None);
    assert_eq!(
        env_of(&plan)[2],
        pair("XDG_DATA_DIRS", "/app/shell_integration:/usr/local/share:/usr/share")
    );
}

#[test]
fn fish_is_left_alone_when_the_resources_are_not_found() {
    for existing in [None, Some("/a:/b")] {
        let plan = add_fish(plan_unix("/usr/bin/fish"), None, existing);
        assert_eq!(plan.program(), "/usr/bin/fish");
        assert_eq!(env_of(&plan), env_of(&plan_unix("/usr/bin/fish")));
    }
}

#[test]
fn steps_add_up_in_order() {
    let shell = "/opt/zsh/bash/fish";
    let plan = plan_unix(shell);
    let plan = add_zsh(plan, "/t/z", "/home/u", true);
    let plan = add_bash(plan, "/r/bash.sh", true, "/t/b/bashrc", true);
    let plan = add_fish(plan, Some("/r"), None);
    assert_eq!(plan.program(), shell);
    assert_eq!(args_of(&plan), vec!["--rcfile".to_string(), "/t/b/bashrc".to_string()]);
    assert_eq!(
        env_of(&plan),
        vec![
            pair("TERM", "xterm-256color"),
            pair("TERM_PROGRAM", "command-line-cookbook"),
            pair("ZDOTDIR", "/t/z"),
            pair("USER_ZDOTDIR", "/home/u"),
            pair("COMMAND_LINE_COOKBOOK_SHELL_INTEGRATION_SCRIPT", "/r/bash.sh"),
            pair("XDG_DATA_DIRS", "/r:/usr/local/share:/usr/share"),
        ]
    );
}

fn zsh_setup(rc_written: bool) -> ZshSetup {
    ZshSetup { temp_dir: "/t/z".to_string(), user_zdotdir: "/home/u".to_string(), rc_written }
}

fn bash_setup(script_exists: bool, rc_written: bool) -> BashSetup {
    BashSetup {
        script: "/r/bash.sh".to_string(),
        script_exists,
        rc_file: "/t/b/bashrc".to_string(),
        rc_written,
    }
}

fn fish_setup(found: bool) -> FishSetup {
    FishSetup { resource_dir: if found { Some("/r".to_string()) } else { None }, data_dirs: None }
}

#[test]
fn prepare_adds_what_the_path_names() {
    let setup =
        UnixSetup { zsh: Some(zsh_setup(true)), bash: None, fish: None };
    let plan = prepare_unix("/bin/zsh", &setup);
    assert_eq!(plan.program(), "/bin/zsh");
    assert_eq!(args_of(&plan), Vec::<String>::new());
    assert_eq!(
        env_of(&plan),
        vec![
            pair("TERM", "xterm-256color"),
            pair("TERM_PROGRAM", "command-line-cookbook"),
            pair("ZDOTDIR", "/t/z"),
            pair("USER_ZDOTDIR", "/home/u"),
        ]
    );
}

#[test]
fn prepare_leaves_aside_what_the_path_does_not_name() {
    let setup = UnixSetup {
        zsh: Some(zsh_setup(true)),
        bash: Some(bash_setup(true, true)),
        fish: Some(fish_setup(true)),
    };
    let plan = prepare_unix("/bin/sh", &setup);
    assert_eq!(plan.program(), "/bin/sh");
    assert_eq!(args_of(&plan), Vec::<String>::new());
    assert_eq!(env_of(&plan), env_of(&plan_unix("/bin/sh")));

    let plan = prepare_unix("/bin/bash", &setup);
    assert_eq!(args_of(&plan), vec!["--rcfile".to_string(), "/t/b/bashrc".to_string()]);
    assert_eq!(
        env_of(&plan),
        vec![
            pair("TERM", "xterm-256color"),
            pair("TERM_PROGRAM", "command-line-cookbook"),
            pair("COMMAND_LINE_COOKBOOK_SHELL_INTEGRATION_SCRIPT", "/r/bash.sh"),
        ]
    );
}

#[test]
fn prepare_deals_with_every_name_in_order() {
    let setup = UnixSetup {
        zsh: Some(zsh_setup(true)),
        bash: Some(bash_setup(true, true)),
        fish: Some(fish_setup(true)),
    };
    let plan = prepare_unix("/opt/fish/bash/zsh", &setup);
    assert_eq!(plan.program(), "/opt/fish/bash/zsh");
    assert_eq!(args_of(&plan), vec!["--rcfile".to_string(), "/t/b/bashrc".to_string()]);
    assert_eq!(
        env_of(&plan),
        vec![
            pair("TERM", "xterm-256color"),
            pair("TERM_PROGRAM", "command-line-cookbook"),
            pair("ZDOTDIR", "/t/z"),
            pair("USER_ZDOTDIR", "/home/u"),
            pair("COMMAND_LINE_COOKBOOK_SHELL_INTEGRATION_SCRIPT", "/r/bash.sh"),
            pair("XDG_DATA_DIRS", "/r:/usr/local/share:/usr/share"),
        ]
    );
}

#[test]
fn prepare_still_starts_the_shell_when_setup_failed() {
    let failed = UnixSetup {
        zsh: Some(zsh_setup(false)),
        bash: Some(bash_setup(false, false)),
        fish: Some(fish_setup(false)),
    };
    let nothing = UnixSetup { zsh: None, bash: None, fish: None };
    for shell in ["/bin/zsh", "/bin/bash", "/usr/bin/fish", "/zsh/bash/fish", "/bin/sh"] {
        for setup in [&failed, &nothing] {
            let plan = prepare_unix(shell, setup);
            assert_eq!(plan.program(), shell);
            assert_eq!(args_of(&plan), Vec::<String>::new());
            assert_eq!(env_of(&plan), env_of(&plan_unix(shell)));
        }
    }
}

#[test]
fn zshrc_reads_the_users_file_and_then_the_script() {
    let user_zdotdir = "/home/u";
    let temp_dir = "/tmp/command-line-cookbook-zsh";
    let script = "/res/shell_integration/zsh.sh";
    let expected = format!(
        "# Command Line Cookbook temporary zshrc\n\
            USER_ZDOTDIR='{}'\n\
            ZDOTDIR='{}'\n\
            \n\
            # Source user's original .zshrc if it exists\n\
            if [[ -f \"$USER_ZDOTDIR/.zshrc\" ]]; then\n\
                source \"$USER_ZDOTDIR/.zshrc\"\n\
            fi\n\
            \n\
            # Load Command Line Cookbook shell integration\n\
            if [[ -f '{}' ]]; then\n\
                source '{}'\n\
            fi\n",
        user_zdotdir, temp_dir, script, script
    );
    assert_eq!(zshrc(user_zdotdir, temp_dir, script), expected);
}

#[test]
fn zshrc_in_full() {
    assert_eq!(
        zshrc("/u", "/t", "/s"),
        "# Command Line Cookbook temporary zshrc\nUSER_ZDOTDIR='/u'\nZDOTDIR='/t'\n\n# Source user's original .zshrc if it exists\nif [[ -f \"$USER_ZDOTDIR/.zshrc\" ]]; then\nsource \"$USER_ZDOTDIR/.zshrc\"\nfi\n\n# Load Command Line Cookbook shell integration\nif [[ -f '/s' ]]; then\nsource '/s'\nfi\n"
    );
}

#[test]
fn bashrc_reads_the_users_file_unless_it_is_this_one() {
    let rc_file = "/tmp/command-line-cookbook-bash/bashrc";
    let expected = format!(
        "# Command Line Cookbook bash integration loader\n\
        # Load user's bashrc first if it exists\n\
        if [[ -f \"$HOME/.bashrc\" && \"$HOME/.bashrc\" != \"{}\" ]]; then\n\
            source \"$HOME/.bashrc\"\n\
        fi\n\
        \n\
        # Load Command Line Cookbook shell integration if running in our terminal\n\
        if [[ \"$TERM_PROGRAM\" == \"command-line-cookbook\" && -n \"$COMMAND_LINE_COOKBOOK_SHELL_INTEGRATION_SCRIPT\" ]]; then\n\
            source \"$COMMAND_LINE_COOKBOOK_SHELL_INTEGRATION_SCRIPT\"\n\
        fi\n",
        rc_file
    );
    assert_eq!(bashrc(rc_file), expected);
}

#[test]
fn bashrc_in_full() {
    assert_eq!(
        bashrc("/t/bashrc"),
        "# Command Line Cookbook bash integration loader\n# Load user's bashrc first if it exists\nif [[ -f \"$HOME/.bashrc\" && \"$HOME/.bashrc\" != \"/t/bashrc\" ]]; then\nsource \"$HOME/.bashrc\"\nfi\n\n# Load Command Line Cookbook shell integration if running in our terminal\nif [[ \"$TERM_PROGRAM\" == \"command-line-cookbook\" && -n \"$COMMAND_LINE_COOKBOOK_SHELL_INTEGRATION_SCRIPT\" ]]; then\nsource \"$COMMAND_LINE_COOKBOOK_SHELL_INTEGRATION_SCRIPT\"\nfi\n"
    );
}

#[test]
fn powershell_script_ends_each_line_with_crlf() {
    assert_eq!(powershell_script(""), "\r\n");
    assert_eq!(powershell_script("a"), "a\r\n");
    assert_eq!(powershell_script("a\nb\n"), "a\r\nb\r\n\r\n");
    let script = "function prompt {\n  \"PS> \"\n}";
    assert_eq!(powershell_script(script), script.replace("\n", "\r\n") + "\r\n");
}

#[test]
fn source_command_runs_the_script() {
    assert_eq!(
        source_command("C:\\Temp\\command-line-cookbook-powershell\\integration.ps1"),
        "& 'C:\\Temp\\command-line-cookbook-powershell\\integration.ps1'\r\n"
    );
    assert_eq!(source_command(""), "& ''\r\n");
}

#[test]
fn names_of_what_is_written() {
    assert_eq!(ShellFlavor::PowerShell.temp_dir_name(), Some("command-line-cookbook-powershell"));
    assert_eq!(ShellFlavor::Zsh.temp_dir_name(), Some("command-line-cookbook-zsh"));
    assert_eq!(ShellFlavor::Bash.temp_dir_name(), Some("command-line-cookbook-bash"));
    assert_eq!(ShellFlavor::Fish.temp_dir_name(), None);
    assert_eq!(ShellFlavor::GenericPosix.temp_dir_name(), None);
    assert_eq!(
        ShellFlavor::PowerShell.startup_file_name(),
        Some("Microsoft.PowerShell_profile.ps1")
    );
    assert_eq!(ShellFlavor::Zsh.startup_file_name(), Some(".zshrc"));
    assert_eq!(ShellFlavor::Bash.startup_file_name(), Some("bashrc"));
    assert_eq!(ShellFlavor::Fish.startup_file_name(), None);
    assert_eq!(ShellFlavor::GenericPosix.startup_file_name(), None);
    assert_eq!(powershell_script_copy(), "integration.ps1");
}

#[test]
fn where_the_packaged_integration_lies() {
    assert_eq!(ShellFlavor::PowerShell.resource(), Some("shell_integration/powershell.ps1"));
    assert_eq!(ShellFlavor::Zsh.resource(), Some("shell_integration/zsh.sh"));
    assert_eq!(ShellFlavor::Bash.resource(), Some("shell_integration/bash.sh"));
    assert_eq!(ShellFlavor::Fish.resource(), Some("shell_integration"));
    assert_eq!(ShellFlavor::GenericPosix.resource(), None);
}

#[test]
fn spawn_errors_say_what_failed() {
    assert_eq!(
        SpawnError::ScriptNotLoaded("No such file".to_string()).message(),
        "Failed to load PowerShell integration script: No such file"
    );
    assert_eq!(
        SpawnError::ProfileNotWritten("denied".to_string()).message(),
        "Failed to write PowerShell profile: denied"
    );
    assert_eq!(
        SpawnError::ScriptNotWritten("disk full".to_string()).message(),
        "Failed to write PowerShell integration script: disk full"
    );
    assert_eq!(SpawnError::Other("no pty".to_string()).message(), "no pty");
}
