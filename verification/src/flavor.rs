//! The flavors of shell: which of them a shell path names, and what each
//! has written for it and packaged with the host.

use vstd::prelude::*;
use crate::platform::Platform;
use crate::text::{contains, occurs};

verus! {

/// The shells that have an integration, and the one that stands for all
/// others.
#[derive(Clone, Copy, Debug, PartialEq, Eq, Structural)]
pub enum ShellFlavor {
    PowerShell,
    Zsh,
    Bash,
    Fish,
    GenericPosix,
}

/// Whether the integration of `flavor` is set up for the shell at path
/// `shell` on `platform`. On Windows the shell is PowerShell whatever the
/// path. Elsewhere a flavor is told by its name standing in the path; a path
/// that holds more than one name gets each of them, and one that holds none
/// is a generic shell.
pub open spec fn flavor_applies(flavor: ShellFlavor, platform: Platform, shell: Seq<char>) -> bool {
    match flavor {
        ShellFlavor::PowerShell => platform == Platform::Windows,
        ShellFlavor::Zsh => platform == Platform::Unix && occurs(shell, "zsh"@),
        ShellFlavor::Bash => platform == Platform::Unix && occurs(shell, "bash"@),
        ShellFlavor::Fish => platform == Platform::Unix && occurs(shell, "fish"@),
        ShellFlavor::GenericPosix => platform == Platform::Unix && !occurs(shell, "zsh"@)
            && !occurs(shell, "bash"@) && !occurs(shell, "fish"@),
    }
}

/// Whether the integration of `flavor` is set up for the shell at path
/// `shell` on `platform`.
pub fn applies(flavor: ShellFlavor, platform: Platform, shell: &str) -> (r: bool)
    ensures
        r == flavor_applies(flavor, platform, shell@),
{
    match platform {
        Platform::Windows => match flavor {
            ShellFlavor::PowerShell => true,
            _ => false,
        },
        Platform::Unix => match flavor {
            ShellFlavor::PowerShell => false,
            ShellFlavor::Zsh => contains(shell, "zsh"),
            ShellFlavor::Bash => contains(shell, "bash"),
            ShellFlavor::Fish => contains(shell, "fish"),
            ShellFlavor::GenericPosix => !contains(shell, "zsh") && !contains(shell, "bash")
                && !contains(shell, "fish"),
        },
    }
}

/// The flavors whose integration is set up for the shell at `shell` on
/// `platform`, in the order in which they are dealt with: zsh, then bash,
/// then fish. Where none of the three is named, the generic flavor stands
/// alone; on Windows PowerShell does.
pub open spec fn flavors_of(platform: Platform, shell: Seq<char>) -> Seq<ShellFlavor> {
    match platform {
        Platform::Windows => seq![ShellFlavor::PowerShell],
        Platform::Unix => {
            let named = (if occurs(shell, "zsh"@) {
                seq![ShellFlavor::Zsh]
            } else {
                seq![]
            }) + (if occurs(shell, "bash"@) {
                seq![ShellFlavor::Bash]
            } else {
                seq![]
            }) + (if occurs(shell, "fish"@) {
                seq![ShellFlavor::Fish]
            } else {
                seq![]
            });
            if named.len() == 0 {
                seq![ShellFlavor::GenericPosix]
            } else {
                named
            }
        },
    }
}

/// The flavors whose integration is set up for the shell at `shell` on
/// `platform`, in the order in which they are dealt with.
pub fn flavors_for(platform: Platform, shell: &str) -> (flavors: Vec<ShellFlavor>)
    ensures
        flavors@ == flavors_of(platform, shell@),
{
    let mut flavors: Vec<ShellFlavor> = Vec::new();
    match platform {
        Platform::Windows => {
            flavors.push(ShellFlavor::PowerShell);
        },
        Platform::Unix => {
            if contains(shell, "zsh") {
                flavors.push(ShellFlavor::Zsh);
            }
            if contains(shell, "bash") {
                flavors.push(ShellFlavor::Bash);
            }
            if contains(shell, "fish") {
                flavors.push(ShellFlavor::Fish);
            }
            if flavors.len() == 0 {
                flavors.push(ShellFlavor::GenericPosix);
            }
        },
    }
    assert(flavors@ =~= flavors_of(platform, shell@));
    flavors
}

/// The flavors that are dealt with are those that apply, each once.
pub proof fn lemma_flavors_are_those_that_apply(platform: Platform, shell: Seq<char>)
    ensures
        forall|flavor: ShellFlavor|
            flavors_of(platform, shell).contains(flavor) <==> flavor_applies(
                flavor,
                platform,
                shell,
            ),
        flavors_of(platform, shell).no_duplicates(),
        1 <= flavors_of(platform, shell).len() <= 3,
{
    let flavors = flavors_of(platform, shell);
    assert forall|flavor: ShellFlavor| flavor_applies(flavor, platform, shell) implies flavors.contains(
        flavor,
    ) by {
        if platform == Platform::Unix {
            let z: int = if occurs(shell, "zsh"@) { 1 } else { 0 };
            let b: int = if occurs(shell, "bash"@) { 1 } else { 0 };
            match flavor {
                ShellFlavor::Zsh => {
                    assert(flavors[0] == flavor);
                },
                ShellFlavor::Bash => {
                    assert(flavors[z] == flavor);
                },
                ShellFlavor::Fish => {
                    assert(flavors[z + b] == flavor);
                },
                _ => {
                    assert(flavors[0] == flavor);
                },
            }
        } else {
            assert(flavors[0] == flavor);
        }
    }
}

/// On every platform and for every path some flavor applies; PowerShell
/// applies on Windows alone and then no other does; the generic flavor
/// applies only where none of the named shells does.
pub proof fn lemma_some_flavor_applies(platform: Platform, shell: Seq<char>)
    ensures
        exists|flavor: ShellFlavor| flavor_applies(flavor, platform, shell),
        platform == Platform::Windows ==> forall|flavor: ShellFlavor|
            flavor_applies(flavor, platform, shell) <==> flavor == ShellFlavor::PowerShell,
        flavor_applies(ShellFlavor::GenericPosix, platform, shell) ==> forall|flavor: ShellFlavor|
            flavor_applies(flavor, platform, shell) ==> flavor == ShellFlavor::GenericPosix,
{
    match platform {
        Platform::Windows => {
            assert(flavor_applies(ShellFlavor::PowerShell, platform, shell));
        },
        Platform::Unix => {
            if occurs(shell, "zsh"@) {
                assert(flavor_applies(ShellFlavor::Zsh, platform, shell));
            } else if occurs(shell, "bash"@) {
                assert(flavor_applies(ShellFlavor::Bash, platform, shell));
            } else if occurs(shell, "fish"@) {
                assert(flavor_applies(ShellFlavor::Fish, platform, shell));
            } else {
                assert(flavor_applies(ShellFlavor::GenericPosix, platform, shell));
            }
        },
    }
}

/// The shell to start: the one the user database names, or `/bin/bash` where
/// it names none that can be read as text.
pub fn login_shell(configured: Option<&str>) -> (shell: String)
    ensures
        shell@ == match configured {
            Some(path) => path@,
            None => "/bin/bash"@,
        },
{
    match configured {
        Some(path) => String::from_str(path),
        None => String::from_str("/bin/bash"),
    }
}

impl ShellFlavor {
    /// The name of the directory, under the system's directory for temporary
    /// files, that holds what is written for this flavor. Fish and the
    /// generic flavor have nothing written.
    pub open spec fn temp_dir_text(self) -> Option<Seq<char>> {
        match self {
            ShellFlavor::PowerShell => Some("command-line-cookbook-powershell"@),
            ShellFlavor::Zsh => Some("command-line-cookbook-zsh"@),
            ShellFlavor::Bash => Some("command-line-cookbook-bash"@),
            ShellFlavor::Fish => None,
            ShellFlavor::GenericPosix => None,
        }
    }

    /// The name, inside that directory, of the file that the shell reads
    /// when it starts.
    pub open spec fn startup_file_text(self) -> Option<Seq<char>> {
        match self {
            ShellFlavor::PowerShell => Some("Microsoft.PowerShell_profile.ps1"@),
            ShellFlavor::Zsh => Some(".zshrc"@),
            ShellFlavor::Bash => Some("bashrc"@),
            ShellFlavor::Fish => None,
            ShellFlavor::GenericPosix => None,
        }
    }

    /// Where, among the packaged resources, the integration of this flavor
    /// lies: a script, or for fish the directory under which fish finds its
    /// configuration by itself.
    pub open spec fn resource_text(self) -> Option<Seq<char>> {
        match self {
            ShellFlavor::PowerShell => Some("shell_integration/powershell.ps1"@),
            ShellFlavor::Zsh => Some("shell_integration/zsh.sh"@),
            ShellFlavor::Bash => Some("shell_integration/bash.sh"@),
            ShellFlavor::Fish => Some("shell_integration"@),
            ShellFlavor::GenericPosix => None,
        }
    }

    /// The name of the directory for what is written for this flavor.
    pub fn temp_dir_name(self) -> (name: Option<&'static str>)
        ensures
            match name {
                Some(n) => self.temp_dir_text() == Some(n@),
                None => self.temp_dir_text() is None,
            },
    {
        match self {
            ShellFlavor::PowerShell => Some("command-line-cookbook-powershell"),
            ShellFlavor::Zsh => Some("command-line-cookbook-zsh"),
            ShellFlavor::Bash => Some("command-line-cookbook-bash"),
            ShellFlavor::Fish => None,
            ShellFlavor::GenericPosix => None,
        }
    }

    /// The name of the file that the shell reads when it starts.
    pub fn startup_file_name(self) -> (name: Option<&'static str>)
        ensures
            match name {
                Some(n) => self.startup_file_text() == Some(n@),
                None => self.startup_file_text() is None,
            },
    {
        match self {
            ShellFlavor::PowerShell => Some("Microsoft.PowerShell_profile.ps1"),
            ShellFlavor::Zsh => Some(".zshrc"),
            ShellFlavor::Bash => Some("bashrc"),
            ShellFlavor::Fish => None,
            ShellFlavor::GenericPosix => None,
        }
    }

    /// Where among the packaged resources the integration of this flavor
    /// lies.
    pub fn resource(self) -> (path: Option<&'static str>)
        ensures
            match path {
                Some(p) => self.resource_text() == Some(p@),
                None => self.resource_text() is None,
            },
    {
        match self {
            ShellFlavor::PowerShell => Some("shell_integration/powershell.ps1"),
            ShellFlavor::Zsh => Some("shell_integration/zsh.sh"),
            ShellFlavor::Bash => Some("shell_integration/bash.sh"),
            ShellFlavor::Fish => Some("shell_integration"),
            ShellFlavor::GenericPosix => None,
        }
    }
}

} // verus!
