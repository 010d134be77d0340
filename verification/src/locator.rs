//! Finding out whether a binary is installed: what to ask the system, and
//! what its answer means. Asking is left to the caller.

use vstd::prelude::*;
use crate::platform::Platform;
use crate::sanitize::{sanitize_binary_name, sanitized};

verus! {

/// The command that resolves a name against the search path: `where` on
/// Windows, `which` elsewhere.
pub open spec fn resolver_text(platform: Platform) -> Seq<char> {
    match platform {
        Platform::Windows => "where"@,
        Platform::Unix => "which"@,
    }
}

/// The command that resolves a name against the search path.
pub fn resolver(platform: Platform) -> (program: &'static str)
    ensures
        program@ == resolver_text(platform),
{
    match platform {
        Platform::Windows => "where",
        Platform::Unix => "which",
    }
}

/// One question to the system: a program and the single argument it is run
/// with.
#[derive(Debug, PartialEq, Eq)]
pub struct Probe {
    pub program: String,
    pub argument: String,
}

/// How the question ended.
#[derive(Clone, Copy, Debug, PartialEq, Eq, Structural)]
pub enum ProbeOutcome {
    /// The resolver could not be run at all.
    NotRun,
    /// The resolver ran. `success` says whether it reported success when it
    /// ended, `output_len` how many bytes it wrote to its standard output.
    Ran { success: bool, output_len: usize },
}

/// The question to ask about `binary_name`. The name is sanitized first. A
/// name that is refused gives no question but the text that says why, so
/// that nothing is ever run with it; an accepted name is the whole argument.
pub fn probe_for(binary_name: &str, platform: Platform) -> (r: Result<Probe, String>)
    ensures
        match sanitized(binary_name@) {
            Ok(name) => r matches Ok(probe) && probe.program@ == resolver_text(platform)
                && probe.argument@ == name,
            Err(e) => r matches Err(m) && m@ == e.message_text(),
        },
{
    match sanitize_binary_name(binary_name) {
        Ok(name) => Ok(Probe { program: String::from_str(resolver(platform)), argument: name }),
        Err(m) => Err(m),
    }
}

/// What the outcome says: the binary is there if the resolver ran, reported
/// success and wrote something. A resolver that could not be run counts as
/// the binary not being there.
pub open spec fn found(outcome: ProbeOutcome) -> bool {
    match outcome {
        ProbeOutcome::NotRun => false,
        ProbeOutcome::Ran { success, output_len } => success && output_len > 0,
    }
}

/// Whether the outcome says that the binary is there.
pub fn binary_found(outcome: ProbeOutcome) -> (r: bool)
    ensures
        r == found(outcome),
{
    match outcome {
        ProbeOutcome::NotRun => false,
        ProbeOutcome::Ran { success, output_len } => success && output_len > 0,
    }
}

} // verus!
