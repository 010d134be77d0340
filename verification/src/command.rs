//! From a plan to the command that the pseudo-terminal spawns.

use vstd::prelude::*;
use portable_pty::CommandBuilder;
use crate::plan::{env_name, LaunchPlan};

verus! {

/// `portable_pty::CommandBuilder`, the command as the pseudo-terminal takes
/// it. Nothing here looks inside one: what it holds is spoken of through
/// `command_argv` and `command_overrides`.
#[verifier::external_type_specification]
#[verifier::external_body]
pub struct ExCommandBuilder(portable_pty::CommandBuilder);

/// The argument vector of `cmd`, the program first, each entry read as text.
pub uninterp spec fn command_argv(cmd: CommandBuilder) -> Seq<Seq<char>>;

/// The variables that were set on `cmd` by its caller, by name. What `cmd`
/// took over from the environment of the process that made it is not among
/// them.
pub uninterp spec fn command_overrides(cmd: CommandBuilder) -> Map<Seq<char>, Seq<char>>;

/// No variable at all.
pub open spec fn nothing_set() -> Map<Seq<char>, Seq<char>> {
    Map::empty()
}

/// Every variable set on `cmd` has a name of upper-case ASCII letters, digits
/// and `_` alone.
pub open spec fn plain_overrides(cmd: CommandBuilder) -> bool {
    forall|k: Seq<char>| #[trigger] command_overrides(cmd).contains_key(k) ==> env_name(k)
}

/// Calls `CommandBuilder::new`: the argument vector is the program alone, and
/// every variable the builder holds is marked as taken from the environment,
/// so none counts as set.
#[verifier::external_body]
fn command_new(program: &str) -> (cmd: CommandBuilder)
    ensures
        command_argv(cmd) == seq![program@],
        command_overrides(cmd) == nothing_set(),
{
    CommandBuilder::new(program)
}

/// Calls `CommandBuilder::arg`, which appends to the argument vector and
/// panics on a builder without a program.
#[verifier::external_body]
fn command_arg(cmd: &mut CommandBuilder, arg: &str)
    requires
        command_argv(*old(cmd)).len() > 0,
    ensures
        command_argv(*final(cmd)) == command_argv(*old(cmd)).push(arg@),
        command_overrides(*final(cmd)) == command_overrides(*old(cmd)),
{
    cmd.arg(arg)
}

/// Calls `CommandBuilder::env`, which stores the variable under its name and
/// replaces what was stored under that name. On Windows the builder finds a
/// variable by its name in lower case; names of upper-case ASCII letters,
/// digits and `_` that differ stay apart there too, which is why only such
/// names are admitted.
#[verifier::external_body]
fn command_env(cmd: &mut CommandBuilder, name: &str, value: &str)
    requires
        env_name(name@),
        plain_overrides(*old(cmd)),
    ensures
        command_argv(*final(cmd)) == command_argv(*old(cmd)),
        command_overrides(*final(cmd)) == command_overrides(*old(cmd)).insert(name@, value@),
{
    cmd.env(name, value)
}

/// The variables that `env` sets when its entries are applied in order: a
/// later entry replaces an earlier one of the same name.
pub open spec fn overrides_of(env: Seq<(Seq<char>, Seq<char>)>) -> Map<Seq<char>, Seq<char>>
    decreases env.len(),
{
    if env.len() == 0 {
        Map::empty()
    } else {
        overrides_of(env.drop_last()).insert(env.last().0, env.last().1)
    }
}

/// A name is set by `env` exactly when some entry has it, and its value is
/// that of the last entry that has it.
pub proof fn lemma_last_entry_wins(env: Seq<(Seq<char>, Seq<char>)>, name: Seq<char>)
    ensures
        overrides_of(env).contains_key(name) <==> exists|i: int|
            0 <= i < env.len() && (#[trigger] env[i]).0 == name,
        forall|i: int|
            0 <= i < env.len() && (#[trigger] env[i]).0 == name && (forall|j: int|
                i < j < env.len() ==> (#[trigger] env[j]).0 != name) ==> overrides_of(env)[name]
                == env[i].1,
    decreases env.len(),
{
    if env.len() > 0 {
        let front = env.drop_last();
        lemma_last_entry_wins(front, name);
        if env.last().0 == name {
            assert(env[env.len() - 1].0 == name);
        } else {
            if overrides_of(env).contains_key(name) {
                let i = choose|i: int| 0 <= i < front.len() && (#[trigger] front[i]).0 == name;
                assert(env[i].0 == name);
            }
            if exists|i: int| 0 <= i < env.len() && (#[trigger] env[i]).0 == name {
                let i = choose|i: int| 0 <= i < env.len() && (#[trigger] env[i]).0 == name;
                assert(front[i].0 == name);
            }
        }
        assert forall|i: int|
            0 <= i < env.len() && (#[trigger] env[i]).0 == name && (forall|j: int|
                i < j < env.len() ==> (#[trigger] env[j]).0 != name) implies overrides_of(
            env,
        )[name] == env[i].1 by {
            if i < env.len() - 1 {
                assert(env[env.len() - 1].0 != name);
                assert(front[i] == env[i]);
                assert forall|j: int| i < j < front.len() implies (#[trigger] front[j]).0
                    != name by {
                    assert(front[j] == env[j]);
                }
            }
        }
    }
}

/// The command that `plan` describes: its program and arguments as the
/// argument vector, and its variables set on top of the inherited
/// environment.
pub fn build_command(plan: &LaunchPlan) -> (cmd: CommandBuilder)
    ensures
        command_argv(cmd) == seq![plan@.program] + plan@.args,
        command_overrides(cmd) == overrides_of(plan@.env),
{
    let mut cmd = command_new(plan.program());
    let args = plan.args();
    let mut i: usize = 0;
    while i < args.len()
        invariant
            i <= args@.len(),
            args@.len() == plan@.args.len(),
            forall|j: int| 0 <= j < args@.len() ==> (#[trigger] args@[j])@ == plan@.args[j],
            command_argv(cmd) == seq![plan@.program] + plan@.args.take(i as int),
            command_overrides(cmd) == nothing_set(),
        decreases args@.len() - i,
    {
        command_arg(&mut cmd, args[i].as_str());
        assert(plan@.args.take(i + 1) =~= plan@.args.take(i as int).push(plan@.args[i as int]));
        assert(seq![plan@.program] + plan@.args.take(i + 1) =~= (seq![plan@.program]
            + plan@.args.take(i as int)).push(plan@.args[i as int]));
        i = i + 1;
    }
    assert(plan@.args.take(i as int) =~= plan@.args);
    let env = plan.env();
    let mut k: usize = 0;
    assert(plan@.env.take(0) =~= Seq::empty());
    while k < env.len()
        invariant
            k <= env@.len(),
            env@.len() == plan@.env.len(),
            forall|j: int| 0 <= j < env@.len() ==> (#[trigger] env@[j])@ == plan@.env[j],
            forall|j: int| 0 <= j < env@.len() ==> env_name(#[trigger] plan@.env[j].0),
            command_argv(cmd) == seq![plan@.program] + plan@.args,
            command_overrides(cmd) == overrides_of(plan@.env.take(k as int)),
            plain_overrides(cmd),
        decreases env@.len() - k,
    {
        let var = &env[k];
        assert(var@ == plan@.env[k as int]);
        assert(env_name(plan@.env[k as int].0));
        let ghost before = command_overrides(cmd);
        command_env(&mut cmd, var.name.as_str(), var.value.as_str());
        assert forall|name: Seq<char>| #[trigger]
            command_overrides(cmd).contains_key(name) implies env_name(name) by {
            if name != var.name@ {
                assert(before.contains_key(name));
            }
        }
        assert(plan@.env.take(k + 1).drop_last() =~= plan@.env.take(k as int));
        k = k + 1;
    }
    assert(plan@.env.take(k as int) =~= plan@.env);
    cmd
}

} // verus!
