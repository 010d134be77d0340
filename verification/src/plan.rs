//! The plan for starting a shell: the program, its arguments, and the
//! environment variables that are set for it on top of what it inherits.

use vstd::prelude::*;

verus! {

/// One environment variable that a plan sets.
#[derive(Debug, PartialEq, Eq)]
pub struct EnvVar {
    pub name: String,
    pub value: String,
}

impl View for EnvVar {
    type V = (Seq<char>, Seq<char>);

    open spec fn view(&self) -> (Seq<char>, Seq<char>) {
        (self.name@, self.value@)
    }
}

/// What a plan says, as plain text.
pub struct PlanView {
    /// The program to run.
    pub program: Seq<char>,
    /// Its arguments, the program itself not among them.
    pub args: Seq<Seq<char>>,
    /// The variables to set, name and value, in the order they were added.
    pub env: Seq<(Seq<char>, Seq<char>)>,
}

/// `c` may stand in the name of a variable that a plan sets: an upper-case
/// ASCII letter, a digit or `_`.
pub open spec fn env_name_char(c: char) -> bool {
    ('A' <= c && c <= 'Z') || ('0' <= c && c <= '9') || c == '_'
}

/// `name` is made of such characters alone. Two such names that differ still
/// differ when letter case is ignored.
pub open spec fn env_name(name: Seq<char>) -> bool {
    forall|i: int| 0 <= i < name.len() ==> env_name_char(#[trigger] name[i])
}

/// The program, arguments and environment overrides for one shell.
pub struct LaunchPlan {
    program: String,
    args: Vec<String>,
    env: Vec<EnvVar>,
}

impl View for LaunchPlan {
    type V = PlanView;

    closed spec fn view(&self) -> PlanView {
        PlanView {
            program: self.program@,
            args: Seq::new(self.args@.len(), |i: int| self.args@[i]@),
            env: Seq::new(self.env@.len(), |i: int| self.env@[i]@),
        }
    }
}

impl LaunchPlan {
    #[verifier::type_invariant]
    spec fn names_are_plain(&self) -> bool {
        forall|i: int| 0 <= i < self.env@.len() ==> env_name(#[trigger] self.env@[i].name@)
    }

    /// A plan that runs `program` with no arguments and sets nothing.
    pub(crate) fn new(program: &str) -> (plan: LaunchPlan)
        ensures
            plan@ == (PlanView { program: program@, args: seq![], env: seq![] }),
    {
        let plan = LaunchPlan { program: String::from_str(program), args: Vec::new(), env: Vec::new() };
        assert(plan@.args =~= seq![]);
        assert(plan@.env =~= seq![]);
        plan
    }

    /// The program to run.
    pub fn program(&self) -> (program: &str)
        ensures
            program@ == self@.program,
    {
        self.program.as_str()
    }

    /// The arguments, in order.
    pub fn args(&self) -> (args: &Vec<String>)
        ensures
            args@.len() == self@.args.len(),
            forall|i: int| 0 <= i < args@.len() ==> (#[trigger] args@[i])@ == self@.args[i],
    {
        &self.args
    }

    /// The variables to set, in the order they were added. Each name is made
    /// of upper-case ASCII letters, digits and `_` alone.
    pub fn env(&self) -> (env: &Vec<EnvVar>)
        ensures
            env@.len() == self@.env.len(),
            forall|i: int| 0 <= i < env@.len() ==> (#[trigger] env@[i])@ == self@.env[i],
            forall|i: int| 0 <= i < env@.len() ==> env_name(#[trigger] self@.env[i].0),
    {
        proof {
            use_type_invariant(self);
        }
        &self.env
    }

    /// The plan with `arg` added after the arguments there are.
    pub(crate) fn with_arg(self, arg: &str) -> (plan: LaunchPlan)
        ensures
            plan@ == (PlanView { args: self@.args.push(arg@), ..self@ }),
    {
        proof {
            use_type_invariant(&self);
        }
        let LaunchPlan { program, mut args, env } = self;
        args.push(String::from_str(arg));
        let plan = LaunchPlan { program, args, env };
        assert(plan@.args =~= self@.args.push(arg@));
        assert(plan@.env =~= self@.env);
        plan
    }

    /// The plan with the variable `name` set to `value`, added after the
    /// variables there are.
    pub(crate) fn with_env(self, name: &str, value: &str) -> (plan: LaunchPlan)
        requires
            env_name(name@),
        ensures
            plan@ == (PlanView { env: self@.env.push((name@, value@)), ..self@ }),
    {
        proof {
            use_type_invariant(&self);
        }
        let LaunchPlan { program, args, mut env } = self;
        env.push(EnvVar { name: String::from_str(name), value: String::from_str(value) });
        let plan = LaunchPlan { program, args, env };
        assert(plan@.args =~= self@.args);
        assert(plan@.env =~= self@.env.push((name@, value@)));
        plan
    }
}

} // verus!
