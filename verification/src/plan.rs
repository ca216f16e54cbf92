//! The data that a task plan is made of: a single external command
//! invocation, with its program name, argument list, and extra environment
//! variables.

use vstd::prelude::*;

verus! {

/// One environment variable handed to a spawned command.
pub struct EnvVar {
    /// The variable's name.
    pub name: String,
    /// The variable's value.
    pub value: String,
}

/// One external command invocation: a program, its arguments, and the
/// environment variables set for it beyond the inherited environment.
pub struct Invocation {
    /// The program to spawn.
    pub program: String,
    /// The arguments handed to the program, in order.
    pub args: Vec<String>,
    /// Extra environment variables for the spawned process.
    pub env: Vec<EnvVar>,
}

/// The character sequences behind a sequence of strings.
pub open spec fn arg_views(args: Seq<String>) -> Seq<Seq<char>> {
    args.map_values(|s: String| s@)
}

/// The name/value character sequences behind a sequence of environment
/// variables.
pub open spec fn env_views(env: Seq<EnvVar>) -> Seq<(Seq<char>, Seq<char>)> {
    env.map_values(|e: EnvVar| (e.name@, e.value@))
}

/// Holds when `inv` runs `program` with exactly `args` and no extra
/// environment variables.
pub open spec fn invokes(inv: Invocation, program: Seq<char>, args: Seq<Seq<char>>) -> bool {
    &&& inv.program@ == program
    &&& arg_views(inv.args@) == args
    &&& inv.env@.len() == 0
}

/// Builds an invocation of `program` with no arguments and no extra
/// environment.
pub fn invocation(program: &str) -> (inv: Invocation)
    ensures
        invokes(inv, program@, Seq::<Seq<char>>::empty()),
{
    let inv = Invocation { program: program.to_owned(), args: Vec::new(), env: Vec::new() };
    proof {
        assert(arg_views(inv.args@) =~= Seq::<Seq<char>>::empty());
    }
    inv
}

impl Invocation {
    /// Appends one literal argument.
    pub fn arg(&mut self, a: &str)
        ensures
            final(self).program@ == old(self).program@,
            arg_views(final(self).args@) == arg_views(old(self).args@).push(a@),
            final(self).env@ == old(self).env@,
    {
        self.args.push(a.to_owned());
        proof {
            assert(arg_views(self.args@) =~= arg_views(old(self).args@).push(a@));
        }
    }

    /// Appends one owned argument.
    pub fn arg_string(&mut self, a: String)
        ensures
            final(self).program@ == old(self).program@,
            arg_views(final(self).args@) == arg_views(old(self).args@).push(a@),
            final(self).env@ == old(self).env@,
    {
        self.args.push(a);
        proof {
            assert(arg_views(self.args@) =~= arg_views(old(self).args@).push(a@));
        }
    }

    /// Appends one environment variable.
    pub fn env_var(&mut self, name: &str, value: &str)
        ensures
            final(self).program@ == old(self).program@,
            final(self).args@ == old(self).args@,
            env_views(final(self).env@) == env_views(old(self).env@).push((name@, value@)),
    {
        self.env.push(EnvVar { name: name.to_owned(), value: value.to_owned() });
        proof {
            assert(env_views(self.env@) =~= env_views(old(self).env@).push((name@, value@)));
        }
    }
}

} // verus!
