//! The params exec subcommand: run a program with the parameters under the
//! configured path exported into its environment, each under its bare name.
//! Parameters that are incomplete or outside the path are passed over
//! rather than failing the launch.
use vstd::prelude::*;

use crate::command::params;
use crate::command::params::Parameter;
use crate::config;

verus! {

/// A program launch: the program, its arguments, and the environment
/// entries to add.
#[derive(Debug, Clone, PartialEq)]
pub struct ExecInvocation {
    pub program: String,
    pub args: Vec<String>,
    pub env: Vec<(String, String)>,
}

/// The views of the launch arguments, in order.
pub open spec fn spec_args_view(args: Seq<&str>) -> Seq<Seq<char>> {
    args.map_values(|a: &str| a@)
}

/// What the launch must look like: the program and arguments unchanged, and
/// the environment holding exactly the fetched parameters under their bare
/// names, in order, with incomplete or out-of-path entries passed over.
pub open spec fn spec_invocation(
    config: config::command::ParamsConfig,
    program: Seq<char>,
    args: Seq<&str>,
    parameters: Seq<Parameter>,
    r: ExecInvocation,
) -> bool {
    &&& r.program@ == program
    &&& r.args.deep_view() == spec_args_view(args)
    &&& params::spec_pairs_view(r.env@) == params::spec_stripped_pairs_lenient(
        parameters,
        params::spec_path(config.path@, true),
    )
}

/// Builds the launch for a program over the fetched parameters.
pub struct Executer<'c> {
    pub config: &'c config::command::ParamsConfig,
}

impl<'c> Executer<'c> {
    /// An executer over the parameter-store section.
    pub fn from_config(config: &'c config::command::ParamsConfig) -> (e: Executer<'c>)
        ensures
            e.config == config,
    {
        Executer { config }
    }

    /// The launch of the program with the fetched parameters exported.
    pub fn run(&self, program: &str, args: &Vec<&str>, parameters: &Vec<Parameter>) -> (r:
        ExecInvocation)
        ensures
            spec_invocation(*self.config, program@, args@, parameters@, r),
    {
        let mut owned_args: Vec<String> = Vec::new();
        let mut i: usize = 0;
        while i < args.len()
            invariant
                0 <= i <= args@.len(),
                owned_args@.len() == i,
                forall|j: int| 0 <= j < i ==> owned_args@[j]@ == args@[j]@,
            decreases args@.len() - i,
        {
            owned_args.push(args[i].to_owned());
            i = i + 1;
        }
        proof {
            assert forall|j: int| 0 <= j < args@.len() implies owned_args.deep_view()[j]
                == spec_args_view(args@)[j] by {
                assert(owned_args.deep_view()[j] == owned_args@[j]@);
            }
            assert(owned_args.deep_view() =~= spec_args_view(args@));
        }
        ExecInvocation {
            program: program.to_owned(),
            args: owned_args,
            env: params::stripped_pairs_lenient(self.config, parameters),
        }
    }
}

/// The params exec subcommand.
pub struct Command<'c> {
    pub config: &'c config::command::Config,
    pub program: &'c str,
    pub args: Vec<&'c str>,
}

impl<'c> Command<'c> {
    /// An exec command for one program and its arguments.
    pub fn new(config: &'c config::command::Config, program: &'c str, args: &'c Vec<&'c str>) -> (c:
        Command<'c>)
        ensures
            c.config == config,
            c.program@ == program@,
            c.args@ == args@,
    {
        Command { config, program, args: args.clone() }
    }

    /// The launch this command performs over the fetched parameters, none
    /// when no parameter-store section is configured.
    pub fn run(&self, parameters: &Vec<Parameter>) -> (r: Option<ExecInvocation>)
        ensures
            match self.config.params {
                Some(p) => r matches Some(inv) && spec_invocation(
                    p,
                    self.program@,
                    self.args@,
                    parameters@,
                    inv,
                ),
                None => r is None,
            },
    {
        match &self.config.params {
            Some(p) => Some(Executer::from_config(p).run(self.program, &self.args, parameters)),
            None => None,
        }
    }
}

/// The earlier form of the params exec subcommand.
pub struct ParamsExecCommand<'c> {
    pub config: &'c config::command::Config,
    pub program: &'c str,
    pub args: Vec<&'c str>,
}

/// The earlier form of the launch executer.
pub struct ParamsExecExecuter<'c> {
    pub config: &'c config::command::ParamsConfig,
}

impl<'c> ParamsExecExecuter<'c> {
    /// An executer over the parameter-store section.
    pub fn from_config(config: &'c config::command::ParamsConfig) -> (e: ParamsExecExecuter<'c>)
        ensures
            e.config == config,
    {
        ParamsExecExecuter { config }
    }

    /// The launch of the program with the fetched parameters exported.
    pub fn run(&self, program: &str, args: &Vec<&str>, parameters: &Vec<Parameter>) -> (r:
        ExecInvocation)
        ensures
            spec_invocation(*self.config, program@, args@, parameters@, r),
    {
        Executer::from_config(self.config).run(program, args, parameters)
    }
}

impl<'c> ParamsExecCommand<'c> {
    /// An exec command for one program and its arguments.
    pub fn new(config: &'c config::command::Config, program: &'c str, args: &'c Vec<&'c str>) -> (c:
        ParamsExecCommand<'c>)
        ensures
            c.config == config,
            c.program@ == program@,
            c.args@ == args@,
    {
        ParamsExecCommand { config, program, args: args.clone() }
    }

    /// The launch this command performs over the fetched parameters, none
    /// when no parameter-store section is configured.
    pub fn run(&self, parameters: &Vec<Parameter>) -> (r: Option<ExecInvocation>)
        ensures
            match self.config.params {
                Some(p) => r matches Some(inv) && spec_invocation(
                    p,
                    self.program@,
                    self.args@,
                    parameters@,
                    inv,
                ),
                None => r is None,
            },
    {
        match &self.config.params {
            Some(p) => Some(
                ParamsExecExecuter::from_config(p).run(self.program, &self.args, parameters),
            ),
            None => None,
        }
    }
}

} // verus!
