//! The params get subcommand: reading one or more parameters back, with the
//! configured path prefix prepended to every requested name.
use vstd::prelude::*;

use crate::command::error::CommandError;
use crate::command::params;
use crate::config;

verus! {

/// A read of a single parameter by its full stored name.
#[derive(Debug, Clone, PartialEq)]
pub struct GetParameterRequest {
    pub name: String,
    pub with_decryption: bool,
}

/// A read of several parameters by their full stored names.
#[derive(Debug, Clone, PartialEq)]
pub struct GetParametersRequest {
    pub names: Vec<String>,
    pub with_decryption: bool,
}

/// The full stored names of the requested bare names, in order.
pub open spec fn spec_names_with_path(path: Seq<char>, names: Seq<Seq<char>>) -> Seq<Seq<char>> {
    names.map_values(|n: Seq<char>| params::spec_name_with_path(path, n))
}

/// Builds the read request for one bare parameter name.
pub struct Executer<'c> {
    pub config: &'c config::command::ParamsConfig,
}

impl<'c> Executer<'c> {
    /// An executer over the parameter-store section.
    pub fn from_config(config: &'c config::command::ParamsConfig) -> (e: Executer<'c>)
        ensures
            e.config == config,
    {
        Executer { config }
    }

    /// The read request for one bare name: the full stored name, decrypted
    /// exactly when an encryption key is configured.
    pub fn run(&self, name: &str) -> (r: GetParameterRequest)
        ensures
            r.name@ == params::spec_name_with_path(self.config.path@, name@),
            r.with_decryption == (self.config.secure is Some),
    {
        GetParameterRequest {
            name: params::name_with_path(self.config, name),
            with_decryption: params::with_decryption(self.config),
        }
    }

    /// Strips the configured prefix off a stored name.
    pub fn strip_path<'a>(&self, name: &'a str) -> (r: Result<&'a str, CommandError>)
        ensures
            r matches Ok(s) ==> s@ == params::spec_strip_prefix(
                name@,
                params::spec_path(self.config.path@, true),
            ),
            r is Err ==> !crate::text::spec_has_prefix(
                name@,
                params::spec_path(self.config.path@, true),
            ),
    {
        params::strip_path(self.config, name)
    }
}

/// The params get subcommand for one bare name.
pub struct Command<'c> {
    pub config: &'c config::command::Config,
    pub name: &'c str,
}

impl<'c> Command<'c> {
    /// A get command for one bare name.
    pub fn new(config: &'c config::command::Config, name: &'c str) -> (c: Command<'c>)
        ensures
            c.config == config,
            c.name@ == name@,
    {
        Command { config, name }
    }

    /// The read request this command issues, none when no parameter-store
    /// section is configured.
    pub fn run(&self) -> (r: Option<GetParameterRequest>)
        ensures
            match self.config.params {
                Some(p) => r matches Some(req) && req.name@ == params::spec_name_with_path(
                    p.path@,
                    self.name@,
                ) && req.with_decryption == (p.secure is Some),
                None => r is None,
            },
    {
        match &self.config.params {
            Some(p) => Some(Executer::from_config(p).run(self.name)),
            None => None,
        }
    }
}

/// The earlier form of the params get subcommand, reading several names at
/// once.
pub struct ParamsGetCommand<'c> {
    pub config: &'c config::command::Config,
    pub names: Vec<&'c str>,
}

/// The view of the requested bare names, in order.
pub open spec fn spec_bare_names(names: Seq<&str>) -> Seq<Seq<char>> {
    names.map_values(|n: &str| n@)
}

/// Builds the multi-name read request of the earlier params get subcommand.
pub struct ParamsGetExecuter<'c> {
    pub config: &'c config::command::ParamsConfig,
}

impl<'c> ParamsGetExecuter<'c> {
    /// An executer over the parameter-store section.
    pub fn from_config(config: &'c config::command::ParamsConfig) -> (e: ParamsGetExecuter<'c>)
        ensures
            e.config == config,
    {
        ParamsGetExecuter { config }
    }

    /// The read request for the bare names: each full stored name, in
    /// order, decrypted exactly when an encryption key is configured.
    pub fn run(&self, names: &Vec<&str>) -> (r: GetParametersRequest)
        ensures
            r.names.deep_view() == spec_names_with_path(self.config.path@, spec_bare_names(names@)),
            r.with_decryption == (self.config.secure is Some),
    {
        let mut full: Vec<String> = Vec::new();
        let mut i: usize = 0;
        while i < names.len()
            invariant
                0 <= i <= names@.len(),
                full@.len() == i,
                forall|j: int|
                    0 <= j < i ==> full@[j]@ == params::spec_name_with_path(
                        self.config.path@,
                        names@[j]@,
                    ),
            decreases names@.len() - i,
        {
            full.push(params::name_with_path(self.config, names[i]));
            i = i + 1;
        }
        proof {
            assert forall|j: int| 0 <= j < names@.len() implies full.deep_view()[j]
                == spec_names_with_path(self.config.path@, spec_bare_names(names@))[j] by {
                assert(full.deep_view()[j] == full@[j]@);
            }
            assert(full.deep_view() =~= spec_names_with_path(
                self.config.path@,
                spec_bare_names(names@),
            ));
        }
        GetParametersRequest { names: full, with_decryption: params::with_decryption(self.config) }
    }

    /// Strips the configured prefix off a stored name.
    pub fn strip_path<'a>(&self, name: &'a str) -> (r: Result<&'a str, CommandError>)
        ensures
            r matches Ok(s) ==> s@ == params::spec_strip_prefix(
                name@,
                params::spec_path(self.config.path@, true),
            ),
            r is Err ==> !crate::text::spec_has_prefix(
                name@,
                params::spec_path(self.config.path@, true),
            ),
    {
        params::strip_path(self.config, name)
    }
}

impl<'c> ParamsGetCommand<'c> {
    /// A get command for several bare names.
    pub fn new(config: &'c config::command::Config, names: &'c Vec<&'c str>) -> (c:
        ParamsGetCommand<'c>)
        ensures
            c.config == config,
            c.names@ == names@,
    {
        ParamsGetCommand { config, names: names.clone() }
    }

    /// The read request this command issues, none when no parameter-store
    /// section is configured.
    pub fn run(&self) -> (r: Option<GetParametersRequest>)
        ensures
            match self.config.params {
                Some(p) => r matches Some(req) && req.names.deep_view() == spec_names_with_path(
                    p.path@,
                    spec_bare_names(self.names@),
                ) && req.with_decryption == (p.secure is Some),
                None => r is None,
            },
    {
        match &self.config.params {
            Some(p) => Some(ParamsGetExecuter::from_config(p).run(&self.names)),
            None => None,
        }
    }
}

} // verus!
