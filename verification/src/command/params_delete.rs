//! The params delete subcommand: removing one parameter under the
//! configured path.
use vstd::prelude::*;

use crate::command::params;
use crate::config;

verus! {

/// A removal of one parameter by its full stored name.
#[derive(Debug, Clone, PartialEq)]
pub struct DeleteParameterRequest {
    pub name: String,
}

/// Builds the removal request for one bare name.
pub struct Executer<'c> {
    pub config: &'c config::command::ParamsConfig,
}

impl<'c> Executer<'c> {
    /// An executer over the parameter-store section.
    pub fn from_config(config: &'c config::command::ParamsConfig) -> (e: Executer<'c>)
        ensures
            e.config == config,
    {
        Executer { config }
    }

    /// The removal request for one bare name: its full stored name.
    pub fn run(&self, name: &str) -> (r: DeleteParameterRequest)
        ensures
            r.name@ == params::spec_name_with_path(self.config.path@, name@),
    {
        DeleteParameterRequest { name: params::name_with_path(self.config, name) }
    }
}

/// The params delete subcommand for one bare name.
pub struct Command<'c> {
    pub config: &'c config::command::Config,
    pub name: &'c str,
}

impl<'c> Command<'c> {
    /// A delete command for one bare name.
    pub fn new(config: &'c config::command::Config, name: &'c str) -> (c: Command<'c>)
        ensures
            c.config == config,
            c.name@ == name@,
    {
        Command { config, name }
    }

    /// The removal request this command issues, none when no
    /// parameter-store section is configured.
    pub fn run(&self) -> (r: Option<DeleteParameterRequest>)
        ensures
            match self.config.params {
                Some(p) => r matches Some(req) && req.name@ == params::spec_name_with_path(
                    p.path@,
                    self.name@,
                ),
                None => r is None,
            },
    {
        match &self.config.params {
            Some(p) => Some(Executer::from_config(p).run(self.name)),
            None => None,
        }
    }
}

/// The earlier form of the params delete subcommand.
pub struct ParamsDeleteCommand<'c> {
    pub config: &'c config::command::Config,
    pub name: &'c str,
}

/// The earlier form of the removal executer.
pub struct ParamsDeleteExecuter<'c> {
    pub config: &'c config::command::ParamsConfig,
}

impl<'c> ParamsDeleteExecuter<'c> {
    /// An executer over the parameter-store section.
    pub fn from_config(config: &'c config::command::ParamsConfig) -> (e: ParamsDeleteExecuter<'c>)
        ensures
            e.config == config,
    {
        ParamsDeleteExecuter { config }
    }

    /// The removal request for one bare name: its full stored name.
    pub fn run(&self, name: &str) -> (r: DeleteParameterRequest)
        ensures
            r.name@ == params::spec_name_with_path(self.config.path@, name@),
    {
        DeleteParameterRequest { name: params::name_with_path(self.config, name) }
    }
}

impl<'c> ParamsDeleteCommand<'c> {
    /// A delete command for one bare name.
    pub fn new(config: &'c config::command::Config, name: &'c str) -> (c: ParamsDeleteCommand<'c>)
        ensures
            c.config == config,
            c.name@ == name@,
    {
        ParamsDeleteCommand { config, name }
    }

    /// The removal request this command issues, none when no
    /// parameter-store section is configured.
    pub fn run(&self) -> (r: Option<DeleteParameterRequest>)
        ensures
            match self.config.params {
                Some(p) => r matches Some(req) && req.name@ == params::spec_name_with_path(
                    p.path@,
                    self.name@,
                ),
                None => r is None,
            },
    {
        match &self.config.params {
            Some(p) => Some(ParamsDeleteExecuter::from_config(p).run(self.name)),
            None => None,
        }
    }
}

} // verus!
