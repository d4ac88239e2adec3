//! The params list subcommand: fetching every parameter under the
//! configured path and presenting each one under its bare name.
use vstd::prelude::*;

use crate::command::error::CommandError;
use crate::command::params;
use crate::command::params::Parameter;
use crate::config;

verus! {

/// One page request of the listing call.
#[derive(Debug, Clone, PartialEq)]
pub struct GetParametersByPathRequest {
    pub path: String,
    pub with_decryption: bool,
    pub next_token: Option<String>,
}

/// Turns the fetched parameters into bare name and value pairs.
pub struct Executer<'c> {
    pub config: &'c config::command::ParamsConfig,
}

impl<'c> Executer<'c> {
    /// An executer over the parameter-store section.
    pub fn from_config(config: &'c config::command::ParamsConfig) -> (e: Executer<'c>)
        ensures
            e.config == config,
    {
        Executer { config }
    }

    /// The first page request of the listing call.
    pub fn page_request(&self, next_token: Option<String>) -> (r: GetParametersByPathRequest)
        ensures
            r.path@ == params::spec_path(self.config.path@, false),
            r.with_decryption == (self.config.secure is Some),
            r.next_token == next_token,
    {
        GetParametersByPathRequest {
            path: params::path(self.config, false),
            with_decryption: params::with_decryption(self.config),
            next_token,
        }
    }

    /// The listing's lines: every fetched parameter under its bare name
    /// with its value, in order; a stored name outside the configured path
    /// fails the listing.
    pub fn run(&self, parameters: &Vec<Parameter>) -> (r: Result<
        Vec<(String, String)>,
        CommandError,
    >)
        ensures
            r matches Ok(pairs) ==> params::spec_stripped_pairs(
                parameters@,
                params::spec_path(self.config.path@, true),
            ) matches Ok(s) && params::spec_pairs_view(pairs@) == s,
            r is Err ==> params::spec_stripped_pairs(
                parameters@,
                params::spec_path(self.config.path@, true),
            ) is Err,
    {
        params::stripped_pairs(self.config, parameters)
    }
}

/// The params list subcommand.
pub struct Command<'c> {
    pub config: &'c config::command::Config,
}

impl<'c> Command<'c> {
    /// A list command over the whole configured path.
    pub fn new(config: &'c config::command::Config) -> (c: Command<'c>)
        ensures
            c.config == config,
    {
        Command { config }
    }

    /// The first page request this command issues, none when no
    /// parameter-store section is configured.
    pub fn run(&self) -> (r: Option<GetParametersByPathRequest>)
        ensures
            match self.config.params {
                Some(p) => r matches Some(req) && req.path@ == params::spec_path(p.path@, false)
                    && req.with_decryption == (p.secure is Some) && req.next_token is None,
                None => r is None,
            },
    {
        match &self.config.params {
            Some(p) => Some(Executer::from_config(p).page_request(None)),
            None => None,
        }
    }
}

/// The earlier form of the params list subcommand.
pub struct ParamsListCommand<'c> {
    pub config: &'c config::command::Config,
}

/// The earlier form of the listing executer.
pub struct ParamsListExecuter<'c> {
    pub config: &'c config::command::ParamsConfig,
}

impl<'c> ParamsListExecuter<'c> {
    /// An executer over the parameter-store section.
    pub fn from_config(config: &'c config::command::ParamsConfig) -> (e: ParamsListExecuter<'c>)
        ensures
            e.config == config,
    {
        ParamsListExecuter { config }
    }

    /// The listing's lines: every fetched parameter under its bare name
    /// with its value, in order.
    pub fn run(&self, parameters: &Vec<Parameter>) -> (r: Result<
        Vec<(String, String)>,
        CommandError,
    >)
        ensures
            r matches Ok(pairs) ==> params::spec_stripped_pairs(
                parameters@,
                params::spec_path(self.config.path@, true),
            ) matches Ok(s) && params::spec_pairs_view(pairs@) == s,
            r is Err ==> params::spec_stripped_pairs(
                parameters@,
                params::spec_path(self.config.path@, true),
            ) is Err,
    {
        params::stripped_pairs(self.config, parameters)
    }
}

impl<'c> ParamsListCommand<'c> {
    /// A list command over the whole configured path.
    pub fn new(config: &'c config::command::Config) -> (c: ParamsListCommand<'c>)
        ensures
            c.config == config,
    {
        ParamsListCommand { config }
    }

    /// The first page request this command issues, none when no
    /// parameter-store section is configured.
    pub fn run(&self) -> (r: Option<GetParametersByPathRequest>)
        ensures
            match self.config.params {
                Some(p) => r matches Some(req) && req.path@ == params::spec_path(p.path@, false)
                    && req.with_decryption == (p.secure is Some) && req.next_token is None,
                None => r is None,
            },
    {
        match &self.config.params {
            Some(p) => {
                let exec = ParamsListExecuter::from_config(p);
                Some(
                    GetParametersByPathRequest {
                        path: params::path(exec.config, false),
                        with_decryption: params::with_decryption(exec.config),
                        next_token: None,
                    },
                )
            },
            None => None,
        }
    }
}

} // verus!
