//! The params put subcommand: writing one parameter under the configured
//! path, as an encrypted value when an encryption key is configured.
use vstd::prelude::*;

use crate::command::params;
use crate::config;

verus! {

/// A write of one parameter under its full stored name.  The write always
/// overwrites; the type and key follow the configured encryption.
#[derive(Debug, Clone, PartialEq)]
pub struct PutParameterRequest {
    pub name: String,
    pub value: String,
    pub type_: String,
    pub key_id: Option<String>,
    pub overwrite: bool,
}

/// What the write request must look like for a given configuration, bare
/// name and value: the full stored name, the unchanged value, type
/// `SecureString` with the configured key when encryption is configured and
/// type `String` with no key otherwise, and overwriting always allowed.
pub open spec fn spec_put_request(
    config: config::command::ParamsConfig,
    name: Seq<char>,
    value: Seq<char>,
    r: PutParameterRequest,
) -> bool {
    &&& r.name@ == params::spec_name_with_path(config.path@, name)
    &&& r.value@ == value
    &&& match config.secure {
        Some(secure) => r.type_@ == "SecureString"@ && (r.key_id matches Some(k) && k@
            == secure.key@),
        None => r.type_@ == "String"@ && r.key_id is None,
    }
    &&& r.overwrite
}

/// Builds the write request for one bare name and value.
pub struct Executer<'c> {
    pub config: &'c config::command::ParamsConfig,
}

impl<'c> Executer<'c> {
    /// An executer over the parameter-store section.
    pub fn from_config(config: &'c config::command::ParamsConfig) -> (e: Executer<'c>)
        ensures
            e.config == config,
    {
        Executer { config }
    }

    /// The write request for one bare name and value.
    pub fn run(&self, name: &str, value: &str) -> (r: PutParameterRequest)
        ensures
            spec_put_request(*self.config, name@, value@, r),
    {
        let (type_, key_id): (String, Option<String>) = match &self.config.secure {
            Some(secure) => ("SecureString".to_owned(), Some(secure.key.clone())),
            None => ("String".to_owned(), None),
        };
        PutParameterRequest {
            name: params::name_with_path(self.config, name),
            value: value.to_owned(),
            type_,
            key_id,
            overwrite: true,
        }
    }
}

/// The params put subcommand for one bare name and value.
pub struct Command<'c> {
    pub config: &'c config::command::Config,
    pub name: &'c str,
    pub value: &'c str,
}

impl<'c> Command<'c> {
    /// A put command for one bare name and value.
    pub fn new(config: &'c config::command::Config, name: &'c str, value: &'c str) -> (c: Command<
        'c,
    >)
        ensures
            c.config == config,
            c.name@ == name@,
            c.value@ == value@,
    {
        Command { config, name, value }
    }

    /// The write request this command issues, none when no parameter-store
    /// section is configured.
    pub fn run(&self) -> (r: Option<PutParameterRequest>)
        ensures
            match self.config.params {
                Some(p) => r matches Some(req) && spec_put_request(p, self.name@, self.value@, req),
                None => r is None,
            },
    {
        match &self.config.params {
            Some(p) => Some(Executer::from_config(p).run(self.name, self.value)),
            None => None,
        }
    }
}

/// The earlier form of the params put subcommand.
pub struct ParamsPutCommand<'c> {
    pub config: &'c config::command::Config,
    pub name: &'c str,
    pub value: &'c str,
}

/// The earlier form of the write executer.
pub struct ParamsPutExecuter<'c> {
    pub config: &'c config::command::ParamsConfig,
}

impl<'c> ParamsPutExecuter<'c> {
    /// An executer over the parameter-store section.
    pub fn from_config(config: &'c config::command::ParamsConfig) -> (e: ParamsPutExecuter<'c>)
        ensures
            e.config == config,
    {
        ParamsPutExecuter { config }
    }

    /// The write request for one bare name and value.
    pub fn run(&self, name: &str, value: &str) -> (r: PutParameterRequest)
        ensures
            spec_put_request(*self.config, name@, value@, r),
    {
        Executer::from_config(self.config).run(name, value)
    }
}

impl<'c> ParamsPutCommand<'c> {
    /// A put command for one bare name and value.
    pub fn new(config: &'c config::command::Config, name: &'c str, value: &'c str) -> (c:
        ParamsPutCommand<'c>)
        ensures
            c.config == config,
            c.name@ == name@,
            c.value@ == value@,
    {
        ParamsPutCommand { config, name, value }
    }

    /// The write request this command issues, none when no parameter-store
    /// section is configured.
    pub fn run(&self) -> (r: Option<PutParameterRequest>)
        ensures
            match self.config.params {
                Some(p) => r matches Some(req) && spec_put_request(p, self.name@, self.value@, req),
                None => r is None,
            },
    {
        match &self.config.params {
            Some(p) => Some(ParamsPutExecuter::from_config(p).run(self.name, self.value)),
            None => None,
        }
    }
}

} // verus!
