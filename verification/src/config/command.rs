//! The top-level configuration: named service, one-off task, scheduled task
//! and parameter-store entries, together with the functions that read a
//! rendered YAML document into it and check its version requirement.
use vstd::prelude::*;

use super::cloudwatch_events;
use super::yaml;
use super::ecs;

verus! {

/// Why a configuration document was rejected.
#[derive(Debug, Clone, PartialEq)]
pub enum ConfigError {
    /// The document is not valid YAML, or does not have the configuration's
    /// shape; the text says what went wrong and where.
    ParseError(String),
    /// Rendering the template over the supplied variables failed.
    TemplateError(String),
    /// The document's version requirement could not be parsed.
    VersionParseError(String),
    /// The document's version requirement rejects this engine's version.
    VersionRequirementError,
}

/// What each rejection reads as.
pub open spec fn spec_config_error_message(e: ConfigError) -> Seq<char> {
    match e {
        ConfigError::ParseError(s) => "Parse Error: "@ + s@,
        ConfigError::TemplateError(s) => "Template Error: "@ + s@,
        ConfigError::VersionParseError(s) => "Version Parse Error: "@ + s@,
        ConfigError::VersionRequirementError
            => "The specified version does not satisfy the current racco version"@,
    }
}

impl ConfigError {
    /// Renders the rejection for reporting.
    pub fn message(&self) -> (msg: String)
        ensures
            msg@ == spec_config_error_message(*self),
    {
        match self {
            ConfigError::ParseError(s) => {
                let mut msg = "Parse Error: ".to_owned();
                msg.append(s.as_str());
                msg
            },
            ConfigError::TemplateError(s) => {
                let mut msg = "Template Error: ".to_owned();
                msg.append(s.as_str());
                msg
            },
            ConfigError::VersionParseError(s) => {
                let mut msg = "Version Parse Error: ".to_owned();
                msg.append(s.as_str());
                msg
            },
            ConfigError::VersionRequirementError => {
                "The specified version does not satisfy the current racco version".to_owned()
            },
        }
    }
}

/// The whole configuration file.
#[derive(Debug, Clone, PartialEq)]
pub struct Config {
    pub version: Option<String>,
    pub service: Option<Vec<ServiceConfig>>,
    pub run_task: Option<Vec<RunTaskConfig>>,
    pub schedule_task: Option<Vec<ScheduleTaskConfig>>,
    pub params: Option<ParamsConfig>,
}

/// One named long-running service entry.
#[derive(Debug, Clone, PartialEq)]
pub struct ServiceConfig {
    pub name: String,
    pub cluster: String,
    pub service: ecs::Service,
}

/// One named one-off task entry.
#[derive(Debug, Clone, PartialEq)]
pub struct RunTaskConfig {
    pub name: String,
    pub cluster: String,
    pub task_definition: ecs::TaskDefinition,
    pub launch_type: Option<String>,
    pub network_configuration: Option<ecs::NetworkConfiguration>,
}

/// One named scheduled-task entry: a rule plus what its target launches.
#[derive(Debug, Clone, PartialEq)]
pub struct ScheduleTaskConfig {
    pub name: String,
    pub cluster: String,
    pub task_definition: ecs::TaskDefinition,
    pub rule: cloudwatch_events::ScheduleRule,
    pub rule_targets_role_arn: Option<String>,
}

/// The parameter store section: a path prefix and an optional encryption key.
#[derive(Debug, Clone, PartialEq)]
pub struct ParamsConfig {
    pub path: String,
    pub secure: Option<ParamsSecure>,
}

#[derive(Debug, Clone, PartialEq)]
pub struct ParamsSecure {
    pub key: String,
}

#[verifier::external_type_specification]
#[verifier::external_body]
pub struct ExJsonValue(serde_json::Value);

#[verifier::external_type_specification]
#[verifier::external_body]
pub struct ExVersion(semver::Version);

#[verifier::external_type_specification]
#[verifier::external_body]
pub struct ExVersionReq(semver::VersionReq);

/// Relies on handlebars::Handlebars::render_template: renders the template
/// over the given variables, or reports the render error as text.
#[verifier::external_body]
fn render_template(contents: &str, vars: &serde_json::Value) -> Result<String, String> {
    let handlebars = handlebars::Handlebars::new();
    match handlebars.render_template(contents, vars) {
        Ok(rendered) => Ok(rendered),
        Err(e) => Err(e.to_string()),
    }
}

/// Relies on serde_yaml::from_str: parses one YAML document into the
/// generic JSON value tree, or reports the parse error as text.
#[verifier::external_body]
fn json_from_yaml_str(contents: &str) -> Result<serde_json::Value, String> {
    match serde_yaml::from_str::<serde_json::Value>(contents) {
        Ok(v) => Ok(v),
        Err(e) => Err(e.to_string()),
    }
}

/// Relies on serde_json::Map::new: an empty JSON object.
#[verifier::external_body]
fn json_object_new() -> serde_json::Value {
    serde_json::Value::Object(serde_json::Map::new())
}

/// Relies on serde_json::Value::as_object_mut and serde_json::Map::insert:
/// sets a string entry of an object, turning a null value into an empty
/// object first as index assignment on a JSON value does; answers whether
/// the value was an object (or null) and the entry was set.
#[verifier::external_body]
fn json_insert_string(v: &mut serde_json::Value, key: &str, value: &str) -> bool {
    if v.is_null() {
        *v = serde_json::Value::Object(serde_json::Map::new());
    }
    match v.as_object_mut() {
        Some(map) => {
            map.insert(key.to_string(), serde_json::Value::String(value.to_string()));
            true
        },
        None => false,
    }
}

/// Relies on semver::Version::parse: reads a semantic version, or reports
/// the parse error as text.
#[verifier::external_body]
fn parse_version(text: &str) -> Result<semver::Version, String> {
    match semver::Version::parse(text) {
        Ok(v) => Ok(v),
        Err(e) => Err(e.to_string()),
    }
}

/// Relies on semver::VersionReq::parse: reads a version requirement, or
/// reports the parse error as text.
#[verifier::external_body]
fn parse_version_req(text: &str) -> Result<semver::VersionReq, String> {
    match semver::VersionReq::parse(text) {
        Ok(r) => Ok(r),
        Err(e) => Err(e.to_string()),
    }
}

/// Relies on semver::VersionReq::matches: whether the version satisfies the
/// requirement.
#[verifier::external_body]
fn version_req_matches(req: &semver::VersionReq, version: &semver::Version) -> bool {
    req.matches(version)
}

impl ParamsSecure {
    pub(crate) fn from_yaml(v: &serde_yaml::Value) -> Result<ParamsSecure, String> {
        Ok(ParamsSecure { key: yaml::req_str(v, "key", "params: secure key must be a string")? })
    }
}

impl ParamsConfig {
    pub(crate) fn from_yaml(v: &serde_yaml::Value) -> Result<ParamsConfig, String> {
        Ok(
            ParamsConfig {
                path: yaml::req_str(v, "path", "params: path must be a string")?,
                secure: match yaml::opt_field(v, "secure") {
                    Some(f) => Some(ParamsSecure::from_yaml(f)?),
                    None => None,
                },
            },
        )
    }
}

impl ServiceConfig {
    pub(crate) fn from_yaml(v: &serde_yaml::Value) -> Result<ServiceConfig, String> {
        Ok(
            ServiceConfig {
                name: yaml::req_str(v, "name", "service entry: name must be a string")?,
                cluster: yaml::req_str(v, "cluster", "service entry: cluster must be a string")?,
                service: match yaml::get(v, "service") {
                    Some(f) => ecs::Service::from_yaml(f)?,
                    None => {
                        return Err("service entry: service is required".to_owned());
                    },
                },
            },
        )
    }
}

impl RunTaskConfig {
    pub(crate) fn from_yaml(v: &serde_yaml::Value) -> Result<RunTaskConfig, String> {
        Ok(
            RunTaskConfig {
                name: yaml::req_str(v, "name", "run-task entry: name must be a string")?,
                cluster: yaml::req_str(v, "cluster", "run-task entry: cluster must be a string")?,
                task_definition: match yaml::get(v, "task_definition") {
                    Some(f) => ecs::TaskDefinition::from_yaml(f)?,
                    None => {
                        return Err("run-task entry: task_definition is required".to_owned());
                    },
                },
                launch_type: yaml::opt_str(
                    v,
                    "launch_type",
                    "run-task entry: launch_type must be a string",
                )?,
                network_configuration: match yaml::opt_field(v, "network_configuration") {
                    Some(f) => Some(ecs::NetworkConfiguration::from_yaml(f)?),
                    None => None,
                },
            },
        )
    }
}

impl ScheduleTaskConfig {
    pub(crate) fn from_yaml(v: &serde_yaml::Value) -> Result<ScheduleTaskConfig, String> {
        Ok(
            ScheduleTaskConfig {
                name: yaml::req_str(v, "name", "scheduled-task entry: name must be a string")?,
                cluster: yaml::req_str(
                    v,
                    "cluster",
                    "scheduled-task entry: cluster must be a string",
                )?,
                task_definition: match yaml::get(v, "task_definition") {
                    Some(f) => ecs::TaskDefinition::from_yaml(f)?,
                    None => {
                        return Err("scheduled-task entry: task_definition is required".to_owned());
                    },
                },
                rule: match yaml::get(v, "rule") {
                    Some(f) => cloudwatch_events::ScheduleRule::from_yaml(f)?,
                    None => {
                        return Err("scheduled-task entry: rule is required".to_owned());
                    },
                },
                rule_targets_role_arn: yaml::opt_str(
                    v,
                    "rule_targets_role_arn",
                    "scheduled-task entry: rule_targets_role_arn must be a string",
                )?,
            },
        )
    }
}

fn service_config_seq(v: &serde_yaml::Value, err: &str) -> Result<Vec<ServiceConfig>, String> {
    match yaml::as_sequence(v) {
        None => Err(err.to_owned()),
        Some(items) => {
            let mut out: Vec<ServiceConfig> = Vec::new();
            let mut i: usize = 0;
            while i < items.len()
                invariant
                    i <= items@.len(),
                decreases items@.len() - i,
            {
                out.push(ServiceConfig::from_yaml(&items[i])?);
                i = i + 1;
            }
            Ok(out)
        },
    }
}

fn run_task_config_seq(v: &serde_yaml::Value, err: &str) -> Result<Vec<RunTaskConfig>, String> {
    match yaml::as_sequence(v) {
        None => Err(err.to_owned()),
        Some(items) => {
            let mut out: Vec<RunTaskConfig> = Vec::new();
            let mut i: usize = 0;
            while i < items.len()
                invariant
                    i <= items@.len(),
                decreases items@.len() - i,
            {
                out.push(RunTaskConfig::from_yaml(&items[i])?);
                i = i + 1;
            }
            Ok(out)
        },
    }
}

fn schedule_task_config_seq(v: &serde_yaml::Value, err: &str) -> Result<
    Vec<ScheduleTaskConfig>,
    String,
> {
    match yaml::as_sequence(v) {
        None => Err(err.to_owned()),
        Some(items) => {
            let mut out: Vec<ScheduleTaskConfig> = Vec::new();
            let mut i: usize = 0;
            while i < items.len()
                invariant
                    i <= items@.len(),
                decreases items@.len() - i,
            {
                out.push(ScheduleTaskConfig::from_yaml(&items[i])?);
                i = i + 1;
            }
            Ok(out)
        },
    }
}

impl Config {
    fn from_yaml(v: &serde_yaml::Value) -> Result<Config, String> {
        Ok(
            Config {
                version: yaml::opt_str(v, "version", "version must be a string")?,
                service: match yaml::opt_field(v, "service") {
                    Some(f) => Some(service_config_seq(f, "service must be a sequence")?),
                    None => None,
                },
                run_task: match yaml::opt_field(v, "run_task") {
                    Some(f) => Some(run_task_config_seq(f, "run_task must be a sequence")?),
                    None => None,
                },
                schedule_task: match yaml::opt_field(v, "schedule_task") {
                    Some(f) => Some(
                        schedule_task_config_seq(f, "schedule_task must be a sequence")?,
                    ),
                    None => None,
                },
                params: match yaml::opt_field(v, "params") {
                    Some(f) => Some(ParamsConfig::from_yaml(f)?),
                    None => None,
                },
            },
        )
    }

    /// Renders the template variables into the document.
    pub fn apply_template_vars(contents: &str, vars: &serde_json::Value) -> Result<
        String,
        ConfigError,
    > {
        match render_template(contents, vars) {
            Ok(rendered) => Ok(rendered),
            Err(e) => Err(ConfigError::TemplateError(e)),
        }
    }

    /// Reads a configuration out of a document: renders the template
    /// variables, parses the result as YAML, and checks the configuration's
    /// shape.
    pub fn new(contents: &str, tmpl_vars: &serde_json::Value) -> Result<Config, ConfigError> {
        let rendered = match Self::apply_template_vars(contents, tmpl_vars) {
            Ok(rendered) => rendered,
            Err(e) => {
                return Err(e);
            },
        };
        match yaml::parse_yaml(rendered.as_str()) {
            Err(e) => Err(ConfigError::ParseError(e)),
            Ok(v) => match Self::from_yaml(&v) {
                Ok(c) => Ok(c),
                Err(e) => Err(ConfigError::ParseError(e)),
            },
        }
    }

    /// Collects the template variables: those of the variable file's
    /// document, with the command line's name and value pairs set over
    /// them.
    pub fn load_template_variables(
        template_variable_map: Option<&Vec<(String, String)>>,
        template_variable_file_contents: Option<&str>,
    ) -> Result<serde_json::Value, ConfigError> {
        let mut vars = match template_variable_file_contents {
            Some(contents) => {
                match json_from_yaml_str(contents) {
                    Ok(v) => v,
                    Err(e) => {
                        return Err(ConfigError::ParseError(e));
                    },
                }
            },
            None => json_object_new(),
        };
        match template_variable_map {
            Some(pairs) => {
                let mut i: usize = 0;
                while i < pairs.len()
                    invariant
                        i <= pairs@.len(),
                    decreases pairs@.len() - i,
                {
                    let entry = &pairs[i];
                    if !json_insert_string(&mut vars, entry.0.as_str(), entry.1.as_str()) {
                        return Err(
                            ConfigError::ParseError(
                                "template variables must form a mapping".to_owned(),
                            ),
                        );
                    }
                    i = i + 1;
                }
            },
            None => (),
        }
        Ok(vars)
    }

    /// Checks the document's version requirement against this engine's
    /// version: a document that names no requirement is accepted.
    pub fn validate_version(&self, current_ver_str: &str) -> (r: Result<(), ConfigError>)
        ensures
            self.version is None ==> r is Ok,
            r is Err ==> self.version is Some,
    {
        let version = match &self.version {
            None => {
                return Ok(());
            },
            Some(version) => version,
        };
        let current_ver = match parse_version(current_ver_str) {
            Ok(v) => v,
            Err(e) => {
                return Err(ConfigError::VersionParseError(e));
            },
        };
        let version_req = match parse_version_req(version.as_str()) {
            Ok(r) => r,
            Err(e) => {
                return Err(ConfigError::VersionParseError(e));
            },
        };
        if version_req_matches(&version_req, &current_ver) {
            Ok(())
        } else {
            Err(ConfigError::VersionRequirementError)
        }
    }
}

} // verus!
