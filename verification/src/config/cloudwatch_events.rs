//! Desired-state configuration for the event-rule control plane.
use super::yaml;
use vstd::prelude::*;

verus! {

/// A cron or rate rule: its name and its schedule expression.
#[derive(Debug, Clone, PartialEq)]
pub struct ScheduleRule {
    pub name: String,
    pub schedule_expression: String,
}

#[derive(Debug, Clone, PartialEq)]
pub struct NetworkConfiguration {
    pub awsvpc_configuration: Option<AwsVpcConfiguration>,
}

#[derive(Debug, Clone, PartialEq)]
pub struct AwsVpcConfiguration {
    pub assign_public_ip: Option<String>,
    pub security_groups: Option<Vec<String>>,
    pub subnets: Vec<String>,
}

impl ScheduleRule {
    pub(crate) fn from_yaml(v: &serde_yaml::Value) -> Result<ScheduleRule, String> {
        Ok(
            ScheduleRule {
                name: yaml::req_str(v, "name", "rule: name must be a string")?,
                schedule_expression: yaml::req_str(
                    v,
                    "schedule_expression",
                    "rule: schedule_expression must be a string",
                )?,
            },
        )
    }
}

impl AwsVpcConfiguration {
    pub(crate) fn from_yaml(v: &serde_yaml::Value) -> Result<AwsVpcConfiguration, String> {
        Ok(
            AwsVpcConfiguration {
                assign_public_ip: yaml::opt_str(
                    v,
                    "assign_public_ip",
                    "network configuration: assign_public_ip must be a string",
                )?,
                security_groups: yaml::opt_str_seq(
                    v,
                    "security_groups",
                    "network configuration: security_groups must be a sequence of strings",
                )?,
                subnets: yaml::req_str_seq(
                    v,
                    "subnets",
                    "network configuration: subnets must be a sequence of strings",
                )?,
            },
        )
    }
}

impl NetworkConfiguration {
    pub(crate) fn from_yaml(v: &serde_yaml::Value) -> Result<NetworkConfiguration, String> {
        Ok(
            NetworkConfiguration {
                awsvpc_configuration: match yaml::opt_field(v, "awsvpc_configuration") {
                    Some(f) => Some(AwsVpcConfiguration::from_yaml(f)?),
                    None => None,
                },
            },
        )
    }
}

} // verus!
