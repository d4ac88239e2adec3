//! Desired-state configuration for the workload control plane: services,
//! task definitions and everything a container definition can carry.
use std::collections::HashMap;

use super::yaml;
use vstd::prelude::*;

verus! {

/// Desired shape of a long-running service.
#[derive(Debug, Clone, PartialEq)]
pub struct Service {
    pub name: String,
    pub desired_count: Option<i64>,
    pub deployment_configuration: Option<DeploymentConfiguration>,
    pub load_balancers: Option<Vec<LoadBalancer>>,
    pub task_definition: TaskDefinition,
    pub role: Option<String>,
    pub launch_type: Option<String>,
    pub network_configuration: Option<NetworkConfiguration>,
    pub service_registries: Option<Vec<ServiceRegistry>>,
    pub platform_version: Option<String>,
    pub enable_execute_command: Option<bool>,
    pub tags: Option<Vec<Tag>>,
}

/// Desired container spec of a task-definition family.
#[derive(Debug, Clone, PartialEq)]
pub struct TaskDefinition {
    pub family: String,
    pub container_definitions: Vec<ContainerDefinition>,
    pub task_role_arn: Option<String>,
    pub network_mode: Option<String>,
    pub volumes: Option<Vec<Volume>>,
    pub requires_compatibilities: Option<Vec<String>>,
    pub execution_role_arn: Option<String>,
    pub cpu: Option<String>,
    pub memory: Option<String>,
    pub proxy_configuration: Option<ProxyConfiguration>,
}

#[derive(Debug, Clone, PartialEq)]
pub struct NetworkConfiguration {
    pub awsvpc_configuration: Option<AwsVpcConfiguration>,
}

#[derive(Debug, Clone, PartialEq)]
pub struct AwsVpcConfiguration {
    pub assign_public_ip: Option<String>,
    pub security_groups: Option<Vec<String>>,
    pub subnets: Vec<String>,
}

#[derive(Debug, Clone, PartialEq)]
pub struct ServiceRegistry {
    pub container_name: Option<String>,
    pub container_port: Option<i64>,
    pub port: Option<i64>,
    pub registry_arn: Option<String>,
}

#[derive(Debug, Clone, PartialEq)]
pub struct Volume {
    pub docker_volume_configuration: Option<DockerVolumeConfiguration>,
    pub efs_volume_configuration: Option<EFSVolumeConfiguration>,
    pub host: Option<HostVolumeProperties>,
    pub name: Option<String>,
}

#[derive(Debug, Clone, PartialEq)]
pub struct DockerVolumeConfiguration {
    pub autoprovision: Option<bool>,
    pub driver: Option<String>,
    pub driver_opts: Option<HashMap<String, String>>,
    pub labels: Option<HashMap<String, String>>,
    pub scope: Option<String>,
}

#[derive(Debug, Clone, PartialEq)]
pub struct EFSVolumeConfiguration {
    pub authorization_config: Option<EFSAuthorizationConfig>,
    pub file_system_id: String,
    pub root_directory: Option<String>,
    pub transit_encryption: Option<String>,
    pub transit_encryption_port: Option<i64>,
}

#[derive(Debug, Clone, PartialEq)]
pub struct EFSAuthorizationConfig {
    pub access_point_id: Option<String>,
    pub iam: Option<String>,
}

#[derive(Debug, Clone, PartialEq)]
pub struct HostVolumeProperties {
    pub source_path: Option<String>,
}

#[derive(Debug, Clone, PartialEq)]
pub struct ProxyConfiguration {
    pub container_name: String,
    pub properties: Option<Vec<KeyValuePair>>,
    pub type_: Option<String>,
}

#[derive(Debug, Clone, PartialEq)]
pub struct DeploymentConfiguration {
    pub maximum_percent: Option<i64>,
    pub minimum_healthy_percent: Option<i64>,
    pub deployment_circuit_breaker: Option<DeploymentCircuitBreaker>,
}

#[derive(Debug, Clone, PartialEq)]
pub struct DeploymentCircuitBreaker {
    pub enable: bool,
    pub rollback: bool,
}

#[derive(Debug, Clone, PartialEq)]
pub struct LoadBalancer {
    pub container_name: Option<String>,
    pub container_port: Option<i64>,
    pub load_balancer_name: Option<String>,
    pub target_group_arn: Option<String>,
}

/// One container of a task definition, with the full set of launch options
/// the control plane accepts.
#[derive(Debug, Clone, PartialEq)]
pub struct ContainerDefinition {
    pub command: Option<Vec<String>>,
    pub cpu: Option<i64>,
    pub disable_networking: Option<bool>,
    pub dns_search_domains: Option<Vec<String>>,
    pub dns_servers: Option<Vec<String>>,
    pub docker_labels: Option<HashMap<String, String>>,
    pub docker_security_options: Option<Vec<String>>,
    pub entry_point: Option<Vec<String>>,
    pub environment: Option<Vec<KeyValuePair>>,
    pub environment_files: Option<Vec<EnvironmentFile>>,
    pub essential: Option<bool>,
    pub extra_hosts: Option<Vec<HostEntry>>,
    pub hostname: Option<String>,
    pub image: Option<String>,
    pub interactive: Option<bool>,
    pub links: Option<Vec<String>>,
    pub log_configuration: Option<LogConfiguration>,
    pub memory: Option<i64>,
    pub memory_reservation: Option<i64>,
    pub mount_points: Option<Vec<MountPoint>>,
    pub name: Option<String>,
    pub port_mappings: Option<Vec<PortMapping>>,
    pub privileged: Option<bool>,
    pub pseudo_terminal: Option<bool>,
    pub readonly_root_filesystem: Option<bool>,
    pub repository_credentials: Option<RepositoryCredentials>,
    pub resource_requirements: Option<Vec<ResourceRequirement>>,
    pub secrets: Option<Vec<Secret>>,
    pub system_controls: Option<Vec<SystemControl>>,
    pub ulimits: Option<Vec<Ulimit>>,
    pub user: Option<String>,
    pub volumes_from: Option<Vec<VolumeFrom>>,
    pub working_directory: Option<String>,
    pub health_check: Option<HealthCheck>,
    pub linux_parameters: Option<LinuxParameters>,
    pub depends_on: Option<Vec<ContainerDependency>>,
    pub firelens_configuration: Option<FirelensConfiguration>,
    pub start_timeout: Option<i64>,
    pub stop_timeout: Option<i64>,
}

#[derive(Debug, Clone, PartialEq)]
pub struct ContainerDependency {
    pub condition: String,
    pub container_name: String,
}

#[derive(Debug, Clone, PartialEq)]
pub struct FirelensConfiguration {
    pub options: Option<HashMap<String, String>>,
    pub type_: String,
}

#[derive(Debug, Clone, PartialEq)]
pub struct RepositoryCredentials {
    pub credentials_parameter: String,
}

#[derive(Debug, Clone, PartialEq)]
pub struct ResourceRequirement {
    pub type_: String,
    pub value: String,
}

#[derive(Debug, Clone, PartialEq)]
pub struct Secret {
    pub name: String,
    pub value_from: String,
}

#[derive(Debug, Clone, PartialEq)]
pub struct EnvironmentFile {
    pub type_: String,
    pub value: String,
}

#[derive(Debug, Clone, PartialEq)]
pub struct SystemControl {
    pub namespace: Option<String>,
    pub value: Option<String>,
}

#[derive(Debug, Clone, PartialEq)]
pub struct KeyValuePair {
    pub name: Option<String>,
    pub value: Option<String>,
}

#[derive(Debug, Clone, PartialEq)]
pub struct HostEntry {
    pub hostname: String,
    pub ip_address: String,
}

#[derive(Debug, Clone, PartialEq)]
pub struct MountPoint {
    pub container_path: Option<String>,
    pub read_only: Option<bool>,
    pub source_volume: Option<String>,
}

#[derive(Debug, Clone, PartialEq)]
pub struct PortMapping {
    pub container_port: Option<i64>,
    pub host_port: Option<i64>,
    pub protocol: Option<String>,
}

#[derive(Debug, Clone, PartialEq)]
pub struct Ulimit {
    pub hard_limit: i64,
    pub name: String,
    pub soft_limit: i64,
}

#[derive(Debug, Clone, PartialEq)]
pub struct VolumeFrom {
    pub read_only: Option<bool>,
    pub source_container: Option<String>,
}

#[derive(Debug, Clone, PartialEq)]
pub struct LogConfiguration {
    pub log_driver: String,
    pub options: Option<HashMap<String, String>>,
    pub secret_options: Option<Vec<Secret>>,
}

#[derive(Debug, Clone, PartialEq)]
pub struct HealthCheck {
    pub command: Vec<String>,
    pub interval: Option<i64>,
    pub retries: Option<i64>,
    pub start_period: Option<i64>,
    pub timeout: Option<i64>,
}

#[derive(Debug, Clone, PartialEq)]
pub struct LinuxParameters {
    pub capabilities: Option<KernelCapabilities>,
    pub devices: Option<Vec<Device>>,
    pub init_process_enabled: Option<bool>,
    pub shared_memory_size: Option<i64>,
    pub tmpfs: Option<Vec<Tmpfs>>,
    pub max_swap: Option<i64>,
    pub swappiness: Option<i64>,
}

#[derive(Debug, Clone, PartialEq)]
pub struct KernelCapabilities {
    pub add: Option<Vec<String>>,
    pub drop: Option<Vec<String>>,
}

#[derive(Debug, Clone, PartialEq)]
pub struct Device {
    pub container_path: Option<String>,
    pub host_path: String,
    pub permissions: Option<Vec<String>>,
}

#[derive(Debug, Clone, PartialEq)]
pub struct Tmpfs {
    pub container_path: String,
    pub mount_options: Option<Vec<String>>,
    pub size: i64,
}

#[derive(Debug, Clone, PartialEq)]
pub struct Tag {
    pub key: Option<String>,
    pub value: Option<String>,
}

impl KeyValuePair {
    pub(crate) fn from_yaml(v: &serde_yaml::Value) -> Result<KeyValuePair, String> {
        Ok(
            KeyValuePair {
                name: yaml::opt_str(v, "name", "environment entry: name must be a string")?,
                value: yaml::opt_str(v, "value", "environment entry: value must be a string")?,
            },
        )
    }
}

fn struct_seq_key_value_pair(v: &serde_yaml::Value, err: &str) -> Result<Vec<KeyValuePair>, String> {
    match yaml::as_sequence(v) {
        None => Err(err.to_owned()),
        Some(items) => {
            let mut out: Vec<KeyValuePair> = Vec::new();
            let mut i: usize = 0;
            while i < items.len()
                invariant
                    i <= items@.len(),
                decreases items@.len() - i,
            {
                out.push(KeyValuePair::from_yaml(&items[i])?);
                i = i + 1;
            }
            Ok(out)
        },
    }
}

fn struct_seq_environment_file(v: &serde_yaml::Value, err: &str) -> Result<Vec<EnvironmentFile>, String> {
    match yaml::as_sequence(v) {
        None => Err(err.to_owned()),
        Some(items) => {
            let mut out: Vec<EnvironmentFile> = Vec::new();
            let mut i: usize = 0;
            while i < items.len()
                invariant
                    i <= items@.len(),
                decreases items@.len() - i,
            {
                out.push(EnvironmentFile::from_yaml(&items[i])?);
                i = i + 1;
            }
            Ok(out)
        },
    }
}

fn struct_seq_host_entry(v: &serde_yaml::Value, err: &str) -> Result<Vec<HostEntry>, String> {
    match yaml::as_sequence(v) {
        None => Err(err.to_owned()),
        Some(items) => {
            let mut out: Vec<HostEntry> = Vec::new();
            let mut i: usize = 0;
            while i < items.len()
                invariant
                    i <= items@.len(),
                decreases items@.len() - i,
            {
                out.push(HostEntry::from_yaml(&items[i])?);
                i = i + 1;
            }
            Ok(out)
        },
    }
}

fn struct_seq_mount_point(v: &serde_yaml::Value, err: &str) -> Result<Vec<MountPoint>, String> {
    match yaml::as_sequence(v) {
        None => Err(err.to_owned()),
        Some(items) => {
            let mut out: Vec<MountPoint> = Vec::new();
            let mut i: usize = 0;
            while i < items.len()
                invariant
                    i <= items@.len(),
                decreases items@.len() - i,
            {
                out.push(MountPoint::from_yaml(&items[i])?);
                i = i + 1;
            }
            Ok(out)
        },
    }
}

fn struct_seq_port_mapping(v: &serde_yaml::Value, err: &str) -> Result<Vec<PortMapping>, String> {
    match yaml::as_sequence(v) {
        None => Err(err.to_owned()),
        Some(items) => {
            let mut out: Vec<PortMapping> = Vec::new();
            let mut i: usize = 0;
            while i < items.len()
                invariant
                    i <= items@.len(),
                decreases items@.len() - i,
            {
                out.push(PortMapping::from_yaml(&items[i])?);
                i = i + 1;
            }
            Ok(out)
        },
    }
}

fn struct_seq_ulimit(v: &serde_yaml::Value, err: &str) -> Result<Vec<Ulimit>, String> {
    match yaml::as_sequence(v) {
        None => Err(err.to_owned()),
        Some(items) => {
            let mut out: Vec<Ulimit> = Vec::new();
            let mut i: usize = 0;
            while i < items.len()
                invariant
                    i <= items@.len(),
                decreases items@.len() - i,
            {
                out.push(Ulimit::from_yaml(&items[i])?);
                i = i + 1;
            }
            Ok(out)
        },
    }
}

fn struct_seq_volume_from(v: &serde_yaml::Value, err: &str) -> Result<Vec<VolumeFrom>, String> {
    match yaml::as_sequence(v) {
        None => Err(err.to_owned()),
        Some(items) => {
            let mut out: Vec<VolumeFrom> = Vec::new();
            let mut i: usize = 0;
            while i < items.len()
                invariant
                    i <= items@.len(),
                decreases items@.len() - i,
            {
                out.push(VolumeFrom::from_yaml(&items[i])?);
                i = i + 1;
            }
            Ok(out)
        },
    }
}

fn struct_seq_secret(v: &serde_yaml::Value, err: &str) -> Result<Vec<Secret>, String> {
    match yaml::as_sequence(v) {
        None => Err(err.to_owned()),
        Some(items) => {
            let mut out: Vec<Secret> = Vec::new();
            let mut i: usize = 0;
            while i < items.len()
                invariant
                    i <= items@.len(),
                decreases items@.len() - i,
            {
                out.push(Secret::from_yaml(&items[i])?);
                i = i + 1;
            }
            Ok(out)
        },
    }
}

fn struct_seq_system_control(v: &serde_yaml::Value, err: &str) -> Result<Vec<SystemControl>, String> {
    match yaml::as_sequence(v) {
        None => Err(err.to_owned()),
        Some(items) => {
            let mut out: Vec<SystemControl> = Vec::new();
            let mut i: usize = 0;
            while i < items.len()
                invariant
                    i <= items@.len(),
                decreases items@.len() - i,
            {
                out.push(SystemControl::from_yaml(&items[i])?);
                i = i + 1;
            }
            Ok(out)
        },
    }
}

fn struct_seq_resource_requirement(v: &serde_yaml::Value, err: &str) -> Result<Vec<ResourceRequirement>, String> {
    match yaml::as_sequence(v) {
        None => Err(err.to_owned()),
        Some(items) => {
            let mut out: Vec<ResourceRequirement> = Vec::new();
            let mut i: usize = 0;
            while i < items.len()
                invariant
                    i <= items@.len(),
                decreases items@.len() - i,
            {
                out.push(ResourceRequirement::from_yaml(&items[i])?);
                i = i + 1;
            }
            Ok(out)
        },
    }
}

fn struct_seq_container_dependency(v: &serde_yaml::Value, err: &str) -> Result<Vec<ContainerDependency>, String> {
    match yaml::as_sequence(v) {
        None => Err(err.to_owned()),
        Some(items) => {
            let mut out: Vec<ContainerDependency> = Vec::new();
            let mut i: usize = 0;
            while i < items.len()
                invariant
                    i <= items@.len(),
                decreases items@.len() - i,
            {
                out.push(ContainerDependency::from_yaml(&items[i])?);
                i = i + 1;
            }
            Ok(out)
        },
    }
}

fn struct_seq_device(v: &serde_yaml::Value, err: &str) -> Result<Vec<Device>, String> {
    match yaml::as_sequence(v) {
        None => Err(err.to_owned()),
        Some(items) => {
            let mut out: Vec<Device> = Vec::new();
            let mut i: usize = 0;
            while i < items.len()
                invariant
                    i <= items@.len(),
                decreases items@.len() - i,
            {
                out.push(Device::from_yaml(&items[i])?);
                i = i + 1;
            }
            Ok(out)
        },
    }
}

fn struct_seq_tmpfs(v: &serde_yaml::Value, err: &str) -> Result<Vec<Tmpfs>, String> {
    match yaml::as_sequence(v) {
        None => Err(err.to_owned()),
        Some(items) => {
            let mut out: Vec<Tmpfs> = Vec::new();
            let mut i: usize = 0;
            while i < items.len()
                invariant
                    i <= items@.len(),
                decreases items@.len() - i,
            {
                out.push(Tmpfs::from_yaml(&items[i])?);
                i = i + 1;
            }
            Ok(out)
        },
    }
}

fn struct_seq_tag(v: &serde_yaml::Value, err: &str) -> Result<Vec<Tag>, String> {
    match yaml::as_sequence(v) {
        None => Err(err.to_owned()),
        Some(items) => {
            let mut out: Vec<Tag> = Vec::new();
            let mut i: usize = 0;
            while i < items.len()
                invariant
                    i <= items@.len(),
                decreases items@.len() - i,
            {
                out.push(Tag::from_yaml(&items[i])?);
                i = i + 1;
            }
            Ok(out)
        },
    }
}

fn struct_seq_load_balancer(v: &serde_yaml::Value, err: &str) -> Result<Vec<LoadBalancer>, String> {
    match yaml::as_sequence(v) {
        None => Err(err.to_owned()),
        Some(items) => {
            let mut out: Vec<LoadBalancer> = Vec::new();
            let mut i: usize = 0;
            while i < items.len()
                invariant
                    i <= items@.len(),
                decreases items@.len() - i,
            {
                out.push(LoadBalancer::from_yaml(&items[i])?);
                i = i + 1;
            }
            Ok(out)
        },
    }
}

fn struct_seq_service_registry(v: &serde_yaml::Value, err: &str) -> Result<Vec<ServiceRegistry>, String> {
    match yaml::as_sequence(v) {
        None => Err(err.to_owned()),
        Some(items) => {
            let mut out: Vec<ServiceRegistry> = Vec::new();
            let mut i: usize = 0;
            while i < items.len()
                invariant
                    i <= items@.len(),
                decreases items@.len() - i,
            {
                out.push(ServiceRegistry::from_yaml(&items[i])?);
                i = i + 1;
            }
            Ok(out)
        },
    }
}

fn struct_seq_volume(v: &serde_yaml::Value, err: &str) -> Result<Vec<Volume>, String> {
    match yaml::as_sequence(v) {
        None => Err(err.to_owned()),
        Some(items) => {
            let mut out: Vec<Volume> = Vec::new();
            let mut i: usize = 0;
            while i < items.len()
                invariant
                    i <= items@.len(),
                decreases items@.len() - i,
            {
                out.push(Volume::from_yaml(&items[i])?);
                i = i + 1;
            }
            Ok(out)
        },
    }
}

fn struct_seq_container_definition(v: &serde_yaml::Value, err: &str) -> Result<Vec<ContainerDefinition>, String> {
    match yaml::as_sequence(v) {
        None => Err(err.to_owned()),
        Some(items) => {
            let mut out: Vec<ContainerDefinition> = Vec::new();
            let mut i: usize = 0;
            while i < items.len()
                invariant
                    i <= items@.len(),
                decreases items@.len() - i,
            {
                out.push(ContainerDefinition::from_yaml(&items[i])?);
                i = i + 1;
            }
            Ok(out)
        },
    }
}

impl HostEntry {
    pub(crate) fn from_yaml(v: &serde_yaml::Value) -> Result<HostEntry, String> {
        Ok(
            HostEntry {
                hostname: yaml::req_str(v, "hostname", "extra host: hostname must be a string")?,
                ip_address: yaml::req_str(v, "ip_address", "extra host: ip_address must be a string")?,
            },
        )
    }
}

impl EnvironmentFile {
    pub(crate) fn from_yaml(v: &serde_yaml::Value) -> Result<EnvironmentFile, String> {
        Ok(
            EnvironmentFile {
                type_: yaml::req_str(v, "type_", "environment file: type_ must be a string")?,
                value: yaml::req_str(v, "value", "environment file: value must be a string")?,
            },
        )
    }
}

impl SystemControl {
    pub(crate) fn from_yaml(v: &serde_yaml::Value) -> Result<SystemControl, String> {
        Ok(
            SystemControl {
                namespace: yaml::opt_str(v, "namespace", "system control: namespace must be a string")?,
                value: yaml::opt_str(v, "value", "system control: value must be a string")?,
            },
        )
    }
}

impl Secret {
    pub(crate) fn from_yaml(v: &serde_yaml::Value) -> Result<Secret, String> {
        Ok(
            Secret {
                name: yaml::req_str(v, "name", "secret: name must be a string")?,
                value_from: yaml::req_str(v, "value_from", "secret: value_from must be a string")?,
            },
        )
    }
}

impl ResourceRequirement {
    pub(crate) fn from_yaml(v: &serde_yaml::Value) -> Result<ResourceRequirement, String> {
        Ok(
            ResourceRequirement {
                type_: yaml::req_str(v, "type_", "resource requirement: type_ must be a string")?,
                value: yaml::req_str(v, "value", "resource requirement: value must be a string")?,
            },
        )
    }
}

impl RepositoryCredentials {
    pub(crate) fn from_yaml(v: &serde_yaml::Value) -> Result<RepositoryCredentials, String> {
        Ok(
            RepositoryCredentials {
                credentials_parameter: yaml::req_str(v, "credentials_parameter", "repository credentials: credentials_parameter must be a string")?,
            },
        )
    }
}

impl FirelensConfiguration {
    pub(crate) fn from_yaml(v: &serde_yaml::Value) -> Result<FirelensConfiguration, String> {
        Ok(
            FirelensConfiguration {
                options: yaml::opt_str_map(v, "options", "firelens configuration: options must be a mapping of strings")?,
                type_: yaml::req_str(v, "type_", "firelens configuration: type_ must be a string")?,
            },
        )
    }
}

impl ContainerDependency {
    pub(crate) fn from_yaml(v: &serde_yaml::Value) -> Result<ContainerDependency, String> {
        Ok(
            ContainerDependency {
                condition: yaml::req_str(v, "condition", "container dependency: condition must be a string")?,
                container_name: yaml::req_str(v, "container_name", "container dependency: container_name must be a string")?,
            },
        )
    }
}

impl MountPoint {
    pub(crate) fn from_yaml(v: &serde_yaml::Value) -> Result<MountPoint, String> {
        Ok(
            MountPoint {
                container_path: yaml::opt_str(v, "container_path", "mount point: container_path must be a string")?,
                read_only: yaml::opt_bool(v, "read_only", "mount point: read_only must be a boolean")?,
                source_volume: yaml::opt_str(v, "source_volume", "mount point: source_volume must be a string")?,
            },
        )
    }
}

impl PortMapping {
    pub(crate) fn from_yaml(v: &serde_yaml::Value) -> Result<PortMapping, String> {
        Ok(
            PortMapping {
                container_port: yaml::opt_i64(v, "container_port", "port mapping: container_port must be an integer")?,
                host_port: yaml::opt_i64(v, "host_port", "port mapping: host_port must be an integer")?,
                protocol: yaml::opt_str(v, "protocol", "port mapping: protocol must be a string")?,
            },
        )
    }
}

impl Ulimit {
    pub(crate) fn from_yaml(v: &serde_yaml::Value) -> Result<Ulimit, String> {
        Ok(
            Ulimit {
                hard_limit: yaml::req_i64(v, "hard_limit", "ulimit: hard_limit must be an integer")?,
                name: yaml::req_str(v, "name", "ulimit: name must be a string")?,
                soft_limit: yaml::req_i64(v, "soft_limit", "ulimit: soft_limit must be an integer")?,
            },
        )
    }
}

impl VolumeFrom {
    pub(crate) fn from_yaml(v: &serde_yaml::Value) -> Result<VolumeFrom, String> {
        Ok(
            VolumeFrom {
                read_only: yaml::opt_bool(v, "read_only", "volume from: read_only must be a boolean")?,
                source_container: yaml::opt_str(v, "source_container", "volume from: source_container must be a string")?,
            },
        )
    }
}

impl LogConfiguration {
    pub(crate) fn from_yaml(v: &serde_yaml::Value) -> Result<LogConfiguration, String> {
        Ok(
            LogConfiguration {
                log_driver: yaml::req_str(v, "log_driver", "log configuration: log_driver must be a string")?,
                options: yaml::opt_str_map(v, "options", "log configuration: options must be a mapping of strings")?,
                secret_options: match yaml::opt_field(v, "secret_options") {
                Some(f) => Some(struct_seq_secret(f, "log configuration: secret_options must be a sequence")?),
                None => None,
            },
            },
        )
    }
}

impl HealthCheck {
    pub(crate) fn from_yaml(v: &serde_yaml::Value) -> Result<HealthCheck, String> {
        Ok(
            HealthCheck {
                command: yaml::req_str_seq(v, "command", "health check: command must be a sequence of strings")?,
                interval: yaml::opt_i64(v, "interval", "health check: interval must be an integer")?,
                retries: yaml::opt_i64(v, "retries", "health check: retries must be an integer")?,
                start_period: yaml::opt_i64(v, "start_period", "health check: start_period must be an integer")?,
                timeout: yaml::opt_i64(v, "timeout", "health check: timeout must be an integer")?,
            },
        )
    }
}

impl KernelCapabilities {
    pub(crate) fn from_yaml(v: &serde_yaml::Value) -> Result<KernelCapabilities, String> {
        Ok(
            KernelCapabilities {
                add: yaml::opt_str_seq(v, "add", "kernel capabilities: add must be a sequence of strings")?,
                drop: yaml::opt_str_seq(v, "drop", "kernel capabilities: drop must be a sequence of strings")?,
            },
        )
    }
}

impl Device {
    pub(crate) fn from_yaml(v: &serde_yaml::Value) -> Result<Device, String> {
        Ok(
            Device {
                container_path: yaml::opt_str(v, "container_path", "device: container_path must be a string")?,
                host_path: yaml::req_str(v, "host_path", "device: host_path must be a string")?,
                permissions: yaml::opt_str_seq(v, "permissions", "device: permissions must be a sequence of strings")?,
            },
        )
    }
}

impl Tmpfs {
    pub(crate) fn from_yaml(v: &serde_yaml::Value) -> Result<Tmpfs, String> {
        Ok(
            Tmpfs {
                container_path: yaml::req_str(v, "container_path", "tmpfs: container_path must be a string")?,
                mount_options: yaml::opt_str_seq(v, "mount_options", "tmpfs: mount_options must be a sequence of strings")?,
                size: yaml::req_i64(v, "size", "tmpfs: size must be an integer")?,
            },
        )
    }
}

impl LinuxParameters {
    pub(crate) fn from_yaml(v: &serde_yaml::Value) -> Result<LinuxParameters, String> {
        Ok(
            LinuxParameters {
                capabilities: match yaml::opt_field(v, "capabilities") {
                Some(f) => Some(KernelCapabilities::from_yaml(f)?),
                None => None,
            },
                devices: match yaml::opt_field(v, "devices") {
                Some(f) => Some(struct_seq_device(f, "linux parameters: devices must be a sequence")?),
                None => None,
            },
                init_process_enabled: yaml::opt_bool(v, "init_process_enabled", "linux parameters: init_process_enabled must be a boolean")?,
                shared_memory_size: yaml::opt_i64(v, "shared_memory_size", "linux parameters: shared_memory_size must be an integer")?,
                tmpfs: match yaml::opt_field(v, "tmpfs") {
                Some(f) => Some(struct_seq_tmpfs(f, "linux parameters: tmpfs must be a sequence")?),
                None => None,
            },
                max_swap: yaml::opt_i64(v, "max_swap", "linux parameters: max_swap must be an integer")?,
                swappiness: yaml::opt_i64(v, "swappiness", "linux parameters: swappiness must be an integer")?,
            },
        )
    }
}

impl Tag {
    pub(crate) fn from_yaml(v: &serde_yaml::Value) -> Result<Tag, String> {
        Ok(
            Tag {
                key: yaml::opt_str(v, "key", "tag: key must be a string")?,
                value: yaml::opt_str(v, "value", "tag: value must be a string")?,
            },
        )
    }
}

impl EFSAuthorizationConfig {
    pub(crate) fn from_yaml(v: &serde_yaml::Value) -> Result<EFSAuthorizationConfig, String> {
        Ok(
            EFSAuthorizationConfig {
                access_point_id: yaml::opt_str(v, "access_point_id", "filesystem authorization: access_point_id must be a string")?,
                iam: yaml::opt_str(v, "iam", "filesystem authorization: iam must be a string")?,
            },
        )
    }
}

impl EFSVolumeConfiguration {
    pub(crate) fn from_yaml(v: &serde_yaml::Value) -> Result<EFSVolumeConfiguration, String> {
        Ok(
            EFSVolumeConfiguration {
                authorization_config: match yaml::opt_field(v, "authorization_config") {
                Some(f) => Some(EFSAuthorizationConfig::from_yaml(f)?),
                None => None,
            },
                file_system_id: yaml::req_str(v, "file_system_id", "filesystem volume: file_system_id must be a string")?,
                root_directory: yaml::opt_str(v, "root_directory", "filesystem volume: root_directory must be a string")?,
                transit_encryption: yaml::opt_str(v, "transit_encryption", "filesystem volume: transit_encryption must be a string")?,
                transit_encryption_port: yaml::opt_i64(v, "transit_encryption_port", "filesystem volume: transit_encryption_port must be an integer")?,
            },
        )
    }
}

impl HostVolumeProperties {
    pub(crate) fn from_yaml(v: &serde_yaml::Value) -> Result<HostVolumeProperties, String> {
        Ok(
            HostVolumeProperties {
                source_path: yaml::opt_str(v, "source_path", "host volume: source_path must be a string")?,
            },
        )
    }
}

impl DockerVolumeConfiguration {
    pub(crate) fn from_yaml(v: &serde_yaml::Value) -> Result<DockerVolumeConfiguration, String> {
        Ok(
            DockerVolumeConfiguration {
                autoprovision: yaml::opt_bool(v, "autoprovision", "docker volume: autoprovision must be a boolean")?,
                driver: yaml::opt_str(v, "driver", "docker volume: driver must be a string")?,
                driver_opts: yaml::opt_str_map(v, "driver_opts", "docker volume: driver_opts must be a mapping of strings")?,
                labels: yaml::opt_str_map(v, "labels", "docker volume: labels must be a mapping of strings")?,
                scope: yaml::opt_str(v, "scope", "docker volume: scope must be a string")?,
            },
        )
    }
}

impl Volume {
    pub(crate) fn from_yaml(v: &serde_yaml::Value) -> Result<Volume, String> {
        Ok(
            Volume {
                docker_volume_configuration: match yaml::opt_field(v, "docker_volume_configuration") {
                Some(f) => Some(DockerVolumeConfiguration::from_yaml(f)?),
                None => None,
            },
                efs_volume_configuration: match yaml::opt_field(v, "efs_volume_configuration") {
                Some(f) => Some(EFSVolumeConfiguration::from_yaml(f)?),
                None => None,
            },
                host: match yaml::opt_field(v, "host") {
                Some(f) => Some(HostVolumeProperties::from_yaml(f)?),
                None => None,
            },
                name: yaml::opt_str(v, "name", "volume: name must be a string")?,
            },
        )
    }
}

impl ProxyConfiguration {
    pub(crate) fn from_yaml(v: &serde_yaml::Value) -> Result<ProxyConfiguration, String> {
        Ok(
            ProxyConfiguration {
                container_name: yaml::req_str(v, "container_name", "proxy configuration: container_name must be a string")?,
                properties: match yaml::opt_field(v, "properties") {
                Some(f) => Some(struct_seq_key_value_pair(f, "proxy configuration: properties must be a sequence")?),
                None => None,
            },
                type_: yaml::opt_str(v, "type_", "proxy configuration: type_ must be a string")?,
            },
        )
    }
}

impl DeploymentCircuitBreaker {
    pub(crate) fn from_yaml(v: &serde_yaml::Value) -> Result<DeploymentCircuitBreaker, String> {
        Ok(
            DeploymentCircuitBreaker {
                enable: yaml::req_bool(v, "enable", "deployment circuit breaker: enable must be a boolean")?,
                rollback: yaml::req_bool(v, "rollback", "deployment circuit breaker: rollback must be a boolean")?,
            },
        )
    }
}

impl DeploymentConfiguration {
    pub(crate) fn from_yaml(v: &serde_yaml::Value) -> Result<DeploymentConfiguration, String> {
        Ok(
            DeploymentConfiguration {
                maximum_percent: yaml::opt_i64(v, "maximum_percent", "deployment configuration: maximum_percent must be an integer")?,
                minimum_healthy_percent: yaml::opt_i64(v, "minimum_healthy_percent", "deployment configuration: minimum_healthy_percent must be an integer")?,
                deployment_circuit_breaker: match yaml::opt_field(v, "deployment_circuit_breaker") {
                Some(f) => Some(DeploymentCircuitBreaker::from_yaml(f)?),
                None => None,
            },
            },
        )
    }
}

impl LoadBalancer {
    pub(crate) fn from_yaml(v: &serde_yaml::Value) -> Result<LoadBalancer, String> {
        Ok(
            LoadBalancer {
                container_name: yaml::opt_str(v, "container_name", "load balancer: container_name must be a string")?,
                container_port: yaml::opt_i64(v, "container_port", "load balancer: container_port must be an integer")?,
                load_balancer_name: yaml::opt_str(v, "load_balancer_name", "load balancer: load_balancer_name must be a string")?,
                target_group_arn: yaml::opt_str(v, "target_group_arn", "load balancer: target_group_arn must be a string")?,
            },
        )
    }
}

impl ServiceRegistry {
    pub(crate) fn from_yaml(v: &serde_yaml::Value) -> Result<ServiceRegistry, String> {
        Ok(
            ServiceRegistry {
                container_name: yaml::opt_str(v, "container_name", "service registry: container_name must be a string")?,
                container_port: yaml::opt_i64(v, "container_port", "service registry: container_port must be an integer")?,
                port: yaml::opt_i64(v, "port", "service registry: port must be an integer")?,
                registry_arn: yaml::opt_str(v, "registry_arn", "service registry: registry_arn must be a string")?,
            },
        )
    }
}

impl AwsVpcConfiguration {
    pub(crate) fn from_yaml(v: &serde_yaml::Value) -> Result<AwsVpcConfiguration, String> {
        Ok(
            AwsVpcConfiguration {
                assign_public_ip: yaml::opt_str(v, "assign_public_ip", "network configuration: assign_public_ip must be a string")?,
                security_groups: yaml::opt_str_seq(v, "security_groups", "network configuration: security_groups must be a sequence of strings")?,
                subnets: yaml::req_str_seq(v, "subnets", "network configuration: subnets must be a sequence of strings")?,
            },
        )
    }
}

impl NetworkConfiguration {
    pub(crate) fn from_yaml(v: &serde_yaml::Value) -> Result<NetworkConfiguration, String> {
        Ok(
            NetworkConfiguration {
                awsvpc_configuration: match yaml::opt_field(v, "awsvpc_configuration") {
                Some(f) => Some(AwsVpcConfiguration::from_yaml(f)?),
                None => None,
            },
            },
        )
    }
}

impl ContainerDefinition {
    pub(crate) fn from_yaml(v: &serde_yaml::Value) -> Result<ContainerDefinition, String> {
        Ok(
            ContainerDefinition {
                command: yaml::opt_str_seq(v, "command", "container definition: command must be a sequence of strings")?,
                cpu: yaml::opt_i64(v, "cpu", "container definition: cpu must be an integer")?,
                disable_networking: yaml::opt_bool(v, "disable_networking", "container definition: disable_networking must be a boolean")?,
                dns_search_domains: yaml::opt_str_seq(v, "dns_search_domains", "container definition: dns_search_domains must be a sequence of strings")?,
                dns_servers: yaml::opt_str_seq(v, "dns_servers", "container definition: dns_servers must be a sequence of strings")?,
                docker_labels: yaml::opt_str_map(v, "docker_labels", "container definition: docker_labels must be a mapping of strings")?,
                docker_security_options: yaml::opt_str_seq(v, "docker_security_options", "container definition: docker_security_options must be a sequence of strings")?,
                entry_point: yaml::opt_str_seq(v, "entry_point", "container definition: entry_point must be a sequence of strings")?,
                environment: match yaml::opt_field(v, "environment") {
                Some(f) => Some(struct_seq_key_value_pair(f, "container definition: environment must be a sequence")?),
                None => None,
            },
                environment_files: match yaml::opt_field(v, "environment_files") {
                Some(f) => Some(struct_seq_environment_file(f, "container definition: environment_files must be a sequence")?),
                None => None,
            },
                essential: yaml::opt_bool(v, "essential", "container definition: essential must be a boolean")?,
                extra_hosts: match yaml::opt_field(v, "extra_hosts") {
                Some(f) => Some(struct_seq_host_entry(f, "container definition: extra_hosts must be a sequence")?),
                None => None,
            },
                hostname: yaml::opt_str(v, "hostname", "container definition: hostname must be a string")?,
                image: yaml::opt_str(v, "image", "container definition: image must be a string")?,
                interactive: yaml::opt_bool(v, "interactive", "container definition: interactive must be a boolean")?,
                links: yaml::opt_str_seq(v, "links", "container definition: links must be a sequence of strings")?,
                log_configuration: match yaml::opt_field(v, "log_configuration") {
                Some(f) => Some(LogConfiguration::from_yaml(f)?),
                None => None,
            },
                memory: yaml::opt_i64(v, "memory", "container definition: memory must be an integer")?,
                memory_reservation: yaml::opt_i64(v, "memory_reservation", "container definition: memory_reservation must be an integer")?,
                mount_points: match yaml::opt_field(v, "mount_points") {
                Some(f) => Some(struct_seq_mount_point(f, "container definition: mount_points must be a sequence")?),
                None => None,
            },
                name: yaml::opt_str(v, "name", "container definition: name must be a string")?,
                port_mappings: match yaml::opt_field(v, "port_mappings") {
                Some(f) => Some(struct_seq_port_mapping(f, "container definition: port_mappings must be a sequence")?),
                None => None,
            },
                privileged: yaml::opt_bool(v, "privileged", "container definition: privileged must be a boolean")?,
                pseudo_terminal: yaml::opt_bool(v, "pseudo_terminal", "container definition: pseudo_terminal must be a boolean")?,
                readonly_root_filesystem: yaml::opt_bool(v, "readonly_root_filesystem", "container definition: readonly_root_filesystem must be a boolean")?,
                repository_credentials: match yaml::opt_field(v, "repository_credentials") {
                Some(f) => Some(RepositoryCredentials::from_yaml(f)?),
                None => None,
            },
                resource_requirements: match yaml::opt_field(v, "resource_requirements") {
                Some(f) => Some(struct_seq_resource_requirement(f, "container definition: resource_requirements must be a sequence")?),
                None => None,
            },
                secrets: match yaml::opt_field(v, "secrets") {
                Some(f) => Some(struct_seq_secret(f, "container definition: secrets must be a sequence")?),
                None => None,
            },
                system_controls: match yaml::opt_field(v, "system_controls") {
                Some(f) => Some(struct_seq_system_control(f, "container definition: system_controls must be a sequence")?),
                None => None,
            },
                ulimits: match yaml::opt_field(v, "ulimits") {
                Some(f) => Some(struct_seq_ulimit(f, "container definition: ulimits must be a sequence")?),
                None => None,
            },
                user: yaml::opt_str(v, "user", "container definition: user must be a string")?,
                volumes_from: match yaml::opt_field(v, "volumes_from") {
                Some(f) => Some(struct_seq_volume_from(f, "container definition: volumes_from must be a sequence")?),
                None => None,
            },
                working_directory: yaml::opt_str(v, "working_directory", "container definition: working_directory must be a string")?,
                health_check: match yaml::opt_field(v, "health_check") {
                Some(f) => Some(HealthCheck::from_yaml(f)?),
                None => None,
            },
                linux_parameters: match yaml::opt_field(v, "linux_parameters") {
                Some(f) => Some(LinuxParameters::from_yaml(f)?),
                None => None,
            },
                depends_on: match yaml::opt_field(v, "depends_on") {
                Some(f) => Some(struct_seq_container_dependency(f, "container definition: depends_on must be a sequence")?),
                None => None,
            },
                firelens_configuration: match yaml::opt_field(v, "firelens_configuration") {
                Some(f) => Some(FirelensConfiguration::from_yaml(f)?),
                None => None,
            },
                start_timeout: yaml::opt_i64(v, "start_timeout", "container definition: start_timeout must be an integer")?,
                stop_timeout: yaml::opt_i64(v, "stop_timeout", "container definition: stop_timeout must be an integer")?,
            },
        )
    }
}

impl TaskDefinition {
    pub(crate) fn from_yaml(v: &serde_yaml::Value) -> Result<TaskDefinition, String> {
        Ok(
            TaskDefinition {
                family: yaml::req_str(v, "family", "task definition: family must be a string")?,
                container_definitions: match yaml::get(v, "container_definitions") {
                Some(f) => struct_seq_container_definition(f, "task definition: container_definitions must be a sequence")?,
                None => {
                    return Err("task definition: container_definitions is required".to_owned());
                },
            },
                task_role_arn: yaml::opt_str(v, "task_role_arn", "task definition: task_role_arn must be a string")?,
                network_mode: yaml::opt_str(v, "network_mode", "task definition: network_mode must be a string")?,
                volumes: match yaml::opt_field(v, "volumes") {
                Some(f) => Some(struct_seq_volume(f, "task definition: volumes must be a sequence")?),
                None => None,
            },
                requires_compatibilities: yaml::opt_str_seq(v, "requires_compatibilities", "task definition: requires_compatibilities must be a sequence of strings")?,
                execution_role_arn: yaml::opt_str(v, "execution_role_arn", "task definition: execution_role_arn must be a string")?,
                cpu: yaml::opt_str(v, "cpu", "task definition: cpu must be a string")?,
                memory: yaml::opt_str(v, "memory", "task definition: memory must be a string")?,
                proxy_configuration: match yaml::opt_field(v, "proxy_configuration") {
                Some(f) => Some(ProxyConfiguration::from_yaml(f)?),
                None => None,
            },
            },
        )
    }
}

impl Service {
    pub(crate) fn from_yaml(v: &serde_yaml::Value) -> Result<Service, String> {
        Ok(
            Service {
                name: yaml::req_str(v, "name", "service: name must be a string")?,
                desired_count: yaml::opt_i64(v, "desired_count", "service: desired_count must be an integer")?,
                deployment_configuration: match yaml::opt_field(v, "deployment_configuration") {
                Some(f) => Some(DeploymentConfiguration::from_yaml(f)?),
                None => None,
            },
                load_balancers: match yaml::opt_field(v, "load_balancers") {
                Some(f) => Some(struct_seq_load_balancer(f, "service: load_balancers must be a sequence")?),
                None => None,
            },
                task_definition: match yaml::get(v, "task_definition") {
                Some(f) => TaskDefinition::from_yaml(f)?,
                None => {
                    return Err("service: task_definition is required".to_owned());
                },
            },
                role: yaml::opt_str(v, "role", "service: role must be a string")?,
                launch_type: yaml::opt_str(v, "launch_type", "service: launch_type must be a string")?,
                network_configuration: match yaml::opt_field(v, "network_configuration") {
                Some(f) => Some(NetworkConfiguration::from_yaml(f)?),
                None => None,
            },
                service_registries: match yaml::opt_field(v, "service_registries") {
                Some(f) => Some(struct_seq_service_registry(f, "service: service_registries must be a sequence")?),
                None => None,
            },
                platform_version: yaml::opt_str(v, "platform_version", "service: platform_version must be a string")?,
                enable_execute_command: yaml::opt_bool(v, "enable_execute_command", "service: enable_execute_command must be a boolean")?,
                tags: match yaml::opt_field(v, "tags") {
                Some(f) => Some(struct_seq_tag(f, "service: tags must be a sequence")?),
                None => None,
            },
            },
        )
    }
}

} // verus!
