use racco::command::ecs::{
    detect_task_definition_changes, service_is_stable, Deployment, Service, TaskDefinition,
};
use racco::command::error::CommandError;
use racco::command::service_deploy::{
    Command, DeployAction, DeployEvent, DeployPhase, Executer, ExecuterOptions,
};
use racco::config;
use racco::config::command::{Config, ServiceConfig};

fn task_definition_conf() -> config::ecs::TaskDefinition {
    config::ecs::TaskDefinition {
        family: "web".to_string(),
        container_definitions: Vec::new(),
        task_role_arn: None,
        network_mode: None,
        volumes: None,
        requires_compatibilities: None,
        execution_role_arn: None,
        cpu: None,
        memory: None,
        proxy_configuration: None,
    }
}

fn service_conf(name: &str) -> ServiceConfig {
    ServiceConfig {
        name: name.to_string(),
        cluster: "main".to_string(),
        service: config::ecs::Service {
            name: name.to_string(),
            desired_count: Some(2),
            deployment_configuration: None,
            load_balancers: None,
            task_definition: task_definition_conf(),
            role: None,
            launch_type: None,
            network_configuration: None,
            service_registries: None,
            platform_version: None,
            enable_execute_command: None,
            tags: None,
        },
    }
}

fn remote_td(arn: &str) -> TaskDefinition {
    TaskDefinition {
        task_definition_arn: Some(arn.to_string()),
        family: Some("web".to_string()),
        revision: Some(7),
    }
}

fn service_with_deployments(status: &str, deployments: Vec<Deployment>) -> Service {
    Service {
        status: Some(status.to_string()),
        deployments: Some(deployments),
    }
}

fn deployment(status: &str, desired: Option<i64>, running: Option<i64>) -> Deployment {
    Deployment {
        status: Some(status.to_string()),
        desired_count: desired,
        running_count: running,
    }
}

#[test]
fn change_detection_always_reports_a_change() {
    assert!(detect_task_definition_changes(&task_definition_conf(), &remote_td("arn:td/web:7")));
    let other = TaskDefinition {
        task_definition_arn: None,
        family: Some("other".to_string()),
        revision: None,
    };
    assert!(detect_task_definition_changes(&task_definition_conf(), &other));
}

#[test]
fn stability_needs_primary_with_equal_counts() {
    let stable = service_with_deployments("ACTIVE", vec![deployment("PRIMARY", Some(2), Some(2))]);
    assert!(service_is_stable(&stable));

    let rolling = service_with_deployments("ACTIVE", vec![deployment("PRIMARY", Some(2), Some(1))]);
    assert!(!service_is_stable(&rolling));

    let counts_missing =
        service_with_deployments("ACTIVE", vec![deployment("PRIMARY", Some(2), None)]);
    assert!(!service_is_stable(&counts_missing));
}

#[test]
fn non_primary_deployment_never_counts_as_stable() {
    let only_secondary =
        service_with_deployments("ACTIVE", vec![deployment("SECONDARY", Some(2), Some(2))]);
    assert!(!service_is_stable(&only_secondary));

    let mixed = service_with_deployments(
        "ACTIVE",
        vec![
            deployment("SECONDARY", Some(2), Some(2)),
            deployment("PRIMARY", Some(2), Some(0)),
        ],
    );
    assert!(!service_is_stable(&mixed));
}

#[test]
fn deploy_creates_when_no_active_service_exists() {
    let mut m = Executer::from_config(service_conf("web"), ExecuterOptions { no_wait: false });
    assert!(matches!(m.step(DeployEvent::Start), DeployAction::DescribeTaskDefinition));
    assert!(matches!(
        m.step(DeployEvent::TaskDefinitionDescribed(None)),
        DeployAction::RegisterTaskDefinition
    ));
    assert!(m.registered);
    assert!(matches!(
        m.step(DeployEvent::TaskDefinitionRegistered(Some(remote_td("arn:td/web:8")))),
        DeployAction::DescribeService
    ));
    assert_eq!(m.task_definition_arn.as_deref(), Some("arn:td/web:8"));
    let draining = service_with_deployments("DRAINING", vec![]);
    assert!(matches!(
        m.step(DeployEvent::ServicesDescribed(Some(vec![draining]))),
        DeployAction::CreateService
    ));
    assert!(m.created && !m.updated);
    let created = service_with_deployments("ACTIVE", vec![]);
    assert!(matches!(
        m.step(DeployEvent::ServiceCreated(Some(created))),
        DeployAction::PollService
    ));
    let stable = service_with_deployments("ACTIVE", vec![deployment("PRIMARY", Some(2), Some(2))]);
    assert!(matches!(
        m.step(DeployEvent::ServiceObserved(Some(vec![stable]))),
        DeployAction::Succeed
    ));
    assert!(matches!(m.phase, DeployPhase::Done));
}

#[test]
fn deploy_updates_when_an_active_service_exists() {
    let mut m = Executer::from_config(service_conf("web"), ExecuterOptions { no_wait: true });
    m.step(DeployEvent::Start);
    m.step(DeployEvent::TaskDefinitionDescribed(Some(remote_td("arn:td/web:7"))));
    let active = service_with_deployments("ACTIVE", vec![]);
    assert!(matches!(
        m.step(DeployEvent::ServicesDescribed(Some(vec![active]))),
        DeployAction::UpdateService
    ));
    assert!(m.updated && !m.created);
    let updated = service_with_deployments("ACTIVE", vec![]);
    assert!(matches!(m.step(DeployEvent::ServiceUpdated(Some(updated))), DeployAction::Succeed));
    assert!(m.is_terminal());
}

#[test]
fn deploy_keeps_polling_until_primary_is_stable() {
    let mut m = Executer::from_config(service_conf("web"), ExecuterOptions { no_wait: false });
    m.step(DeployEvent::Start);
    m.step(DeployEvent::TaskDefinitionDescribed(Some(remote_td("arn:td/web:7"))));
    m.step(DeployEvent::ServicesDescribed(Some(vec![service_with_deployments("ACTIVE", vec![])])));
    m.step(DeployEvent::ServiceUpdated(Some(service_with_deployments("ACTIVE", vec![]))));
    let rolling = service_with_deployments("ACTIVE", vec![deployment("PRIMARY", Some(2), Some(1))]);
    assert!(matches!(
        m.step(DeployEvent::ServiceObserved(Some(vec![rolling]))),
        DeployAction::PollService
    ));
    let secondary_done =
        service_with_deployments("ACTIVE", vec![deployment("SECONDARY", Some(2), Some(2))]);
    assert!(matches!(
        m.step(DeployEvent::ServiceObserved(Some(vec![secondary_done]))),
        DeployAction::PollService
    ));
    let stable = service_with_deployments("ACTIVE", vec![deployment("PRIMARY", Some(2), Some(2))]);
    assert!(matches!(
        m.step(DeployEvent::ServiceObserved(Some(vec![stable]))),
        DeployAction::Succeed
    ));
}

#[test]
fn deploy_fails_when_describe_breaks_its_promise() {
    let mut m = Executer::from_config(service_conf("web"), ExecuterOptions { no_wait: false });
    m.step(DeployEvent::Start);
    m.step(DeployEvent::TaskDefinitionDescribed(Some(remote_td("arn:td/web:7"))));
    assert!(matches!(
        m.step(DeployEvent::ServicesDescribed(None)),
        DeployAction::Fail(CommandError::Unknown)
    ));
    assert!(m.is_terminal());
}

#[test]
fn deploy_command_selects_by_name_or_all() {
    let config = Config {
        version: None,
        service: Some(vec![service_conf("web"), service_conf("api")]),
        run_task: None,
        schedule_task: None,
        params: None,
    };
    let named = Command::new(&config, Some("api"), false, false);
    assert_eq!(named.run(), vec![1]);
    let all = Command::new(&config, None, false, true);
    assert_eq!(all.run(), vec![0, 1]);
    let neither = Command::new(&config, None, false, false);
    assert_eq!(neither.run(), Vec::<usize>::new());
}
