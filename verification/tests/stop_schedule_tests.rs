use racco::command::cloudwatch_events::{auto_generated_target_id, Target};
use racco::command::ecs::{Cluster, Service, TaskDefinition};
use racco::command::error::CommandError;
use racco::command::schedule_task_delete::{
    Command as DeleteCommand, DeleteAction, DeleteEvent, Executer as DeleteExecuter,
    ScheduleTaskDeleteCommand,
};
use racco::command::schedule_task_put::{
    Executer as PutExecuter, PutAction, PutEvent, ScheduleTaskPutCommand,
};
use racco::command::service_stop::{Executer as StopExecuter, ExecuterOptions, StopAction, StopEvent};
use racco::config;
use racco::config::cloudwatch_events::ScheduleRule;
use racco::config::command::{Config, ScheduleTaskConfig, ServiceConfig};

fn task_definition_conf(family: &str) -> config::ecs::TaskDefinition {
    config::ecs::TaskDefinition {
        family: family.to_string(),
        container_definitions: Vec::new(),
        task_role_arn: None,
        network_mode: None,
        volumes: None,
        requires_compatibilities: None,
        execution_role_arn: None,
        cpu: None,
        memory: None,
        proxy_configuration: None,
    }
}

fn service_conf(name: &str) -> ServiceConfig {
    ServiceConfig {
        name: name.to_string(),
        cluster: "main".to_string(),
        service: config::ecs::Service {
            name: name.to_string(),
            desired_count: Some(2),
            deployment_configuration: None,
            load_balancers: None,
            task_definition: task_definition_conf(name),
            role: None,
            launch_type: None,
            network_configuration: None,
            service_registries: None,
            platform_version: None,
            enable_execute_command: None,
            tags: None,
        },
    }
}

fn schedule_conf(name: &str, rule_name: &str) -> ScheduleTaskConfig {
    ScheduleTaskConfig {
        name: name.to_string(),
        cluster: "main".to_string(),
        task_definition: task_definition_conf(name),
        rule: ScheduleRule {
            name: rule_name.to_string(),
            schedule_expression: "cron(0 12 * * ? *)".to_string(),
        },
        rule_targets_role_arn: None,
    }
}

#[test]
fn stop_of_nonexistent_service_succeeds_without_mutation() {
    let mut m = StopExecuter::from_config(service_conf("web"), ExecuterOptions { no_wait: true });
    assert!(matches!(m.step(StopEvent::Start), StopAction::DescribeService));
    let draining = Service {
        status: Some("DRAINING".to_string()),
        deployments: None,
    };
    assert!(matches!(
        m.step(StopEvent::ServicesDescribed(Some(vec![draining]))),
        StopAction::Succeed
    ));
    assert!(!m.updated);
    assert!(m.is_terminal());
}

#[test]
fn stop_updates_desired_count_to_zero() {
    let mut m = StopExecuter::from_config(service_conf("web"), ExecuterOptions { no_wait: true });
    m.step(StopEvent::Start);
    let active = Service {
        status: Some("ACTIVE".to_string()),
        deployments: None,
    };
    assert!(matches!(
        m.step(StopEvent::ServicesDescribed(Some(vec![active]))),
        StopAction::DescribeTaskDefinition
    ));
    let td = TaskDefinition {
        task_definition_arn: Some("arn:td/web:3".to_string()),
        family: Some("web".to_string()),
        revision: Some(3),
    };
    match m.step(StopEvent::TaskDefinitionDescribed(Some(td))) {
        StopAction::UpdateService { desired_count } => assert_eq!(desired_count, Some(0)),
        other => panic!("expected an update, got {:?}", other),
    }
    assert!(m.updated);
    let updated = Service {
        status: Some("ACTIVE".to_string()),
        deployments: None,
    };
    assert!(matches!(m.step(StopEvent::ServiceUpdated(Some(updated))), StopAction::Succeed));
}

#[test]
fn stop_fails_when_task_definition_is_missing() {
    let mut m = StopExecuter::from_config(service_conf("web"), ExecuterOptions { no_wait: true });
    m.step(StopEvent::Start);
    let active = Service {
        status: Some("ACTIVE".to_string()),
        deployments: None,
    };
    m.step(StopEvent::ServicesDescribed(Some(vec![active])));
    assert!(matches!(
        m.step(StopEvent::TaskDefinitionDescribed(None)),
        StopAction::Fail(CommandError::Unknown)
    ));
}

#[test]
fn deleting_a_missing_rule_succeeds_without_mutation() {
    let mut m = DeleteExecuter::new("nightly-job".to_string());
    assert!(matches!(m.step(DeleteEvent::Start), DeleteAction::DescribeRule));
    assert!(matches!(m.step(DeleteEvent::RuleChecked(false)), DeleteAction::Succeed));
    assert!(!m.removed);
    assert!(!m.deleted);
    assert!(m.is_terminal());
}

#[test]
fn targets_are_removed_before_the_rule_is_deleted() {
    let mut m = DeleteExecuter::new("nightly-job".to_string());
    m.step(DeleteEvent::Start);
    assert!(matches!(m.step(DeleteEvent::RuleChecked(true)), DeleteAction::ListTargets));
    let targets = vec![
        Target { id: "nightly-job_target_1".to_string() },
        Target { id: "stray".to_string() },
    ];
    assert!(matches!(
        m.step(DeleteEvent::TargetsListed(Some(targets))),
        DeleteAction::RemoveTargets
    ));
    assert!(m.removed && !m.deleted);
    assert_eq!(m.target_ids(), vec!["nightly-job_target_1", "stray"]);
    assert!(matches!(m.step(DeleteEvent::TargetsRemoved), DeleteAction::DeleteRule));
    assert!(m.deleted);
    assert!(matches!(m.step(DeleteEvent::RuleDeleted), DeleteAction::Succeed));
}

#[test]
fn target_removal_is_skipped_when_there_are_none() {
    let mut m = DeleteExecuter::new("nightly-job".to_string());
    m.step(DeleteEvent::Start);
    m.step(DeleteEvent::RuleChecked(true));
    assert!(matches!(
        m.step(DeleteEvent::TargetsListed(Some(Vec::new()))),
        DeleteAction::DeleteRule
    ));
    assert!(!m.removed && m.deleted);
    assert!(matches!(m.step(DeleteEvent::RuleDeleted), DeleteAction::Succeed));
}

#[test]
fn generated_target_id_appends_the_suffix() {
    let rule = ScheduleRule {
        name: "nightly-job".to_string(),
        schedule_expression: "cron(0 0 * * ? *)".to_string(),
    };
    assert_eq!(auto_generated_target_id(&rule), "nightly-job_target_1");
    let other = ScheduleRule {
        name: "x".to_string(),
        schedule_expression: "rate(5 minutes)".to_string(),
    };
    assert_eq!(auto_generated_target_id(&other), "x_target_1");
}

#[test]
fn put_resolves_cluster_then_registers_then_puts() {
    let mut m = PutExecuter::from_config(schedule_conf("night", "nightly-job"));
    assert!(matches!(m.step(PutEvent::Start), PutAction::DescribeCluster));
    let clusters = vec![
        Cluster {
            cluster_arn: Some("arn:cluster/old".to_string()),
            status: Some("INACTIVE".to_string()),
        },
        Cluster {
            cluster_arn: Some("arn:cluster/main".to_string()),
            status: Some("ACTIVE".to_string()),
        },
    ];
    assert!(matches!(
        m.step(PutEvent::ClustersDescribed(Some(clusters))),
        PutAction::RegisterTaskDefinition
    ));
    assert_eq!(m.cluster_arn.as_deref(), Some("arn:cluster/main"));
    let td = TaskDefinition {
        task_definition_arn: Some("arn:td/night:1".to_string()),
        family: Some("night".to_string()),
        revision: Some(1),
    };
    assert!(matches!(m.step(PutEvent::TaskDefinitionRegistered(Some(td))), PutAction::PutRule));
    assert_eq!(m.task_definition_arn.as_deref(), Some("arn:td/night:1"));
    assert!(matches!(m.step(PutEvent::RulePut), PutAction::PutTarget));
    assert_eq!(m.target_id(), "nightly-job_target_1");
    assert!(matches!(m.step(PutEvent::TargetPut), PutAction::Succeed));
    assert!(m.is_terminal());
}

#[test]
fn put_fails_without_an_active_cluster() {
    let mut m = PutExecuter::from_config(schedule_conf("night", "nightly-job"));
    m.step(PutEvent::Start);
    let clusters = vec![Cluster {
        cluster_arn: Some("arn:cluster/old".to_string()),
        status: Some("INACTIVE".to_string()),
    }];
    assert!(matches!(
        m.step(PutEvent::ClustersDescribed(Some(clusters))),
        PutAction::Fail(CommandError::Unknown)
    ));
}

#[test]
fn schedule_commands_resolve_names() {
    let config = Config {
        version: None,
        service: None,
        run_task: None,
        schedule_task: Some(vec![
            schedule_conf("night", "nightly-job"),
            schedule_conf("weekly", "weekly-job"),
        ]),
        params: None,
    };
    let put_old = ScheduleTaskPutCommand::new(&config, "weekly");
    assert_eq!(put_old.run(), vec![1]);
    let put_new = racco::command::schedule_task_put::Command::new(&config, None, true);
    assert_eq!(put_new.run(), vec![0, 1]);
    let sched_old = racco::command::schedule_task::ScheduleTaskCommand::new(&config, "night");
    assert_eq!(sched_old.run(), vec![0]);

    let del_named = DeleteCommand::new(&config, Some("nightly-job"), false);
    assert_eq!(del_named.run(), vec!["nightly-job"]);
    let del_all = DeleteCommand::new(&config, None, true);
    assert_eq!(del_all.run(), vec!["nightly-job", "weekly-job"]);
    let del_old = ScheduleTaskDeleteCommand::new(&config, "weekly-job");
    assert_eq!(del_old.run(), vec!["weekly-job"]);
}
