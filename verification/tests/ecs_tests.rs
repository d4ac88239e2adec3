use racco::command::configtest;
use racco::command::ecs::{
    first_active_cluster, first_active_service, first_primary_deployment, task_description_of,
    Cluster, Deployment, Failure, Service, Task,
};
use racco::command::error::CommandError;
use racco::config::command::Config;

fn cluster(arn: &str, status: &str) -> Cluster {
    Cluster {
        cluster_arn: Some(arn.to_string()),
        status: Some(status.to_string()),
    }
}

fn service(status: &str) -> Service {
    Service {
        status: Some(status.to_string()),
        deployments: None,
    }
}

#[test]
fn first_active_skips_inactive_duplicates() {
    let clusters = vec![
        cluster("arn:1", "INACTIVE"),
        cluster("arn:2", "ACTIVE"),
        cluster("arn:3", "ACTIVE"),
    ];
    assert_eq!(first_active_cluster(&clusters), Some(1));
    assert_eq!(first_active_cluster(&vec![cluster("arn:1", "INACTIVE")]), None);

    let services = vec![service("DRAINING"), service("ACTIVE")];
    assert_eq!(first_active_service(&services), Some(1));
    assert_eq!(first_active_service(&Vec::new()), None);
}

#[test]
fn first_primary_deployment_is_found_by_status() {
    let deployments = vec![
        Deployment {
            status: Some("SECONDARY".to_string()),
            desired_count: Some(1),
            running_count: Some(1),
        },
        Deployment {
            status: Some("PRIMARY".to_string()),
            desired_count: Some(2),
            running_count: Some(0),
        },
    ];
    assert_eq!(first_primary_deployment(&deployments), Some(1));
    assert_eq!(first_primary_deployment(&Vec::new()), None);
}

#[test]
fn task_description_takes_the_first_task_and_failure() {
    let tasks = vec![
        Task {
            task_arn: Some("arn:task/1".to_string()),
            last_status: Some("RUNNING".to_string()),
            stopped_reason: None,
            containers: None,
        },
        Task {
            task_arn: Some("arn:task/2".to_string()),
            last_status: Some("STOPPED".to_string()),
            stopped_reason: None,
            containers: None,
        },
    ];
    let failures = vec![Failure { reason: Some("why".to_string()) }];
    let d = task_description_of(Some(tasks), Some(failures)).unwrap();
    assert_eq!(d.task.unwrap().task_arn.as_deref(), Some("arn:task/1"));
    assert_eq!(d.failure.unwrap().reason.as_deref(), Some("why"));
}

#[test]
fn task_description_without_tasks_is_unknown() {
    assert_eq!(task_description_of(None, None), Err(CommandError::Unknown));
    assert_eq!(task_description_of(Some(Vec::new()), None), Err(CommandError::Unknown));
}

#[test]
fn command_error_descriptions() {
    assert_eq!(CommandError::CommandNotFound.description(), "Unknown command");
    assert_eq!(CommandError::Unknown.description(), "Unexpected error occurred");
}

#[test]
fn configtest_command_holds_the_configuration() {
    let config = Config {
        version: Some("~0.1.0".to_string()),
        service: None,
        run_task: None,
        schedule_task: None,
        params: None,
    };
    let cmd = configtest::Command::new(&config);
    assert_eq!(cmd.config.version.as_deref(), Some("~0.1.0"));
}
