use racco::command::ecs::{Container, Failure, Task, TaskDescription};
use racco::command::run_task::{
    check_stopped, Command, Executer, ExecuterOptions, RunTaskAction, RunTaskEvent, RunTaskPhase,
    TaskCheck, TaskFailure,
};
use racco::config::command::{Config, RunTaskConfig};
use racco::config::ecs::TaskDefinition;

fn task_definition() -> TaskDefinition {
    TaskDefinition {
        family: "job".to_string(),
        container_definitions: Vec::new(),
        task_role_arn: None,
        network_mode: None,
        volumes: None,
        requires_compatibilities: None,
        execution_role_arn: None,
        cpu: None,
        memory: None,
        proxy_configuration: None,
    }
}

fn run_task_config(name: &str) -> RunTaskConfig {
    RunTaskConfig {
        name: name.to_string(),
        cluster: "main".to_string(),
        task_definition: task_definition(),
        launch_type: None,
        network_configuration: None,
    }
}

fn stopped_task(exit_code: Option<i64>, container_reason: Option<&str>) -> TaskDescription {
    TaskDescription {
        task: Some(Task {
            task_arn: Some("arn:task/1".to_string()),
            last_status: Some("STOPPED".to_string()),
            stopped_reason: None,
            containers: Some(vec![Container {
                exit_code,
                reason: container_reason.map(|s| s.to_string()),
            }]),
        }),
        failure: None,
    }
}

#[test]
fn exit_code_zero_is_success() {
    assert!(matches!(check_stopped(stopped_task(Some(0), None)), TaskCheck::Stopped));
}

#[test]
fn exit_code_137_is_failure_naming_the_code() {
    let r = check_stopped(stopped_task(Some(137), None));
    match r {
        TaskCheck::Failed(f) => {
            assert!(matches!(f, TaskFailure::NonzeroExit { code: 137 }));
            assert!(f.message().contains("137"));
        }
        _ => panic!("expected a failure"),
    }
}

#[test]
fn missing_exit_code_reports_container_reason() {
    let r = check_stopped(stopped_task(None, Some("OutOfMemoryError")));
    match r {
        TaskCheck::Failed(TaskFailure::NoExitCode { reason }) => {
            assert_eq!(reason.as_deref(), Some("OutOfMemoryError"));
        }
        _ => panic!("expected a missing-exit-code failure"),
    }
    let msg = check_stopped(stopped_task(None, Some("OutOfMemoryError")));
    if let TaskCheck::Failed(f) = msg {
        assert_eq!(
            f.message(),
            "Failed running task by some reason: OutOfMemoryError"
        );
    }
}

#[test]
fn scheduling_failure_takes_precedence_over_clean_exit() {
    let mut d = stopped_task(Some(0), None);
    d.failure = Some(Failure {
        reason: Some("RESOURCE:MEMORY".to_string()),
    });
    let r = check_stopped(d);
    match r {
        TaskCheck::Failed(TaskFailure::Scheduling { reason }) => {
            assert_eq!(reason.as_deref(), Some("RESOURCE:MEMORY"));
        }
        _ => panic!("the scheduling failure must win"),
    }
}

#[test]
fn missing_task_is_failure() {
    let d = TaskDescription {
        task: None,
        failure: None,
    };
    let r = check_stopped(d);
    match r {
        TaskCheck::Failed(f) => assert_eq!(f.message(), "No task found"),
        _ => panic!("expected a failure"),
    }
}

#[test]
fn running_task_is_not_terminal() {
    let d = TaskDescription {
        task: Some(Task {
            task_arn: Some("arn:task/1".to_string()),
            last_status: Some("RUNNING".to_string()),
            stopped_reason: None,
            containers: None,
        }),
        failure: None,
    };
    assert!(matches!(check_stopped(d), TaskCheck::Running { .. }));
}

#[test]
fn abnormal_stop_reason_is_failure() {
    let mut d = stopped_task(Some(0), None);
    if let Some(t) = d.task.as_mut() {
        t.stopped_reason = Some("Task stopped by user".to_string());
    }
    let r = check_stopped(d);
    match r {
        TaskCheck::Failed(TaskFailure::AbnormalStop { reason }) => {
            assert_eq!(reason, "Task stopped by user");
        }
        _ => panic!("expected an abnormal stop"),
    }
}

#[test]
fn normal_stop_sentinel_is_not_abnormal() {
    let mut d = stopped_task(Some(0), None);
    if let Some(t) = d.task.as_mut() {
        t.stopped_reason = Some("Essential container in task exited".to_string());
    }
    assert!(matches!(check_stopped(d), TaskCheck::Stopped));
}

#[test]
fn run_task_machine_registers_runs_and_waits() {
    let mut m = Executer::from_config(run_task_config("job"), ExecuterOptions { no_wait: false });
    assert!(matches!(m.step(RunTaskEvent::Start), RunTaskAction::RegisterTaskDefinition));
    let td = racco::command::ecs::TaskDefinition {
        task_definition_arn: Some("arn:td/job:4".to_string()),
        family: Some("job".to_string()),
        revision: Some(4),
    };
    assert!(matches!(
        m.step(RunTaskEvent::TaskDefinitionRegistered(Some(td))),
        RunTaskAction::RunTask
    ));
    assert_eq!(m.task_definition_arn.as_deref(), Some("arn:td/job:4"));
    let running = TaskDescription {
        task: Some(Task {
            task_arn: Some("arn:task/9".to_string()),
            last_status: Some("PENDING".to_string()),
            stopped_reason: None,
            containers: None,
        }),
        failure: None,
    };
    assert!(matches!(
        m.step(RunTaskEvent::TaskStarted(running)),
        RunTaskAction::DescribeTask
    ));
    assert_eq!(m.task_arn.as_deref(), Some("arn:task/9"));
    assert!(matches!(
        m.step(RunTaskEvent::TaskObserved(stopped_task(Some(0), None))),
        RunTaskAction::Succeed
    ));
    assert!(m.is_terminal());
    assert!(matches!(m.phase, RunTaskPhase::Done));
}

#[test]
fn run_task_machine_no_wait_succeeds_at_once() {
    let mut m = Executer::from_config(run_task_config("job"), ExecuterOptions { no_wait: true });
    m.step(RunTaskEvent::Start);
    let td = racco::command::ecs::TaskDefinition {
        task_definition_arn: Some("arn:td/job:4".to_string()),
        family: None,
        revision: None,
    };
    m.step(RunTaskEvent::TaskDefinitionRegistered(Some(td)));
    let running = TaskDescription {
        task: Some(Task {
            task_arn: Some("arn:task/9".to_string()),
            last_status: Some("PENDING".to_string()),
            stopped_reason: None,
            containers: None,
        }),
        failure: None,
    };
    assert!(matches!(m.step(RunTaskEvent::TaskStarted(running)), RunTaskAction::Succeed));
}

#[test]
fn run_task_machine_fails_without_registered_arn() {
    let mut m = Executer::from_config(run_task_config("job"), ExecuterOptions { no_wait: false });
    m.step(RunTaskEvent::Start);
    let td = racco::command::ecs::TaskDefinition {
        task_definition_arn: None,
        family: Some("job".to_string()),
        revision: None,
    };
    assert!(matches!(
        m.step(RunTaskEvent::TaskDefinitionRegistered(Some(td))),
        RunTaskAction::Fail(TaskFailure::TaskDefinitionArnMissing)
    ));
    assert!(m.is_terminal());
}

#[test]
fn run_task_command_selects_by_name() {
    let config = Config {
        version: None,
        service: None,
        run_task: Some(vec![
            run_task_config("alpha"),
            run_task_config("beta"),
            run_task_config("alpha"),
        ]),
        schedule_task: None,
        params: None,
    };
    let cmd = Command::new(&config, "alpha", false);
    assert_eq!(cmd.run(), vec![0, 2]);
    let old = racco::command::run_task::RunTaskCommand::new(&config, "beta");
    assert_eq!(old.run(), vec![1]);
    let none = Command::new(&config, "missing", false);
    assert_eq!(none.run(), Vec::<usize>::new());
}
