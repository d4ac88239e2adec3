pub mod cloudwatch_events;
pub mod configtest;
pub mod ecs;
pub mod error;
pub mod main;
pub mod params;
pub mod params_delete;
pub mod params_exec;
pub mod params_get;
pub mod params_list;
pub mod params_put;
pub mod run_task;
pub mod schedule_task;
pub mod schedule_task_delete;
pub mod schedule_task_put;
pub mod select;
pub mod service_deploy;
pub mod service_stop;
