pub mod cloudwatch_events;
pub mod command;
pub mod ecs;
pub mod yaml;
