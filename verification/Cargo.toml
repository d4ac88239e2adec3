[package]
name = "racco"
version = "0.1.0"
edition = "2021"
publish = false

[dependencies]
serde_yaml = "*"
serde_json = "*"
handlebars = "*"
semver = "*"
serde = { version = "*", features = ["derive"] }
clap = "2"
tokio = { version = "1", features = ["macros", "rt-multi-thread", "time"] }
rusoto_core = { version = "0.47", default-features = false, features = ["rustls"] }
rusoto_ecs = { version = "0.47", default-features = false, features = ["rustls"] }
rusoto_events = { version = "0.47", default-features = false, features = ["rustls"] }
rusoto_ssm = { version = "0.47", default-features = false, features = ["rustls"] }
log = "*"
env_logger = "*"
termion = "*"
tabwriter = "*"
