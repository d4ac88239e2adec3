use racco::command::params::{
    name_with_path, path, strip_path, stripped_pairs, stripped_pairs_lenient, with_decryption,
    PagerAction, PagerEvent, Parameter, ParamsPager,
};
use racco::command::params_delete::ParamsDeleteCommand;
use racco::command::params_exec::ParamsExecCommand;
use racco::command::params_get::{Command as GetCommand, ParamsGetCommand};
use racco::command::params_list::{ParamsListCommand, ParamsListExecuter};
use racco::command::params_put::{Command as PutCommand, ParamsPutCommand};
use racco::config::command::{Config, ParamsConfig, ParamsSecure};

fn params_config(p: &str, secure: bool) -> ParamsConfig {
    ParamsConfig {
        path: p.to_string(),
        secure: if secure {
            Some(ParamsSecure { key: "key-id-1".to_string() })
        } else {
            None
        },
    }
}

fn config_with_params(p: &str, secure: bool) -> Config {
    Config {
        version: None,
        service: None,
        run_task: None,
        schedule_task: None,
        params: Some(params_config(p, secure)),
    }
}

fn parameter(name: &str, value: &str) -> Parameter {
    Parameter {
        name: Some(name.to_string()),
        value: Some(value.to_string()),
    }
}

#[test]
fn path_gains_leading_and_trailing_slashes() {
    let c = params_config("test0/test1", false);
    assert_eq!(path(&c, true), "/test0/test1/");
    assert_eq!(path(&c, false), "/test0/test1");
    let slashed = params_config("/app/prod/", false);
    assert_eq!(path(&slashed, true), "/app/prod/");
    assert_eq!(path(&slashed, false), "/app/prod/");
}

#[test]
fn name_with_path_prepends_the_prefix() {
    let c = params_config("app/prod", false);
    assert_eq!(name_with_path(&c, "db_url"), "/app/prod/db_url");
}

#[test]
fn strip_path_removes_the_prefix() {
    let c = params_config("app/prod", false);
    assert_eq!(strip_path(&c, "/app/prod/db_url").unwrap(), "db_url");
    assert!(strip_path(&c, "/other/db_url").is_err());
    assert_eq!(strip_path(&c, "/app/prod//app/prod/x").unwrap(), "x");
}

#[test]
fn decryption_follows_the_configured_key() {
    assert!(with_decryption(&params_config("p", true)));
    assert!(!with_decryption(&params_config("p", false)));
}

#[test]
fn pager_collects_every_page_in_order() {
    let mut pager = ParamsPager::new(params_config("app", false));
    assert!(matches!(
        pager.step(PagerEvent::Start),
        PagerAction::FetchPage { next_token: None }
    ));
    let first = pager.step(PagerEvent::PageReceived {
        parameters: Some(vec![parameter("/app/a", "1")]),
        next_token: Some("t1".to_string()),
    });
    match first {
        PagerAction::FetchPage { next_token } => assert_eq!(next_token.as_deref(), Some("t1")),
        other => panic!("expected another fetch, got {:?}", other),
    }
    let done = pager.step(PagerEvent::PageReceived {
        parameters: Some(vec![parameter("/app/b", "2")]),
        next_token: None,
    });
    assert!(matches!(done, PagerAction::Finished));
    assert!(pager.is_done());
    let names: Vec<_> = pager
        .parameters
        .iter()
        .map(|p| p.name.clone().unwrap())
        .collect();
    assert_eq!(names, vec!["/app/a", "/app/b"]);
}

#[test]
fn listing_strips_the_prefix_and_keeps_order() {
    let c = params_config("app", false);
    let fetched = vec![parameter("/app/a", "1"), parameter("/app/b", "2")];
    let pairs = stripped_pairs(&c, &fetched).unwrap();
    assert_eq!(
        pairs,
        vec![
            ("a".to_string(), "1".to_string()),
            ("b".to_string(), "2".to_string())
        ]
    );
}

#[test]
fn listing_fails_on_a_name_outside_the_path() {
    let c = params_config("app", false);
    let fetched = vec![parameter("/app/a", "1"), parameter("/elsewhere/b", "2")];
    assert!(stripped_pairs(&c, &fetched).is_err());
}

#[test]
fn lenient_pairs_skip_foreign_and_incomplete_entries() {
    let c = params_config("app", false);
    let fetched = vec![
        parameter("/app/a", "1"),
        parameter("/elsewhere/b", "2"),
        Parameter { name: Some("/app/c".to_string()), value: None },
        parameter("/app/d", "4"),
    ];
    let pairs = stripped_pairs_lenient(&c, &fetched);
    assert_eq!(
        pairs,
        vec![
            ("a".to_string(), "1".to_string()),
            ("d".to_string(), "4".to_string())
        ]
    );
}

#[test]
fn get_request_uses_the_full_name() {
    let config = config_with_params("app", true);
    let req = GetCommand::new(&config, "db_url").run().unwrap();
    assert_eq!(req.name, "/app/db_url");
    assert!(req.with_decryption);

    let no_section = Config {
        version: None,
        service: None,
        run_task: None,
        schedule_task: None,
        params: None,
    };
    assert!(GetCommand::new(&no_section, "db_url").run().is_none());
}

#[test]
fn multi_get_request_maps_every_name() {
    let config = config_with_params("app", false);
    let names = vec!["a", "b"];
    let cmd = ParamsGetCommand::new(&config, &names);
    let req = cmd.run().unwrap();
    assert_eq!(req.names, vec!["/app/a", "/app/b"]);
    assert!(!req.with_decryption);
}

#[test]
fn put_request_follows_the_encryption_settings() {
    let secure = config_with_params("app", true);
    let req = PutCommand::new(&secure, "db_url", "postgres://x").run().unwrap();
    assert_eq!(req.name, "/app/db_url");
    assert_eq!(req.value, "postgres://x");
    assert_eq!(req.type_, "SecureString");
    assert_eq!(req.key_id.as_deref(), Some("key-id-1"));
    assert!(req.overwrite);

    let plain = config_with_params("app", false);
    let req = ParamsPutCommand::new(&plain, "db_url", "postgres://x").run().unwrap();
    assert_eq!(req.type_, "String");
    assert!(req.key_id.is_none());
}

#[test]
fn delete_request_uses_the_full_name() {
    let config = config_with_params("app", false);
    let req = ParamsDeleteCommand::new(&config, "old").run().unwrap();
    assert_eq!(req.name, "/app/old");
}

#[test]
fn list_request_reads_the_whole_path() {
    let config = config_with_params("app", true);
    let req = ParamsListCommand::new(&config).run().unwrap();
    assert_eq!(req.path, "/app");
    assert!(req.with_decryption);
    assert!(req.next_token.is_none());

    let exec = ParamsListExecuter::from_config(config.params.as_ref().unwrap());
    let fetched = vec![parameter("/app/a", "1")];
    let pairs = exec.run(&fetched).unwrap();
    assert_eq!(pairs, vec![("a".to_string(), "1".to_string())]);
}

#[test]
fn exec_invocation_exports_the_parameters() {
    let config = config_with_params("app", false);
    let args = vec!["--verbose", "input"];
    let cmd = ParamsExecCommand::new(&config, "worker", &args);
    let fetched = vec![parameter("/app/a", "1"), parameter("/other/b", "2")];
    let inv = cmd.run(&fetched).unwrap();
    assert_eq!(inv.program, "worker");
    assert_eq!(inv.args, vec!["--verbose", "input"]);
    assert_eq!(inv.env, vec![("a".to_string(), "1".to_string())]);
}
