use racco::config::command::{Config, ConfigError};

fn no_vars() -> serde_json::Value {
    serde_json::from_str::<serde_json::Value>("{}").unwrap()
}

#[test]
fn test_apply_template_vars() {
    let tmpl = "foo: {{ bar }}";
    let vars = serde_json::from_str::<serde_json::Value>(r#"{"bar": "baz"}"#).unwrap();
    let ret = Config::apply_template_vars(tmpl, &vars);
    assert!(match ret {
        Ok(rendered) => match rendered.as_ref() {
            "foo: baz" => true,
            _ => false,
        },
        _ => false,
    });
}

#[test]
fn test_service_config() {
    let tmpl = r"service:
  - name: test
    cluster: test-cluster
    service:
      name: test
      desired_count: 1
      task_definition:
        family: test
        container_definitions:
          - name: test
            image: 'test.dkr.com/racco/test:latest'
";
    let vars = no_vars();

    let ret = Config::new(tmpl, &vars);
    assert!(match ret {
        Ok(config) => match config.service {
            Some(service_group) => service_group.len() == 1,
            _ => false,
        },
        _ => false,
    });
}

#[test]
fn test_run_task_config() {
    let tmpl = r"run_task:
  - name: test
    cluster: test-cluster
    task_definition:
      family: test
      container_definitions:
        - name: test
          image: 'test.dkr.com/racco/test:latest'
";
    let vars = no_vars();

    let ret = Config::new(tmpl, &vars);
    assert!(match ret {
        Ok(config) => match config.run_task {
            Some(run_task_group) => run_task_group.len() == 1,
            _ => false,
        },
        _ => false,
    });
}

#[test]
fn test_schedule_task_config() {
    let tmpl = r"schedule_task:
  - name: test
    cluster: test-cluster
    task_definition:
      family: test
      container_definitions:
        - name: test
          image: 'test.dkr.com/racco/test:latest'
    rule:
      name: test-schedule-rule
      schedule_expression: 'cron(0/5 * * * ? *)'
";
    let vars = no_vars();

    let ret = Config::new(tmpl, &vars);
    assert!(match ret {
        Ok(config) => match config.schedule_task {
            Some(schedule_task_group) => schedule_task_group.len() == 1,
            _ => false,
        },
        _ => false,
    });
}

#[test]
fn test_params_config() {
    let tmpl = r"params:
  path: test0/test1
  secure:
    key: 'xxxxxxxx-xxxx-xxxx-xxxx-xxxxxxxxxxxx'
";
    let vars = no_vars();

    let ret = Config::new(tmpl, &vars);
    assert!(match ret {
        Ok(config) => match config.params {
            Some(_params) => true,
            _ => false,
        },
        _ => false,
    });
}

#[test]
fn test_version_requirement_satisfied() {
    let tmpl = r"version: ~0.1.0
";
    let vars = no_vars();
    let ret = Config::new(tmpl, &vars);
    assert!(match ret {
        Ok(config) => match config.validate_version("0.1.1") {
            Ok(()) => true,
            _ => false,
        },
        _ => false,
    });
}

#[test]
fn test_version_requirement_not_satisfied_greater() {
    let tmpl = r"version: ~0.1.0
";
    let vars = no_vars();
    let ret = Config::new(tmpl, &vars);
    assert!(match ret {
        Ok(config) => match config.validate_version("0.2.0") {
            Err(_e) => true,
            _ => false,
        },
        _ => false,
    });
}

#[test]
fn test_version_requirement_not_satisfied_less() {
    let tmpl = r"version: ~0.1.0
";
    let vars = no_vars();
    let ret = Config::new(tmpl, &vars);
    assert!(match ret {
        Ok(config) => match config.validate_version("0.0.9") {
            Err(_e) => true,
            _ => false,
        },
        _ => false,
    });
}

#[test]
fn parsed_service_entry_fields() {
    let tmpl = r"service:
  - name: web
    cluster: main
    service:
      name: web
      desired_count: 3
      task_definition:
        family: web
        container_definitions:
          - name: app
            image: 'registry/app:1'
            cpu: 256
            essential: true
            port_mappings:
              - container_port: 8080
                protocol: tcp
";
    let config = Config::new(tmpl, &no_vars()).unwrap();
    let group = config.service.unwrap();
    assert_eq!(group[0].name, "web");
    assert_eq!(group[0].cluster, "main");
    assert_eq!(group[0].service.desired_count, Some(3));
    let td = &group[0].service.task_definition;
    assert_eq!(td.family, "web");
    assert_eq!(td.container_definitions.len(), 1);
    let cd = &td.container_definitions[0];
    assert_eq!(cd.name.as_deref(), Some("app"));
    assert_eq!(cd.image.as_deref(), Some("registry/app:1"));
    assert_eq!(cd.cpu, Some(256));
    assert_eq!(cd.essential, Some(true));
    let pm = cd.port_mappings.as_ref().unwrap();
    assert_eq!(pm[0].container_port, Some(8080));
    assert_eq!(pm[0].protocol.as_deref(), Some("tcp"));
}

#[test]
fn rejected_config_wrong_type() {
    let tmpl = r"service:
  - name: 17
    cluster: test-cluster
    service:
      name: test
      task_definition:
        family: test
        container_definitions: []
";
    let ret = Config::new(tmpl, &no_vars());
    assert!(matches!(ret, Err(ConfigError::ParseError(_))));
}

#[test]
fn rejected_config_missing_required() {
    let tmpl = r"run_task:
  - name: job
    cluster: main
";
    let ret = Config::new(tmpl, &no_vars());
    assert!(matches!(ret, Err(ConfigError::ParseError(_))));
}

#[test]
fn template_variables_from_file_and_args() {
    let file = "env: prod\n";
    let pairs = vec![("region".to_string(), "north".to_string())];
    let vars = Config::load_template_variables(Some(&pairs), Some(file)).unwrap();
    let rendered = Config::apply_template_vars("a: {{ env }}-{{ region }}", &vars).unwrap();
    assert_eq!(rendered, "a: prod-north");
}

#[test]
fn template_variables_reject_non_mapping_file() {
    let pairs = vec![("region".to_string(), "north".to_string())];
    let ret = Config::load_template_variables(Some(&pairs), Some("just a scalar"));
    assert!(matches!(ret, Err(ConfigError::ParseError(_))));
}

#[test]
fn broken_template_is_a_template_error() {
    let ret = Config::apply_template_vars("a: {{#if}}", &no_vars());
    assert!(matches!(ret, Err(ConfigError::TemplateError(_))));
}

#[test]
fn unreadable_version_requirement_is_reported() {
    let config = Config::new("version: not-a-requirement !\n", &no_vars()).unwrap();
    let ret = config.validate_version("0.1.0");
    assert!(matches!(ret, Err(ConfigError::VersionParseError(_))));
}

#[test]
fn config_error_messages_name_the_cause() {
    let parse = ConfigError::ParseError("bad".to_string());
    assert_eq!(parse.message(), "Parse Error: bad");
    assert_eq!(
        ConfigError::VersionRequirementError.message(),
        "The specified version does not satisfy the current racco version"
    );
}

#[test]
fn missing_version_is_accepted() {
    let config = Config::new("params:\n  path: p\n", &no_vars()).unwrap();
    assert!(config.validate_version("0.0.1").is_ok());
}
