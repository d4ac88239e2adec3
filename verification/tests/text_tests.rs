use racco::command::main::MainCommand;
use racco::text::{count_char, find_char, has_prefix, has_suffix, i64_to_string, str_eq, u64_to_string};

#[test]
fn string_equality_compares_characters() {
    assert!(str_eq("PRIMARY", "PRIMARY"));
    assert!(!str_eq("PRIMARY", "SECONDARY"));
    assert!(!str_eq("STOPPED", "STOPPE"));
    assert!(str_eq("", ""));
}

#[test]
fn prefix_and_suffix_checks() {
    assert!(has_prefix("/app/prod/x", "/app/prod/"));
    assert!(!has_prefix("/app", "/app/prod/"));
    assert!(has_suffix("path/", "/"));
    assert!(!has_suffix("path", "/"));
}

#[test]
fn character_search_and_count() {
    assert_eq!(find_char("a=b", '=', 0), Some(1));
    assert_eq!(find_char("a=b=c", '=', 2), Some(3));
    assert_eq!(find_char("abc", '=', 0), None);
    assert_eq!(count_char("a=b=c", '='), 2);
    assert_eq!(count_char("abc", '='), 0);
}

#[test]
fn decimal_rendering() {
    assert_eq!(u64_to_string(0), "0");
    assert_eq!(u64_to_string(137), "137");
    assert_eq!(i64_to_string(-42), "-42");
    assert_eq!(i64_to_string(9_223_372_036_854_775_807), "9223372036854775807");
    assert_eq!(i64_to_string(i64::MIN), "-9223372036854775808");
}

#[test]
fn template_variable_validation() {
    assert!(MainCommand::validate_args_template_variables("name=value".to_string()).is_ok());
    assert!(MainCommand::validate_args_template_variables("name".to_string()).is_err());
    assert!(MainCommand::validate_args_template_variables("a=b=c".to_string()).is_err());
}

#[test]
fn template_variable_parsing() {
    let vars = vec!["region=north".to_string(), "env=prod".to_string()];
    let pairs = MainCommand::parse_args_template_variables(&vars);
    assert_eq!(
        pairs,
        vec![
            ("region".to_string(), "north".to_string()),
            ("env".to_string(), "prod".to_string())
        ]
    );
    let odd = vec!["a=b=c".to_string()];
    let pairs = MainCommand::parse_args_template_variables(&odd);
    assert_eq!(pairs, vec![("a".to_string(), "b".to_string())]);
}
