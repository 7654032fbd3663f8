use mkservice::config::{env_from_pairs, validate_name, ServiceConfig, ServiceLevel};
use mkservice::strutil::str_partition;

#[test]
fn default_level_is_system() {
    assert_eq!(ServiceLevel::default(), ServiceLevel::System);
    let config = ServiceConfig::default();
    assert_eq!(config.level, ServiceLevel::System);
    assert!(config.name.is_empty());
    assert!(config.command.is_empty());
    assert!(config.env.is_empty());
}

#[test]
fn env_from_pairs_sorts_by_key() {
    let env = env_from_pairs(vec![
        ("FOO".to_string(), "foo".to_string()),
        ("BAR".to_string(), "bar".to_string()),
        ("AAA".to_string(), "aaa".to_string()),
    ]);
    let keys: Vec<&str> = env.iter().map(|p| p.0.as_str()).collect();
    assert_eq!(keys, vec!["AAA", "BAR", "FOO"]);
}

#[test]
fn env_from_pairs_keeps_last_value_of_duplicate_key() {
    let env = env_from_pairs(vec![
        ("K".to_string(), "first".to_string()),
        ("L".to_string(), "other".to_string()),
        ("K".to_string(), "second".to_string()),
    ]);
    assert_eq!(env.len(), 2);
    assert_eq!(env[0], ("K".to_string(), "second".to_string()));
    assert_eq!(env[1], ("L".to_string(), "other".to_string()));
}

#[test]
fn env_from_pairs_of_nothing_is_empty() {
    assert!(env_from_pairs(Vec::new()).is_empty());
}

#[test]
fn str_partition_splits_at_first_delimiter() {
    assert_eq!(str_partition("FOO=bar", "="), ("FOO".to_string(), "bar".to_string()));
    assert_eq!(str_partition("A=B=C", "="), ("A".to_string(), "B=C".to_string()));
}

#[test]
fn str_partition_without_delimiter_keeps_whole_string() {
    assert_eq!(str_partition("plain", "="), ("plain".to_string(), String::new()));
    assert_eq!(str_partition("", "="), (String::new(), String::new()));
}

#[test]
fn str_partition_with_empty_value_or_key() {
    assert_eq!(str_partition("KEY=", "="), ("KEY".to_string(), String::new()));
    assert_eq!(str_partition("=value", "="), (String::new(), "value".to_string()));
}

#[test]
fn validate_name_accepts_well_formed_names() {
    assert_eq!(validate_name("hello"), Ok("hello".to_string()));
    assert_eq!(validate_name("Web-Server_9"), Ok("Web-Server_9".to_string()));
    assert_eq!(validate_name("0day"), Ok("0day".to_string()));
}

#[test]
fn validate_name_rejects_bad_characters() {
    let msg = "Name includes invalid characters.".to_string();
    assert_eq!(validate_name(""), Err(msg.clone()));
    assert_eq!(validate_name("-leading-dash"), Err(msg.clone()));
    assert_eq!(validate_name("_leading_underscore"), Err(msg.clone()));
    assert_eq!(validate_name("has space"), Err(msg.clone()));
    assert_eq!(validate_name("dot.name"), Err(msg));
}

#[test]
fn validate_name_rejects_over_long_names() {
    let long = "a".repeat(257);
    assert_eq!(validate_name(&long), Err("Name must not exceed 256 characters.".to_string()));
    let edge = "a".repeat(256);
    assert_eq!(validate_name(&edge), Ok(edge.clone()));
}
