use onlook::config::{Config, Options};
use onlook::error::PassError;

#[test]
fn a_flag_switches_the_pass() {
    assert_eq!(Config::parse("true"), Ok(Config::All(true)));
    assert_eq!(Config::parse("false"), Ok(Config::All(false)));
    assert!(Config::All(true).enabled());
    assert!(!Config::All(false).enabled());
    assert_eq!(Config::All(true).project_root(), None);
}

#[test]
fn options_give_the_root() {
    let config = Config::parse("{\"root\": \"/home/me/app\"}").unwrap();
    assert_eq!(config, Config::WithOptions(Options { project_root: "/home/me/app".to_string() }));
    assert_eq!(config.project_root(), Some("/home/me/app"));
    assert!(config.enabled());
    assert!(Config::parse("{\"root\": \"\", \"other\": 1}").unwrap().enabled());
}

#[test]
fn an_absent_configuration_is_the_default() {
    assert_eq!(Config::parse("null"), Ok(Config::All(true)));
    assert_eq!(Config::from_json(&serde_json::Value::Null), Ok(Config::All(true)));
}

#[test]
fn other_shapes_are_invalid() {
    for text in ["{}", "{\"root\": 1}", "{\"root\": null}", "[]", "[\"/app\"]", "\"/app\"", "1", "", "{", "tru"] {
        assert_eq!(Config::parse(text), Err(PassError::InvalidConfiguration), "{}", text);
    }
}
