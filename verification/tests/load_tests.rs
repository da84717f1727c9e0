use setupsmith::config::ConfigError;
use setupsmith::engine::{
    extract_packages_json, extract_packages_yaml, get_str_value_json, get_str_value_yaml, load,
};
use setupsmith::json::Json;
use setupsmith::yaml::Yaml;

const JSON_TEXT: &str =
    "{\"hostname\": \"vm1\", \"package_manager\": \"apt\", \"packages\": [\"curl\", \"git\"]}";
const YAML_TEXT: &str =
    "hostname: vm1\npackage_manager: apt\npackages:\n  - curl\n  - git\n";

#[test]
fn loads_json_config() {
    let state = load("setup.json", JSON_TEXT).unwrap();
    assert_eq!(state.hostname, "vm1");
    assert_eq!(state.package_manager, "apt");
    assert_eq!(state.packages, vec!["curl".to_string(), "git".to_string()]);
}

#[test]
fn loads_yaml_config() {
    let state = load("setup.yaml", YAML_TEXT).unwrap();
    assert_eq!(state.hostname, "vm1");
    assert_eq!(state.package_manager, "apt");
    assert_eq!(state.packages, vec!["curl".to_string(), "git".to_string()]);
}

#[test]
fn equivalent_content_loads_identically_in_both_syntaxes() {
    let from_json = load("setup.json", JSON_TEXT).unwrap();
    let from_yaml = load("setup.yaml", YAML_TEXT).unwrap();
    assert_eq!(from_json, from_yaml);
}

#[test]
fn unsupported_extension_is_rejected_before_parsing() {
    assert!(matches!(load("setup.toml", JSON_TEXT), Err(ConfigError::UnsupportedFormat)));
}

#[test]
fn malformed_text_fails_to_load_as_a_parse_failure() {
    assert!(matches!(load("setup.json", "{bad"), Err(ConfigError::ParseFailed(_))));
    assert!(matches!(load("setup.yaml", "[unclosed"), Err(ConfigError::ParseFailed(_))));
}

#[test]
fn missing_hostname_fails() {
    let text = "{\"package_manager\": \"apt\", \"packages\": []}";
    match load("setup.json", text) {
        Err(ConfigError::MissingField(field)) => assert_eq!(field, "hostname"),
        other => panic!("expected a missing 'hostname', got {:?}", other),
    }
}

#[test]
fn missing_package_manager_fails() {
    let text = "{\"hostname\": \"vm1\", \"packages\": []}";
    match load("setup.json", text) {
        Err(ConfigError::MissingField(field)) => assert_eq!(field, "package_manager"),
        other => panic!("expected a missing 'package_manager', got {:?}", other),
    }
}

#[test]
fn missing_packages_fails() {
    let text = "{\"hostname\": \"vm1\", \"package_manager\": \"apt\"}";
    match load("setup.json", text) {
        Err(ConfigError::MissingField(field)) => assert_eq!(field, "packages"),
        other => panic!("expected a missing 'packages', got {:?}", other),
    }
}

#[test]
fn non_sequence_packages_fails() {
    let text = "{\"hostname\": \"vm1\", \"package_manager\": \"apt\", \"packages\": \"curl\"}";
    match load("setup.json", text) {
        Err(ConfigError::MissingField(field)) => assert_eq!(field, "packages"),
        other => panic!("expected a missing 'packages', got {:?}", other),
    }
}

#[test]
fn wrong_typed_hostname_fails() {
    let text = "{\"hostname\": 7, \"package_manager\": \"apt\", \"packages\": []}";
    match load("setup.json", text) {
        Err(ConfigError::MissingField(field)) => assert_eq!(field, "hostname"),
        other => panic!("expected a missing 'hostname', got {:?}", other),
    }
}

#[test]
fn empty_packages_list_is_valid() {
    let text = "{\"hostname\": \"vm1\", \"package_manager\": \"apt\", \"packages\": []}";
    let state = load("setup.json", text).unwrap();
    assert!(state.packages.is_empty());
}

#[test]
fn non_string_package_entries_are_dropped() {
    let text = "{\"hostname\": \"vm1\", \"package_manager\": \"apt\", \
                \"packages\": [true, \"curl\", 3, \"git\", [1], null]}";
    let state = load("setup.json", text).unwrap();
    assert_eq!(state.packages, vec!["curl".to_string(), "git".to_string()]);
}

#[test]
fn non_string_yaml_package_entries_are_dropped() {
    let text = "hostname: vm1\npackage_manager: apt\npackages:\n  - 1\n  - curl\n  - git\n";
    let state = load("setup.yaml", text).unwrap();
    assert_eq!(state.packages, vec!["curl".to_string(), "git".to_string()]);
}

#[test]
fn field_helpers_read_the_documents() {
    let json = Json::new("c.json", JSON_TEXT).unwrap();
    assert_eq!(get_str_value_json(&json, "hostname"), Some("vm1".to_string()));
    assert_eq!(get_str_value_json(&json, "missing"), None);
    assert_eq!(
        extract_packages_json(&json).unwrap(),
        vec!["curl".to_string(), "git".to_string()]
    );

    let yaml = Yaml::new("c.yaml", YAML_TEXT).unwrap();
    assert_eq!(get_str_value_yaml(&yaml, "hostname"), Some("vm1".to_string()));
    assert_eq!(get_str_value_yaml(&yaml, "missing"), None);
    assert_eq!(
        extract_packages_yaml(&yaml).unwrap(),
        vec!["curl".to_string(), "git".to_string()]
    );
}

#[test]
fn extract_packages_reports_a_missing_sequence() {
    let json = Json::new("c.json", "{\"hostname\": \"vm1\"}").unwrap();
    assert_eq!(extract_packages_json(&json), Err("Missing or invalid 'packages'"));
    let yaml = Yaml::new("c.yaml", "packages: curl\n").unwrap();
    assert_eq!(extract_packages_yaml(&yaml), Err("Missing or invalid 'packages'"));
}
