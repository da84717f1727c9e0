use setupsmith::config::{determine_file_format, ConfigError, ConfigValue, FileFormat};
use setupsmith::json::Json;
use setupsmith::yaml::Yaml;

#[test]
fn yaml_extensions_are_yaml() {
    assert!(matches!(determine_file_format("setup.yaml"), FileFormat::Yaml));
    assert!(matches!(determine_file_format("setup.yml"), FileFormat::Yaml));
    assert!(matches!(determine_file_format("dir/sub/setup.yaml"), FileFormat::Yaml));
}

#[test]
fn json_extension_is_json() {
    assert!(matches!(determine_file_format("setup.json"), FileFormat::Json));
    assert!(matches!(determine_file_format("a/b/c.json"), FileFormat::Json));
    assert!(matches!(determine_file_format("archive.tar.json"), FileFormat::Json));
}

#[test]
fn other_extensions_are_unknown() {
    assert!(matches!(determine_file_format("setup.toml"), FileFormat::Unknown));
    assert!(matches!(determine_file_format("setup"), FileFormat::Unknown));
    assert!(matches!(determine_file_format("json"), FileFormat::Unknown));
    assert!(matches!(determine_file_format("setup.yamlx"), FileFormat::Unknown));
    assert!(matches!(determine_file_format(""), FileFormat::Unknown));
}

#[test]
fn hidden_files_have_no_extension() {
    assert!(matches!(determine_file_format(".yaml"), FileFormat::Unknown));
    assert!(matches!(determine_file_format("dir/.json"), FileFormat::Unknown));
}

#[test]
fn error_descriptions() {
    assert_eq!(ConfigError::UnsupportedFormat.describe(), "Unsupported file format.");
    assert_eq!(
        ConfigError::MissingField("hostname".to_string()).describe(),
        "Missing or invalid 'hostname'"
    );
    assert_eq!(
        ConfigError::ParseFailed("boom".to_string()).describe(),
        "Failed to parse the configuration: boom"
    );
}

#[test]
fn json_document_lookup() {
    let doc = Json::new("c.json", "{\"hostname\": \"vm1\", \"count\": 3}").unwrap();
    assert_eq!(doc.file, "c.json");
    match doc.get("hostname") {
        Some(ConfigValue::Text(text)) => assert_eq!(text, "vm1"),
        _ => panic!("expected text under 'hostname'"),
    }
    match doc.get("count") {
        Some(ConfigValue::Opaque) => (),
        _ => panic!("expected an opaque value under 'count'"),
    }
    assert!(doc.get("missing").is_none());
}

#[test]
fn yaml_document_lookup() {
    let doc = Yaml::new("c.yaml", "hostname: vm1\npackages:\n  - curl\n").unwrap();
    assert_eq!(doc.file, "c.yaml");
    match doc.get("hostname") {
        Some(ConfigValue::Text(text)) => assert_eq!(text, "vm1"),
        _ => panic!("expected text under 'hostname'"),
    }
    match doc.get("packages") {
        Some(ConfigValue::List(items)) => assert_eq!(items.len(), 1),
        _ => panic!("expected a list under 'packages'"),
    }
}

#[test]
fn malformed_json_is_a_parse_failure() {
    assert!(matches!(Json::new("c.json", "{not json"), Err(ConfigError::ParseFailed(_))));
    assert!(matches!(Json::new("c.json", "[1, 2]"), Err(ConfigError::ParseFailed(_))));
}

#[test]
fn malformed_yaml_is_a_parse_failure() {
    assert!(matches!(Yaml::new("c.yaml", "[unclosed"), Err(ConfigError::ParseFailed(_))));
    assert!(matches!(Yaml::new("c.yaml", "just a scalar"), Err(ConfigError::ParseFailed(_))));
}
