use memoria::cli::{handle_config_edit, handle_config_get, handle_config_set};
use memoria::config::{parse_key, ConfigError, ConfigKey};
use memoria::numbers::{bool_string, decimal_text, parse_bool, parse_u64};
use memoria::MemoriaConfig;

#[test]
fn test_default_config() {
    let config = MemoriaConfig::default();
    assert_eq!(config.general.timezone, "UTC");
    assert_eq!(config.editor.default_editor, "vim");
    assert_eq!(config.notes.default_extension, "md");
    assert_eq!(config.filesystem.max_file_size, 10 * 1024 * 1024);
}

#[test]
fn default_config_fills_every_setting() {
    let config = MemoriaConfig::default();
    assert_eq!(config.general.language, "en");
    assert!(config.editor.editor_args.is_empty());
    assert_eq!(config.notes.notes_directory, "./notes");
    assert_eq!(config.notes.default_template, None);
    assert!(config.filesystem.create_backups);
    assert_eq!(config.filesystem.backup_directory, ".backups");
}

#[test]
fn every_key_reads_its_setting() {
    let config = MemoriaConfig::default();
    assert_eq!(config.get("general.timezone").unwrap(), "UTC");
    assert_eq!(config.get("general.language").unwrap(), "en");
    assert_eq!(config.get("editor.default_editor").unwrap(), "vim");
    assert_eq!(config.get("notes.notes_directory").unwrap(), "./notes");
    assert_eq!(config.get("notes.default_extension").unwrap(), "md");
    assert_eq!(config.get("notes.default_template").unwrap(), "None");
    assert_eq!(config.get("filesystem.max_file_size").unwrap(), "10485760");
    assert_eq!(config.get("filesystem.create_backups").unwrap(), "true");
    assert_eq!(config.get("filesystem.backup_directory").unwrap(), ".backups");
    assert_eq!(handle_config_get("general.timezone", &config).unwrap(), "UTC");
}

#[test]
fn every_key_writes_its_setting() {
    let mut config = MemoriaConfig::default();
    config.set("general.timezone", "Europe/Paris").unwrap();
    config.set("general.language", "fr").unwrap();
    config.set("editor.default_editor", "nvim").unwrap();
    config.set("notes.notes_directory", "/home/alice/notes").unwrap();
    config.set("notes.default_extension", "markdown").unwrap();
    config.set("notes.default_template", "daily").unwrap();
    config.set("filesystem.max_file_size", "2048").unwrap();
    config.set("filesystem.create_backups", "false").unwrap();
    config.set("filesystem.backup_directory", ".old").unwrap();
    assert_eq!(config.general.timezone, "Europe/Paris");
    assert_eq!(config.general.language, "fr");
    assert_eq!(config.editor.default_editor, "nvim");
    assert_eq!(config.notes.notes_directory, "/home/alice/notes");
    assert_eq!(config.notes.default_extension, "markdown");
    assert_eq!(config.notes.default_template, Some("daily".to_string()));
    assert_eq!(config.filesystem.max_file_size, 2048);
    assert!(!config.filesystem.create_backups);
    assert_eq!(config.filesystem.backup_directory, ".old");
    assert_eq!(config.get("notes.default_template").unwrap(), "daily");
    assert_eq!(config.get("filesystem.max_file_size").unwrap(), "2048");
    assert_eq!(config.get("filesystem.create_backups").unwrap(), "false");
}

#[test]
fn unknown_key_is_refused() {
    let mut config = MemoriaConfig::default();
    match config.get("editor.editor_args") {
        Err(ConfigError::UnknownKey { key }) => assert_eq!(key, "editor.editor_args"),
        other => panic!("unexpected outcome: {:?}", other),
    }
    let refused = config.set("general.colour", "blue").unwrap_err();
    assert_eq!(refused.describe(), "Unknown configuration key: general.colour");
    assert_eq!(parse_key("General.Timezone"), None);
    assert_eq!(parse_key("general.timezone"), Some(ConfigKey::Timezone));
}

#[test]
fn invalid_file_size_is_refused_and_changes_nothing() {
    let mut config = MemoriaConfig::default();
    for value in ["", "ten", "-1", "1.5", "18446744073709551616", " 5", "5 ", "+", "1_000"] {
        match config.set("filesystem.max_file_size", value) {
            Err(ConfigError::InvalidFileSize { value: refused }) => assert_eq!(refused, value),
            other => panic!("unexpected outcome for {:?}: {:?}", value, other),
        }
        assert_eq!(config.filesystem.max_file_size, 10 * 1024 * 1024);
    }
    let refused = config.set("filesystem.max_file_size", "ten").unwrap_err();
    assert_eq!(refused.describe(), "Invalid file size: ten");
}

#[test]
fn invalid_boolean_is_refused_and_changes_nothing() {
    let mut config = MemoriaConfig::default();
    for value in ["", "yes", "True", "1", "false "] {
        match config.set("filesystem.create_backups", value) {
            Err(ConfigError::InvalidBoolean { value: refused }) => assert_eq!(refused, value),
            other => panic!("unexpected outcome for {:?}: {:?}", value, other),
        }
        assert!(config.filesystem.create_backups);
    }
    let refused = config.set("filesystem.create_backups", "yes").unwrap_err();
    assert_eq!(refused.describe(), "Invalid boolean value: yes");
}

#[test]
fn numbers_parse_as_the_standard_library_parses_them() {
    let samples = [
        "0", "7", "007", "+7", "+0", "10485760", "18446744073709551615", "18446744073709551616",
        "99999999999999999999999", "", "+", "-", "-0", "++1", "1+", "12a", "a12", " 1", "1 ", "٣",
        "1_0", "0x10", "1e3",
    ];
    for sample in samples {
        assert_eq!(parse_u64(sample), sample.parse::<u64>().ok(), "for {:?}", sample);
    }
    assert_eq!(parse_u64("2048"), Some(2048));
    assert_eq!(parse_u64("18446744073709551615"), Some(u64::MAX));
    assert_eq!(parse_u64("18446744073709551616"), None);
}

#[test]
fn numbers_are_written_as_the_standard_library_writes_them() {
    let samples = [0, 1, 9, 10, 11, 99, 100, 101, 10485760, 1234567890123456789, u64::MAX];
    for sample in samples {
        assert_eq!(decimal_text(sample), sample.to_string());
        assert_eq!(parse_u64(&decimal_text(sample)), Some(sample));
    }
    assert_eq!(decimal_text(10485760), "10485760");
}

#[test]
fn truth_values_parse_and_print() {
    assert_eq!(parse_bool("true"), Some(true));
    assert_eq!(parse_bool("false"), Some(false));
    for sample in ["", "TRUE", "t", "0", "true ", "falsee"] {
        assert_eq!(parse_bool(sample), sample.parse::<bool>().ok());
        assert_eq!(parse_bool(sample), None);
    }
    assert_eq!(bool_string(true), "true");
    assert_eq!(bool_string(false), "false");
}

#[test]
fn config_path_lies_below_the_config_directory() {
    assert_eq!(
        MemoriaConfig::config_path("/home/alice/.config"),
        "/home/alice/.config/memoria/config.toml"
    );
    assert_eq!(MemoriaConfig::config_path("/etc/"), "/etc/memoria/config.toml");
}

#[test]
fn default_config_path_ends_in_the_name_of_the_file() {
    match MemoriaConfig::default_config_path() {
        Ok(path) => assert!(path.ends_with("memoria/config.toml")),
        Err(error) => {
            assert!(matches!(error, ConfigError::NoConfigDirectory));
            assert_eq!(error.describe(), "Could not determine config directory");
        }
    }
}

#[test]
fn setting_reports_key_and_value() {
    let mut config = MemoriaConfig::default();
    let report = handle_config_set(&mut config, "general.timezone", "Europe/Paris").unwrap();
    assert_eq!(report, "Configuration updated: general.timezone = Europe/Paris");
    assert_eq!(config.general.timezone, "Europe/Paris");
    let refused = handle_config_set(&mut config, "nothing", "x").unwrap_err();
    assert!(matches!(refused, ConfigError::UnknownKey { .. }));
    assert_eq!(config.general.timezone, "Europe/Paris");
}

#[test]
fn editor_command_names_editor_file_and_arguments() {
    let mut config = MemoriaConfig::default();
    assert_eq!(
        handle_config_edit(&config, "/home/alice/.config/memoria/config.toml"),
        vec!["vim".to_string(), "/home/alice/.config/memoria/config.toml".to_string()]
    );
    config.editor.default_editor = "code".to_string();
    config.editor.editor_args = vec!["--wait".to_string(), "--new-window".to_string()];
    assert_eq!(
        handle_config_edit(&config, "c.toml"),
        vec![
            "code".to_string(),
            "c.toml".to_string(),
            "--wait".to_string(),
            "--new-window".to_string()
        ]
    );
}
