use memoria::config::{EditorConfig, FilesystemConfig, GeneralConfig, NotesConfig};
use memoria::errors::{IoError, IoErrorKind};
use memoria::filesystem::{PathKind, Request, Response, Step};
use memoria::store::{ConfigLoading, ConfigSaving, Loaded};
use memoria::{MemoriaConfig, MemoriaError};

/// A file system in memory: paths with the text of a file or, for a
/// directory, nothing.
struct Disk {
    nodes: Vec<(String, Option<String>)>,
    requests: Vec<String>,
}

impl Disk {
    fn new() -> Disk {
        Disk { nodes: Vec::new(), requests: Vec::new() }
    }

    fn find(&self, path: &str) -> Option<&Option<String>> {
        self.nodes.iter().find(|(at, _)| at == path).map(|(_, node)| node)
    }

    fn answer(&mut self, request: Request) -> Response {
        self.requests.push(format!("{:?}", request));
        match request {
            Request::Probe { path } => Response::Probed(match self.find(&path) {
                None => PathKind::Missing,
                Some(None) => PathKind::Directory,
                Some(Some(_)) => PathKind::File,
            }),
            Request::ReadFile { path } => Response::FileRead(match self.find(&path) {
                Some(Some(text)) => Ok(text.clone()),
                Some(None) => Err(IoError {
                    kind: IoErrorKind::Other,
                    message: "Is a directory (os error 21)".to_string(),
                }),
                None => Err(IoError {
                    kind: IoErrorKind::NotFound,
                    message: "No such file or directory (os error 2)".to_string(),
                }),
            }),
            Request::WriteFile { path, content } => {
                self.nodes.retain(|(at, _)| at != &path);
                self.nodes.push((path, Some(content)));
                Response::FileWritten(Ok(()))
            }
            Request::CreateDirectory { path } => {
                if self.find(&path).is_none() {
                    self.nodes.push((path, None));
                }
                Response::DirectoryCreated(Ok(()))
            }
            Request::ReadDirectory { .. } => Response::DirectoryRead(Ok(Vec::new())),
        }
    }
}

fn text_table(pairs: Vec<(&str, toml::Value)>) -> toml::Value {
    let mut table = toml::Table::new();
    for (key, value) in pairs {
        table.insert(key.to_string(), value);
    }
    toml::Value::Table(table)
}

fn text(value: &str) -> toml::Value {
    toml::Value::String(value.to_string())
}

/// The settings as TOML, section by section.
fn to_toml(config: &MemoriaConfig) -> String {
    let arguments = config.editor.editor_args.iter().map(|argument| text(argument)).collect();
    let mut notes = vec![
        ("notes_directory", text(&config.notes.notes_directory)),
        ("default_extension", text(&config.notes.default_extension)),
    ];
    if let Some(template) = &config.notes.default_template {
        notes.push(("default_template", text(template)));
    }
    let root = text_table(vec![
        (
            "general",
            text_table(vec![
                ("timezone", text(&config.general.timezone)),
                ("language", text(&config.general.language)),
            ]),
        ),
        (
            "editor",
            text_table(vec![
                ("default_editor", text(&config.editor.default_editor)),
                ("editor_args", toml::Value::Array(arguments)),
            ]),
        ),
        ("notes", text_table(notes)),
        (
            "filesystem",
            text_table(vec![
                ("max_file_size", toml::Value::Integer(config.filesystem.max_file_size as i64)),
                ("create_backups", toml::Value::Boolean(config.filesystem.create_backups)),
                ("backup_directory", text(&config.filesystem.backup_directory)),
            ]),
        ),
    ]);
    toml::to_string_pretty(&root).unwrap()
}

fn field(table: &toml::Table, section: &str, key: &str) -> Option<toml::Value> {
    table.get(section).and_then(|inner| inner.get(key)).cloned()
}

fn text_field(table: &toml::Table, section: &str, key: &str) -> String {
    field(table, section, key).unwrap().as_str().unwrap().to_string()
}

/// The settings that a text in TOML stands for.
fn from_toml(text: &str) -> MemoriaConfig {
    let table: toml::Table = toml::from_str(text).unwrap();
    MemoriaConfig {
        general: GeneralConfig {
            timezone: text_field(&table, "general", "timezone"),
            language: text_field(&table, "general", "language"),
        },
        editor: EditorConfig {
            default_editor: text_field(&table, "editor", "default_editor"),
            editor_args: field(&table, "editor", "editor_args")
                .unwrap()
                .as_array()
                .unwrap()
                .iter()
                .map(|argument| argument.as_str().unwrap().to_string())
                .collect(),
        },
        notes: NotesConfig {
            notes_directory: text_field(&table, "notes", "notes_directory"),
            default_extension: text_field(&table, "notes", "default_extension"),
            default_template: field(&table, "notes", "default_template")
                .map(|template| template.as_str().unwrap().to_string()),
        },
        filesystem: FilesystemConfig {
            max_file_size: field(&table, "filesystem", "max_file_size")
                .unwrap()
                .as_integer()
                .unwrap() as u64,
            create_backups: field(&table, "filesystem", "create_backups")
                .unwrap()
                .as_bool()
                .unwrap(),
            backup_directory: text_field(&table, "filesystem", "backup_directory"),
        },
    }
}

fn finish_saving(
    mut step: Step<ConfigSaving, bool>,
    disk: &mut Disk,
) -> Result<bool, MemoriaError> {
    loop {
        match step {
            Step::Done(outcome) => return outcome,
            Step::Ask(state, request) => step = state.resume(disk.answer(request)),
        }
    }
}

fn save_to_file(config: &MemoriaConfig, path: &str, disk: &mut Disk) -> Result<(), MemoriaError> {
    finish_saving(MemoriaConfig::save_to_file(path, &to_toml(config)), disk).map(|_| ())
}

fn load_from_file(path: &str, disk: &mut Disk) -> Result<MemoriaConfig, MemoriaError> {
    let mut step: Step<ConfigLoading, Loaded> = MemoriaConfig::load_from_file(path);
    loop {
        match step {
            Step::Done(Ok(Loaded::Defaults(config))) => return Ok(config),
            Step::Done(Ok(Loaded::Text(text))) => return Ok(from_toml(&text)),
            Step::Done(Err(error)) => return Err(error),
            Step::Ask(state, request) => step = state.resume(disk.answer(request)),
        }
    }
}

#[test]
fn test_save_and_load_config() {
    let mut temp_dir = Disk::new();
    let config_path = "/tmp/settings/test_config.toml";

    let saved_config = MemoriaConfig {
        general: GeneralConfig { timezone: "Europe/Paris".to_string(), language: "fr".to_string() },
        ..Default::default()
    };

    save_to_file(&saved_config, config_path, &mut temp_dir).unwrap();

    let loaded_config = load_from_file(config_path, &mut temp_dir).unwrap();

    assert_eq!(loaded_config.general.timezone, "Europe/Paris");
    assert_eq!(loaded_config.general.language, "fr");
}

#[test]
fn test_load_nonexistent_config() {
    let mut temp_dir = Disk::new();
    let config_path = "/tmp/settings/nonexistent.toml";

    let config = load_from_file(config_path, &mut temp_dir).unwrap();

    assert_eq!(config.general.timezone, "UTC");
}

#[test]
fn loading_a_missing_file_makes_no_file() {
    let mut disk = Disk::new();
    let config = load_from_file("/home/alice/.config/memoria/config.toml", &mut disk).unwrap();
    assert_eq!(config.editor.default_editor, "vim");
    assert_eq!(config.filesystem.max_file_size, 10 * 1024 * 1024);
    assert!(disk.nodes.is_empty());
    assert_eq!(disk.requests.len(), 1);
}

#[test]
fn saving_makes_the_directory_and_writes_the_file() {
    let mut disk = Disk::new();
    let step = MemoriaConfig::save_to_file("/home/alice/.config/memoria/config.toml", "x = 1\n");
    let state = match step {
        Step::Ask(state, Request::CreateDirectory { path }) => {
            assert_eq!(path, "/home/alice/.config/memoria");
            state
        }
        other => panic!("unexpected step: {:?}", other),
    };
    let state = match state.resume(Response::DirectoryCreated(Ok(()))) {
        Step::Ask(state, Request::WriteFile { path, content }) => {
            assert_eq!(path, "/home/alice/.config/memoria/config.toml");
            assert_eq!(content, "x = 1\n");
            state
        }
        other => panic!("unexpected step: {:?}", other),
    };
    assert!(matches!(state.resume(Response::FileWritten(Ok(()))), Step::Done(Ok(true))));
    let again = MemoriaConfig::save_to_file("/home/alice/.config/memoria/config.toml", "x = 2\n");
    assert!(finish_saving(again, &mut disk).unwrap());
    assert_eq!(
        disk.find("/home/alice/.config/memoria/config.toml"),
        Some(&Some("x = 2\n".to_string()))
    );
}

#[test]
fn saving_a_bare_name_asks_for_the_directory_it_lies_in() {
    let state = match MemoriaConfig::save_to_file("config.toml", "x = 1\n") {
        Step::Ask(state, Request::CreateDirectory { path }) => {
            assert_eq!(path, "");
            state
        }
        other => panic!("unexpected step: {:?}", other),
    };
    match state.resume(Response::DirectoryCreated(Ok(()))) {
        Step::Ask(_, Request::WriteFile { path, content }) => {
            assert_eq!(path, "config.toml");
            assert_eq!(content, "x = 1\n");
        }
        other => panic!("unexpected step: {:?}", other),
    }
}

#[test]
fn saving_to_a_path_without_a_directory_writes_at_once() {
    for path in ["/", ""] {
        match MemoriaConfig::save_to_file(path, "x = 1\n") {
            Step::Ask(_, Request::WriteFile { path: target, content }) => {
                assert_eq!(target, path);
                assert_eq!(content, "x = 1\n");
            }
            other => panic!("unexpected step: {:?}", other),
        }
    }
}

#[test]
fn saving_passes_over_empty_names_in_the_path() {
    match MemoriaConfig::save_to_file("settings/memoria/./config.toml/", "") {
        Step::Ask(_, Request::CreateDirectory { path }) => assert_eq!(path, "settings/memoria"),
        other => panic!("unexpected step: {:?}", other),
    }
}

#[test]
fn saving_that_fails_gives_the_mapped_error() {
    let denied = || IoError {
        kind: IoErrorKind::PermissionDenied,
        message: "Permission denied (os error 13)".to_string(),
    };
    let state = match MemoriaConfig::save_to_file("/etc/memoria/config.toml", "") {
        Step::Ask(state, _) => state,
        other => panic!("unexpected step: {:?}", other),
    };
    match state.resume(Response::DirectoryCreated(Err(denied()))) {
        Step::Done(Err(MemoriaError::PermissionDenied { path })) => {
            assert_eq!(path, "/etc/memoria")
        }
        other => panic!("unexpected step: {:?}", other),
    }
    let state = match MemoriaConfig::save_to_file("/etc/memoria/config.toml", "") {
        Step::Ask(state, _) => state,
        other => panic!("unexpected step: {:?}", other),
    };
    let state = match state.resume(Response::DirectoryCreated(Ok(()))) {
        Step::Ask(state, _) => state,
        other => panic!("unexpected step: {:?}", other),
    };
    match state.resume(Response::FileWritten(Err(denied()))) {
        Step::Done(Err(MemoriaError::PermissionDenied { path })) => {
            assert_eq!(path, "/etc/memoria/config.toml")
        }
        other => panic!("unexpected step: {:?}", other),
    }
}

#[test]
fn ensuring_writes_the_defaults_once() {
    let mut disk = Disk::new();
    let path = "/home/alice/.config/memoria/config.toml";
    let defaults = to_toml(&MemoriaConfig::default());
    let written = finish_saving(MemoriaConfig::ensure_exists_at(path, &defaults), &mut disk);
    assert!(written.unwrap());
    assert_eq!(disk.find(path), Some(&Some(defaults.clone())));
    assert_eq!(disk.requests.len(), 3);

    let mut changed = MemoriaConfig::default();
    changed.set("general.timezone", "Europe/Paris").unwrap();
    save_to_file(&changed, path, &mut disk).unwrap();
    let before = disk.requests.len();
    let written = finish_saving(MemoriaConfig::ensure_exists_at(path, &defaults), &mut disk);
    assert!(!written.unwrap());
    assert_eq!(disk.requests.len(), before + 1);
    assert_eq!(load_from_file(path, &mut disk).unwrap().general.timezone, "Europe/Paris");
}

#[test]
fn settings_of_the_user_lie_below_the_config_directory() {
    match MemoriaConfig::load() {
        Ok(Step::Ask(_, Request::Probe { path })) => assert!(path.ends_with("memoria/config.toml")),
        Ok(other) => panic!("unexpected step: {:?}", other),
        Err(error) => assert_eq!(error.describe(), "Could not determine config directory"),
    }
    match MemoriaConfig::save("x = 1\n") {
        Ok(Step::Ask(_, Request::CreateDirectory { path })) => assert!(path.ends_with("memoria")),
        Ok(other) => panic!("unexpected step: {:?}", other),
        Err(error) => assert_eq!(error.describe(), "Could not determine config directory"),
    }
    match MemoriaConfig::ensure_config_exists("x = 1\n") {
        Ok(Step::Ask(_, Request::Probe { path })) => assert!(path.ends_with("memoria/config.toml")),
        Ok(other) => panic!("unexpected step: {:?}", other),
        Err(error) => assert_eq!(error.describe(), "Could not determine config directory"),
    }
}

#[test]
fn loading_reads_whatever_stands_at_the_path() {
    let mut disk = Disk::new();
    disk.nodes.push(("/settings".to_string(), None));
    match load_from_file("/settings", &mut disk) {
        Err(MemoriaError::Io(failure)) => {
            assert_eq!(failure.message, "Is a directory (os error 21)")
        }
        other => panic!("unexpected outcome: {:?}", other),
    }
}

#[test]
fn settings_round_trip_through_their_text() {
    let mut config = MemoriaConfig::default();
    config.editor.editor_args = vec!["--wait".to_string()];
    config.notes.default_template = Some("daily".to_string());
    config.filesystem.create_backups = false;
    let again = from_toml(&to_toml(&config));
    assert_eq!(again.editor.editor_args, vec!["--wait".to_string()]);
    assert_eq!(again.notes.default_template, Some("daily".to_string()));
    assert!(!again.filesystem.create_backups);
    assert_eq!(again.filesystem.max_file_size, 10 * 1024 * 1024);
    let copy = config.clone();
    assert_eq!(copy.editor.editor_args, config.editor.editor_args);
    assert_eq!(copy.general.timezone, config.general.timezone);
}
