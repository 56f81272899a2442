//! The settings of the tool and their reading and writing by key.

use crate::filename::{join_path, joined};
use crate::numbers::{
    bool_string, bool_text, decimal, decimal_text, parse_bool, parse_u64, parsed_bool, parsed_u64,
};
use crate::text::{join2, same_text};
use vstd::prelude::*;

verus! {

/// General settings.
#[derive(Debug)]
pub struct GeneralConfig {
    /// The time zone of timestamps, such as `UTC` or `Europe/Paris`.
    pub timezone: String,
    /// The language of the interface.
    pub language: String,
}

/// The editor.
#[derive(Debug)]
pub struct EditorConfig {
    /// The command that starts the editor.
    pub default_editor: String,
    /// The arguments that the editor is started with, after the file.
    pub editor_args: Vec<String>,
}

/// The notes.
#[derive(Debug)]
pub struct NotesConfig {
    /// The directory that holds the notes.
    pub notes_directory: String,
    /// The extension of the files of new notes.
    pub default_extension: String,
    /// The template of new notes.
    pub default_template: Option<String>,
}

/// The file system.
#[derive(Debug)]
pub struct FilesystemConfig {
    /// The size in bytes beyond which no file is read.
    pub max_file_size: u64,
    /// Whether a file is copied before it is edited.
    pub create_backups: bool,
    /// The directory of the copies, below the directory of the notes.
    pub backup_directory: String,
}

/// The settings of the tool.
#[derive(Debug)]
pub struct MemoriaConfig {
    pub general: GeneralConfig,
    pub editor: EditorConfig,
    pub notes: NotesConfig,
    pub filesystem: FilesystemConfig,
}

/// The settings as mathematical values, in one record.
pub struct ConfigView {
    pub timezone: Seq<char>,
    pub language: Seq<char>,
    pub default_editor: Seq<char>,
    pub editor_args: Seq<Seq<char>>,
    pub notes_directory: Seq<char>,
    pub default_extension: Seq<char>,
    pub default_template: Option<Seq<char>>,
    pub max_file_size: u64,
    pub create_backups: bool,
    pub backup_directory: Seq<char>,
}

impl View for MemoriaConfig {
    type V = ConfigView;

    open spec fn view(&self) -> ConfigView {
        ConfigView {
            timezone: self.general.timezone@,
            language: self.general.language@,
            default_editor: self.editor.default_editor@,
            editor_args: self.editor.editor_args.deep_view(),
            notes_directory: self.notes.notes_directory@,
            default_extension: self.notes.default_extension@,
            default_template: self.notes.default_template.deep_view(),
            max_file_size: self.filesystem.max_file_size,
            create_backups: self.filesystem.create_backups,
            backup_directory: self.filesystem.backup_directory@,
        }
    }
}

impl Clone for GeneralConfig {
    fn clone(&self) -> (copy: Self)
        ensures
            copy == *self,
    {
        GeneralConfig { timezone: self.timezone.clone(), language: self.language.clone() }
    }
}

impl Clone for EditorConfig {
    fn clone(&self) -> (copy: Self)
        ensures
            copy.default_editor == self.default_editor,
            copy.editor_args.deep_view() == self.editor_args.deep_view(),
    {
        let mut editor_args: Vec<String> = Vec::new();
        let mut i: usize = 0;
        while i < self.editor_args.len()
            invariant
                i <= self.editor_args.len(),
                editor_args.deep_view() == self.editor_args.deep_view().take(i as int),
            decreases self.editor_args.len() - i,
        {
            let ghost before = editor_args.deep_view();
            editor_args.push(self.editor_args[i].clone());
            i += 1;
            assert(editor_args.deep_view() =~= before.push(self.editor_args.deep_view()[i - 1]));
        }
        EditorConfig { default_editor: self.default_editor.clone(), editor_args }
    }
}

impl Clone for NotesConfig {
    fn clone(&self) -> (copy: Self)
        ensures
            copy == *self,
    {
        NotesConfig {
            notes_directory: self.notes_directory.clone(),
            default_extension: self.default_extension.clone(),
            default_template: match &self.default_template {
                Some(template) => Some(template.clone()),
                None => None,
            },
        }
    }
}

impl Clone for FilesystemConfig {
    fn clone(&self) -> (copy: Self)
        ensures
            copy == *self,
    {
        FilesystemConfig {
            max_file_size: self.max_file_size,
            create_backups: self.create_backups,
            backup_directory: self.backup_directory.clone(),
        }
    }
}

impl Clone for MemoriaConfig {
    fn clone(&self) -> (copy: Self)
        ensures
            copy@ == self@,
    {
        MemoriaConfig {
            general: self.general.clone(),
            editor: self.editor.clone(),
            notes: self.notes.clone(),
            filesystem: self.filesystem.clone(),
        }
    }
}

/// The settings of a tool that has none of its own yet.
pub open spec fn default_config() -> ConfigView {
    ConfigView {
        timezone: "UTC"@,
        language: "en"@,
        default_editor: "vim"@,
        editor_args: Seq::empty(),
        notes_directory: "./notes"@,
        default_extension: "md"@,
        default_template: None,
        max_file_size: 10485760,
        create_backups: true,
        backup_directory: ".backups"@,
    }
}

impl Default for MemoriaConfig {
    fn default() -> (config: Self)
        ensures
            config@ == default_config(),
    {
        let config = MemoriaConfig {
            general: GeneralConfig { timezone: "UTC".to_owned(), language: "en".to_owned() },
            editor: EditorConfig { default_editor: "vim".to_owned(), editor_args: Vec::new() },
            notes: NotesConfig {
                notes_directory: "./notes".to_owned(),
                default_extension: "md".to_owned(),
                default_template: None,
            },
            filesystem: FilesystemConfig {
                max_file_size: 10 * 1024 * 1024,
                create_backups: true,
                backup_directory: ".backups".to_owned(),
            },
        };
        assert(config@.editor_args =~= Seq::empty());
        config
    }
}

/// The settings that can be read and written by key.
#[derive(Clone, Copy, Debug, PartialEq, Eq, Structural)]
pub enum ConfigKey {
    Timezone,
    Language,
    DefaultEditor,
    NotesDirectory,
    DefaultExtension,
    DefaultTemplate,
    MaxFileSize,
    CreateBackups,
    BackupDirectory,
}

/// What can go wrong with the settings.
#[derive(Debug)]
pub enum ConfigError {
    /// The key names no setting.
    UnknownKey { key: String },
    /// The value is no size of a file.
    InvalidFileSize { value: String },
    /// The value is no truth value.
    InvalidBoolean { value: String },
    /// The system names no directory for settings.
    NoConfigDirectory,
}

/// A `ConfigError` with its texts as sequences of characters.
pub enum ConfigErrorView {
    UnknownKey { key: Seq<char> },
    InvalidFileSize { value: Seq<char> },
    InvalidBoolean { value: Seq<char> },
    NoConfigDirectory,
}

impl View for ConfigError {
    type V = ConfigErrorView;

    open spec fn view(&self) -> ConfigErrorView {
        match self {
            ConfigError::UnknownKey { key } => ConfigErrorView::UnknownKey { key: key@ },
            ConfigError::InvalidFileSize { value } => ConfigErrorView::InvalidFileSize {
                value: value@,
            },
            ConfigError::InvalidBoolean { value } => ConfigErrorView::InvalidBoolean {
                value: value@,
            },
            ConfigError::NoConfigDirectory => ConfigErrorView::NoConfigDirectory,
        }
    }
}

/// The description of an error of the settings.
pub open spec fn config_error_text(error: ConfigErrorView) -> Seq<char> {
    match error {
        ConfigErrorView::UnknownKey { key } => "Unknown configuration key: "@ + key,
        ConfigErrorView::InvalidFileSize { value } => "Invalid file size: "@ + value,
        ConfigErrorView::InvalidBoolean { value } => "Invalid boolean value: "@ + value,
        ConfigErrorView::NoConfigDirectory => "Could not determine config directory"@,
    }
}

impl ConfigError {
    /// The description of this error.
    pub fn describe(&self) -> (text: String)
        ensures
            text@ == config_error_text(self@),
    {
        match self {
            ConfigError::UnknownKey { key } => join2("Unknown configuration key: ", key),
            ConfigError::InvalidFileSize { value } => join2("Invalid file size: ", value),
            ConfigError::InvalidBoolean { value } => join2("Invalid boolean value: ", value),
            ConfigError::NoConfigDirectory => "Could not determine config directory".to_owned(),
        }
    }
}

/// An outcome with its value and its error as mathematical values.
pub open spec fn config_outcome<T: DeepView>(outcome: Result<T, ConfigError>) -> Result<
    T::V,
    ConfigErrorView,
> {
    match outcome {
        Ok(value) => Ok(value.deep_view()),
        Err(error) => Err(error@),
    }
}

/// The setting that a key names: the name of its section, a point, and
/// its own name.
pub open spec fn key_named(key: Seq<char>) -> Option<ConfigKey> {
    if key == "general.timezone"@ {
        Some(ConfigKey::Timezone)
    } else if key == "general.language"@ {
        Some(ConfigKey::Language)
    } else if key == "editor.default_editor"@ {
        Some(ConfigKey::DefaultEditor)
    } else if key == "notes.notes_directory"@ {
        Some(ConfigKey::NotesDirectory)
    } else if key == "notes.default_extension"@ {
        Some(ConfigKey::DefaultExtension)
    } else if key == "notes.default_template"@ {
        Some(ConfigKey::DefaultTemplate)
    } else if key == "filesystem.max_file_size"@ {
        Some(ConfigKey::MaxFileSize)
    } else if key == "filesystem.create_backups"@ {
        Some(ConfigKey::CreateBackups)
    } else if key == "filesystem.backup_directory"@ {
        Some(ConfigKey::BackupDirectory)
    } else {
        None
    }
}

/// The value of a setting as text. A template that is not set reads as
/// `None`.
pub open spec fn value_of(config: ConfigView, key: ConfigKey) -> Seq<char> {
    match key {
        ConfigKey::Timezone => config.timezone,
        ConfigKey::Language => config.language,
        ConfigKey::DefaultEditor => config.default_editor,
        ConfigKey::NotesDirectory => config.notes_directory,
        ConfigKey::DefaultExtension => config.default_extension,
        ConfigKey::DefaultTemplate => match config.default_template {
            Some(template) => template,
            None => "None"@,
        },
        ConfigKey::MaxFileSize => decimal(config.max_file_size as nat),
        ConfigKey::CreateBackups => bool_text(config.create_backups),
        ConfigKey::BackupDirectory => config.backup_directory,
    }
}

/// The settings with one of them set to the value that `value` stands
/// for. A size must be a number that a `u64` holds, and a truth value `true`
/// or `false`; any text is taken for the other settings.
pub open spec fn with_value(config: ConfigView, key: ConfigKey, value: Seq<char>) -> Result<
    ConfigView,
    ConfigErrorView,
> {
    match key {
        ConfigKey::Timezone => Ok(ConfigView { timezone: value, ..config }),
        ConfigKey::Language => Ok(ConfigView { language: value, ..config }),
        ConfigKey::DefaultEditor => Ok(ConfigView { default_editor: value, ..config }),
        ConfigKey::NotesDirectory => Ok(ConfigView { notes_directory: value, ..config }),
        ConfigKey::DefaultExtension => Ok(ConfigView { default_extension: value, ..config }),
        ConfigKey::DefaultTemplate => Ok(ConfigView { default_template: Some(value), ..config }),
        ConfigKey::MaxFileSize => match parsed_u64(value) {
            Some(size) => Ok(ConfigView { max_file_size: size, ..config }),
            None => Err(ConfigErrorView::InvalidFileSize { value }),
        },
        ConfigKey::CreateBackups => match parsed_bool(value) {
            Some(flag) => Ok(ConfigView { create_backups: flag, ..config }),
            None => Err(ConfigErrorView::InvalidBoolean { value }),
        },
        ConfigKey::BackupDirectory => Ok(ConfigView { backup_directory: value, ..config }),
    }
}

/// What reading the setting that `key` names gives.
pub open spec fn config_get(config: ConfigView, key: Seq<char>) -> Result<
    Seq<char>,
    ConfigErrorView,
> {
    match key_named(key) {
        Some(named) => Ok(value_of(config, named)),
        None => Err(ConfigErrorView::UnknownKey { key }),
    }
}

/// What writing the setting that `key` names gives.
pub open spec fn config_set(config: ConfigView, key: Seq<char>, value: Seq<char>) -> Result<
    ConfigView,
    ConfigErrorView,
> {
    match key_named(key) {
        Some(named) => with_value(config, named, value),
        None => Err(ConfigErrorView::UnknownKey { key }),
    }
}

/// The path of the file of settings below the directory that the system
/// names for settings.
pub open spec fn config_path_in(directory: Seq<char>) -> Seq<char> {
    joined(joined(directory, "memoria"@), "config.toml"@)
}

/// The setting that `key` names.
pub fn parse_key(key: &str) -> (named: Option<ConfigKey>)
    ensures
        named == key_named(key@),
{
    if same_text(key, "general.timezone") {
        Some(ConfigKey::Timezone)
    } else if same_text(key, "general.language") {
        Some(ConfigKey::Language)
    } else if same_text(key, "editor.default_editor") {
        Some(ConfigKey::DefaultEditor)
    } else if same_text(key, "notes.notes_directory") {
        Some(ConfigKey::NotesDirectory)
    } else if same_text(key, "notes.default_extension") {
        Some(ConfigKey::DefaultExtension)
    } else if same_text(key, "notes.default_template") {
        Some(ConfigKey::DefaultTemplate)
    } else if same_text(key, "filesystem.max_file_size") {
        Some(ConfigKey::MaxFileSize)
    } else if same_text(key, "filesystem.create_backups") {
        Some(ConfigKey::CreateBackups)
    } else if same_text(key, "filesystem.backup_directory") {
        Some(ConfigKey::BackupDirectory)
    } else {
        None
    }
}

/// The directory that the system names for the settings of its user, read
/// by `dirs::config_dir` from the variables of the process; a path that
/// is no text is given with the marks that `Path::to_string_lossy` puts in
/// it. Nothing is promised of it.
#[verifier::external_body]
fn config_directory() -> (directory: Option<String>) {
    match dirs::config_dir() {
        Some(path) => Some(path.to_string_lossy().into_owned()),
        None => None,
    }
}

impl MemoriaConfig {
    /// The path of the file of settings below `directory`.
    pub fn config_path(directory: &str) -> (path: String)
        ensures
            path@ == config_path_in(directory@),
    {
        let home = join_path(directory, "memoria");
        join_path(home.as_str(), "config.toml")
    }

    /// The path of the file of settings of the user, where the system
    /// names a directory for settings.
    pub fn default_config_path() -> (path: Result<String, ConfigError>)
        ensures
            match path {
                Ok(path) => exists|directory: Seq<char>| path@ == config_path_in(directory),
                Err(error) => error@ == ConfigErrorView::NoConfigDirectory,
            },
    {
        match config_directory() {
            Some(directory) => Ok(MemoriaConfig::config_path(directory.as_str())),
            None => Err(ConfigError::NoConfigDirectory),
        }
    }

    /// The value of the setting that `key` names, as text.
    pub fn get(&self, key: &str) -> (value: Result<String, ConfigError>)
        ensures
            config_outcome(value) == config_get(self@, key@),
    {
        match parse_key(key) {
            None => Err(ConfigError::UnknownKey { key: key.to_owned() }),
            Some(named) => Ok(
                match named {
                    ConfigKey::Timezone => self.general.timezone.clone(),
                    ConfigKey::Language => self.general.language.clone(),
                    ConfigKey::DefaultEditor => self.editor.default_editor.clone(),
                    ConfigKey::NotesDirectory => self.notes.notes_directory.clone(),
                    ConfigKey::DefaultExtension => self.notes.default_extension.clone(),
                    ConfigKey::DefaultTemplate => match &self.notes.default_template {
                        Some(template) => template.clone(),
                        None => "None".to_owned(),
                    },
                    ConfigKey::MaxFileSize => decimal_text(self.filesystem.max_file_size),
                    ConfigKey::CreateBackups => bool_string(self.filesystem.create_backups),
                    ConfigKey::BackupDirectory => self.filesystem.backup_directory.clone(),
                },
            ),
        }
    }

    /// Sets the setting that `key` names to the value that `value` stands
    /// for. Nothing changes where the key names no setting or the value does
    /// not fit it.
    pub fn set(&mut self, key: &str, value: &str) -> (outcome: Result<(), ConfigError>)
        ensures
            match config_set(old(self)@, key@, value@) {
                Ok(config) => outcome is Ok && final(self)@ == config,
                Err(error) => outcome is Err && outcome->Err_0@ == error && final(self)@ == old(
                    self,
                )@,
            },
    {
        match parse_key(key) {
            None => Err(ConfigError::UnknownKey { key: key.to_owned() }),
            Some(named) => match named {
                ConfigKey::Timezone => {
                    self.general.timezone = value.to_owned();
                    Ok(())
                },
                ConfigKey::Language => {
                    self.general.language = value.to_owned();
                    Ok(())
                },
                ConfigKey::DefaultEditor => {
                    self.editor.default_editor = value.to_owned();
                    Ok(())
                },
                ConfigKey::NotesDirectory => {
                    self.notes.notes_directory = value.to_owned();
                    Ok(())
                },
                ConfigKey::DefaultExtension => {
                    self.notes.default_extension = value.to_owned();
                    Ok(())
                },
                ConfigKey::DefaultTemplate => {
                    self.notes.default_template = Some(value.to_owned());
                    Ok(())
                },
                ConfigKey::MaxFileSize => match parse_u64(value) {
                    Some(size) => {
                        self.filesystem.max_file_size = size;
                        Ok(())
                    },
                    None => Err(ConfigError::InvalidFileSize { value: value.to_owned() }),
                },
                ConfigKey::CreateBackups => match parse_bool(value) {
                    Some(flag) => {
                        self.filesystem.create_backups = flag;
                        Ok(())
                    },
                    None => Err(ConfigError::InvalidBoolean { value: value.to_owned() }),
                },
                ConfigKey::BackupDirectory => {
                    self.filesystem.backup_directory = value.to_owned();
                    Ok(())
                },
            },
        }
    }
}

} // verus!
