//! The file of settings: when it is read, when it is written, and what
//! holds where it is missing. The text of the file is TOML; turning the text
//! into settings and back is the caller's.

use crate::config::{
    config_path_in, default_config, ConfigError, ConfigErrorView, ConfigView, MemoriaConfig,
};
use crate::errors::{map_io_error_with_context, mapped_io_error};
use crate::filename::{parent_of, parent_path};
use crate::filesystem::{
    unexpected, unexpected_response, PathKind, Request, RequestView, Response, ResponseView, Step,
    StepView,
};
use vstd::prelude::*;

verus! {

/// What the loading of the settings gives: the settings of a tool that
/// has none of its own yet, where there is no file, or the text of the file.
#[derive(Debug)]
pub enum Loaded {
    Defaults(MemoriaConfig),
    Text(String),
}

/// A `Loaded` as a mathematical value.
pub enum LoadedView {
    Defaults(ConfigView),
    Text(Seq<char>),
}

impl DeepView for Loaded {
    type V = LoadedView;

    open spec fn deep_view(&self) -> LoadedView {
        match self {
            Loaded::Defaults(config) => LoadedView::Defaults(config@),
            Loaded::Text(text) => LoadedView::Text(text@),
        }
    }
}

/// The loading of the settings, waiting for an answer of the file system.
#[derive(Debug)]
pub enum ConfigLoading {
    /// Waiting to learn what stands at the path of the file.
    Probing { path: String },
    /// Waiting for the text of the file.
    Reading { path: String },
}

/// A `ConfigLoading` with its path as a sequence of characters.
pub enum ConfigLoadingView {
    Probing { path: Seq<char> },
    Reading { path: Seq<char> },
}

impl View for ConfigLoading {
    type V = ConfigLoadingView;

    open spec fn view(&self) -> ConfigLoadingView {
        match self {
            ConfigLoading::Probing { path } => ConfigLoadingView::Probing { path: path@ },
            ConfigLoading::Reading { path } => ConfigLoadingView::Reading { path: path@ },
        }
    }
}

/// How the loading of the settings from `path` begins: by asking what
/// stands at the path.
pub open spec fn config_load_start(path: Seq<char>) -> StepView<ConfigLoadingView, LoadedView> {
    StepView::Ask(ConfigLoadingView::Probing { path }, RequestView::Probe { path })
}

/// How the loading of the settings goes on after an answer. A file that
/// is missing gives the settings of a tool that has none of its own yet, and
/// is not made; whatever else stands at the path is read.
pub open spec fn config_load_resume(
    state: ConfigLoadingView,
    response: ResponseView,
) -> StepView<ConfigLoadingView, LoadedView> {
    match state {
        ConfigLoadingView::Probing { path } => match response {
            ResponseView::Probed(PathKind::Missing) => StepView::Done(
                Ok(LoadedView::Defaults(default_config())),
            ),
            ResponseView::Probed(_) => StepView::Ask(
                ConfigLoadingView::Reading { path },
                RequestView::ReadFile { path },
            ),
            _ => StepView::Done(Err(unexpected_response())),
        },
        ConfigLoadingView::Reading { path } => match response {
            ResponseView::FileRead(Ok(text)) => StepView::Done(Ok(LoadedView::Text(text))),
            ResponseView::FileRead(Err(failure)) => StepView::Done(
                Err(mapped_io_error(failure, path)),
            ),
            _ => StepView::Done(Err(unexpected_response())),
        },
    }
}

impl ConfigLoading {
    /// Goes on with the loading of the settings after an answer of the
    /// file system.
    pub fn resume(self, response: Response) -> (step: Step<ConfigLoading, Loaded>)
        ensures
            step@ == config_load_resume(self@, response@),
    {
        match self {
            ConfigLoading::Probing { path } => match response {
                Response::Probed(PathKind::Missing) => Step::Done(
                    Ok(Loaded::Defaults(MemoriaConfig::default())),
                ),
                Response::Probed(_) => {
                    let target = path.clone();
                    Step::Ask(ConfigLoading::Reading { path }, Request::ReadFile { path: target })
                },
                _ => Step::Done(Err(unexpected())),
            },
            ConfigLoading::Reading { path } => match response {
                Response::FileRead(Ok(text)) => Step::Done(Ok(Loaded::Text(text))),
                Response::FileRead(Err(failure)) => Step::Done(
                    Err(map_io_error_with_context(failure, path.as_str())),
                ),
                _ => Step::Done(Err(unexpected())),
            },
        }
    }
}

/// The path that the making of the directory of a file is asked for:
/// the path of the directory that holds the file, where there is one.
pub open spec fn saving_directory(path: Seq<char>) -> Seq<char> {
    match parent_of(path) {
        Some(directory) => directory,
        None => Seq::empty(),
    }
}

/// What the saving of the settings waits for.
#[derive(Clone, Copy, Debug, PartialEq, Eq, Structural)]
pub enum SavingStage {
    /// What stands at the path of the file.
    Checking,
    /// The making of the directory of the file.
    MakingDirectory,
    /// The writing of the file.
    Writing,
}

/// The saving of the settings, waiting for an answer of the file system.
#[derive(Debug)]
pub struct ConfigSaving {
    path: String,
    text: String,
    stage: SavingStage,
}

/// The saving of the settings as a mathematical value: the path and the
/// text of the file, and what the saving waits for.
pub struct ConfigSavingView {
    pub path: Seq<char>,
    pub text: Seq<char>,
    pub stage: SavingStage,
}

impl View for ConfigSaving {
    type V = ConfigSavingView;

    closed spec fn view(&self) -> ConfigSavingView {
        ConfigSavingView { path: self.path@, text: self.text@, stage: self.stage }
    }
}

/// How the saving of `text` to `path` begins: with the making of the
/// directory that holds the file, or with the writing where the path lies in
/// no directory.
pub open spec fn config_save_start(path: Seq<char>, text: Seq<char>) -> StepView<
    ConfigSavingView,
    bool,
> {
    match parent_of(path) {
        Some(directory) => StepView::Ask(
            ConfigSavingView { path, text, stage: SavingStage::MakingDirectory },
            RequestView::CreateDirectory { path: directory },
        ),
        None => StepView::Ask(
            ConfigSavingView { path, text, stage: SavingStage::Writing },
            RequestView::WriteFile { path, content: text },
        ),
    }
}

/// How the check for the file of settings begins: by asking what stands
/// at its path.
pub open spec fn config_ensure_start(path: Seq<char>, text: Seq<char>) -> StepView<
    ConfigSavingView,
    bool,
> {
    StepView::Ask(
        ConfigSavingView { path, text, stage: SavingStage::Checking },
        RequestView::Probe { path },
    )
}

/// How the saving of the settings goes on after an answer. A file that
/// stands where one is only wanted to exist is left as it is, and the saving
/// ends with `false`; else the directory of the file is made and the file
/// written, and the saving ends with `true`.
pub open spec fn config_save_resume(state: ConfigSavingView, response: ResponseView) -> StepView<
    ConfigSavingView,
    bool,
> {
    match state.stage {
        SavingStage::Checking => match response {
            ResponseView::Probed(PathKind::Missing) => config_save_start(state.path, state.text),
            ResponseView::Probed(_) => StepView::Done(Ok(false)),
            _ => StepView::Done(Err(unexpected_response())),
        },
        SavingStage::MakingDirectory => match response {
            ResponseView::DirectoryCreated(Ok(_)) => StepView::Ask(
                ConfigSavingView { stage: SavingStage::Writing, ..state },
                RequestView::WriteFile { path: state.path, content: state.text },
            ),
            ResponseView::DirectoryCreated(Err(failure)) => StepView::Done(
                Err(mapped_io_error(failure, saving_directory(state.path))),
            ),
            _ => StepView::Done(Err(unexpected_response())),
        },
        SavingStage::Writing => match response {
            ResponseView::FileWritten(Ok(_)) => StepView::Done(Ok(true)),
            ResponseView::FileWritten(Err(failure)) => StepView::Done(
                Err(mapped_io_error(failure, state.path)),
            ),
            _ => StepView::Done(Err(unexpected_response())),
        },
    }
}

impl ConfigSaving {
    /// Begins the saving of `text` to `path`.
    fn begin(path: String, text: String) -> (step: Step<ConfigSaving, bool>)
        ensures
            step@ == config_save_start(path@, text@),
    {
        match parent_path(path.as_str()) {
            Some(directory) => Step::Ask(
                ConfigSaving { path, text, stage: SavingStage::MakingDirectory },
                Request::CreateDirectory { path: directory },
            ),
            None => {
                let target = path.clone();
                let content = text.clone();
                Step::Ask(
                    ConfigSaving { path, text, stage: SavingStage::Writing },
                    Request::WriteFile { path: target, content },
                )
            },
        }
    }

    /// Goes on with the saving of the settings after an answer of the file
    /// system.
    pub fn resume(self, response: Response) -> (step: Step<ConfigSaving, bool>)
        ensures
            step@ == config_save_resume(self@, response@),
    {
        let ConfigSaving { path, text, stage } = self;
        match stage {
            SavingStage::Checking => match response {
                Response::Probed(PathKind::Missing) => ConfigSaving::begin(path, text),
                Response::Probed(_) => Step::Done(Ok(false)),
                _ => Step::Done(Err(unexpected())),
            },
            SavingStage::MakingDirectory => match response {
                Response::DirectoryCreated(Ok(_)) => {
                    let target = path.clone();
                    let content = text.clone();
                    Step::Ask(
                        ConfigSaving { path, text, stage: SavingStage::Writing },
                        Request::WriteFile { path: target, content },
                    )
                },
                Response::DirectoryCreated(Err(failure)) => {
                    let directory = match parent_path(path.as_str()) {
                        Some(directory) => directory,
                        None => String::new(),
                    };
                    Step::Done(Err(map_io_error_with_context(failure, directory.as_str())))
                },
                _ => Step::Done(Err(unexpected())),
            },
            SavingStage::Writing => match response {
                Response::FileWritten(Ok(_)) => Step::Done(Ok(true)),
                Response::FileWritten(Err(failure)) => Step::Done(
                    Err(map_io_error_with_context(failure, path.as_str())),
                ),
                _ => Step::Done(Err(unexpected())),
            },
        }
    }
}

impl MemoriaConfig {
    /// Begins the loading of the settings from the file at `path`.
    pub fn load_from_file(path: &str) -> (step: Step<ConfigLoading, Loaded>)
        ensures
            step@ == config_load_start(path@),
    {
        Step::Ask(
            ConfigLoading::Probing { path: path.to_owned() },
            Request::Probe { path: path.to_owned() },
        )
    }

    /// Begins the loading of the settings of the user.
    pub fn load() -> (step: Result<Step<ConfigLoading, Loaded>, ConfigError>)
        ensures
            match step {
                Ok(step) => exists|directory: Seq<char>|
                    step@ == config_load_start(config_path_in(directory)),
                Err(error) => error@ == ConfigErrorView::NoConfigDirectory,
            },
    {
        match MemoriaConfig::default_config_path() {
            Ok(path) => Ok(MemoriaConfig::load_from_file(path.as_str())),
            Err(error) => Err(error),
        }
    }

    /// Begins the saving of the settings, given as the text `toml`, to the
    /// file at `path`.
    pub fn save_to_file(path: &str, toml: &str) -> (step: Step<ConfigSaving, bool>)
        ensures
            step@ == config_save_start(path@, toml@),
    {
        ConfigSaving::begin(path.to_owned(), toml.to_owned())
    }

    /// Begins the saving of the settings of the user, given as the text
    /// `toml`.
    pub fn save(toml: &str) -> (step: Result<Step<ConfigSaving, bool>, ConfigError>)
        ensures
            match step {
                Ok(step) => exists|directory: Seq<char>|
                    step@ == config_save_start(config_path_in(directory), toml@),
                Err(error) => error@ == ConfigErrorView::NoConfigDirectory,
            },
    {
        match MemoriaConfig::default_config_path() {
            Ok(path) => Ok(MemoriaConfig::save_to_file(path.as_str(), toml)),
            Err(error) => Err(error),
        }
    }

    /// Begins the check that the file at `path` exists; where it does not,
    /// the text `defaults` is saved to it.
    pub fn ensure_exists_at(path: &str, defaults: &str) -> (step: Step<ConfigSaving, bool>)
        ensures
            step@ == config_ensure_start(path@, defaults@),
    {
        Step::Ask(
            ConfigSaving {
                path: path.to_owned(),
                text: defaults.to_owned(),
                stage: SavingStage::Checking,
            },
            Request::Probe { path: path.to_owned() },
        )
    }

    /// Begins the check that the user has a file of settings; where there
    /// is none, the text `defaults` is saved as one.
    pub fn ensure_config_exists(defaults: &str) -> (step: Result<
        Step<ConfigSaving, bool>,
        ConfigError,
    >)
        ensures
            match step {
                Ok(step) => exists|directory: Seq<char>|
                    step@ == config_ensure_start(config_path_in(directory), defaults@),
                Err(error) => error@ == ConfigErrorView::NoConfigDirectory,
            },
    {
        match MemoriaConfig::default_config_path() {
            Ok(path) => Ok(MemoriaConfig::ensure_exists_at(path.as_str(), defaults)),
            Err(error) => Err(error),
        }
    }
}

} // verus!
