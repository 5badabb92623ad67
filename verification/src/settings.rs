//! The user's preferences and the rules that keep them sane.

use vstd::prelude::*;
use crate::text::{join, joined};
use crate::types::{clone_opt, opt_view};

verus! {

/// Where converted files go.
#[derive(Clone, Copy, Debug, PartialEq, Eq, Structural)]
pub enum OutputPathMode {
    SameAsInput,
    CustomDirectory,
}

/// Where converted files go, and the directory for the custom mode.
#[derive(Debug)]
pub struct OutputPathSettings {
    pub mode: OutputPathMode,
    pub custom_directory: Option<String>,
}

/// The user's preferences.
#[derive(Debug)]
pub struct UserSettings {
    pub output_path: OutputPathSettings,
    pub preserve_metadata: bool,
    pub compression_level: u8,
    pub auto_delete: bool,
}

/// What an [`OutputPathSettings`] holds, as plain values.
pub struct OutputPathSettingsView {
    pub mode: OutputPathMode,
    pub custom_directory: Option<Seq<char>>,
}

/// What a [`UserSettings`] holds, as plain values.
pub struct UserSettingsView {
    pub output_path: OutputPathSettingsView,
    pub preserve_metadata: bool,
    pub compression_level: u8,
    pub auto_delete: bool,
}

impl View for OutputPathSettings {
    type V = OutputPathSettingsView;

    open spec fn view(&self) -> OutputPathSettingsView {
        OutputPathSettingsView {
            mode: self.mode,
            custom_directory: opt_view(self.custom_directory),
        }
    }
}

impl View for UserSettings {
    type V = UserSettingsView;

    open spec fn view(&self) -> UserSettingsView {
        UserSettingsView {
            output_path: self.output_path@,
            preserve_metadata: self.preserve_metadata,
            compression_level: self.compression_level,
            auto_delete: self.auto_delete,
        }
    }
}

impl Clone for OutputPathSettings {
    fn clone(&self) -> (copy: Self)
        ensures
            copy@ == self@,
    {
        OutputPathSettings { mode: self.mode, custom_directory: clone_opt(&self.custom_directory) }
    }
}

impl Clone for UserSettings {
    fn clone(&self) -> (copy: Self)
        ensures
            copy@ == self@,
    {
        UserSettings {
            output_path: self.output_path.clone(),
            preserve_metadata: self.preserve_metadata,
            compression_level: self.compression_level,
            auto_delete: self.auto_delete,
        }
    }
}

/// The preferences of a user who has chosen nothing: files go beside their
/// source, metadata is kept, compression is at the middle, sources stay.
pub open spec fn default_settings() -> UserSettingsView {
    UserSettingsView {
        output_path: OutputPathSettingsView {
            mode: OutputPathMode::SameAsInput,
            custom_directory: None,
        },
        preserve_metadata: true,
        compression_level: 50,
        auto_delete: false,
    }
}

impl Default for UserSettings {
    fn default() -> (settings: Self)
        ensures
            settings@ == default_settings(),
    {
        UserSettings {
            output_path: OutputPathSettings {
                mode: OutputPathMode::SameAsInput,
                custom_directory: None,
            },
            preserve_metadata: true,
            compression_level: 50,
            auto_delete: false,
        }
    }
}

/// What stands on disk at the custom output directory's path.
#[derive(Clone, Copy, Debug, PartialEq, Eq, Structural)]
pub enum DirectoryStatus {
    /// Nothing.
    Missing,
    /// Something that is no directory.
    NotADirectory,
    /// A directory.
    Directory,
}

/// The highest compression level.
pub const MAX_COMPRESSION: u8 = 100;

/// Settings with their faults mended: the compression level is held at the
/// maximum, and the custom mode without a directory falls back to writing
/// beside the source.
pub open spec fn mended(settings: UserSettingsView) -> UserSettingsView {
    UserSettingsView {
        output_path: OutputPathSettingsView {
            mode: if settings.output_path.mode == OutputPathMode::CustomDirectory
                && settings.output_path.custom_directory is None {
                OutputPathMode::SameAsInput
            } else {
                settings.output_path.mode
            },
            custom_directory: settings.output_path.custom_directory,
        },
        compression_level: if settings.compression_level > MAX_COMPRESSION {
            MAX_COMPRESSION
        } else {
            settings.compression_level
        },
        ..settings
    }
}

/// The warning about the compression level, if it is too high.
pub open spec fn compression_warnings(settings: UserSettingsView) -> Seq<Seq<char>> {
    if settings.compression_level > MAX_COMPRESSION {
        seq!["Compression level was above 100, reset to 100"@]
    } else {
        seq![]
    }
}

/// The warning about the custom output directory, if that mode is chosen
/// and the directory is not set, not there, or no directory.
pub open spec fn directory_warnings(
    settings: UserSettingsView,
    directory: DirectoryStatus,
) -> Seq<Seq<char>> {
    if settings.output_path.mode == OutputPathMode::CustomDirectory {
        match settings.output_path.custom_directory {
            Some(path) => match directory {
                DirectoryStatus::Missing => seq![
                    "Custom output directory does not exist: "@ + path
                        + ". Will fallback to same as input."@,
                ],
                DirectoryStatus::NotADirectory => seq![
                    "Custom output path is not a directory: "@ + path
                        + ". Will fallback to same as input."@,
                ],
                DirectoryStatus::Directory => seq![],
            },
            None => seq![
                "Custom directory mode was selected but no directory was set. Reset to 'same as input'."@,
            ],
        }
    } else {
        seq![]
    }
}

/// Every warning that validating the settings gives, in order.
pub open spec fn warnings(settings: UserSettingsView, directory: DirectoryStatus) -> Seq<
    Seq<char>,
> {
    compression_warnings(settings) + directory_warnings(settings, directory)
}

impl UserSettings {
    /// Mends the settings and says what was wrong with them. `directory`
    /// tells what stands at the custom output directory's path; it matters
    /// only where that mode is chosen and a directory is set.
    pub fn validate(&mut self, directory: DirectoryStatus) -> (found: Vec<String>)
        ensures
            final(self)@ == mended(old(self)@),
            found.deep_view() == warnings(old(self)@, directory),
            final(self).compression_level <= MAX_COMPRESSION,
            final(self).output_path.mode == OutputPathMode::CustomDirectory
                ==> final(self).output_path.custom_directory is Some,
    {
        let mut found: Vec<String> = Vec::new();
        if self.compression_level > MAX_COMPRESSION {
            self.compression_level = MAX_COMPRESSION;
            found.push(String::from_str("Compression level was above 100, reset to 100"));
        }
        assert(found.deep_view() =~= compression_warnings(old(self)@));
        let ghost first = found.deep_view();
        let mut reset = false;
        if self.output_path.mode == OutputPathMode::CustomDirectory {
            match &self.output_path.custom_directory {
                Some(path) => {
                    match directory {
                        DirectoryStatus::Missing => {
                            found.push(
                                String::from_str("Custom output directory does not exist: ").concat(
                                    path.as_str(),
                                ).concat(". Will fallback to same as input."),
                            );
                        },
                        DirectoryStatus::NotADirectory => {
                            found.push(
                                String::from_str("Custom output path is not a directory: ").concat(
                                    path.as_str(),
                                ).concat(". Will fallback to same as input."),
                            );
                        },
                        DirectoryStatus::Directory => {},
                    }
                },
                None => {
                    reset = true;
                    found.push(
                        String::from_str(
                            "Custom directory mode was selected but no directory was set. Reset to 'same as input'.",
                        ),
                    );
                },
            }
        }
        if reset {
            self.output_path.mode = OutputPathMode::SameAsInput;
        }
        assert(found.deep_view() =~= first + directory_warnings(old(self)@, directory));
        found
    }
}

/// What was being done with the settings file when the system refused.
#[derive(Clone, Copy, Debug, PartialEq, Eq, Structural)]
pub enum SettingsStep {
    FindDirectory,
    CreateDirectory,
    ReadFile,
    WriteFile,
}

/// Why the settings could not be loaded or saved.
#[derive(Debug)]
pub enum SettingsError {
    /// The system refused a step; holds what it said.
    Io { step: SettingsStep, detail: String },
    /// The settings file does not hold settings; holds what the parser said.
    Parse(String),
    /// The settings could not be written as text; holds what the writer said.
    Serialize(String),
}

/// What a [`SettingsError`] holds, as plain text.
pub enum SettingsErrorView {
    Io { step: SettingsStep, detail: Seq<char> },
    Parse(Seq<char>),
    Serialize(Seq<char>),
}

impl View for SettingsError {
    type V = SettingsErrorView;

    open spec fn view(&self) -> SettingsErrorView {
        match self {
            SettingsError::Io { step, detail } => SettingsErrorView::Io {
                step: *step,
                detail: detail@,
            },
            SettingsError::Parse(detail) => SettingsErrorView::Parse(detail@),
            SettingsError::Serialize(detail) => SettingsErrorView::Serialize(detail@),
        }
    }
}

/// How a failed step is introduced.
pub open spec fn step_text(step: SettingsStep) -> Seq<char> {
    match step {
        SettingsStep::FindDirectory => "Failed to get app data directory: "@,
        SettingsStep::CreateDirectory => "Failed to create app data directory: "@,
        SettingsStep::ReadFile => "Failed to read settings file: "@,
        SettingsStep::WriteFile => "Failed to write settings file: "@,
    }
}

/// The message of a settings error.
pub open spec fn settings_message(error: SettingsErrorView) -> Seq<char> {
    match error {
        SettingsErrorView::Io { step, detail } => step_text(step) + detail,
        SettingsErrorView::Parse(detail) => "Failed to parse settings file: "@ + detail,
        SettingsErrorView::Serialize(detail) => "Failed to serialize settings: "@ + detail,
    }
}

/// What the user was doing when the settings failed.
#[derive(Clone, Copy, Debug, PartialEq, Eq, Structural)]
pub enum SettingsCommand {
    Load,
    Save,
    Reset,
}

/// How a failed command is introduced.
pub open spec fn command_text(command: SettingsCommand) -> Seq<char> {
    match command {
        SettingsCommand::Load => "Failed to load settings: "@,
        SettingsCommand::Save => "Failed to save settings: "@,
        SettingsCommand::Reset => "Failed to save default settings: "@,
    }
}

impl SettingsError {
    /// The message of the error, as a person reads it.
    pub fn message(&self) -> (text: String)
        ensures
            text@ == settings_message(self@),
    {
        match self {
            SettingsError::Io { step, detail } => {
                let intro = match step {
                    SettingsStep::FindDirectory => "Failed to get app data directory: ",
                    SettingsStep::CreateDirectory => "Failed to create app data directory: ",
                    SettingsStep::ReadFile => "Failed to read settings file: ",
                    SettingsStep::WriteFile => "Failed to write settings file: ",
                };
                String::from_str(intro).concat(detail.as_str())
            },
            SettingsError::Parse(detail) => String::from_str(
                "Failed to parse settings file: ",
            ).concat(detail.as_str()),
            SettingsError::Serialize(detail) => String::from_str(
                "Failed to serialize settings: ",
            ).concat(detail.as_str()),
        }
    }

    /// What the user is told when a command fails with this error.
    pub fn report(&self, command: SettingsCommand) -> (text: String)
        ensures
            text@ == command_text(command) + settings_message(self@),
    {
        let intro = match command {
            SettingsCommand::Load => "Failed to load settings: ",
            SettingsCommand::Save => "Failed to save settings: ",
            SettingsCommand::Reset => "Failed to save default settings: ",
        };
        String::from_str(intro).concat(self.message().as_str())
    }
}

/// Settings that give no warning need no mending.
pub proof fn lemma_sound_settings_stay(settings: UserSettingsView, directory: DirectoryStatus)
    requires
        warnings(settings, directory).len() == 0,
    ensures
        mended(settings) == settings,
{
}

/// Mending settings twice changes nothing more, and mended settings give no
/// warning but one about what stands at the directory's path.
pub proof fn lemma_mended_is_sound(settings: UserSettingsView, directory: DirectoryStatus)
    ensures
        mended(mended(settings)) == mended(settings),
        compression_warnings(mended(settings)).len() == 0,
        mended(settings).output_path.mode == OutputPathMode::CustomDirectory ==> mended(
            settings,
        ).output_path.custom_directory is Some,
{
}

/// Settings as they are used after loading: mended, and with the word
/// whether anything was wrong, in which case they are to be written back.
pub fn load_user_settings(loaded: UserSettings, directory: DirectoryStatus) -> (checked: (
    UserSettings,
    bool,
))
    ensures
        checked.0@ == mended(loaded@),
        checked.1 == (warnings(loaded@, directory).len() > 0),
{
    let mut settings = loaded;
    let found = settings.validate(directory);
    (settings, found.len() > 0)
}

/// The word on settings that are to be saved, in plain values.
pub open spec fn save_verdict(settings: UserSettingsView, directory: DirectoryStatus) -> Result<
    UserSettingsView,
    Seq<char>,
> {
    if warnings(settings, directory).len() == 0 {
        Ok(settings)
    } else {
        Err("Settings validation failed: "@ + joined(warnings(settings, directory), ", "@))
    }
}

/// The verdict in an executable verdict.
pub open spec fn verdict_view(verdict: Result<UserSettings, String>) -> Result<
    UserSettingsView,
    Seq<char>,
> {
    match verdict {
        Ok(settings) => Ok(settings@),
        Err(message) => Err(message@),
    }
}

/// Checks settings that are to be saved. Sound settings come back as they
/// are; anything else is refused with every warning in the message.
pub fn save_user_settings(settings: UserSettings, directory: DirectoryStatus) -> (verdict: Result<
    UserSettings,
    String,
>)
    ensures
        verdict_view(verdict) == save_verdict(settings@, directory),
{
    let mut checked = settings;
    let found = checked.validate(directory);
    if found.len() > 0 {
        Err(String::from_str("Settings validation failed: ").concat(join(&found, ", ").as_str()))
    } else {
        proof {
            lemma_sound_settings_stay(settings@, directory);
        }
        Ok(checked)
    }
}

/// The settings that a reset puts in place.
pub fn reset_user_settings() -> (settings: UserSettings)
    ensures
        settings@ == default_settings(),
{
    UserSettings::default()
}

} // verus!
