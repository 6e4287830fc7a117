//! Application settings: their errors, their validation, and the manager
//! that holds the settings in memory together with where they are stored.

use crate::text::{decimal, is_blank, is_blank_str, usize_to_decimal};
use vstd::prelude::*;
use vstd::string::*;

pub mod logging;
mod types;

pub use types::{
    is_default_logging, is_default_ui, ConsoleFormat, ConsoleWriter, FileFormat,
    LoggingSettings, RotationPolicy, Settings, UiPreferences,
};

verus! {

/// Errors that can occur during settings operations.
#[derive(Debug)]
pub enum SettingsError {
    Io(String),
    TomlParse(String),
    TomlSerialize(String),
    Validation(String),
    PathExpansion(String),
}

/// The message that describes a settings error.
pub open spec fn settings_error_text(e: SettingsError) -> Seq<char> {
    match e {
        SettingsError::Io(m) => "IO error: "@ + m@,
        SettingsError::TomlParse(m) => "TOML parse error: "@ + m@,
        SettingsError::TomlSerialize(m) => "TOML serialize error: "@ + m@,
        SettingsError::Validation(m) => "Settings validation error: "@ + m@,
        SettingsError::PathExpansion(m) => "Path expansion error: "@ + m@,
    }
}

impl SettingsError {
    /// The message that describes this error.
    pub fn message(&self) -> (s: String)
        ensures
            s@ == settings_error_text(*self),
    {
        match self {
            SettingsError::Io(m) => "IO error: ".to_string().concat(m.as_str()),
            SettingsError::TomlParse(m) => "TOML parse error: ".to_string().concat(m.as_str()),
            SettingsError::TomlSerialize(m) => "TOML serialize error: ".to_string().concat(
                m.as_str(),
            ),
            SettingsError::Validation(m) => "Settings validation error: ".to_string().concat(
                m.as_str(),
            ),
            SettingsError::PathExpansion(m) => "Path expansion error: ".to_string().concat(
                m.as_str(),
            ),
        }
    }
}

/// Result of a settings operation.
pub type Result<T> = std::result::Result<T, SettingsError>;

/// The components the UI may start with.
pub open spec fn valid_active_component(c: Seq<char>) -> bool {
    c == "server_list"@ || c == "table_list"@ || c == "properties"@
}

/// The first problem with a set of settings, if any: the panel width must lie
/// in 200..=600, the theme be `dark` or `light`, the active component one of
/// the left-panel components, the window dimensions positive, and the log file
/// prefix and directory non-blank.
pub open spec fn settings_problem(s: Settings) -> Option<Seq<char>> {
    let ui = s.ui_preferences;
    let lg = s.logging;
    if ui.panel_width < 200 || ui.panel_width > 600 {
        Some("panel_width must be between 200 and 600, got "@ + decimal(ui.panel_width as nat))
    } else if ui.theme@ != "dark"@ && ui.theme@ != "light"@ {
        Some("theme must be 'dark' or 'light', got '"@ + ui.theme@ + "'"@)
    } else if !valid_active_component(ui.active_component@) {
        Some(
            "active_component must be one of [\"server_list\", \"table_list\", \"properties\"], got '"@
                + ui.active_component@ + "'"@,
        )
    } else if ui.window_width == 0 || ui.window_height == 0 {
        Some("window dimensions must be positive"@)
    } else if is_blank(lg.file_prefix@) {
        Some("file_prefix cannot be empty"@)
    } else if is_blank(lg.file_directory@) {
        Some("file_directory cannot be empty"@)
    } else {
        None
    }
}

/// A validation outcome agrees with the first problem found.
pub open spec fn validation_reports(r: Result<()>, problem: Option<Seq<char>>) -> bool {
    match r {
        Ok(()) => problem is None,
        Err(e) => e matches SettingsError::Validation(m) && problem == Some(m@),
    }
}

/// Check that settings hold valid values, reporting the first problem found.
pub fn validate_settings(settings: &Settings) -> (r: Result<()>)
    ensures
        validation_reports(r, settings_problem(*settings)),
{
    let ui = &settings.ui_preferences;
    if ui.panel_width < 200 || ui.panel_width > 600 {
        return Err(
            SettingsError::Validation(
                "panel_width must be between 200 and 600, got ".to_string().concat(
                    usize_to_decimal(ui.panel_width as usize).as_str(),
                ),
            ),
        );
    }
    if !(ui.theme == "dark".to_string()) && !(ui.theme == "light".to_string()) {
        return Err(
            SettingsError::Validation(
                "theme must be 'dark' or 'light', got '".to_string().concat(
                    ui.theme.as_str(),
                ).concat("'"),
            ),
        );
    }
    let c = &ui.active_component;
    if !(*c == "server_list".to_string()) && !(*c == "table_list".to_string()) && !(*c
        == "properties".to_string()) {
        return Err(
            SettingsError::Validation(
                "active_component must be one of [\"server_list\", \"table_list\", \"properties\"], got '".to_string().concat(
                c.as_str()).concat("'"),
            ),
        );
    }
    if ui.window_width == 0 || ui.window_height == 0 {
        return Err(SettingsError::Validation("window dimensions must be positive".to_string()));
    }
    let logging = &settings.logging;
    if is_blank_str(logging.file_prefix.as_str()) {
        return Err(SettingsError::Validation("file_prefix cannot be empty".to_string()));
    }
    if is_blank_str(logging.file_directory.as_str()) {
        return Err(SettingsError::Validation("file_directory cannot be empty".to_string()));
    }
    Ok(())
}

/// Settings manager: the settings in memory, the directory that holds the
/// settings file and the file's path. Reading and writing the file is left to
/// the caller.
pub struct SettingsManager {
    settings_dir: String,
    settings_path: String,
    settings: Settings,
}

impl SettingsManager {
    /// The settings in memory.
    pub closed spec fn current(&self) -> Settings {
        self.settings
    }

    /// The settings directory.
    pub closed spec fn dir(&self) -> Seq<char> {
        self.settings_dir@
    }

    /// The settings file.
    pub closed spec fn path(&self) -> Seq<char> {
        self.settings_path@
    }

    /// A manager for settings that were loaded from, or saved to,
    /// `settings_path` in `settings_dir`.
    pub fn from_loaded(settings_dir: String, settings_path: String, settings: Settings) -> (m:
        Self)
        ensures
            m.dir() == settings_dir@,
            m.path() == settings_path@,
            m.current() == settings,
    {
        SettingsManager { settings_dir, settings_path, settings }
    }

    /// Get the current settings.
    pub fn settings(&self) -> (s: &Settings)
        ensures
            *s == self.current(),
    {
        &self.settings
    }

    /// Get the current settings for modification.
    pub fn settings_mut(&mut self) -> (s: &mut Settings)
        ensures
            *s == old(self).current(),
            final(self).current() == *final(s),
            final(self).dir() == old(self).dir(),
            final(self).path() == old(self).path(),
    {
        &mut self.settings
    }

    /// Get the settings directory path.
    pub fn settings_dir(&self) -> (d: &str)
        ensures
            d@ == self.dir(),
    {
        self.settings_dir.as_str()
    }

    /// Get the settings file path.
    pub fn settings_path(&self) -> (p: &str)
        ensures
            p@ == self.path(),
    {
        self.settings_path.as_str()
    }

    /// Validate the current settings.
    pub fn validate(&self) -> (r: Result<()>)
        ensures
            validation_reports(r, settings_problem(self.current())),
    {
        validate_settings(&self.settings)
    }

    /// Take settings read back from the settings file: they replace the ones
    /// in memory when they are valid, and are refused otherwise.
    pub fn apply_reload(&mut self, loaded: Settings) -> (r: Result<()>)
        ensures
            validation_reports(r, settings_problem(loaded)),
            r is Err ==> *final(self) == *old(self),
            final(self).current() == if r is Ok {
                loaded
            } else {
                old(self).current()
            },
            final(self).dir() == old(self).dir(),
            final(self).path() == old(self).path(),
    {
        match validate_settings(&loaded) {
            Ok(()) => {
                self.settings = loaded;
                Ok(())
            },
            Err(e) => Err(e),
        }
    }
}

} // verus!
