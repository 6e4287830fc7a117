//! Settings type definitions.

use crate::database::ConnectionConfig;
use vstd::prelude::*;
use vstd::string::*;

verus! {

/// Console output format.
#[derive(Debug, Clone, Copy, PartialEq, Eq, Structural)]
pub enum ConsoleFormat {
    Pretty,
    Compact,
}

impl Default for ConsoleFormat {
    fn default() -> (f: Self)
        ensures
            f == ConsoleFormat::Compact,
    {
        ConsoleFormat::Compact
    }
}

impl ConsoleFormat {
    /// The format as it is shown to people.
    pub fn display_string(&self) -> (s: String)
        ensures
            s@ == match *self {
                ConsoleFormat::Pretty => "Pretty"@,
                ConsoleFormat::Compact => "Compact"@,
            },
    {
        match self {
            ConsoleFormat::Pretty => "Pretty".to_string(),
            ConsoleFormat::Compact => "Compact".to_string(),
        }
    }
}

/// Console output writer.
#[derive(Debug, Clone, Copy, PartialEq, Eq, Structural)]
pub enum ConsoleWriter {
    Stdout,
    Stderr,
}

impl Default for ConsoleWriter {
    fn default() -> (w: Self)
        ensures
            w == ConsoleWriter::Stderr,
    {
        ConsoleWriter::Stderr
    }
}

impl ConsoleWriter {
    /// The writer as it is shown to people.
    pub fn display_string(&self) -> (s: String)
        ensures
            s@ == match *self {
                ConsoleWriter::Stdout => "Stdout"@,
                ConsoleWriter::Stderr => "Stderr"@,
            },
    {
        match self {
            ConsoleWriter::Stdout => "Stdout".to_string(),
            ConsoleWriter::Stderr => "Stderr".to_string(),
        }
    }
}

/// File output format.
#[derive(Debug, Clone, Copy, PartialEq, Eq, Structural)]
pub enum FileFormat {
    Text,
    Json,
}

impl Default for FileFormat {
    fn default() -> (f: Self)
        ensures
            f == FileFormat::Text,
    {
        FileFormat::Text
    }
}

impl FileFormat {
    /// The format as it is shown to people.
    pub fn display_string(&self) -> (s: String)
        ensures
            s@ == match *self {
                FileFormat::Text => "Text"@,
                FileFormat::Json => "JSON"@,
            },
    {
        match self {
            FileFormat::Text => "Text".to_string(),
            FileFormat::Json => "JSON".to_string(),
        }
    }
}

/// File rotation policy.
#[derive(Debug, Clone, Copy, PartialEq, Eq, Structural)]
pub enum RotationPolicy {
    Daily,
    Hourly,
    Minutely,
    Never,
}

impl Default for RotationPolicy {
    fn default() -> (p: Self)
        ensures
            p == RotationPolicy::Daily,
    {
        RotationPolicy::Daily
    }
}

impl RotationPolicy {
    /// The policy as it is shown to people.
    pub fn display_string(&self) -> (s: String)
        ensures
            s@ == match *self {
                RotationPolicy::Daily => "Daily"@,
                RotationPolicy::Hourly => "Hourly"@,
                RotationPolicy::Minutely => "Minutely"@,
                RotationPolicy::Never => "Never"@,
            },
    {
        match self {
            RotationPolicy::Daily => "Daily".to_string(),
            RotationPolicy::Hourly => "Hourly".to_string(),
            RotationPolicy::Minutely => "Minutely".to_string(),
            RotationPolicy::Never => "Never".to_string(),
        }
    }
}

/// Logging configuration settings.
#[derive(Debug, PartialEq)]
pub struct LoggingSettings {
    /// Global filter level
    pub filter: String,
    /// Console-specific filter (overrides global)
    pub console_filter: Option<String>,
    /// Console output format
    pub console_format: ConsoleFormat,
    /// Console output writer
    pub console_writer: ConsoleWriter,
    /// Enable console logging
    pub console_enabled: bool,
    /// File-specific filter (overrides global)
    pub file_filter: Option<String>,
    /// Enable file logging
    pub file_enabled: bool,
    /// File output format
    pub file_format: FileFormat,
    /// Directory for log files
    pub file_directory: String,
    /// Prefix for log file names
    pub file_prefix: String,
    /// File rotation policy
    pub rotation_policy: RotationPolicy,
}

/// The logging settings a fresh installation starts with.
pub open spec fn is_default_logging(l: LoggingSettings) -> bool {
    &&& l.filter@ == "info"@
    &&& l.console_filter is None
    &&& l.console_format == ConsoleFormat::Compact
    &&& l.console_writer == ConsoleWriter::Stderr
    &&& l.console_enabled
    &&& l.file_filter is None
    &&& l.file_enabled
    &&& l.file_format == FileFormat::Text
    &&& l.file_directory@ == "~/.rusty-app/logs"@
    &&& l.file_prefix@ == "rusty-app"@
    &&& l.rotation_policy == RotationPolicy::Daily
}

fn copy_opt(o: &Option<String>) -> (r: Option<String>)
    ensures
        r == *o,
{
    match o {
        Some(s) => Some(s.clone()),
        None => None,
    }
}

impl Clone for LoggingSettings {
    fn clone(&self) -> (r: Self)
        ensures
            r == *self,
    {
        LoggingSettings {
            filter: self.filter.clone(),
            console_filter: copy_opt(&self.console_filter),
            console_format: self.console_format,
            console_writer: self.console_writer,
            console_enabled: self.console_enabled,
            file_filter: copy_opt(&self.file_filter),
            file_enabled: self.file_enabled,
            file_format: self.file_format,
            file_directory: self.file_directory.clone(),
            file_prefix: self.file_prefix.clone(),
            rotation_policy: self.rotation_policy,
        }
    }
}

impl Default for LoggingSettings {
    fn default() -> (l: Self)
        ensures
            is_default_logging(l),
    {
        LoggingSettings {
            filter: "info".to_string(),
            console_filter: None,
            console_format: ConsoleFormat::default(),
            console_writer: ConsoleWriter::default(),
            console_enabled: true,
            file_filter: None,
            file_enabled: true,
            file_format: FileFormat::default(),
            file_directory: "~/.rusty-app/logs".to_string(),
            file_prefix: "rusty-app".to_string(),
            rotation_policy: RotationPolicy::default(),
        }
    }
}

/// UI preferences.
#[derive(Debug, PartialEq)]
pub struct UiPreferences {
    /// UI theme
    pub theme: String,
    /// Left panel width in pixels
    pub panel_width: u32,
    /// Show left panel on startup
    pub show_left_panel: bool,
    /// Active component on startup
    pub active_component: String,
    /// Window width in pixels
    pub window_width: u32,
    /// Window height in pixels
    pub window_height: u32,
}

/// The UI preferences a fresh installation starts with.
pub open spec fn is_default_ui(u: UiPreferences) -> bool {
    &&& u.theme@ == "dark"@
    &&& u.panel_width == 250
    &&& u.show_left_panel
    &&& u.active_component@ == "server_list"@
    &&& u.window_width == 1280
    &&& u.window_height == 800
}

impl Clone for UiPreferences {
    fn clone(&self) -> (r: Self)
        ensures
            r == *self,
    {
        UiPreferences {
            theme: self.theme.clone(),
            panel_width: self.panel_width,
            show_left_panel: self.show_left_panel,
            active_component: self.active_component.clone(),
            window_width: self.window_width,
            window_height: self.window_height,
        }
    }
}

impl Default for UiPreferences {
    fn default() -> (u: Self)
        ensures
            is_default_ui(u),
    {
        UiPreferences {
            theme: "dark".to_string(),
            panel_width: 250,
            show_left_panel: true,
            active_component: "server_list".to_string(),
            window_width: 1280,
            window_height: 800,
        }
    }
}

/// Application settings.
#[derive(Debug)]
pub struct Settings {
    /// Logging configuration
    pub logging: LoggingSettings,
    /// Database connections
    pub connections: Vec<ConnectionConfig>,
    /// UI preferences
    pub ui_preferences: UiPreferences,
}

impl Default for Settings {
    fn default() -> (s: Self)
        ensures
            is_default_logging(s.logging),
            s.connections@.len() == 0,
            is_default_ui(s.ui_preferences),
    {
        Settings {
            logging: LoggingSettings::default(),
            connections: Vec::new(),
            ui_preferences: UiPreferences::default(),
        }
    }
}

} // verus!
