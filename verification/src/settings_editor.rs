//! Editable copies of the settings and the messages that edit them.

use crate::settings::{
    ConsoleFormat, ConsoleWriter, FileFormat, LoggingSettings, RotationPolicy, SettingsManager,
    UiPreferences,
};
use vstd::prelude::*;

verus! {

/// Settings editor data: editable copies of the logging settings and UI
/// preferences.
#[derive(Debug)]
pub struct SettingsEditorData {
    pub logging: LoggingSettings,
    pub ui_preferences: UiPreferences,
}

impl Clone for SettingsEditorData {
    fn clone(&self) -> (r: Self)
        ensures
            r == *self,
    {
        SettingsEditorData {
            logging: self.logging.clone(),
            ui_preferences: self.ui_preferences.clone(),
        }
    }
}

impl SettingsEditorData {
    /// Copy the editable settings out of the manager.
    pub fn from_manager(manager: &SettingsManager) -> (d: Self)
        ensures
            d.logging == manager.current().logging,
            d.ui_preferences == manager.current().ui_preferences,
    {
        SettingsEditorData {
            logging: manager.settings().logging.clone(),
            ui_preferences: manager.settings().ui_preferences.clone(),
        }
    }
}

/// Settings editor messages.
#[derive(Debug, Clone)]
pub enum SettingsEditorMessage {
    FilterChanged(String),
    ConsoleFilterChanged(String),
    FileFilterChanged(String),
    ConsoleFormatChanged(ConsoleFormat),
    ConsoleWriterChanged(ConsoleWriter),
    ConsoleEnabledToggled,
    FileFormatChanged(FileFormat),
    FileEnabledToggled,
    FileDirectoryChanged(String),
    FilePrefixChanged(String),
    RotationPolicyChanged(RotationPolicy),
    ThemeChanged(String),
    PanelWidthChanged(String),
    ShowLeftPanelToggled,
    Save,
    Reload,
    Cancel,
}

} // verus!
