use rusty_app::settings::logging::{logging_steps, LoggingStep};
use rusty_app::settings::{
    validate_settings, ConsoleFormat, ConsoleWriter, FileFormat, LoggingSettings, RotationPolicy,
    Settings, SettingsError, SettingsManager, UiPreferences,
};
use rusty_app::settings_editor::SettingsEditorData;

fn manager() -> SettingsManager {
    SettingsManager::from_loaded(
        "/tmp/rusty-app".to_string(),
        "/tmp/rusty-app/settings.toml".to_string(),
        Settings::default(),
    )
}

fn err_text(r: Result<(), SettingsError>) -> String {
    r.unwrap_err().message()
}

#[test]
fn test_settings_default() {
    let settings = Settings::default();
    assert_eq!(settings.logging.filter, "info");
    assert!(settings.logging.console_enabled);
    assert!(settings.logging.file_enabled);
    assert_eq!(settings.connections.len(), 0);
    assert_eq!(settings.ui_preferences.theme, "dark");
}

#[test]
fn test_logging_settings_default() {
    let logging = LoggingSettings::default();
    assert_eq!(logging.filter, "info");
    assert_eq!(logging.console_format, ConsoleFormat::Compact);
    assert_eq!(logging.console_writer, ConsoleWriter::Stderr);
    assert!(logging.console_enabled);
    assert_eq!(logging.file_format, FileFormat::Text);
    assert_eq!(logging.file_directory, "~/.rusty-app/logs");
    assert_eq!(logging.file_prefix, "rusty-app");
    assert_eq!(logging.rotation_policy, RotationPolicy::Daily);
}

#[test]
fn test_ui_preferences_default() {
    let ui = UiPreferences::default();
    assert_eq!(ui.theme, "dark");
    assert_eq!(ui.panel_width, 250);
    assert!(ui.show_left_panel);
    assert_eq!(ui.active_component, "server_list");
    assert_eq!(ui.window_width, 1280);
    assert_eq!(ui.window_height, 800);
}

#[test]
fn test_display_implementations() {
    assert_eq!(ConsoleFormat::Pretty.display_string(), "Pretty");
    assert_eq!(ConsoleFormat::Compact.display_string(), "Compact");
    assert_eq!(ConsoleWriter::Stdout.display_string(), "Stdout");
    assert_eq!(ConsoleWriter::Stderr.display_string(), "Stderr");
    assert_eq!(FileFormat::Text.display_string(), "Text");
    assert_eq!(FileFormat::Json.display_string(), "JSON");
    assert_eq!(RotationPolicy::Daily.display_string(), "Daily");
    assert_eq!(RotationPolicy::Never.display_string(), "Never");
}

#[test]
fn test_settings_manager_default_values() {
    let manager = manager();
    let settings = manager.settings();
    assert_eq!(settings.logging.filter, "info");
    assert_eq!(settings.ui_preferences.theme, "dark");
    assert_eq!(settings.connections.len(), 0);
    assert_eq!(manager.settings_dir(), "/tmp/rusty-app");
    assert_eq!(manager.settings_path(), "/tmp/rusty-app/settings.toml");
}

#[test]
fn test_settings_validation_panel_width() {
    let mut manager = manager();

    manager.settings_mut().ui_preferences.panel_width = 100;
    let result = manager.validate();
    assert!(result.is_err());
    assert!(err_text(result).contains("panel_width must be between 200 and 600"));

    manager.settings_mut().ui_preferences.panel_width = 700;
    let result = manager.validate();
    assert!(result.is_err());

    manager.settings_mut().ui_preferences.panel_width = 300;
    let result = manager.validate();
    assert!(result.is_ok());
}

#[test]
fn test_settings_validation_theme() {
    let mut manager = manager();

    manager.settings_mut().ui_preferences.theme = "invalid".to_string();
    let result = manager.validate();
    assert!(result.is_err());
    assert!(err_text(result).contains("theme must be 'dark' or 'light'"));

    manager.settings_mut().ui_preferences.theme = "dark".to_string();
    assert!(manager.validate().is_ok());

    manager.settings_mut().ui_preferences.theme = "light".to_string();
    assert!(manager.validate().is_ok());
}

#[test]
fn test_settings_validation_active_component() {
    let mut manager = manager();

    manager.settings_mut().ui_preferences.active_component = "invalid".to_string();
    let result = manager.validate();
    assert!(result.is_err());

    for component in &["server_list", "table_list", "properties"] {
        manager.settings_mut().ui_preferences.active_component = component.to_string();
        assert!(manager.validate().is_ok());
    }
}

#[test]
fn validation_messages_in_full() {
    let mut s = Settings::default();
    s.ui_preferences.panel_width = 199;
    assert_eq!(
        err_text(validate_settings(&s)),
        "Settings validation error: panel_width must be between 200 and 600, got 199"
    );
    s.ui_preferences.panel_width = 600;
    assert!(validate_settings(&s).is_ok());
    s.ui_preferences.theme = "blue".to_string();
    assert_eq!(err_text(validate_settings(&s)), "Settings validation error: theme must be 'dark' or 'light', got 'blue'");
    s.ui_preferences.theme = "light".to_string();
    s.ui_preferences.active_component = "editor".to_string();
    assert_eq!(
        err_text(validate_settings(&s)),
        "Settings validation error: active_component must be one of [\"server_list\", \"table_list\", \"properties\"], got 'editor'"
    );
    s.ui_preferences.active_component = "properties".to_string();
    s.ui_preferences.window_height = 0;
    assert_eq!(err_text(validate_settings(&s)), "Settings validation error: window dimensions must be positive");
    s.ui_preferences.window_height = 10;
    s.logging.file_prefix = "  ".to_string();
    assert_eq!(err_text(validate_settings(&s)), "Settings validation error: file_prefix cannot be empty");
    s.logging.file_prefix = "p".to_string();
    s.logging.file_directory = String::new();
    assert_eq!(err_text(validate_settings(&s)), "Settings validation error: file_directory cannot be empty");
}

#[test]
fn settings_error_messages() {
    assert_eq!(SettingsError::Io("x".to_string()).message(), "IO error: x");
    assert_eq!(SettingsError::TomlParse("x".to_string()).message(), "TOML parse error: x");
    assert_eq!(SettingsError::TomlSerialize("x".to_string()).message(), "TOML serialize error: x");
    assert_eq!(SettingsError::PathExpansion("x".to_string()).message(), "Path expansion error: x");
}

#[test]
fn reload_takes_valid_settings_and_refuses_invalid() {
    let mut manager = manager();
    let mut loaded = Settings::default();
    loaded.ui_preferences.theme = "light".to_string();
    loaded.logging.filter = "debug".to_string();
    assert!(manager.apply_reload(loaded).is_ok());
    assert_eq!(manager.settings().ui_preferences.theme, "light");
    assert_eq!(manager.settings().logging.filter, "debug");

    let mut bad = Settings::default();
    bad.ui_preferences.panel_width = 10;
    assert!(manager.apply_reload(bad).is_err());
    assert_eq!(manager.settings().ui_preferences.theme, "light");
    assert_eq!(manager.settings().ui_preferences.panel_width, 250);
}

#[test]
fn test_settings_editor_data_from_manager() {
    let manager = manager();
    let data = SettingsEditorData::from_manager(&manager);

    assert_eq!(data.logging.filter, "info");
    assert_eq!(data.ui_preferences.theme, "dark");
}

#[test]
fn logging_steps_for_defaults() {
    let steps = logging_steps(&LoggingSettings::default());
    assert_eq!(
        steps,
        vec![
            LoggingStep::Filter("info".to_string()),
            LoggingStep::ConsoleCompact,
            LoggingStep::ConsoleStderr,
            LoggingStep::FileText,
            LoggingStep::FileDirectory("~/.rusty-app/logs".to_string()),
            LoggingStep::FilePrefix("rusty-app".to_string()),
            LoggingStep::Rotation(RotationPolicy::Daily),
        ]
    );
}

#[test]
fn logging_steps_without_outputs_and_with_filters() {
    let mut s = LoggingSettings::default();
    s.console_enabled = false;
    s.file_enabled = false;
    assert_eq!(
        logging_steps(&s),
        vec![LoggingStep::Filter("info".to_string()), LoggingStep::WithoutConsole, LoggingStep::WithoutFile]
    );
    let mut s = LoggingSettings::default();
    s.console_format = ConsoleFormat::Pretty;
    s.console_writer = ConsoleWriter::Stdout;
    s.console_filter = Some("warn".to_string());
    s.file_format = FileFormat::Json;
    s.file_filter = Some("trace".to_string());
    s.rotation_policy = RotationPolicy::Hourly;
    let steps = logging_steps(&s);
    assert_eq!(steps[1], LoggingStep::ConsolePretty);
    assert_eq!(steps[2], LoggingStep::ConsoleStdout);
    assert_eq!(steps[3], LoggingStep::ConsoleFilter("warn".to_string()));
    assert_eq!(steps[4], LoggingStep::FileJson);
    assert_eq!(steps[7], LoggingStep::Rotation(RotationPolicy::Hourly));
    assert_eq!(steps[8], LoggingStep::FileFilter("trace".to_string()));
    assert_eq!(steps.len(), 9);
}

fn filter(s: &str) -> LoggingStep {
    LoggingStep::Filter(s.to_string())
}

#[test]
fn logging_steps_console_pretty() {
    let mut s = LoggingSettings::default();
    s.console_format = ConsoleFormat::Pretty;
    s.console_enabled = true;
    s.file_enabled = false;
    assert_eq!(
        logging_steps(&s),
        vec![filter("info"), LoggingStep::ConsolePretty, LoggingStep::ConsoleStderr, LoggingStep::WithoutFile]
    );
}

#[test]
fn logging_steps_console_compact() {
    let mut s = LoggingSettings::default();
    s.console_format = ConsoleFormat::Compact;
    s.console_enabled = true;
    s.file_enabled = false;
    assert_eq!(
        logging_steps(&s),
        vec![filter("info"), LoggingStep::ConsoleCompact, LoggingStep::ConsoleStderr, LoggingStep::WithoutFile]
    );
}

#[test]
fn logging_steps_file_text() {
    let mut s = LoggingSettings::default();
    s.console_enabled = false;
    s.file_enabled = true;
    s.file_format = FileFormat::Text;
    s.file_directory = "/tmp/test-logs".to_string();
    s.file_prefix = "test".to_string();
    assert_eq!(
        logging_steps(&s),
        vec![
            filter("info"),
            LoggingStep::WithoutConsole,
            LoggingStep::FileText,
            LoggingStep::FileDirectory("/tmp/test-logs".to_string()),
            LoggingStep::FilePrefix("test".to_string()),
            LoggingStep::Rotation(RotationPolicy::Daily),
        ]
    );
}

#[test]
fn logging_steps_file_json() {
    let mut s = LoggingSettings::default();
    s.console_enabled = false;
    s.file_enabled = true;
    s.file_format = FileFormat::Json;
    s.file_directory = "/tmp/test-logs".to_string();
    s.file_prefix = "test".to_string();
    assert_eq!(
        logging_steps(&s),
        vec![
            filter("info"),
            LoggingStep::WithoutConsole,
            LoggingStep::FileJson,
            LoggingStep::FileDirectory("/tmp/test-logs".to_string()),
            LoggingStep::FilePrefix("test".to_string()),
            LoggingStep::Rotation(RotationPolicy::Daily),
        ]
    );
}

#[test]
fn logging_steps_dual_output() {
    let mut s = LoggingSettings::default();
    s.console_enabled = true;
    s.console_format = ConsoleFormat::Compact;
    s.file_enabled = true;
    s.file_format = FileFormat::Text;
    s.file_directory = "/tmp/test-logs".to_string();
    assert_eq!(
        logging_steps(&s),
        vec![
            filter("info"),
            LoggingStep::ConsoleCompact,
            LoggingStep::ConsoleStderr,
            LoggingStep::FileText,
            LoggingStep::FileDirectory("/tmp/test-logs".to_string()),
            LoggingStep::FilePrefix("rusty-app".to_string()),
            LoggingStep::Rotation(RotationPolicy::Daily),
        ]
    );
}

#[test]
fn logging_steps_with_filters() {
    let mut s = LoggingSettings::default();
    s.filter = "debug".to_string();
    s.console_filter = Some("info".to_string());
    s.file_filter = Some("trace".to_string());
    s.file_directory = "/tmp/test-logs".to_string();
    assert_eq!(
        logging_steps(&s),
        vec![
            filter("debug"),
            LoggingStep::ConsoleCompact,
            LoggingStep::ConsoleStderr,
            LoggingStep::ConsoleFilter("info".to_string()),
            LoggingStep::FileText,
            LoggingStep::FileDirectory("/tmp/test-logs".to_string()),
            LoggingStep::FilePrefix("rusty-app".to_string()),
            LoggingStep::Rotation(RotationPolicy::Daily),
            LoggingStep::FileFilter("trace".to_string()),
        ]
    );
}

#[test]
fn logging_steps_rotation_policies() {
    for policy in [RotationPolicy::Daily, RotationPolicy::Hourly, RotationPolicy::Minutely, RotationPolicy::Never] {
        let mut s = LoggingSettings::default();
        s.rotation_policy = policy;
        s.file_enabled = true;
        s.console_enabled = false;
        s.file_directory = "/tmp/test".to_string();
        let steps = logging_steps(&s);
        assert_eq!(steps.len(), 6);
        assert_eq!(steps[5], LoggingStep::Rotation(policy));
    }
}

#[test]
fn logging_steps_console_writers() {
    let mut s = LoggingSettings::default();
    s.file_enabled = false;
    s.console_writer = ConsoleWriter::Stdout;
    assert_eq!(logging_steps(&s)[2], LoggingStep::ConsoleStdout);
    s.console_writer = ConsoleWriter::Stderr;
    assert_eq!(logging_steps(&s)[2], LoggingStep::ConsoleStderr);
}
