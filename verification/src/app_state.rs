//! The application's decisions: from its state and an event (a click, a
//! typed value, the outcome of outside work) to its next state and the
//! outside work to do next. Painting, timing, disk and network stay with the
//! caller, which performs each `AppAction` and reports back with an event.

use crate::adapter_selector::AdapterSelectorMessage;
use crate::components::properties::PropertiesComponent;
use crate::components::server_list::ServerListComponent;
use crate::components::table_list::TableListComponent;
use crate::components::{ComponentAction, ComponentId};
use crate::components::connection_form::{is_blank_form, is_blank_form_of, port_after_switch};
use crate::connection_form::{ConnectionFormData, ConnectionFormMessage};
use crate::database::{opt_view, ConnectionConfig, DatabaseType};
use crate::main_panel::{MainPanel, TabId};
use crate::menu_bar::{view_item_component, FileMenuItem, MenuAction, MenuItem, ViewMenuItem};
use crate::oracle_connection_form::{
    is_blank_oracle_form, OracleConnectionFormData, OracleConnectionFormMessage,
};
use crate::settings::{
    settings_error_text, settings_problem, valid_active_component, LoggingSettings, Settings,
    SettingsError, SettingsManager, UiPreferences,
};
use crate::settings_editor::{SettingsEditorData, SettingsEditorMessage};
use crate::sqlite_connection_form::{SQLiteConnectionFormData, SQLiteConnectionFormMessage};
use crate::database::ConnectionView;
use crate::validation::{oracle_form_error, sqlite_form_error};
use crate::text::{
    dash_spaces, decimal, lowercase, parse_u16, parse_unsigned, parsed_up_to, replace_spaces_with_dashes,
    to_lowercase, u64_to_decimal, usize_to_decimal,
};
use crate::views::{has_id, EnabledChange, RegionId, ViewRegistry};
use vstd::prelude::*;

verus! {

/// A component that the left panel shows.
pub enum PanelComponent {
    ServerList(ServerListComponent),
    TableList(TableListComponent),
    Properties(PropertiesComponent),
}

/// Which connection form an outcome belongs to.
#[derive(Debug, Clone, Copy, PartialEq, Eq, Structural)]
pub enum FormKind {
    General,
    SQLite,
    Oracle,
}

/// How rebuilding and applying the logging configuration went.
#[derive(Debug, Clone, PartialEq, Eq)]
pub enum LoggingOutcome {
    Applied,
    /// The settings do not make a logging configuration.
    Invalid,
    /// The configuration was built but could not be applied.
    ApplyFailed(String),
}

/// What happened: a user's gesture, or the outcome of work the application
/// asked for. `E` is the editor a new main tab holds.
pub enum AppEvent<E> {
    MenuToggle(MenuItem),
    MenuAction(MenuAction),
    CloseMenu,
    LeftPanelTabClicked(ComponentId),
    /// Open a main tab holding the given editor.
    NewMainTab(E),
    MainTabClicked(TabId),
    MainTabClosed(TabId),
    NewConnection,
    ConnectionForm(ConnectionFormMessage),
    ConnectionTestResult(Result<(), String>),
    ComponentAction(ComponentAction),
    ShowSettings,
    SettingsEditor(SettingsEditorMessage),
    AdapterSelector(AdapterSelectorMessage),
    SQLiteForm(SQLiteConnectionFormMessage),
    SQLiteTestResult(Result<(), String>),
    OracleForm(OracleConnectionFormMessage),
    OracleTestResult(Result<(), String>),
    /// The settings, holding the connections of a form's save, were written
    /// (or not).
    ConnectionsSaved(FormKind, Result<(), SettingsError>),
    /// The settings edited in the settings editor were written (or not).
    SettingsSaved(Result<(), SettingsError>),
    /// The logging configuration was rebuilt from the saved settings.
    LoggingApplied(LoggingOutcome),
    /// The settings file was read and parsed (or not).
    SettingsRead(std::result::Result<Settings, SettingsError>),
}

/// Outside work the application asks for; each one is answered by an event.
#[derive(Debug)]
pub enum AppAction {
    /// Nothing to do.
    Nothing,
    /// Try to connect with `config` and `password`, and report with the
    /// test-result event of `form`.
    TestConnection { config: ConnectionConfig, password: Option<String>, form: FormKind },
    /// Write the settings, which now hold the new connection, and report with
    /// `ConnectionsSaved(form, ..)`.
    SaveConnections(FormKind),
    /// Write the settings edited in the settings editor and report with
    /// `SettingsSaved`.
    SaveSettings,
    /// Rebuild and apply the logging configuration from the settings and
    /// report with `LoggingApplied`.
    ApplyLogging,
    /// Take over the saved UI preferences (panel width, theme).
    ApplyUiPreferences,
    /// Read the settings file and report with `SettingsRead`.
    ReadSettings,
}

/// The whole state of the application that its decisions read and change.
pub struct AppState<E> {
    pub open_menu: Option<MenuItem>,
    pub active_component: Option<ComponentId>,
    pub show_left_panel: bool,
    pub main_panel: MainPanel<E>,
    pub view_registry: ViewRegistry<PanelComponent>,
    pub settings_manager: SettingsManager,
    pub saved_connections: Vec<ConnectionConfig>,
    pub showing_connection_form: bool,
    pub connection_form_data: ConnectionFormData,
    pub testing_connection: bool,
    pub test_result: Option<Result<(), String>>,
    pub showing_settings_editor: bool,
    pub settings_editor_data: SettingsEditorData,
    pub settings_validation_error: Option<String>,
    pub settings_success_message: Option<String>,
    pub showing_adapter_selector: bool,
    pub selected_adapter: Option<DatabaseType>,
    pub sqlite_form_data: SQLiteConnectionFormData,
    pub sqlite_testing: bool,
    pub sqlite_test_result: Option<Result<(), String>>,
    pub oracle_form_data: OracleConnectionFormData,
    pub oracle_testing: bool,
    pub oracle_test_result: Option<Result<(), String>>,
    /// The connection whose save is under way in a dedicated form.
    pub pending_connection: Option<ConnectionConfig>,
}

/// The menu that is open after clicking `m` while `open` is open: clicking
/// the open menu closes it, clicking another opens that one.
pub open spec fn menu_after_toggle(open: Option<MenuItem>, m: MenuItem) -> Option<MenuItem> {
    if open == Some(m) {
        None
    } else {
        Some(m)
    }
}

/// The component the left panel starts with, named in the settings: an
/// unknown name falls back to the server list.
pub open spec fn startup_component(name: Seq<char>) -> ComponentId {
    if name == "table_list"@ {
        ComponentId::TableList
    } else if name == "properties"@ {
        ComponentId::Properties
    } else {
        ComponentId::ServerList
    }
}

/// The editable copy of the settings that a manager holds.
pub open spec fn editor_data_of(m: SettingsManager) -> SettingsEditorData {
    SettingsEditorData {
        logging: m.current().logging,
        ui_preferences: m.current().ui_preferences,
    }
}

fn startup_component_of(name: &str) -> (c: ComponentId)
    ensures
        c == startup_component(name@),
{
    if crate::text::str_eq(name, "table_list") {
        proof {
            reveal_strlit("table_list");
        }
        ComponentId::TableList
    } else if crate::text::str_eq(name, "properties") {
        ComponentId::Properties
    } else {
        ComponentId::ServerList
    }
}

/// The left panel starts with the component the settings name: `server_list`,
/// `table_list` and `properties` start the server list, the table list and
/// the properties view, each valid name a different component; any other name
/// starts the server list.
pub proof fn law_startup_component(name: Seq<char>, other: Seq<char>)
    ensures
        name == "server_list"@ ==> startup_component(name) == ComponentId::ServerList,
        name == "table_list"@ ==> startup_component(name) == ComponentId::TableList,
        name == "properties"@ ==> startup_component(name) == ComponentId::Properties,
        !valid_active_component(name) ==> startup_component(name) == ComponentId::ServerList,
        valid_active_component(name) && valid_active_component(other) ==> (startup_component(name)
            == startup_component(other) <==> name == other),
{
    reveal_strlit("server_list");
    reveal_strlit("table_list");
    reveal_strlit("properties");
    assert("server_list"@[0] != "table_list"@[0]);
    assert("server_list"@[0] != "properties"@[0]);
    assert("table_list"@[0] != "properties"@[0]);
}

impl<E> AppState<E> {
    /// The state's invariant: that of the main panel and of the registry.
    pub open spec fn wf(&self) -> bool {
        self.main_panel.wf() && self.view_registry.wf()
    }

    /// `s` with the settings editor opened on a fresh copy of the settings.
    pub open spec fn settings_editor_opened(s: Self) -> Self {
        AppState {
            showing_settings_editor: true,
            settings_editor_data: editor_data_of(s.settings_manager),
            settings_validation_error: None,
            settings_success_message: None,
            ..s
        }
    }

    /// The state the application starts in, with the settings of `manager`,
    /// the known connections, and `first_editor` in a first main tab titled
    /// "Query 1"; the left panel registers the server list (holding the
    /// connections), the table list and the properties, in that order.
    pub fn new(manager: SettingsManager, saved_connections: Vec<ConnectionConfig>, first_editor: E) -> (s:
        Self)
        ensures
            s.wf(),
            s.open_menu is None,
            s.active_component == Some(
                startup_component(manager.current().ui_preferences.active_component@),
            ),
            s.show_left_panel == manager.current().ui_preferences.show_left_panel,
            s.main_panel.tab_seq().len() == 1,
            s.main_panel.tab_seq()[0].title@ == "Query 1"@,
            s.main_panel.tab_seq()[0].id == 0,
            s.main_panel.editor_map() == Map::<TabId, E>::empty().insert(0, first_editor),
            s.main_panel.active_id() == Some(s.main_panel.tab_seq()[0].id),
            s.view_registry.entries().len() == 3,
            s.view_registry.entries()[0].0 == ComponentId::ServerList,
            s.view_registry.entries()[0].1.component matches PanelComponent::ServerList(c)
                && c.connection_seq() == saved_connections@,
            s.view_registry.entries()[1].0 == ComponentId::TableList,
            s.view_registry.entries()[2].0 == ComponentId::Properties,
            forall|i: int| 0 <= i < 3 ==> #[trigger] s.view_registry.entries()[i].1.enabled
                && s.view_registry.entries()[i].1.region == RegionId::LeftPanel,
            s.settings_manager == manager,
            s.saved_connections@ == saved_connections@,
            !s.showing_connection_form,
            is_blank_form(s.connection_form_data),
            !s.testing_connection,
            s.test_result is None,
            !s.showing_settings_editor,
            s.settings_editor_data == editor_data_of(manager),
            s.settings_validation_error is None,
            s.settings_success_message is None,
            !s.showing_adapter_selector,
            s.selected_adapter is None,
            s.sqlite_form_data.name@ == Seq::<char>::empty(),
            s.sqlite_form_data.file_path@ == Seq::<char>::empty(),
            !s.sqlite_testing,
            s.sqlite_test_result is None,
            is_blank_oracle_form(s.oracle_form_data),
            !s.oracle_testing,
            s.oracle_test_result is None,
            s.pending_connection is None,
    {
        let mut main_panel = MainPanel::new();
        let title = "Query 1".to_string();
        main_panel.add_tab(title, first_editor);
        let mut view_registry = ViewRegistry::new();
        let mut server_list = ServerListComponent::new();
        server_list.set_connections(clone_connections(&saved_connections));
        view_registry.register(
            ComponentId::ServerList,
            PanelComponent::ServerList(server_list),
            RegionId::LeftPanel,
        );
        view_registry.register(
            ComponentId::TableList,
            PanelComponent::TableList(TableListComponent::new()),
            RegionId::LeftPanel,
        );
        view_registry.register(
            ComponentId::Properties,
            PanelComponent::Properties(PropertiesComponent::new()),
            RegionId::LeftPanel,
        );
        let active = startup_component_of(
            manager.settings().ui_preferences.active_component.as_str(),
        );
        let show_left_panel = manager.settings().ui_preferences.show_left_panel;
        let settings_editor_data = SettingsEditorData::from_manager(&manager);
        let s = AppState {
            open_menu: None,
            active_component: Some(active),
            show_left_panel,
            main_panel,
            view_registry,
            settings_manager: manager,
            saved_connections,
            showing_connection_form: false,
            connection_form_data: ConnectionFormData::new(),
            testing_connection: false,
            test_result: None,
            showing_settings_editor: false,
            settings_editor_data,
            settings_validation_error: None,
            settings_success_message: None,
            showing_adapter_selector: false,
            selected_adapter: None,
            sqlite_form_data: SQLiteConnectionFormData::new(),
            sqlite_testing: false,
            sqlite_test_result: None,
            oracle_form_data: OracleConnectionFormData::new(),
            oracle_testing: false,
            oracle_test_result: None,
            pending_connection: None,
        };
        proof {
            reveal_strlit("Query 1");
        }
        s
    }
}

/// A copy of a list of connections.
pub fn clone_connections(v: &Vec<ConnectionConfig>) -> (r: Vec<ConnectionConfig>)
    ensures
        r@ == v@,
{
    let mut r: Vec<ConnectionConfig> = Vec::new();
    let mut i: usize = 0;
    while i < v.len()
        invariant
            i <= v.len(),
            r@ == v@.take(i as int),
        decreases v.len() - i,
    {
        r.push(v[i].clone());
        proof {
            assert(v@.take(i + 1) =~= v@.take(i as int).push(v@[i as int]));
        }
        i = i + 1;
    }
    assert(v@.take(v@.len() as int) =~= v@);
    r
}

/// A typed-in value that may be left empty: none when it is.
pub open spec fn optional_text(p: Seq<char>) -> Option<Seq<char>> {
    if p.len() == 0 {
        None
    } else {
        Some(p)
    }
}

/// The port a form's port field names, when `u16` parsing accepts it.
pub open spec fn parsed_port(p: Seq<char>) -> Option<u16> {
    match parsed_up_to(p, 65535) {
        Some(v) => Some(v as u16),
        None => None,
    }
}

/// The identifier a dedicated form gives a connection made at `now_ms`
/// milliseconds after the epoch.
pub open spec fn timed_id(now_ms: u64) -> Seq<char> {
    "conn-"@ + decimal(now_ms as nat)
}

/// The connection the general form describes: its identifier is the name in
/// lower case with spaces turned into dashes; a SQLite connection has no
/// host or port and names its file as the database.
pub open spec fn general_form_config(d: ConnectionFormData) -> ConnectionView {
    let sqlite = d.db_type == DatabaseType::SQLite;
    ConnectionView {
        id: dash_spaces(lowercase(d.name@)),
        name: d.name@,
        db_type: d.db_type,
        host: if sqlite { None } else { Some(d.host@) },
        port: if sqlite { None } else { parsed_port(d.port@) },
        database: if sqlite { d.file_path@ } else { d.database@ },
        username: optional_text(d.username@),
        use_ssl: false,
    }
}

/// The connection the SQLite form describes at `now_ms`.
pub open spec fn sqlite_form_config(d: SQLiteConnectionFormData, now_ms: u64) -> ConnectionView {
    ConnectionView {
        id: timed_id(now_ms),
        name: d.name@,
        db_type: DatabaseType::SQLite,
        host: None,
        port: None,
        database: d.file_path@,
        username: None,
        use_ssl: false,
    }
}

/// The connection the Oracle form describes at `now_ms`.
pub open spec fn oracle_form_config(d: OracleConnectionFormData, now_ms: u64) -> ConnectionView {
    ConnectionView {
        id: timed_id(now_ms),
        name: d.name@,
        db_type: DatabaseType::Oracle,
        host: Some(d.host@),
        port: parsed_port(d.port@),
        database: d.database@,
        username: Some(d.username@),
        use_ssl: false,
    }
}

/// `Some` copy of a typed-in value, or `None` when it is empty.
pub fn optional_copy(s: &String) -> (r: Option<String>)
    ensures
        opt_view(r) == optional_text(s@),
{
    if s.unicode_len() == 0 {
        None
    } else {
        Some(s.clone())
    }
}

/// The connection the general form describes.
pub fn form_data_to_config(d: &ConnectionFormData) -> (c: ConnectionConfig)
    ensures
        c@ == general_form_config(*d),
{
    let lower = to_lowercase(d.name.as_str());
    let id = replace_spaces_with_dashes(lower.as_str());
    let sqlite = match d.db_type {
        DatabaseType::SQLite => true,
        _ => false,
    };
    let host = if sqlite { None } else { Some(d.host.clone()) };
    let port = if sqlite { None } else { parse_u16(d.port.as_str()) };
    let database = if sqlite { d.file_path.clone() } else { d.database.clone() };
    ConnectionConfig {
        id,
        name: d.name.clone(),
        db_type: d.db_type,
        host,
        port,
        database,
        username: optional_copy(&d.username),
        use_ssl: false,
    }
}

fn timed_connection_id(now_ms: u64) -> (s: String)
    ensures
        s@ == timed_id(now_ms),
{
    "conn-".to_string().concat(u64_to_decimal(now_ms).as_str())
}

/// The connection the SQLite form describes at `now_ms`.
pub fn sqlite_config(d: &SQLiteConnectionFormData, now_ms: u64) -> (c: ConnectionConfig)
    ensures
        c@ == sqlite_form_config(*d, now_ms),
{
    ConnectionConfig {
        id: timed_connection_id(now_ms),
        name: d.name.clone(),
        db_type: DatabaseType::SQLite,
        host: None,
        port: None,
        database: d.file_path.clone(),
        username: None,
        use_ssl: false,
    }
}

/// The connection the Oracle form describes at `now_ms`.
pub fn oracle_config(d: &OracleConnectionFormData, now_ms: u64) -> (c: ConnectionConfig)
    ensures
        c@ == oracle_form_config(*d, now_ms),
{
    ConnectionConfig {
        id: timed_connection_id(now_ms),
        name: d.name.clone(),
        db_type: DatabaseType::Oracle,
        host: Some(d.host.clone()),
        port: parse_u16(d.port.as_str()),
        database: d.database.clone(),
        username: Some(d.username.clone()),
        use_ssl: false,
    }
}

impl<E> AppState<E> {
    /// `s` with the settings editor's logging copy replaced by `l`.
    pub open spec fn with_edited_logging(s: Self, l: LoggingSettings) -> Self {
        AppState {
            settings_editor_data: SettingsEditorData { logging: l, ..s.settings_editor_data },
            ..s
        }
    }

    /// `s` with the settings editor's UI copy replaced by `u`.
    pub open spec fn with_edited_ui(s: Self, u: UiPreferences) -> Self {
        AppState {
            settings_editor_data: SettingsEditorData { ui_preferences: u, ..s.settings_editor_data },
            ..s
        }
    }

    /// `new` differs from `old` in its settings alone, which became `st`.
    pub open spec fn settings_became(old: Self, new: Self, st: Settings) -> bool {
        &&& new.settings_manager.current() == st
        &&& new.settings_manager.dir() == old.settings_manager.dir()
        &&& new.settings_manager.path() == old.settings_manager.path()
    }

    /// `new` is `old` with `m` as the settings editor's error and no success
    /// message.
    pub open spec fn settings_failed(old: Self, new: Self, m: Seq<char>) -> bool {
        &&& new.settings_validation_error matches Some(e) && e@ == m
        &&& new == AppState {
            settings_validation_error: new.settings_validation_error,
            settings_success_message: None,
            ..old
        }
    }

    /// What a menu entry does; every entry closes the open menu.
    pub open spec fn menu_action_step(old: Self, new: Self, a: MenuAction) -> bool {
        let o = AppState { open_menu: None, ..old };
        match a {
            MenuAction::File(FileMenuItem::NewConnection) => {
                &&& is_blank_form(new.connection_form_data)
                &&& new == AppState {
                    showing_connection_form: true,
                    connection_form_data: new.connection_form_data,
                    ..o
                }
            },
            MenuAction::View(ViewMenuItem::ToggleLeftPanel) => new == AppState {
                show_left_panel: !old.show_left_panel,
                ..o
            },
            MenuAction::View(ViewMenuItem::Settings) => new == Self::settings_editor_opened(o),
            MenuAction::View(v) => match view_item_component(v) {
                Some(id) => {
                    &&& ViewRegistry::view_updated(
                        o.view_registry,
                        new.view_registry,
                        id,
                        has_id(o.view_registry.entries(), id),
                        EnabledChange::Toggle,
                    )
                    &&& new == AppState { view_registry: new.view_registry, ..o }
                },
                None => new == o,
            },
            _ => new == o,
        }
    }

    /// What a message of the general connection form does.
    pub open spec fn connection_form_step(
        old: Self,
        new: Self,
        m: ConnectionFormMessage,
        action: AppAction,
    ) -> bool {
        let d = old.connection_form_data;
        match m {
            ConnectionFormMessage::Save => match d.problem() {
                Some(_) => new == old && action is Nothing,
                None => {
                    &&& new.saved_connections@.len() == old.saved_connections@.len() + 1
                    &&& new.saved_connections@.drop_last() == old.saved_connections@
                    &&& new.saved_connections@.last()@ == general_form_config(d)
                    &&& new.settings_manager.current().connections@ == new.saved_connections@
                    &&& Self::settings_became(
                        old,
                        new,
                        Settings {
                            connections: new.settings_manager.current().connections,
                            ..old.settings_manager.current()
                        },
                    )
                    &&& new == AppState {
                        saved_connections: new.saved_connections,
                        settings_manager: new.settings_manager,
                        ..old
                    }
                    &&& action == AppAction::SaveConnections(FormKind::General)
                },
            },
            ConnectionFormMessage::Cancel => new == AppState {
                showing_connection_form: false,
                ..old
            } && action is Nothing,
            ConnectionFormMessage::NameChanged(v) => new == AppState {
                connection_form_data: ConnectionFormData { name: v, ..d },
                ..old
            } && action is Nothing,
            ConnectionFormMessage::DbTypeChanged(t) => {
                &&& new.connection_form_data.port@ == port_after_switch(t, d.port@)
                &&& new == AppState {
                    connection_form_data: ConnectionFormData {
                        db_type: t,
                        port: new.connection_form_data.port,
                        ..d
                    },
                    ..old
                }
                &&& action is Nothing
            },
            ConnectionFormMessage::HostChanged(v) => new == AppState {
                connection_form_data: ConnectionFormData { host: v, ..d },
                ..old
            } && action is Nothing,
            ConnectionFormMessage::PortChanged(v) => new == AppState {
                connection_form_data: ConnectionFormData { port: v, ..d },
                ..old
            } && action is Nothing,
            ConnectionFormMessage::DatabaseChanged(v) => new == AppState {
                connection_form_data: ConnectionFormData { database: v, ..d },
                ..old
            } && action is Nothing,
            ConnectionFormMessage::UsernameChanged(v) => new == AppState {
                connection_form_data: ConnectionFormData { username: v, ..d },
                ..old
            } && action is Nothing,
            ConnectionFormMessage::PasswordChanged(v) => new == AppState {
                connection_form_data: ConnectionFormData { password: v, ..d },
                ..old
            } && action is Nothing,
            ConnectionFormMessage::FilePathChanged(v) => new == AppState {
                connection_form_data: ConnectionFormData { file_path: v, ..d },
                ..old
            } && action is Nothing,
            ConnectionFormMessage::TestConnection => match d.problem() {
                Some(p) => {
                    &&& new.test_result matches Some(Err(e)) && e@ == p
                    &&& new == AppState { test_result: new.test_result, ..old }
                    &&& action is Nothing
                },
                None => {
                    &&& new == AppState { testing_connection: true, test_result: None, ..old }
                    &&& action matches AppAction::TestConnection { config, password, form }
                        && config@ == general_form_config(d) && opt_view(password)
                        == optional_text(d.password@) && form == FormKind::General
                },
            },
        }
    }
}

impl<E> AppState<E> {
    /// What a message of the settings editor does.
    pub open spec fn settings_editor_step(
        old: Self,
        new: Self,
        m: SettingsEditorMessage,
        action: AppAction,
    ) -> bool {
        let lg = old.settings_editor_data.logging;
        let ui = old.settings_editor_data.ui_preferences;
        match m {
            SettingsEditorMessage::Cancel => new == AppState {
                showing_settings_editor: false,
                ..old
            } && action is Nothing,
            SettingsEditorMessage::FilterChanged(v) => new == Self::with_edited_logging(
                old,
                LoggingSettings { filter: v, ..lg },
            ) && action is Nothing,
            SettingsEditorMessage::ConsoleFilterChanged(v) => new == Self::with_edited_logging(
                old,
                LoggingSettings {
                    console_filter: if v@.len() == 0 {
                        None
                    } else {
                        Some(v)
                    },
                    ..lg
                },
            ) && action is Nothing,
            SettingsEditorMessage::FileFilterChanged(v) => new == Self::with_edited_logging(
                old,
                LoggingSettings {
                    file_filter: if v@.len() == 0 {
                        None
                    } else {
                        Some(v)
                    },
                    ..lg
                },
            ) && action is Nothing,
            SettingsEditorMessage::ConsoleFormatChanged(f) => new == Self::with_edited_logging(
                old,
                LoggingSettings { console_format: f, ..lg },
            ) && action is Nothing,
            SettingsEditorMessage::ConsoleWriterChanged(w) => new == Self::with_edited_logging(
                old,
                LoggingSettings { console_writer: w, ..lg },
            ) && action is Nothing,
            SettingsEditorMessage::ConsoleEnabledToggled => new == Self::with_edited_logging(
                old,
                LoggingSettings { console_enabled: !lg.console_enabled, ..lg },
            ) && action is Nothing,
            SettingsEditorMessage::FileFormatChanged(f) => new == Self::with_edited_logging(
                old,
                LoggingSettings { file_format: f, ..lg },
            ) && action is Nothing,
            SettingsEditorMessage::FileEnabledToggled => new == Self::with_edited_logging(
                old,
                LoggingSettings { file_enabled: !lg.file_enabled, ..lg },
            ) && action is Nothing,
            SettingsEditorMessage::FileDirectoryChanged(v) => new == Self::with_edited_logging(
                old,
                LoggingSettings { file_directory: v, ..lg },
            ) && action is Nothing,
            SettingsEditorMessage::FilePrefixChanged(v) => new == Self::with_edited_logging(
                old,
                LoggingSettings { file_prefix: v, ..lg },
            ) && action is Nothing,
            SettingsEditorMessage::RotationPolicyChanged(r) => new == Self::with_edited_logging(
                old,
                LoggingSettings { rotation_policy: r, ..lg },
            ) && action is Nothing,
            SettingsEditorMessage::ThemeChanged(v) => new == Self::with_edited_ui(
                old,
                UiPreferences { theme: v, ..ui },
            ) && action is Nothing,
            SettingsEditorMessage::PanelWidthChanged(v) => {
                &&& match parsed_up_to(v@, 0xffff_ffff) {
                    Some(w) => new == Self::with_edited_ui(
                        old,
                        UiPreferences { panel_width: w as u32, ..ui },
                    ),
                    None => new == old,
                }
                &&& action is Nothing
            },
            SettingsEditorMessage::ShowLeftPanelToggled => new == Self::with_edited_ui(
                old,
                UiPreferences { show_left_panel: !ui.show_left_panel, ..ui },
            ) && action is Nothing,
            SettingsEditorMessage::Save => {
                let st = Settings { logging: lg, ui_preferences: ui, ..old.settings_manager.current() };
                let o = AppState { settings_manager: new.settings_manager, ..old };
                &&& Self::settings_became(old, new, st)
                &&& match settings_problem(st) {
                    Some(p) => Self::settings_failed(o, new, "Settings validation error: "@ + p)
                        && action is Nothing,
                    None => new == o && action == AppAction::SaveSettings,
                }
            },
            SettingsEditorMessage::Reload => new == old && action == AppAction::ReadSettings,
        }
    }

    /// What reading the settings file leads to: settings that validate
    /// replace the ones in memory and refill the editor.
    pub open spec fn settings_read_step(
        old: Self,
        new: Self,
        r: std::result::Result<Settings, SettingsError>,
    ) -> bool {
        match r {
            Err(e) => Self::settings_failed(old, new, "Failed to reload: "@ + settings_error_text(e)),
            Ok(st) => match settings_problem(st) {
                Some(p) => Self::settings_failed(
                    old,
                    new,
                    "Failed to reload: "@ + ("Settings validation error: "@ + p),
                ),
                None => {
                    &&& Self::settings_became(old, new, st)
                    &&& new.settings_success_message matches Some(msg) && msg@
                        == "Settings reloaded from disk"@
                    &&& new == AppState {
                        settings_manager: new.settings_manager,
                        settings_editor_data: editor_data_of(new.settings_manager),
                        settings_validation_error: None,
                        settings_success_message: new.settings_success_message,
                        ..old
                    }
                },
            },
        }
    }

    /// What the outcome of rebuilding the logging configuration leads to:
    /// once applied, the saved UI preferences take effect and the editor
    /// closes with a success message.
    pub open spec fn logging_applied_step(old: Self, new: Self, o: LoggingOutcome, action: AppAction) -> bool {
        match o {
            LoggingOutcome::Applied => {
                &&& new.settings_success_message matches Some(msg) && msg@
                    == "Settings saved successfully"@
                &&& new == AppState {
                    show_left_panel: old.settings_manager.current().ui_preferences.show_left_panel,
                    settings_success_message: new.settings_success_message,
                    settings_validation_error: None,
                    showing_settings_editor: false,
                    ..old
                }
                &&& action == AppAction::ApplyUiPreferences
            },
            LoggingOutcome::Invalid => Self::settings_failed(
                old,
                new,
                "Invalid logging configuration"@,
            ) && action is Nothing,
            LoggingOutcome::ApplyFailed(e) => Self::settings_failed(
                old,
                new,
                "Failed to reload logging: "@ + e@,
            ) && action is Nothing,
        }
    }

    /// What a message of the adapter picker does. Continuing opens a blank
    /// form for the picked kind with no test result: the SQLite and Oracle
    /// forms of their own, and for the server kinds the general connection
    /// form, set to that kind and its default port.
    pub open spec fn adapter_selector_step(old: Self, new: Self, m: AdapterSelectorMessage) -> bool {
        match m {
            AdapterSelectorMessage::AdapterSelected(t) => new == AppState {
                selected_adapter: Some(t),
                ..old
            },
            AdapterSelectorMessage::Cancel => new == AppState {
                showing_adapter_selector: false,
                selected_adapter: None,
                ..old
            },
            AdapterSelectorMessage::Continue => {
                let o = AppState { showing_adapter_selector: false, ..old };
                match old.selected_adapter {
                    None => new == o,
                    Some(DatabaseType::SQLite) => {
                        &&& new.sqlite_form_data.name@ == Seq::<char>::empty()
                        &&& new.sqlite_form_data.file_path@ == Seq::<char>::empty()
                        &&& new == AppState {
                            showing_connection_form: true,
                            sqlite_form_data: new.sqlite_form_data,
                            sqlite_test_result: None,
                            ..o
                        }
                    },
                    Some(DatabaseType::Oracle) => {
                        &&& is_blank_oracle_form(new.oracle_form_data)
                        &&& new == AppState {
                            showing_connection_form: true,
                            oracle_form_data: new.oracle_form_data,
                            oracle_test_result: None,
                            ..o
                        }
                    },
                    Some(t) => {
                        &&& is_blank_form_of(new.connection_form_data, t)
                        &&& new == AppState {
                            showing_connection_form: true,
                            connection_form_data: new.connection_form_data,
                            test_result: None,
                            ..o
                        }
                    },
                }
            },
        }
    }
}

impl<E> AppState<E> {
    /// `new` is `old` with `config` appended to the settings' connections and
    /// awaiting its save.
    pub open spec fn connection_pending(old: Self, new: Self, config: ConnectionView) -> bool {
        let cs = new.settings_manager.current().connections@;
        &&& cs.len() == old.settings_manager.current().connections@.len() + 1
        &&& cs.drop_last() == old.settings_manager.current().connections@
        &&& cs.last()@ == config
        &&& Self::settings_became(
            old,
            new,
            Settings { connections: new.settings_manager.current().connections, ..old.settings_manager.current() },
        )
        &&& new.pending_connection matches Some(c) && c == cs.last()
    }

    /// What a message of the SQLite form does at `now_ms`.
    pub open spec fn sqlite_form_step(
        old: Self,
        new: Self,
        m: SQLiteConnectionFormMessage,
        now_ms: u64,
        action: AppAction,
    ) -> bool {
        let d = old.sqlite_form_data;
        match m {
            SQLiteConnectionFormMessage::Cancel => new == AppState {
                showing_connection_form: false,
                selected_adapter: None,
                ..old
            } && action is Nothing,
            SQLiteConnectionFormMessage::NameChanged(v) => new == AppState {
                sqlite_form_data: SQLiteConnectionFormData { name: v, ..d },
                sqlite_test_result: None,
                ..old
            } && action is Nothing,
            SQLiteConnectionFormMessage::FilePathChanged(v) => new == AppState {
                sqlite_form_data: SQLiteConnectionFormData { file_path: v, ..d },
                sqlite_test_result: None,
                ..old
            } && action is Nothing,
            SQLiteConnectionFormMessage::TestConnection => {
                &&& new == AppState { sqlite_testing: true, sqlite_test_result: None, ..old }
                &&& action matches AppAction::TestConnection { config, password, form }
                    && config@ == sqlite_form_config(d, now_ms) && password is None && form
                    == FormKind::SQLite
            },
            SQLiteConnectionFormMessage::Save => match sqlite_form_error(d.name@, d.file_path@) {
                Some(p) => {
                    &&& new.sqlite_test_result matches Some(Err(e)) && e@ == p
                    &&& new == AppState { sqlite_test_result: new.sqlite_test_result, ..old }
                    &&& action is Nothing
                },
                None => {
                    &&& Self::connection_pending(old, new, sqlite_form_config(d, now_ms))
                    &&& new == AppState {
                        settings_manager: new.settings_manager,
                        pending_connection: new.pending_connection,
                        ..old
                    }
                    &&& action == AppAction::SaveConnections(FormKind::SQLite)
                },
            },
        }
    }

    /// What a message of the Oracle form does at `now_ms`.
    pub open spec fn oracle_form_step(
        old: Self,
        new: Self,
        m: OracleConnectionFormMessage,
        now_ms: u64,
        action: AppAction,
    ) -> bool {
        let d = old.oracle_form_data;
        match m {
            OracleConnectionFormMessage::Cancel => new == AppState {
                showing_connection_form: false,
                selected_adapter: None,
                ..old
            } && action is Nothing,
            OracleConnectionFormMessage::NameChanged(v) => new == AppState {
                oracle_form_data: OracleConnectionFormData { name: v, ..d },
                oracle_test_result: None,
                ..old
            } && action is Nothing,
            OracleConnectionFormMessage::HostChanged(v) => new == AppState {
                oracle_form_data: OracleConnectionFormData { host: v, ..d },
                oracle_test_result: None,
                ..old
            } && action is Nothing,
            OracleConnectionFormMessage::PortChanged(v) => new == AppState {
                oracle_form_data: OracleConnectionFormData { port: v, ..d },
                oracle_test_result: None,
                ..old
            } && action is Nothing,
            OracleConnectionFormMessage::DatabaseChanged(v) => new == AppState {
                oracle_form_data: OracleConnectionFormData { database: v, ..d },
                oracle_test_result: None,
                ..old
            } && action is Nothing,
            OracleConnectionFormMessage::UsernameChanged(v) => new == AppState {
                oracle_form_data: OracleConnectionFormData { username: v, ..d },
                oracle_test_result: None,
                ..old
            } && action is Nothing,
            OracleConnectionFormMessage::PasswordChanged(v) => new == AppState {
                oracle_form_data: OracleConnectionFormData { password: v, ..d },
                oracle_test_result: None,
                ..old
            } && action is Nothing,
            OracleConnectionFormMessage::TestConnection => {
                &&& new == AppState { oracle_testing: true, oracle_test_result: None, ..old }
                &&& action matches AppAction::TestConnection { config, password, form }
                    && config@ == oracle_form_config(d, now_ms) && opt_view(password)
                    == optional_text(d.password@) && form == FormKind::Oracle
            },
            OracleConnectionFormMessage::Save => match oracle_form_error(
                d.name@,
                d.host@,
                d.port@,
                d.database@,
            ) {
                Some(p) => {
                    &&& new.oracle_test_result matches Some(Err(e)) && e@ == p
                    &&& new == AppState { oracle_test_result: new.oracle_test_result, ..old }
                    &&& action is Nothing
                },
                None => {
                    &&& Self::connection_pending(old, new, oracle_form_config(d, now_ms))
                    &&& new == AppState {
                        settings_manager: new.settings_manager,
                        pending_connection: new.pending_connection,
                        ..old
                    }
                    &&& action == AppAction::SaveConnections(FormKind::Oracle)
                },
            },
        }
    }

    /// What the outcome of writing the settings after a form's save leads
    /// to: the general form closes once written; a dedicated form adds its
    /// connection to the known ones and closes, or shows why writing failed.
    pub open spec fn connections_saved_step(
        old: Self,
        new: Self,
        kind: FormKind,
        r: Result<(), SettingsError>,
    ) -> bool {
        match kind {
            FormKind::General => match r {
                Ok(()) => new == AppState { showing_connection_form: false, ..old },
                Err(_) => new == old,
            },
            _ => match r {
                Ok(()) => {
                    &&& new.saved_connections@ == match old.pending_connection {
                        Some(c) => old.saved_connections@.push(c),
                        None => old.saved_connections@,
                    }
                    &&& new == AppState {
                        saved_connections: new.saved_connections,
                        pending_connection: None,
                        showing_connection_form: false,
                        selected_adapter: None,
                        ..old
                    }
                },
                Err(e) => {
                    let msg = "Failed to save: "@ + settings_error_text(e);
                    let o = AppState { pending_connection: None, ..old };
                    if kind == FormKind::SQLite {
                        &&& new.sqlite_test_result matches Some(Err(t)) && t@ == msg
                        &&& new == AppState { sqlite_test_result: new.sqlite_test_result, ..o }
                    } else {
                        &&& new.oracle_test_result matches Some(Err(t)) && t@ == msg
                        &&& new == AppState { oracle_test_result: new.oracle_test_result, ..o }
                    }
                },
            },
        }
    }

    /// What `event` does to `old` at `now_ms`, giving `new` and asking for
    /// `action`.
    pub open spec fn step(old: Self, new: Self, event: AppEvent<E>, now_ms: u64, action: AppAction) -> bool {
        match event {
            AppEvent::MenuToggle(m) => new == AppState {
                open_menu: menu_after_toggle(old.open_menu, m),
                ..old
            } && action is Nothing,
            AppEvent::MenuAction(a) => Self::menu_action_step(old, new, a) && action is Nothing,
            AppEvent::CloseMenu => new == AppState { open_menu: None, ..old } && action is Nothing,
            AppEvent::LeftPanelTabClicked(id) => new == AppState {
                active_component: Some(id),
                ..old
            } && action is Nothing,
            AppEvent::NewMainTab(editor) => {
                &&& new.main_panel.tab_seq().last().title@ == "Query "@ + decimal(
                    (old.main_panel.tab_seq().len() + 1) as nat,
                )
                &&& MainPanel::opened(
                    old.main_panel,
                    new.main_panel,
                    new.main_panel.tab_seq().last().title,
                    editor,
                    old.main_panel.next_id(),
                )
                &&& new == AppState { main_panel: new.main_panel, ..old }
                &&& action is Nothing
            },
            AppEvent::MainTabClicked(id) => {
                &&& MainPanel::activated(old.main_panel, new.main_panel, id)
                &&& new == AppState { main_panel: new.main_panel, ..old }
                &&& action is Nothing
            },
            AppEvent::MainTabClosed(id) => {
                &&& MainPanel::tab_removed(old.main_panel, new.main_panel, id)
                &&& new == AppState { main_panel: new.main_panel, ..old }
                &&& action is Nothing
            },
            AppEvent::NewConnection => new == AppState {
                showing_adapter_selector: true,
                selected_adapter: None,
                ..old
            } && action is Nothing,
            AppEvent::ConnectionForm(m) => Self::connection_form_step(old, new, m, action),
            AppEvent::ConnectionTestResult(r) => new == AppState {
                testing_connection: false,
                test_result: Some(r),
                ..old
            } && action is Nothing,
            AppEvent::ComponentAction(_) => new == old && action is Nothing,
            AppEvent::ShowSettings => new == Self::settings_editor_opened(old) && action is Nothing,
            AppEvent::SettingsEditor(m) => Self::settings_editor_step(old, new, m, action),
            AppEvent::AdapterSelector(m) => Self::adapter_selector_step(old, new, m)
                && action is Nothing,
            AppEvent::SQLiteForm(m) => Self::sqlite_form_step(old, new, m, now_ms, action),
            AppEvent::SQLiteTestResult(r) => new == AppState {
                sqlite_testing: false,
                sqlite_test_result: Some(r),
                ..old
            } && action is Nothing,
            AppEvent::OracleForm(m) => Self::oracle_form_step(old, new, m, now_ms, action),
            AppEvent::OracleTestResult(r) => new == AppState {
                oracle_testing: false,
                oracle_test_result: Some(r),
                ..old
            } && action is Nothing,
            AppEvent::ConnectionsSaved(kind, r) => Self::connections_saved_step(old, new, kind, r)
                && action is Nothing,
            AppEvent::SettingsSaved(r) => match r {
                Ok(()) => new == old && action == AppAction::ApplyLogging,
                Err(e) => Self::settings_failed(old, new, "Failed to save: "@ + settings_error_text(e))
                    && action is Nothing,
            },
            AppEvent::LoggingApplied(o) => Self::logging_applied_step(old, new, o, action),
            AppEvent::SettingsRead(r) => Self::settings_read_step(old, new, r) && action is Nothing,
        }
    }
}

fn prefixed(prefix: &str, text: String) -> (s: String)
    ensures
        s@ == prefix@ + text@,
{
    prefix.to_string().concat(text.as_str())
}

impl<E> AppState<E> {
    fn open_settings_editor(&mut self)
        ensures
            *final(self) == Self::settings_editor_opened(*old(self)),
    {
        self.showing_settings_editor = true;
        self.settings_editor_data = SettingsEditorData::from_manager(&self.settings_manager);
        self.settings_validation_error = None;
        self.settings_success_message = None;
    }

    fn fail_settings(&mut self, message: String)
        ensures
            Self::settings_failed(*old(self), *final(self), message@),
    {
        self.settings_validation_error = Some(message);
        self.settings_success_message = None;
    }

    fn on_menu_action(&mut self, a: MenuAction)
        requires
            old(self).wf(),
        ensures
            final(self).wf(),
            Self::menu_action_step(*old(self), *final(self), a),
    {
        self.open_menu = None;
        match a {
            MenuAction::File(FileMenuItem::NewConnection) => {
                self.showing_connection_form = true;
                self.connection_form_data = ConnectionFormData::new();
            },
            MenuAction::View(v) => match v {
                ViewMenuItem::ToggleLeftPanel => {
                    self.show_left_panel = !self.show_left_panel;
                },
                ViewMenuItem::Settings => {
                    self.open_settings_editor();
                },
                _ => match v.as_component_id() {
                    Some(id) => {
                        self.view_registry.toggle(id);
                    },
                    None => {},
                },
            },
            _ => {},
        }
    }

    fn on_connection_form(&mut self, m: ConnectionFormMessage) -> (action: AppAction)
        requires
            old(self).wf(),
        ensures
            final(self).wf(),
            Self::connection_form_step(*old(self), *final(self), m, action),
    {
        match m {
            ConnectionFormMessage::Save => {
                if self.connection_form_data.validate().is_err() {
                    return AppAction::Nothing;
                }
                let config = form_data_to_config(&self.connection_form_data);
                self.saved_connections.push(config);
                assert(self.saved_connections@.drop_last() =~= old(self).saved_connections@);
                let copy = clone_connections(&self.saved_connections);
                let st = self.settings_manager.settings_mut();
                st.connections = copy;
                AppAction::SaveConnections(FormKind::General)
            },
            ConnectionFormMessage::Cancel => {
                self.showing_connection_form = false;
                AppAction::Nothing
            },
            ConnectionFormMessage::NameChanged(v) => {
                self.connection_form_data.name = v;
                AppAction::Nothing
            },
            ConnectionFormMessage::DbTypeChanged(t) => {
                self.connection_form_data = self.connection_form_data.clone().with_db_type(t);
                AppAction::Nothing
            },
            ConnectionFormMessage::HostChanged(v) => {
                self.connection_form_data.host = v;
                AppAction::Nothing
            },
            ConnectionFormMessage::PortChanged(v) => {
                self.connection_form_data.port = v;
                AppAction::Nothing
            },
            ConnectionFormMessage::DatabaseChanged(v) => {
                self.connection_form_data.database = v;
                AppAction::Nothing
            },
            ConnectionFormMessage::UsernameChanged(v) => {
                self.connection_form_data.username = v;
                AppAction::Nothing
            },
            ConnectionFormMessage::PasswordChanged(v) => {
                self.connection_form_data.password = v;
                AppAction::Nothing
            },
            ConnectionFormMessage::FilePathChanged(v) => {
                self.connection_form_data.file_path = v;
                AppAction::Nothing
            },
            ConnectionFormMessage::TestConnection => {
                match self.connection_form_data.validate() {
                    Err(e) => {
                        self.test_result = Some(Err(e));
                        AppAction::Nothing
                    },
                    Ok(()) => {
                        self.testing_connection = true;
                        self.test_result = None;
                        let config = form_data_to_config(&self.connection_form_data);
                        let password = optional_copy(&self.connection_form_data.password);
                        AppAction::TestConnection { config, password, form: FormKind::General }
                    },
                }
            },
        }
    }
}

impl<E> AppState<E> {
    fn edit_logging(&mut self, m: SettingsEditorMessage)
        requires
            old(self).wf(),
            m is FilterChanged || m is ConsoleFilterChanged || m is FileFilterChanged
                || m is ConsoleFormatChanged || m is ConsoleWriterChanged
                || m is ConsoleEnabledToggled || m is FileFormatChanged || m is FileEnabledToggled
                || m is FileDirectoryChanged || m is FilePrefixChanged || m is RotationPolicyChanged,
        ensures
            final(self).wf(),
            Self::settings_editor_step(*old(self), *final(self), m, AppAction::Nothing),
    {
        let mut l = self.settings_editor_data.logging.clone();
        match m {
            SettingsEditorMessage::FilterChanged(v) => {
                l.filter = v;
            },
            SettingsEditorMessage::ConsoleFilterChanged(v) => {
                l.console_filter = if v.unicode_len() == 0 {
                    None
                } else {
                    Some(v)
                };
            },
            SettingsEditorMessage::FileFilterChanged(v) => {
                l.file_filter = if v.unicode_len() == 0 {
                    None
                } else {
                    Some(v)
                };
            },
            SettingsEditorMessage::ConsoleFormatChanged(f) => {
                l.console_format = f;
            },
            SettingsEditorMessage::ConsoleWriterChanged(w) => {
                l.console_writer = w;
            },
            SettingsEditorMessage::ConsoleEnabledToggled => {
                l.console_enabled = !l.console_enabled;
            },
            SettingsEditorMessage::FileFormatChanged(f) => {
                l.file_format = f;
            },
            SettingsEditorMessage::FileEnabledToggled => {
                l.file_enabled = !l.file_enabled;
            },
            SettingsEditorMessage::FileDirectoryChanged(v) => {
                l.file_directory = v;
            },
            SettingsEditorMessage::FilePrefixChanged(v) => {
                l.file_prefix = v;
            },
            SettingsEditorMessage::RotationPolicyChanged(r) => {
                l.rotation_policy = r;
            },
            _ => {},
        }
        self.settings_editor_data.logging = l;
    }

    fn edit_ui(&mut self, m: SettingsEditorMessage)
        requires
            old(self).wf(),
            m is ThemeChanged || m is PanelWidthChanged || m is ShowLeftPanelToggled,
        ensures
            final(self).wf(),
            Self::settings_editor_step(*old(self), *final(self), m, AppAction::Nothing),
    {
        match m {
            SettingsEditorMessage::ThemeChanged(v) => {
                self.settings_editor_data.ui_preferences.theme = v;
            },
            SettingsEditorMessage::PanelWidthChanged(v) => {
                match parse_unsigned(v.as_str(), 0xffff_ffff) {
                    Some(w) => {
                        self.settings_editor_data.ui_preferences.panel_width = w as u32;
                    },
                    None => {},
                }
            },
            _ => {
                self.settings_editor_data.ui_preferences.show_left_panel =
                    !self.settings_editor_data.ui_preferences.show_left_panel;
            },
        }
    }

    fn save_edited_settings(&mut self) -> (action: AppAction)
        requires
            old(self).wf(),
        ensures
            final(self).wf(),
            Self::settings_editor_step(*old(self), *final(self), SettingsEditorMessage::Save, action),
    {
        let logging = self.settings_editor_data.logging.clone();
        let ui = self.settings_editor_data.ui_preferences.clone();
        let st = self.settings_manager.settings_mut();
        st.logging = logging;
        st.ui_preferences = ui;
        match self.settings_manager.validate() {
            Err(e) => {
                self.fail_settings(e.message());
                AppAction::Nothing
            },
            Ok(()) => AppAction::SaveSettings,
        }
    }

    fn on_settings_editor(&mut self, m: SettingsEditorMessage) -> (action: AppAction)
        requires
            old(self).wf(),
        ensures
            final(self).wf(),
            Self::settings_editor_step(*old(self), *final(self), m, action),
    {
        match m {
            SettingsEditorMessage::Cancel => {
                self.showing_settings_editor = false;
                AppAction::Nothing
            },
            SettingsEditorMessage::Save => self.save_edited_settings(),
            SettingsEditorMessage::Reload => AppAction::ReadSettings,
            SettingsEditorMessage::ThemeChanged(_)
            | SettingsEditorMessage::PanelWidthChanged(_)
            | SettingsEditorMessage::ShowLeftPanelToggled => {
                self.edit_ui(m);
                AppAction::Nothing
            },
            _ => {
                self.edit_logging(m);
                AppAction::Nothing
            },
        }
    }

    fn on_settings_read(&mut self, r: std::result::Result<Settings, SettingsError>)
        requires
            old(self).wf(),
        ensures
            final(self).wf(),
            Self::settings_read_step(*old(self), *final(self), r),
    {
        match r {
            Err(e) => {
                self.fail_settings(prefixed("Failed to reload: ", e.message()));
            },
            Ok(st) => match self.settings_manager.apply_reload(st) {
                Err(e) => {
                    self.fail_settings(prefixed("Failed to reload: ", e.message()));
                },
                Ok(()) => {
                    self.settings_editor_data = SettingsEditorData::from_manager(&self.settings_manager);
                    self.settings_validation_error = None;
                    self.settings_success_message = Some("Settings reloaded from disk".to_string());
                },
            },
        }
    }

    fn on_logging_applied(&mut self, o: LoggingOutcome) -> (action: AppAction)
        requires
            old(self).wf(),
        ensures
            final(self).wf(),
            Self::logging_applied_step(*old(self), *final(self), o, action),
    {
        match o {
            LoggingOutcome::Applied => {
                self.show_left_panel = self.settings_manager.settings().ui_preferences.show_left_panel;
                self.settings_success_message = Some("Settings saved successfully".to_string());
                self.settings_validation_error = None;
                self.showing_settings_editor = false;
                AppAction::ApplyUiPreferences
            },
            LoggingOutcome::Invalid => {
                self.fail_settings("Invalid logging configuration".to_string());
                AppAction::Nothing
            },
            LoggingOutcome::ApplyFailed(e) => {
                self.fail_settings(prefixed("Failed to reload logging: ", e));
                AppAction::Nothing
            },
        }
    }

    fn on_adapter_selector(&mut self, m: AdapterSelectorMessage)
        requires
            old(self).wf(),
        ensures
            final(self).wf(),
            Self::adapter_selector_step(*old(self), *final(self), m),
    {
        match m {
            AdapterSelectorMessage::AdapterSelected(t) => {
                self.selected_adapter = Some(t);
            },
            AdapterSelectorMessage::Cancel => {
                self.showing_adapter_selector = false;
                self.selected_adapter = None;
            },
            AdapterSelectorMessage::Continue => {
                self.showing_adapter_selector = false;
                match self.selected_adapter {
                    None => {},
                    Some(t) => {
                        self.showing_connection_form = true;
                        match t {
                            DatabaseType::SQLite => {
                                self.sqlite_form_data = SQLiteConnectionFormData::new();
                                self.sqlite_test_result = None;
                            },
                            DatabaseType::Oracle => {
                                self.oracle_form_data = OracleConnectionFormData::new();
                                self.oracle_test_result = None;
                            },
                            _ => {
                                self.connection_form_data = ConnectionFormData::new().with_db_type(t);
                                self.test_result = None;
                            },
                        }
                    },
                }
            },
        }
    }
}

impl<E> AppState<E> {
    fn hold_pending(&mut self, config: ConnectionConfig)
        requires
            old(self).wf(),
        ensures
            final(self).wf(),
            Self::connection_pending(*old(self), *final(self), config@),
            *final(self) == (AppState {
                settings_manager: final(self).settings_manager,
                pending_connection: final(self).pending_connection,
                ..*old(self)
            }),
    {
        let st = self.settings_manager.settings_mut();
        st.connections.push(config.clone());
        assert(st.connections@.drop_last() =~= old(self).settings_manager.current().connections@);
        self.pending_connection = Some(config);
    }

    fn on_sqlite_form(&mut self, m: SQLiteConnectionFormMessage, now_ms: u64) -> (action: AppAction)
        requires
            old(self).wf(),
        ensures
            final(self).wf(),
            Self::sqlite_form_step(*old(self), *final(self), m, now_ms, action),
    {
        match m {
            SQLiteConnectionFormMessage::Cancel => {
                self.showing_connection_form = false;
                self.selected_adapter = None;
                AppAction::Nothing
            },
            SQLiteConnectionFormMessage::NameChanged(v) => {
                self.sqlite_form_data.name = v;
                self.sqlite_test_result = None;
                AppAction::Nothing
            },
            SQLiteConnectionFormMessage::FilePathChanged(v) => {
                self.sqlite_form_data.file_path = v;
                self.sqlite_test_result = None;
                AppAction::Nothing
            },
            SQLiteConnectionFormMessage::TestConnection => {
                self.sqlite_testing = true;
                self.sqlite_test_result = None;
                let config = sqlite_config(&self.sqlite_form_data, now_ms);
                AppAction::TestConnection { config, password: None, form: FormKind::SQLite }
            },
            SQLiteConnectionFormMessage::Save => match self.sqlite_form_data.validate() {
                Err(e) => {
                    self.sqlite_test_result = Some(Err(e));
                    AppAction::Nothing
                },
                Ok(()) => {
                    let config = sqlite_config(&self.sqlite_form_data, now_ms);
                    self.hold_pending(config);
                    AppAction::SaveConnections(FormKind::SQLite)
                },
            },
        }
    }

    fn on_oracle_form(&mut self, m: OracleConnectionFormMessage, now_ms: u64) -> (action: AppAction)
        requires
            old(self).wf(),
        ensures
            final(self).wf(),
            Self::oracle_form_step(*old(self), *final(self), m, now_ms, action),
    {
        match m {
            OracleConnectionFormMessage::Cancel => {
                self.showing_connection_form = false;
                self.selected_adapter = None;
                AppAction::Nothing
            },
            OracleConnectionFormMessage::NameChanged(v) => {
                self.oracle_form_data.name = v;
                self.oracle_test_result = None;
                AppAction::Nothing
            },
            OracleConnectionFormMessage::HostChanged(v) => {
                self.oracle_form_data.host = v;
                self.oracle_test_result = None;
                AppAction::Nothing
            },
            OracleConnectionFormMessage::PortChanged(v) => {
                self.oracle_form_data.port = v;
                self.oracle_test_result = None;
                AppAction::Nothing
            },
            OracleConnectionFormMessage::DatabaseChanged(v) => {
                self.oracle_form_data.database = v;
                self.oracle_test_result = None;
                AppAction::Nothing
            },
            OracleConnectionFormMessage::UsernameChanged(v) => {
                self.oracle_form_data.username = v;
                self.oracle_test_result = None;
                AppAction::Nothing
            },
            OracleConnectionFormMessage::PasswordChanged(v) => {
                self.oracle_form_data.password = v;
                self.oracle_test_result = None;
                AppAction::Nothing
            },
            OracleConnectionFormMessage::TestConnection => {
                self.oracle_testing = true;
                self.oracle_test_result = None;
                let config = oracle_config(&self.oracle_form_data, now_ms);
                let password = optional_copy(&self.oracle_form_data.password);
                AppAction::TestConnection { config, password, form: FormKind::Oracle }
            },
            OracleConnectionFormMessage::Save => match self.oracle_form_data.validate() {
                Err(e) => {
                    self.oracle_test_result = Some(Err(e));
                    AppAction::Nothing
                },
                Ok(()) => {
                    let config = oracle_config(&self.oracle_form_data, now_ms);
                    self.hold_pending(config);
                    AppAction::SaveConnections(FormKind::Oracle)
                },
            },
        }
    }

    fn on_connections_saved(&mut self, kind: FormKind, r: Result<(), SettingsError>)
        requires
            old(self).wf(),
        ensures
            final(self).wf(),
            Self::connections_saved_step(*old(self), *final(self), kind, r),
    {
        match kind {
            FormKind::General => {
                if r.is_ok() {
                    self.showing_connection_form = false;
                }
            },
            _ => match r {
                Ok(()) => {
                    match self.pending_connection.take() {
                        Some(c) => {
                            self.saved_connections.push(c);
                        },
                        None => {},
                    }
                    self.showing_connection_form = false;
                    self.selected_adapter = None;
                },
                Err(e) => {
                    self.pending_connection = None;
                    let msg = prefixed("Failed to save: ", e.message());
                    match kind {
                        FormKind::SQLite => {
                            self.sqlite_test_result = Some(Err(msg));
                        },
                        _ => {
                            self.oracle_test_result = Some(Err(msg));
                        },
                    }
                },
            },
        }
    }

    /// Decide what `event` does at `now_ms` milliseconds after the epoch (the
    /// clock reading names the connections that dedicated forms create), and
    /// return the outside work to do next.
    pub fn update(&mut self, event: AppEvent<E>, now_ms: u64) -> (action: AppAction)
        requires
            old(self).wf(),
            event is NewMainTab ==> old(self).main_panel.next_id() < usize::MAX,
        ensures
            final(self).wf(),
            Self::step(*old(self), *final(self), event, now_ms, action),
    {
        match event {
            AppEvent::MenuToggle(m) => {
                self.open_menu = if self.open_menu == Some(m) {
                    None
                } else {
                    Some(m)
                };
                AppAction::Nothing
            },
            AppEvent::MenuAction(a) => {
                self.on_menu_action(a);
                AppAction::Nothing
            },
            AppEvent::CloseMenu => {
                self.open_menu = None;
                AppAction::Nothing
            },
            AppEvent::LeftPanelTabClicked(id) => {
                self.active_component = Some(id);
                AppAction::Nothing
            },
            AppEvent::NewMainTab(editor) => {
                let n = self.main_panel.tabs().len() + 1;
                let title = "Query ".to_string().concat(usize_to_decimal(n).as_str());
                self.main_panel.add_tab(title, editor);
                AppAction::Nothing
            },
            AppEvent::MainTabClicked(id) => {
                self.main_panel.set_active_tab(id);
                AppAction::Nothing
            },
            AppEvent::MainTabClosed(id) => {
                self.main_panel.close_tab(id);
                AppAction::Nothing
            },
            AppEvent::NewConnection => {
                self.showing_adapter_selector = true;
                self.selected_adapter = None;
                AppAction::Nothing
            },
            AppEvent::ConnectionForm(m) => self.on_connection_form(m),
            AppEvent::ConnectionTestResult(r) => {
                self.testing_connection = false;
                self.test_result = Some(r);
                AppAction::Nothing
            },
            AppEvent::ComponentAction(_) => AppAction::Nothing,
            AppEvent::ShowSettings => {
                self.open_settings_editor();
                AppAction::Nothing
            },
            AppEvent::SettingsEditor(m) => self.on_settings_editor(m),
            AppEvent::AdapterSelector(m) => {
                self.on_adapter_selector(m);
                AppAction::Nothing
            },
            AppEvent::SQLiteForm(m) => self.on_sqlite_form(m, now_ms),
            AppEvent::SQLiteTestResult(r) => {
                self.sqlite_testing = false;
                self.sqlite_test_result = Some(r);
                AppAction::Nothing
            },
            AppEvent::OracleForm(m) => self.on_oracle_form(m, now_ms),
            AppEvent::OracleTestResult(r) => {
                self.oracle_testing = false;
                self.oracle_test_result = Some(r);
                AppAction::Nothing
            },
            AppEvent::ConnectionsSaved(kind, r) => {
                self.on_connections_saved(kind, r);
                AppAction::Nothing
            },
            AppEvent::SettingsSaved(r) => match r {
                Ok(()) => AppAction::ApplyLogging,
                Err(e) => {
                    self.fail_settings(prefixed("Failed to save: ", e.message()));
                    AppAction::Nothing
                },
            },
            AppEvent::LoggingApplied(o) => self.on_logging_applied(o),
            AppEvent::SettingsRead(r) => {
                self.on_settings_read(r);
                AppAction::Nothing
            },
        }
    }
}

/// How an attempt to reach a database ended.
#[derive(Debug, Clone, PartialEq, Eq)]
pub enum ConnectionProbe {
    /// The driver answered: whether the database accepted the connection.
    Answered(bool),
    /// The driver reported an error.
    Failed(String),
    /// No answer within the time allowed.
    TimedOut,
}

/// The outcome a connection test reports for a probe.
pub open spec fn spec_probe_result(p: ConnectionProbe) -> Result<(), Seq<char>> {
    match p {
        ConnectionProbe::Answered(true) => Ok(()),
        ConnectionProbe::Answered(false) => Err("Connection failed: Unable to connect to database"@),
        ConnectionProbe::Failed(e) => Err("Connection error: "@ + e@),
        ConnectionProbe::TimedOut => Err("Connection timeout: Failed to connect within 10 seconds"@),
    }
}

/// The outcome a connection test reports for a probe.
pub fn probe_result(p: ConnectionProbe) -> (r: Result<(), String>)
    ensures
        match r {
            Ok(()) => spec_probe_result(p) == Ok::<(), Seq<char>>(()),
            Err(m) => spec_probe_result(p) == Err::<(), Seq<char>>(m@),
        },
{
    match p {
        ConnectionProbe::Answered(true) => Ok(()),
        ConnectionProbe::Answered(false) => Err(
            "Connection failed: Unable to connect to database".to_string(),
        ),
        ConnectionProbe::Failed(e) => Err(prefixed("Connection error: ", e)),
        ConnectionProbe::TimedOut => Err(
            "Connection timeout: Failed to connect within 10 seconds".to_string(),
        ),
    }
}

/// What the main area shows.
#[derive(Debug, Clone, Copy, PartialEq, Eq, Structural)]
pub enum Screen {
    SettingsEditor,
    AdapterSelector,
    SQLiteForm,
    OracleForm,
    /// The general connection form, for every other kind or when no kind was
    /// picked.
    ConnectionForm,
    /// The query tabs.
    Tabs,
}

/// What the main area shows in state `s`: the settings editor first, then
/// the adapter picker, then the form for the picked kind, else the tabs.
pub open spec fn spec_screen<E>(s: AppState<E>) -> Screen {
    if s.showing_settings_editor {
        Screen::SettingsEditor
    } else if s.showing_adapter_selector {
        Screen::AdapterSelector
    } else if s.showing_connection_form {
        match s.selected_adapter {
            Some(DatabaseType::SQLite) => Screen::SQLiteForm,
            Some(DatabaseType::Oracle) => Screen::OracleForm,
            _ => Screen::ConnectionForm,
        }
    } else {
        Screen::Tabs
    }
}

impl<E> AppState<E> {
    /// What the main area shows.
    pub fn screen(&self) -> (sc: Screen)
        ensures
            sc == spec_screen(*self),
    {
        if self.showing_settings_editor {
            Screen::SettingsEditor
        } else if self.showing_adapter_selector {
            Screen::AdapterSelector
        } else if self.showing_connection_form {
            match self.selected_adapter {
                Some(DatabaseType::SQLite) => Screen::SQLiteForm,
                Some(DatabaseType::Oracle) => Screen::OracleForm,
                _ => Screen::ConnectionForm,
            }
        } else {
            Screen::Tabs
        }
    }
}

/// Clicking the same menu twice leaves the menus as they were, when no menu
/// or that menu was open.
pub proof fn law_menu_toggle_twice(open: Option<MenuItem>, m: MenuItem)
    requires
        open is None || open == Some(m),
    ensures
        menu_after_toggle(menu_after_toggle(open, m), m) == open,
{
}

/// Saving a valid general form and having the settings written leaves the
/// form's connection last among the known connections, the settings holding
/// exactly the known connections, and the form closed.
pub proof fn law_general_save_round_trip<E>(
    s0: AppState<E>,
    s1: AppState<E>,
    s2: AppState<E>,
    now_ms: u64,
    a1: AppAction,
    a2: AppAction,
)
    requires
        s0.connection_form_data.problem() is None,
        AppState::step(s0, s1, AppEvent::ConnectionForm(ConnectionFormMessage::Save), now_ms, a1),
        AppState::step(s1, s2, AppEvent::ConnectionsSaved(FormKind::General, Ok(())), now_ms, a2),
    ensures
        a1 == AppAction::SaveConnections(FormKind::General),
        s2.saved_connections@.drop_last() == s0.saved_connections@,
        s2.saved_connections@.last()@ == general_form_config(s0.connection_form_data),
        s2.settings_manager.current().connections@ == s2.saved_connections@,
        !s2.showing_connection_form,
{
}

/// Saving a valid SQLite form at `now_ms` and having the settings written
/// adds the form's connection, named by the clock, to the known connections
/// and to the settings, and closes the form.
pub proof fn law_sqlite_save_round_trip<E>(
    s0: AppState<E>,
    s1: AppState<E>,
    s2: AppState<E>,
    now_ms: u64,
    later_ms: u64,
    a1: AppAction,
    a2: AppAction,
)
    requires
        sqlite_form_error(s0.sqlite_form_data.name@, s0.sqlite_form_data.file_path@) is None,
        AppState::step(s0, s1, AppEvent::SQLiteForm(SQLiteConnectionFormMessage::Save), now_ms, a1),
        AppState::step(s1, s2, AppEvent::ConnectionsSaved(FormKind::SQLite, Ok(())), later_ms, a2),
    ensures
        a1 == AppAction::SaveConnections(FormKind::SQLite),
        s2.saved_connections@.drop_last() == s0.saved_connections@,
        s2.saved_connections@.last()@ == sqlite_form_config(s0.sqlite_form_data, now_ms),
        s2.settings_manager.current().connections@.last() == s2.saved_connections@.last(),
        s2.settings_manager.current().connections@.drop_last()
            == s0.settings_manager.current().connections@,
        !s2.showing_connection_form,
        s2.selected_adapter is None,
        s2.pending_connection is None,
{
    assert(s2.saved_connections@.drop_last() =~= s0.saved_connections@);
}

/// Saving valid edited settings, having them written and the logging
/// rebuilt, leaves the settings holding the edited logging settings and UI
/// preferences, the left panel shown as they say, and the editor closed.
pub proof fn law_settings_save_round_trip<E>(
    s0: AppState<E>,
    s1: AppState<E>,
    s2: AppState<E>,
    s3: AppState<E>,
    now_ms: u64,
    a1: AppAction,
    a2: AppAction,
    a3: AppAction,
)
    requires
        settings_problem(
            Settings {
                logging: s0.settings_editor_data.logging,
                ui_preferences: s0.settings_editor_data.ui_preferences,
                ..s0.settings_manager.current()
            },
        ) is None,
        AppState::step(s0, s1, AppEvent::SettingsEditor(SettingsEditorMessage::Save), now_ms, a1),
        AppState::step(s1, s2, AppEvent::SettingsSaved(Ok(())), now_ms, a2),
        AppState::step(s2, s3, AppEvent::LoggingApplied(LoggingOutcome::Applied), now_ms, a3),
    ensures
        settings_problem(s3.settings_manager.current()) is None,
        s3.settings_manager.current().logging == s0.settings_editor_data.logging,
        s3.settings_manager.current().ui_preferences == s0.settings_editor_data.ui_preferences,
        s3.settings_manager.current().connections == s0.settings_manager.current().connections,
        s3.show_left_panel == s0.settings_editor_data.ui_preferences.show_left_panel,
        !s3.showing_settings_editor,
        s3.settings_validation_error is None,
        a1 == AppAction::SaveSettings,
        a2 == AppAction::ApplyLogging,
        a3 == AppAction::ApplyUiPreferences,
{
}

/// A general form that validates describes a reachable connection: a named
/// file for SQLite, otherwise a host, a port and a database.
pub proof fn law_valid_form_is_complete(d: ConnectionFormData)
    requires
        d.problem() is None,
    ensures
        general_form_config(d).name.len() > 0,
        d.db_type == DatabaseType::SQLite ==> general_form_config(d).database.len() > 0,
        d.db_type != DatabaseType::SQLite ==> {
            &&& general_form_config(d).host is Some
            &&& general_form_config(d).port is Some
            &&& general_form_config(d).database.len() > 0
        },
{
}

/// An Oracle form that validates describes a connection with a host, a
/// port and a service name.
pub proof fn law_valid_oracle_form_is_complete(d: OracleConnectionFormData, now_ms: u64)
    requires
        oracle_form_error(d.name@, d.host@, d.port@, d.database@) is None,
    ensures
        oracle_form_config(d, now_ms).port is Some,
        oracle_form_config(d, now_ms).host matches Some(h) && h.len() > 0,
        oracle_form_config(d, now_ms).database.len() > 0,
{
}

} // verus!
