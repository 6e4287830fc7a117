//! Menus of the menu bar and the actions they produce.

use crate::components::ComponentId;
use crate::views::ViewRegistry;
use vstd::prelude::*;

verus! {

/// Top-level menu items in the menu bar.
#[derive(Debug, Clone, Copy, PartialEq, Eq, Structural)]
pub enum MenuItem {
    File,
    Edit,
    View,
    Tools,
}

/// The display name of a `MenuItem`.
pub open spec fn menu_item_name(item: MenuItem) -> Seq<char> {
    match item {
        MenuItem::File => "File"@,
        MenuItem::Edit => "Edit"@,
        MenuItem::View => "View"@,
        MenuItem::Tools => "Tools"@,
    }
}

/// Every `MenuItem`, in display order.
pub open spec fn all_menu_items() -> Seq<MenuItem> {
    seq![
        MenuItem::File,
        MenuItem::Edit,
        MenuItem::View,
        MenuItem::Tools,
    ]
}

impl MenuItem {
    /// Get the display name for this item.
    pub fn name(&self) -> (s: &'static str)
        ensures
            s@ == menu_item_name(*self),
    {
        match self {
            MenuItem::File => "File",
            MenuItem::Edit => "Edit",
            MenuItem::View => "View",
            MenuItem::Tools => "Tools",
        }
    }

    /// Get all items in display order.
    pub fn all() -> (items: &'static [MenuItem])
        ensures
            items@ == all_menu_items(),
    {
        let items: &'static [MenuItem] = &[
            MenuItem::File,
            MenuItem::Edit,
            MenuItem::View,
            MenuItem::Tools,
        ];
        items
    }
}

/// Submenu items for the File menu.
#[derive(Debug, Clone, Copy, PartialEq, Eq, Structural)]
pub enum FileMenuItem {
    NewConnection,
    OpenConnection,
    SaveQuery,
    Exit,
}

/// The display name of a `FileMenuItem`.
pub open spec fn file_menu_item_name(item: FileMenuItem) -> Seq<char> {
    match item {
        FileMenuItem::NewConnection => "New Connection"@,
        FileMenuItem::OpenConnection => "Open Connection..."@,
        FileMenuItem::SaveQuery => "Save Query"@,
        FileMenuItem::Exit => "Exit"@,
    }
}

/// Every `FileMenuItem`, in display order.
pub open spec fn all_file_menu_items() -> Seq<FileMenuItem> {
    seq![
        FileMenuItem::NewConnection,
        FileMenuItem::OpenConnection,
        FileMenuItem::SaveQuery,
        FileMenuItem::Exit,
    ]
}

impl FileMenuItem {
    /// Get the display name for this item.
    pub fn name(&self) -> (s: &'static str)
        ensures
            s@ == file_menu_item_name(*self),
    {
        match self {
            FileMenuItem::NewConnection => "New Connection",
            FileMenuItem::OpenConnection => "Open Connection...",
            FileMenuItem::SaveQuery => "Save Query",
            FileMenuItem::Exit => "Exit",
        }
    }

    /// Get all items in display order.
    pub fn all() -> (items: &'static [FileMenuItem])
        ensures
            items@ == all_file_menu_items(),
    {
        let items: &'static [FileMenuItem] = &[
            FileMenuItem::NewConnection,
            FileMenuItem::OpenConnection,
            FileMenuItem::SaveQuery,
            FileMenuItem::Exit,
        ];
        items
    }
}

/// Submenu items for the Edit menu.
#[derive(Debug, Clone, Copy, PartialEq, Eq, Structural)]
pub enum EditMenuItem {
    Undo,
    Redo,
    Cut,
    Copy,
    Paste,
}

/// The display name of a `EditMenuItem`.
pub open spec fn edit_menu_item_name(item: EditMenuItem) -> Seq<char> {
    match item {
        EditMenuItem::Undo => "Undo"@,
        EditMenuItem::Redo => "Redo"@,
        EditMenuItem::Cut => "Cut"@,
        EditMenuItem::Copy => "Copy"@,
        EditMenuItem::Paste => "Paste"@,
    }
}

/// Every `EditMenuItem`, in display order.
pub open spec fn all_edit_menu_items() -> Seq<EditMenuItem> {
    seq![
        EditMenuItem::Undo,
        EditMenuItem::Redo,
        EditMenuItem::Cut,
        EditMenuItem::Copy,
        EditMenuItem::Paste,
    ]
}

impl EditMenuItem {
    /// Get the display name for this item.
    pub fn name(&self) -> (s: &'static str)
        ensures
            s@ == edit_menu_item_name(*self),
    {
        match self {
            EditMenuItem::Undo => "Undo",
            EditMenuItem::Redo => "Redo",
            EditMenuItem::Cut => "Cut",
            EditMenuItem::Copy => "Copy",
            EditMenuItem::Paste => "Paste",
        }
    }

    /// Get all items in display order.
    pub fn all() -> (items: &'static [EditMenuItem])
        ensures
            items@ == all_edit_menu_items(),
    {
        let items: &'static [EditMenuItem] = &[
            EditMenuItem::Undo,
            EditMenuItem::Redo,
            EditMenuItem::Cut,
            EditMenuItem::Copy,
            EditMenuItem::Paste,
        ];
        items
    }
}

/// Submenu items for the View menu.
#[derive(Debug, Clone, Copy, PartialEq, Eq, Structural)]
pub enum ViewMenuItem {
    ToggleLeftPanel,
    Servers,
    Tables,
    Properties,
    QueryEditor,
    ConnectionManager,
    Settings,
}

/// The display name of a `ViewMenuItem`.
pub open spec fn view_menu_item_name(item: ViewMenuItem) -> Seq<char> {
    match item {
        ViewMenuItem::ToggleLeftPanel => "Toggle Left Panel"@,
        ViewMenuItem::Servers => "Servers"@,
        ViewMenuItem::Tables => "Tables"@,
        ViewMenuItem::Properties => "Properties"@,
        ViewMenuItem::QueryEditor => "Query Editor"@,
        ViewMenuItem::ConnectionManager => "Connection Manager"@,
        ViewMenuItem::Settings => "Settings..."@,
    }
}

/// Every `ViewMenuItem`, in display order.
pub open spec fn all_view_menu_items() -> Seq<ViewMenuItem> {
    seq![
        ViewMenuItem::ToggleLeftPanel,
        ViewMenuItem::Servers,
        ViewMenuItem::Tables,
        ViewMenuItem::Properties,
        ViewMenuItem::QueryEditor,
        ViewMenuItem::ConnectionManager,
        ViewMenuItem::Settings,
    ]
}

impl ViewMenuItem {
    /// Get the display name for this item.
    pub fn name(&self) -> (s: &'static str)
        ensures
            s@ == view_menu_item_name(*self),
    {
        match self {
            ViewMenuItem::ToggleLeftPanel => "Toggle Left Panel",
            ViewMenuItem::Servers => "Servers",
            ViewMenuItem::Tables => "Tables",
            ViewMenuItem::Properties => "Properties",
            ViewMenuItem::QueryEditor => "Query Editor",
            ViewMenuItem::ConnectionManager => "Connection Manager",
            ViewMenuItem::Settings => "Settings...",
        }
    }

    /// Get all items in display order.
    pub fn all() -> (items: &'static [ViewMenuItem])
        ensures
            items@ == all_view_menu_items(),
    {
        let items: &'static [ViewMenuItem] = &[
            ViewMenuItem::ToggleLeftPanel,
            ViewMenuItem::Servers,
            ViewMenuItem::Tables,
            ViewMenuItem::Properties,
            ViewMenuItem::QueryEditor,
            ViewMenuItem::ConnectionManager,
            ViewMenuItem::Settings,
        ];
        items
    }
}

/// Submenu items for the Tools menu.
#[derive(Debug, Clone, Copy, PartialEq, Eq, Structural)]
pub enum ToolsMenuItem {
    Preferences,
    ExportData,
    ImportData,
}

/// The display name of a `ToolsMenuItem`.
pub open spec fn tools_menu_item_name(item: ToolsMenuItem) -> Seq<char> {
    match item {
        ToolsMenuItem::Preferences => "Preferences..."@,
        ToolsMenuItem::ExportData => "Export Data"@,
        ToolsMenuItem::ImportData => "Import Data"@,
    }
}

/// Every `ToolsMenuItem`, in display order.
pub open spec fn all_tools_menu_items() -> Seq<ToolsMenuItem> {
    seq![
        ToolsMenuItem::Preferences,
        ToolsMenuItem::ExportData,
        ToolsMenuItem::ImportData,
    ]
}

impl ToolsMenuItem {
    /// Get the display name for this item.
    pub fn name(&self) -> (s: &'static str)
        ensures
            s@ == tools_menu_item_name(*self),
    {
        match self {
            ToolsMenuItem::Preferences => "Preferences...",
            ToolsMenuItem::ExportData => "Export Data",
            ToolsMenuItem::ImportData => "Import Data",
        }
    }

    /// Get all items in display order.
    pub fn all() -> (items: &'static [ToolsMenuItem])
        ensures
            items@ == all_tools_menu_items(),
    {
        let items: &'static [ToolsMenuItem] = &[
            ToolsMenuItem::Preferences,
            ToolsMenuItem::ExportData,
            ToolsMenuItem::ImportData,
        ];
        items
    }
}

/// The component that a View menu item shows or hides; the left-panel toggle
/// and the settings entry are not components.
pub open spec fn view_item_component(item: ViewMenuItem) -> Option<ComponentId> {
    match item {
        ViewMenuItem::ToggleLeftPanel => None,
        ViewMenuItem::Servers => Some(ComponentId::ServerList),
        ViewMenuItem::Tables => Some(ComponentId::TableList),
        ViewMenuItem::Properties => Some(ComponentId::Properties),
        ViewMenuItem::QueryEditor => Some(ComponentId::Editor),
        ViewMenuItem::ConnectionManager => Some(ComponentId::ConnectionForm),
        ViewMenuItem::Settings => None,
    }
}

impl ViewMenuItem {
    /// Map a View menu item to the component it toggles.
    pub fn as_component_id(&self) -> (id: Option<ComponentId>)
        ensures
            id == view_item_component(*self),
    {
        match self {
            ViewMenuItem::ToggleLeftPanel => None,
            ViewMenuItem::Servers => Some(ComponentId::ServerList),
            ViewMenuItem::Tables => Some(ComponentId::TableList),
            ViewMenuItem::Properties => Some(ComponentId::Properties),
            ViewMenuItem::QueryEditor => Some(ComponentId::Editor),
            ViewMenuItem::ConnectionManager => Some(ComponentId::ConnectionForm),
            ViewMenuItem::Settings => None,
        }
    }
}

/// All possible menu actions.
#[derive(Debug, Clone, Copy, PartialEq, Eq, Structural)]
pub enum MenuAction {
    File(FileMenuItem),
    Edit(EditMenuItem),
    View(ViewMenuItem),
    Tools(ToolsMenuItem),
}

/// How a View menu entry is labelled: entries for components carry a check
/// mark when the component is shown, or two spaces in its place.
pub open spec fn view_entry_label(item: ViewMenuItem, shown: bool) -> Seq<char> {
    match view_item_component(item) {
        Some(_) => (if shown {
            "✓ "@
        } else {
            "  "@
        }) + view_menu_item_name(item),
        None => view_menu_item_name(item),
    }
}

/// The number of entries of a menu.
pub open spec fn submenu_len(menu: MenuItem) -> nat {
    match menu {
        MenuItem::File => all_file_menu_items().len(),
        MenuItem::Edit => all_edit_menu_items().len(),
        MenuItem::View => all_view_menu_items().len(),
        MenuItem::Tools => all_tools_menu_items().len(),
    }
}

/// The `i`-th entry of a menu, as its label and the action it triggers,
/// with the views shown as `registry` says.
pub open spec fn submenu_entry<C>(menu: MenuItem, registry: ViewRegistry<C>, i: int) -> (
    Seq<char>,
    MenuAction,
) {
    match menu {
        MenuItem::File => {
            let it = all_file_menu_items()[i];
            (file_menu_item_name(it), MenuAction::File(it))
        },
        MenuItem::Edit => {
            let it = all_edit_menu_items()[i];
            (edit_menu_item_name(it), MenuAction::Edit(it))
        },
        MenuItem::View => {
            let it = all_view_menu_items()[i];
            let shown = match view_item_component(it) {
                Some(id) => registry.shows(id),
                None => false,
            };
            (view_entry_label(it, shown), MenuAction::View(it))
        },
        MenuItem::Tools => {
            let it = all_tools_menu_items()[i];
            (tools_menu_item_name(it), MenuAction::Tools(it))
        },
    }
}

/// Each entry of `r` is the entry of `menu` at its position.
pub open spec fn entries_agree<C>(r: Seq<(String, MenuAction)>, menu: MenuItem, registry: ViewRegistry<C>) -> bool {
    forall|i: int|
        0 <= i < r.len() ==> (#[trigger] r[i]).0@ == submenu_entry(menu, registry, i).0 && r[i].1
            == submenu_entry(menu, registry, i).1
}

fn view_entry(item: ViewMenuItem, shown: bool) -> (s: String)
    ensures
        s@ == view_entry_label(item, shown),
{
    match item.as_component_id() {
        Some(_) => {
            let mark = if shown {
                "✓ "
            } else {
                "  "
            };
            mark.to_string().concat(item.name())
        },
        None => item.name().to_string(),
    }
}

/// The entries of a menu, in order, as labels and the actions they trigger;
/// the View menu marks the components that `registry` shows.
pub fn submenu_entries<C>(menu: MenuItem, registry: &ViewRegistry<C>) -> (r: Vec<(String, MenuAction)>)
    requires
        registry.wf(),
    ensures
        r@.len() == submenu_len(menu),
        entries_agree(r@, menu, *registry),
{
    let mut r: Vec<(String, MenuAction)> = Vec::new();
    match menu {
        MenuItem::File => {
            let items = FileMenuItem::all();
            let mut i: usize = 0;
            while i < items.len()
                invariant
                    items@ == all_file_menu_items(),
                    i <= items.len(),
                    r@.len() == i,
                    entries_agree(r@, menu, *registry),
                    menu == MenuItem::File,
                decreases items.len() - i,
            {
                let it = items[i];
                r.push((it.name().to_string(), MenuAction::File(it)));
                i = i + 1;
            }
        },
        MenuItem::Edit => {
            let items = EditMenuItem::all();
            let mut i: usize = 0;
            while i < items.len()
                invariant
                    items@ == all_edit_menu_items(),
                    i <= items.len(),
                    r@.len() == i,
                    entries_agree(r@, menu, *registry),
                    menu == MenuItem::Edit,
                decreases items.len() - i,
            {
                let it = items[i];
                r.push((it.name().to_string(), MenuAction::Edit(it)));
                i = i + 1;
            }
        },
        MenuItem::View => {
            let items = ViewMenuItem::all();
            let mut i: usize = 0;
            while i < items.len()
                invariant
                    items@ == all_view_menu_items(),
                    registry.wf(),
                    i <= items.len(),
                    r@.len() == i,
                    entries_agree(r@, menu, *registry),
                    menu == MenuItem::View,
                decreases items.len() - i,
            {
                let it = items[i];
                let shown = match it.as_component_id() {
                    Some(id) => registry.is_enabled(id),
                    None => false,
                };
                r.push((view_entry(it, shown), MenuAction::View(it)));
                i = i + 1;
            }
        },
        MenuItem::Tools => {
            let items = ToolsMenuItem::all();
            let mut i: usize = 0;
            while i < items.len()
                invariant
                    items@ == all_tools_menu_items(),
                    i <= items.len(),
                    r@.len() == i,
                    entries_agree(r@, menu, *registry),
                    menu == MenuItem::Tools,
                decreases items.len() - i,
            {
                let it = items[i];
                r.push((it.name().to_string(), MenuAction::Tools(it)));
                i = i + 1;
            }
        },
    }
    r
}

} // verus!
