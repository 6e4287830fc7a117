//! Tabs of the left panel.

use vstd::prelude::*;

verus! {

/// Available tabs in the left panel.
#[derive(Debug, Clone, Copy, PartialEq, Eq, Structural)]
pub enum PanelTab {
    Servers,
    Tables,
    Properties,
}

/// The display name of a `PanelTab`.
pub open spec fn panel_tab_name(item: PanelTab) -> Seq<char> {
    match item {
        PanelTab::Servers => "Servers"@,
        PanelTab::Tables => "Tables"@,
        PanelTab::Properties => "Properties"@,
    }
}

/// Every `PanelTab`, in display order.
pub open spec fn all_panel_tabs() -> Seq<PanelTab> {
    seq![
        PanelTab::Servers,
        PanelTab::Tables,
        PanelTab::Properties,
    ]
}

impl PanelTab {
    /// Get the display name for this item.
    pub fn name(&self) -> (s: &'static str)
        ensures
            s@ == panel_tab_name(*self),
    {
        match self {
            PanelTab::Servers => "Servers",
            PanelTab::Tables => "Tables",
            PanelTab::Properties => "Properties",
        }
    }

    /// Get all items in display order.
    pub fn all() -> (items: &'static [PanelTab])
        ensures
            items@ == all_panel_tabs(),
    {
        let items: &'static [PanelTab] = &[
            PanelTab::Servers,
            PanelTab::Tables,
            PanelTab::Properties,
        ];
        items
    }
}

impl Default for PanelTab {
    fn default() -> (t: Self)
        ensures
            t == PanelTab::Servers,
    {
        PanelTab::Servers
    }
}

} // verus!
