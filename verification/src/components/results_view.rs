//! Results view component for displaying query results.

use crate::components::{component_name, ComponentId};
use vstd::prelude::*;

verus! {

/// Results view component that displays query execution results; it holds no
/// state of its own yet.
#[derive(Debug, Clone)]
pub struct ResultsViewComponent {}

impl ResultsViewComponent {
    /// Create a new results view component.
    pub fn new() -> (c: Self)
        ensures
            c == (ResultsViewComponent {}),
    {
        ResultsViewComponent {}
    }

    /// Identifies this component.
    pub fn id(&self) -> (id: ComponentId)
        ensures
            id == ComponentId::ResultsView,
    {
        ComponentId::ResultsView
    }

    /// Display name for tabs and menus.
    pub fn title(&self) -> (t: &'static str)
        ensures
            t@ == component_name(ComponentId::ResultsView),
    {
        ComponentId::ResultsView.name()
    }
}

impl Default for ResultsViewComponent {
    fn default() -> (c: Self)
        ensures
            c == (ResultsViewComponent {}),
    {
        Self::new()
    }
}

} // verus!
