use rusty_app::components::ComponentId;
use rusty_app::views::{RegionId, View, ViewRegistry};

type Mock = (ComponentId, &'static str);

#[test]
fn test_new_registry_is_empty() {
    let registry: ViewRegistry<Mock> = ViewRegistry::new();
    assert_eq!(registry.all_ids().len(), 0);
}

#[test]
fn test_register_component() {
    let mut registry = ViewRegistry::new();
    registry.register(ComponentId::ServerList, (ComponentId::ServerList, "Servers"), RegionId::LeftPanel);

    assert_eq!(registry.all_ids().len(), 1);
    assert!(registry.all_ids().contains(&ComponentId::ServerList));
}

#[test]
fn test_register_multiple_components() {
    let mut registry = ViewRegistry::new();
    registry.register(ComponentId::ServerList, (ComponentId::ServerList, "Servers"), RegionId::LeftPanel);
    registry.register(ComponentId::TableList, (ComponentId::TableList, "Tables"), RegionId::LeftPanel);
    registry.register(ComponentId::Editor, (ComponentId::Editor, "Editor"), RegionId::MainPanel);

    assert_eq!(registry.all_ids().len(), 3);
}

#[test]
fn register_again_replaces_and_reenables() {
    let mut registry = ViewRegistry::new();
    registry.register(ComponentId::ServerList, (ComponentId::ServerList, "Old"), RegionId::LeftPanel);
    registry.disable(ComponentId::ServerList);
    registry.register(ComponentId::ServerList, (ComponentId::ServerList, "New"), RegionId::MainPanel);
    assert_eq!(registry.all_ids().len(), 1);
    assert!(registry.is_enabled(ComponentId::ServerList));
    let view = registry.get_view(ComponentId::ServerList).unwrap();
    assert_eq!(view.component().1, "New");
    assert_eq!(view.region(), RegionId::MainPanel);
}

#[test]
fn test_component_enabled_by_default() {
    let mut registry = ViewRegistry::new();
    registry.register(ComponentId::ServerList, (ComponentId::ServerList, "Servers"), RegionId::LeftPanel);

    assert!(registry.is_enabled(ComponentId::ServerList));
}

#[test]
fn test_disable_component() {
    let mut registry = ViewRegistry::new();
    registry.register(ComponentId::ServerList, (ComponentId::ServerList, "Servers"), RegionId::LeftPanel);

    assert!(registry.disable(ComponentId::ServerList));
    assert!(!registry.is_enabled(ComponentId::ServerList));
}

#[test]
fn test_enable_component() {
    let mut registry = ViewRegistry::new();
    registry.register(ComponentId::ServerList, (ComponentId::ServerList, "Servers"), RegionId::LeftPanel);

    registry.disable(ComponentId::ServerList);
    assert!(!registry.is_enabled(ComponentId::ServerList));

    assert!(registry.enable(ComponentId::ServerList));
    assert!(registry.is_enabled(ComponentId::ServerList));
}

#[test]
fn test_toggle_component() {
    let mut registry = ViewRegistry::new();
    registry.register(ComponentId::ServerList, (ComponentId::ServerList, "Servers"), RegionId::LeftPanel);

    assert!(registry.is_enabled(ComponentId::ServerList));

    assert!(registry.toggle(ComponentId::ServerList));
    assert!(!registry.is_enabled(ComponentId::ServerList));

    assert!(registry.toggle(ComponentId::ServerList));
    assert!(registry.is_enabled(ComponentId::ServerList));
}

#[test]
fn test_enable_nonexistent_component_returns_false() {
    let mut registry: ViewRegistry<Mock> = ViewRegistry::new();
    assert!(!registry.enable(ComponentId::ServerList));
    assert!(!registry.disable(ComponentId::ServerList));
    assert!(!registry.toggle(ComponentId::ServerList));
}

#[test]
fn test_is_enabled_nonexistent_component_returns_false() {
    let registry: ViewRegistry<Mock> = ViewRegistry::new();
    assert!(!registry.is_enabled(ComponentId::ServerList));
}

#[test]
fn test_enabled_views_filters_by_region() {
    let mut registry = ViewRegistry::new();
    registry.register(ComponentId::ServerList, (ComponentId::ServerList, "Servers"), RegionId::LeftPanel);
    registry.register(ComponentId::TableList, (ComponentId::TableList, "Tables"), RegionId::LeftPanel);
    registry.register(ComponentId::Editor, (ComponentId::Editor, "Editor"), RegionId::MainPanel);

    let left_panel_views = registry.enabled_views(RegionId::LeftPanel);
    assert_eq!(left_panel_views.len(), 2);

    let main_panel_views = registry.enabled_views(RegionId::MainPanel);
    assert_eq!(main_panel_views.len(), 1);
}

#[test]
fn test_enabled_views_filters_by_enabled_state() {
    let mut registry = ViewRegistry::new();
    registry.register(ComponentId::ServerList, (ComponentId::ServerList, "Servers"), RegionId::LeftPanel);
    registry.register(ComponentId::TableList, (ComponentId::TableList, "Tables"), RegionId::LeftPanel);

    registry.disable(ComponentId::TableList);

    let enabled_views = registry.enabled_views(RegionId::LeftPanel);
    assert_eq!(enabled_views.len(), 1);
    assert_eq!(enabled_views[0].component().0, ComponentId::ServerList);
}

#[test]
fn test_region_views_includes_disabled() {
    let mut registry = ViewRegistry::new();
    registry.register(ComponentId::ServerList, (ComponentId::ServerList, "Servers"), RegionId::LeftPanel);
    registry.register(ComponentId::TableList, (ComponentId::TableList, "Tables"), RegionId::LeftPanel);

    registry.disable(ComponentId::TableList);

    let all_views = registry.region_views(RegionId::LeftPanel);
    assert_eq!(all_views.len(), 2);
}

#[test]
fn test_get_view() {
    let mut registry = ViewRegistry::new();
    registry.register(ComponentId::ServerList, (ComponentId::ServerList, "Servers"), RegionId::LeftPanel);

    let view = registry.get_view(ComponentId::ServerList);
    assert!(view.is_some());
    assert_eq!(view.unwrap().component().0, ComponentId::ServerList);
}

#[test]
fn test_get_view_nonexistent() {
    let registry: ViewRegistry<Mock> = ViewRegistry::new();
    let view = registry.get_view(ComponentId::ServerList);
    assert!(view.is_none());
}

#[test]
fn single_view_switches() {
    let mut view = View::new("c", RegionId::MainPanel);
    assert!(view.is_enabled());
    view.toggle();
    assert!(!view.is_enabled());
    view.enable();
    assert!(view.is_enabled());
    view.disable();
    assert!(!view.is_enabled());
    assert_eq!(view.region(), RegionId::MainPanel);
    assert_eq!(*view.component(), "c");
}

#[test]
fn region_names() {
    assert_eq!(RegionId::all().len(), RegionId::all().iter().count());
    for r in RegionId::all() {
        assert!(!r.name().is_empty());
    }
}
