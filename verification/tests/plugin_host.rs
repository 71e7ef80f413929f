use scarab_client::events::{NavFocusableAction, PluginAction, PluginResponse};
use scarab_client::focusable::{FocusableSource, FocusableType};
use scarab_client::plugin_host::{process_plugin_action, HostEffect};
use scarab_client::plugin_registry::PluginRegistry;

fn registry_with_test_plugin() -> PluginRegistry {
    let mut registry = PluginRegistry::new();
    registry.register("test.plugin".to_string(), "Test Plugin".to_string(), "1.0.0".to_string());
    registry
}

#[test]
fn test_plugin_registry_register() {
    let mut registry = PluginRegistry::new();
    assert!(registry.is_empty());
    registry.register("test.plugin".to_string(), "Test Plugin".to_string(), "1.0.0".to_string());
    assert_eq!(registry.len(), 1);
    assert!(registry.is_enabled("test.plugin"));
}

#[test]
fn test_plugin_registry_unregister() {
    let mut registry = registry_with_test_plugin();
    let removed = registry.unregister("test.plugin");
    assert!(removed.is_some());
    assert!(registry.is_empty());
    let removed = registry.unregister("nonexistent");
    assert!(removed.is_none());
}

#[test]
fn test_plugin_registry_enabled_state() {
    let mut registry = registry_with_test_plugin();
    assert!(registry.is_enabled("test.plugin"));
    registry.set_enabled("test.plugin", false);
    assert!(!registry.is_enabled("test.plugin"));
    registry.set_enabled("test.plugin", true);
    assert!(registry.is_enabled("test.plugin"));
}

#[test]
fn test_overlay_id_generation() {
    let mut registry = PluginRegistry::new();
    assert_eq!(registry.next_overlay_id(), 0);
    assert_eq!(registry.next_overlay_id(), 1);
    assert_eq!(registry.next_overlay_id(), 2);
}

#[test]
fn test_status_item_id_generation() {
    let mut registry = PluginRegistry::new();
    assert_eq!(registry.next_status_item_id(), 0);
    assert_eq!(registry.next_status_item_id(), 1);
    assert_eq!(registry.next_status_item_id(), 2);
}

#[test]
fn test_overlay_tracking() {
    let mut registry = registry_with_test_plugin();
    registry.add_overlay("test.plugin", 100);
    registry.add_overlay("test.plugin", 101);
    let plugin = registry.get("test.plugin").unwrap();
    assert_eq!(plugin.overlay_ids.len(), 2);
    assert!(plugin.overlay_ids.contains(&100));
    assert!(plugin.overlay_ids.contains(&101));
    registry.remove_overlay("test.plugin", 100);
    let plugin = registry.get("test.plugin").unwrap();
    assert_eq!(plugin.overlay_ids.len(), 1);
    assert!(!plugin.overlay_ids.contains(&100));
    assert!(plugin.overlay_ids.contains(&101));
}

#[test]
fn test_status_item_tracking() {
    let mut registry = registry_with_test_plugin();
    registry.add_status_item("test.plugin", 42);
    registry.add_status_item("test.plugin", 43);
    assert_eq!(registry.get("test.plugin").unwrap().status_item_ids.len(), 2);
    registry.remove_status_item("test.plugin", 42);
    assert_eq!(registry.get("test.plugin").unwrap().status_item_ids.len(), 1);
}

#[test]
fn test_keybinding_tracking() {
    let mut registry = registry_with_test_plugin();
    registry.add_keybinding("test.plugin", "action1".to_string());
    registry.add_keybinding("test.plugin", "action2".to_string());
    assert_eq!(registry.get("test.plugin").unwrap().keybinding_ids.len(), 2);
    registry.remove_keybinding("test.plugin", "action1");
    assert_eq!(registry.get("test.plugin").unwrap().keybinding_ids.len(), 1);
}

#[test]
fn test_plugin_get() {
    let registry = registry_with_test_plugin();
    let plugin = registry.get("test.plugin");
    assert!(plugin.is_some());
    assert_eq!(plugin.unwrap().name, "Test Plugin");
    assert!(registry.get("nonexistent").is_none());
}

#[test]
fn registering_again_replaces_the_plugin() {
    let mut registry = registry_with_test_plugin();
    registry.add_overlay("test.plugin", 5);
    registry.register("test.plugin".to_string(), "Renamed".to_string(), "2.0.0".to_string());
    assert_eq!(registry.len(), 1);
    let plugin = registry.get("test.plugin").unwrap();
    assert_eq!(plugin.name, "Renamed");
    assert!(plugin.overlay_ids.is_empty());
}

fn spawn_overlay() -> PluginAction {
    PluginAction::SpawnOverlay {
        plugin_id: "test.plugin".to_string(),
        x: 10,
        y: 20,
        width: 80,
        height: 24,
        content: "Test overlay".to_string(),
    }
}

#[test]
fn test_process_overlay_action() {
    let mut registry = registry_with_test_plugin();
    let out = process_plugin_action(&mut registry, &spawn_overlay());
    assert!(matches!(out.effect, Some(HostEffect::SpawnOverlay { overlay_id: 0, .. })));
    match out.response {
        Some(PluginResponse::OverlaySpawned { plugin_id, overlay_id }) => {
            assert_eq!(plugin_id, "test.plugin");
            assert_eq!(overlay_id, 0);
        }
        other => panic!("Expected OverlaySpawned response, got {:?}", other),
    }
    assert_eq!(registry.get("test.plugin").unwrap().overlay_ids, vec![0]);
}

#[test]
fn test_disabled_plugin_rejection() {
    let mut registry = registry_with_test_plugin();
    registry.set_enabled("test.plugin", false);
    let out = process_plugin_action(&mut registry, &spawn_overlay());
    assert!(out.effect.is_none());
    match out.response {
        Some(PluginResponse::Error { plugin_id, message, .. }) => {
            assert_eq!(plugin_id, "test.plugin");
            assert_eq!(message, "Plugin is disabled");
        }
        other => panic!("Expected Error response, got {:?}", other),
    }
}

#[test]
fn test_nav_enter_hint_mode() {
    let mut registry = registry_with_test_plugin();
    let out = process_plugin_action(
        &mut registry,
        &PluginAction::NavEnterHintMode { plugin_id: "test.plugin".to_string() },
    );
    match out.response {
        Some(PluginResponse::NavModeEntered { plugin_id }) => assert_eq!(plugin_id, "test.plugin"),
        other => panic!("Expected NavModeEntered response, got {:?}", other),
    }
    assert!(matches!(out.effect, Some(HostEffect::EnterHintMode)));
}

#[test]
fn test_nav_register_focusable() {
    let mut registry = registry_with_test_plugin();
    let out = process_plugin_action(
        &mut registry,
        &PluginAction::NavRegisterFocusable {
            plugin_id: "test.plugin".to_string(),
            x: 10,
            y: 5,
            width: 20,
            height: 1,
            label: "Test Focusable".to_string(),
            action: NavFocusableAction::OpenUrl("https://example.com".to_string()),
        },
    );
    match out.effect {
        Some(HostEffect::SpawnFocusable { region, .. }) => {
            assert_eq!(region.grid_start, (10, 5));
            assert_eq!(region.grid_end, (30, 6));
            assert_eq!(region.content, "Test Focusable");
            assert_eq!(region.region_type, FocusableType::Widget);
            assert_eq!(region.source, FocusableSource::Ratatui);
        }
        other => panic!("Expected a focusable, got {:?}", other),
    }
    match out.response {
        Some(PluginResponse::NavFocusableRegistered { plugin_id, focusable_id }) => {
            assert_eq!(plugin_id, "test.plugin");
            assert_eq!(focusable_id, 0);
        }
        other => panic!("Expected NavFocusableRegistered response, got {:?}", other),
    }
}

#[test]
fn test_nav_exit_mode() {
    let mut registry = registry_with_test_plugin();
    let out =
        process_plugin_action(&mut registry, &PluginAction::NavExitMode { plugin_id: "test.plugin".to_string() });
    match out.response {
        Some(PluginResponse::NavModeExited { plugin_id }) => assert_eq!(plugin_id, "test.plugin"),
        other => panic!("Expected NavModeExited response, got {:?}", other),
    }
    assert!(matches!(out.effect, Some(HostEffect::ExitHintMode)));
}

#[test]
fn test_nav_disabled_plugin_rejection() {
    let mut registry = registry_with_test_plugin();
    registry.set_enabled("test.plugin", false);
    let out = process_plugin_action(
        &mut registry,
        &PluginAction::NavEnterHintMode { plugin_id: "test.plugin".to_string() },
    );
    assert!(out.effect.is_none());
    match out.response {
        Some(PluginResponse::Error { plugin_id, message, .. }) => {
            assert_eq!(plugin_id, "test.plugin");
            assert_eq!(message, "Plugin is disabled");
        }
        other => panic!("Expected Error response, got {:?}", other),
    }
}

#[test]
fn unknown_plugin_is_refused_and_nothing_changes() {
    let mut registry = PluginRegistry::new();
    let out = process_plugin_action(&mut registry, &spawn_overlay());
    assert!(out.effect.is_none());
    assert!(matches!(out.response, Some(PluginResponse::Error { .. })));
    assert_eq!(registry.next_overlay_id(), 0);
}

#[test]
fn disabled_plugin_cannot_exit_hint_mode() {
    let mut registry = registry_with_test_plugin();
    registry.set_enabled("test.plugin", false);
    let out =
        process_plugin_action(&mut registry, &PluginAction::NavExitMode { plugin_id: "test.plugin".to_string() });
    assert!(out.effect.is_none());
    match out.response {
        Some(PluginResponse::Error { plugin_id, action, message }) => {
            assert_eq!(plugin_id, "test.plugin");
            assert_eq!(action, "NavExitMode");
            assert_eq!(message, "Plugin is disabled");
        }
        other => panic!("Expected Error response, got {:?}", other),
    }
}

#[test]
fn disabled_plugin_cannot_despawn_overlays() {
    let mut registry = registry_with_test_plugin();
    registry.add_overlay("test.plugin", 7);
    registry.set_enabled("test.plugin", false);
    let out = process_plugin_action(
        &mut registry,
        &PluginAction::DespawnOverlay { plugin_id: "test.plugin".to_string(), overlay_id: 7 },
    );
    assert!(out.effect.is_none());
    match out.response {
        Some(PluginResponse::Error { action, .. }) => assert_eq!(action, "DespawnOverlay"),
        other => panic!("Expected Error response, got {:?}", other),
    }
    assert_eq!(registry.get("test.plugin").unwrap().overlay_ids, vec![7]);
}

#[test]
fn disabled_plugin_focusable_of_any_size_is_refused() {
    let mut registry = registry_with_test_plugin();
    registry.set_enabled("test.plugin", false);
    let out = process_plugin_action(
        &mut registry,
        &PluginAction::NavRegisterFocusable {
            plugin_id: "test.plugin".to_string(),
            x: 65000,
            y: 65000,
            width: 1000,
            height: 1000,
            label: "big".to_string(),
            action: NavFocusableAction::OpenUrl("https://example.com".to_string()),
        },
    );
    assert!(out.effect.is_none());
    assert!(matches!(out.response, Some(PluginResponse::Error { .. })));
}

#[test]
fn plugin_count_follows_register_and_unregister() {
    let mut registry = registry_with_test_plugin();
    assert_eq!(registry.len(), 1);
    registry.register("test.plugin".to_string(), "Again".to_string(), "2.0.0".to_string());
    assert_eq!(registry.len(), 1);
    registry.register("other".to_string(), "Other".to_string(), "1.0.0".to_string());
    assert_eq!(registry.len(), 2);
    assert!(registry.unregister("missing").is_none());
    assert_eq!(registry.len(), 2);
    assert!(registry.unregister("other").is_some());
    assert_eq!(registry.len(), 1);
}
