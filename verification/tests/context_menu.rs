use scarab_client::context_menu::{
    adjust_menu_position, dispatch_step, menu_input, menu_surface_height, ContextMenuAction, DispatchStep,
    MenuInput, MenuItemInfo, MenuOutcome,
};

#[test]
fn test_action_from_id_basic() {
    assert_eq!(ContextMenuAction::from_id("copy", None), Some(ContextMenuAction::Copy));
    assert_eq!(ContextMenuAction::from_id("paste", None), Some(ContextMenuAction::Paste));
    assert_eq!(ContextMenuAction::from_id("search", None), Some(ContextMenuAction::Search));
}

#[test]
fn test_action_from_id_with_data() {
    let url = "https://example.com";
    assert_eq!(
        ContextMenuAction::from_id("open_url", Some(url)),
        Some(ContextMenuAction::OpenUrl(url.to_string()))
    );
    assert_eq!(
        ContextMenuAction::from_id("copy_url", Some(url)),
        Some(ContextMenuAction::CopyUrl(url.to_string()))
    );
    let path = "/home/user/file.txt";
    assert_eq!(
        ContextMenuAction::from_id("open_file", Some(path)),
        Some(ContextMenuAction::OpenFile(path.to_string()))
    );
}

#[test]
fn test_action_from_id_plugin() {
    let plugin_action = ContextMenuAction::from_id("plugin.custom_action", None);
    assert!(plugin_action.is_some());
    match plugin_action {
        Some(ContextMenuAction::PluginAction(id)) => assert_eq!(id, "plugin.custom_action"),
        _ => panic!("Expected PluginAction"),
    }
}

#[test]
fn test_action_from_id_unknown() {
    assert_eq!(ContextMenuAction::from_id("unknown_action", None), None);
    assert_eq!(ContextMenuAction::from_id("", None), None);
}

#[test]
fn test_split_actions() {
    assert_eq!(ContextMenuAction::from_id("split_horizontal", None), Some(ContextMenuAction::SplitHorizontal));
    assert_eq!(ContextMenuAction::from_id("split_vertical", None), Some(ContextMenuAction::SplitVertical));
}

#[test]
fn actions_with_data_need_data() {
    assert_eq!(ContextMenuAction::from_id("open_url", None), None);
    assert_eq!(ContextMenuAction::from_id("copy_path", None), None);
    assert_eq!(
        ContextMenuAction::from_id("copy_path", Some("/tmp")),
        Some(ContextMenuAction::CopyPath("/tmp".to_string()))
    );
}

#[test]
fn dispatch_steps() {
    assert_eq!(
        dispatch_step(&ContextMenuAction::OpenUrl("u".to_string())),
        DispatchStep::OpenExternally("u".to_string())
    );
    assert_eq!(
        dispatch_step(&ContextMenuAction::CopyPath("p".to_string())),
        DispatchStep::CopyToClipboard("p".to_string())
    );
    assert_eq!(dispatch_step(&ContextMenuAction::Paste), DispatchStep::Note);
}

#[test]
fn menu_near_the_edge_moves_inward() {
    // A grid of 200 by 100 cells; the menu is 30 wide and has 10 items.
    assert_eq!(adjust_menu_position(190, 90, 10, 200, 100), (170, 88));
    assert_eq!(adjust_menu_position(10, 10, 10, 200, 100), (10, 10));
    assert_eq!(adjust_menu_position(5, 5, 10, 20, 8), (0, 0));
}

#[test]
fn surface_height_is_capped() {
    assert_eq!(menu_surface_height(3), 5);
    assert_eq!(menu_surface_height(30), 20);
}

fn item(id: &str, enabled: bool, separator: bool) -> MenuItemInfo {
    MenuItemInfo { id: id.to_string(), enabled, separator }
}

#[test]
fn menu_input_outcomes() {
    let items = vec![item("copy", true, false), item("", false, true), item("paste", false, false)];
    assert_eq!(menu_input(&items, 0, MenuInput::Enter), MenuOutcome::Choose("copy".to_string()));
    assert_eq!(menu_input(&items, 2, MenuInput::Enter), MenuOutcome::Ignore);
    assert_eq!(menu_input(&items, 0, MenuInput::Click(1)), MenuOutcome::Choose("copy".to_string()));
    assert_eq!(menu_input(&items, 0, MenuInput::Click(2)), MenuOutcome::Ignore);
    assert_eq!(menu_input(&items, 0, MenuInput::Hover(3)), MenuOutcome::Highlight(2));
    assert_eq!(menu_input(&items, 0, MenuInput::Hover(2)), MenuOutcome::Ignore);
    assert_eq!(menu_input(&items, 0, MenuInput::Escape), MenuOutcome::Close);
    assert_eq!(menu_input(&items, 0, MenuInput::Up), MenuOutcome::SelectPrevious);
    assert_eq!(menu_input(&items, 0, MenuInput::Down), MenuOutcome::SelectNext);
}
