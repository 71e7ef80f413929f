use scarab_client::focusable::{
    regions_outside_zone, FocusableDetector, FocusableGeneration, FocusableRegion, FocusableScanConfig,
    FocusableSource, FocusableType,
};
use scarab_client::navigation::{
    nav_action_effect, on_pane_closed, on_pane_created, on_pane_focused, NavAction, NavActionEvent, NavControl,
    NavEffect, NavMode, NavState, NavStateRegistry, ObjectKind,
};

/// Changes the state of one pane of the registry.
fn edit(registry: &mut NavStateRegistry, pane: u64, f: impl FnOnce(&mut NavState)) {
    let mut state = registry.get(pane).unwrap().clone();
    f(&mut state);
    registry.set_state(pane, state);
}

fn region(row: u16, content: &str, pane: Option<u64>) -> FocusableRegion {
    FocusableRegion {
        region_type: FocusableType::Url,
        grid_start: (0, row),
        grid_end: (20, row),
        content: content.to_string(),
        source: FocusableSource::Terminal,
        pane_id: pane,
        generation: 0,
    }
}

// ---------- NavState ----------

#[test]
fn test_nav_state_default() {
    let state = NavState::default();
    assert_eq!(state.current_mode, NavMode::Normal);
    assert!(state.mode_stack.is_empty());
    assert!(state.focus_history.is_empty());
    assert!(state.hint_filter.is_empty());
}

#[test]
fn test_nav_state_push_pop() {
    let mut state = NavState::default();
    state.push_mode(NavMode::Hints);
    assert_eq!(state.current_mode, NavMode::Hints);
    assert_eq!(state.mode_stack.len(), 1);
    state.push_mode(NavMode::CommandPalette);
    assert_eq!(state.current_mode, NavMode::CommandPalette);
    assert_eq!(state.mode_stack.len(), 2);
    assert!(state.pop_mode());
    assert_eq!(state.current_mode, NavMode::Hints);
    assert_eq!(state.mode_stack.len(), 1);
    assert!(state.pop_mode());
    assert_eq!(state.current_mode, NavMode::Normal);
    assert_eq!(state.mode_stack.len(), 0);
    assert!(!state.pop_mode());
    assert_eq!(state.current_mode, NavMode::Normal);
}

#[test]
fn test_focus_history() {
    let mut state = NavState::default();
    state.record_focus(1);
    assert_eq!(state.previous_focus(), None);
    state.record_focus(2);
    assert_eq!(state.previous_focus(), Some(1));
    state.record_focus(3);
    assert_eq!(state.previous_focus(), Some(2));
}

#[test]
fn mod_test_focus_history_limit() {
    let mut state = NavState::default();
    state.max_history_size = 3;
    for i in 0..10 {
        state.record_focus(i);
    }
    assert_eq!(state.focus_history.len(), 3);
    assert_eq!(state.focus_history[0], 7);
    assert_eq!(state.focus_history[1], 8);
    assert_eq!(state.focus_history[2], 9);
}

#[test]
fn test_mode_checks() {
    let mut state = NavState::default();
    assert!(state.is_normal_mode());
    assert!(!state.is_hint_mode());
    assert!(!state.is_insert_mode());
    assert!(!state.is_command_palette_mode());
    state.current_mode = NavMode::Hints;
    assert!(!state.is_normal_mode());
    assert!(state.is_hint_mode());
    state.current_mode = NavMode::Insert;
    assert!(state.is_insert_mode());
    state.current_mode = NavMode::CommandPalette;
    assert!(state.is_command_palette_mode());
}

#[test]
fn test_nav_action_event_creation() {
    let action = NavAction::NextPane;
    let event = NavActionEvent::new(action.clone());
    assert_eq!(event.action, action);
    assert!(event.source.is_none());
    let event_with_source = NavActionEvent::with_source(action.clone(), 42);
    assert_eq!(event_with_source.action, action);
    assert_eq!(event_with_source.source, Some(42));
}

#[test]
fn nav_actions_map_to_their_effects() {
    assert_eq!(
        nav_action_effect(NavAction::Open("https://x".to_string())),
        NavEffect::OpenTarget("https://x".to_string())
    );
    assert_eq!(
        nav_action_effect(NavAction::Click(3, 4)),
        NavEffect::Send(NavControl::MouseClick { col: 3, row: 4, button: 0 })
    );
    assert_eq!(nav_action_effect(NavAction::PrevTab), NavEffect::Send(NavControl::TabPrev));
    assert_eq!(nav_action_effect(NavAction::JumpPrompt(9)), NavEffect::Nothing);
    assert_eq!(nav_action_effect(NavAction::Cancel), NavEffect::Nothing);
}

// ---------- Modes ----------

fn enter_hint_mode() {
    let mut state = NavState::default();
    assert_eq!(state.current_mode, NavMode::Normal);
    assert!(!state.is_hint_mode());
    state.current_mode = NavMode::Hints;
    assert_eq!(state.current_mode, NavMode::Hints);
    assert!(state.is_hint_mode());
}

#[test]
fn tests_test_enter_hint_mode() {
    enter_hint_mode();
}

#[test]
fn mode_tests_test_enter_hint_mode() {
    enter_hint_mode();
}

fn exit_hint_mode() {
    let mut state = NavState::default();
    state.current_mode = NavMode::Hints;
    state.hint_filter = "ab".to_string();
    assert!(state.is_hint_mode());
    state.current_mode = NavMode::Normal;
    state.clear_hint_filter();
    assert_eq!(state.current_mode, NavMode::Normal);
    assert!(!state.is_hint_mode());
    assert!(state.hint_filter.is_empty());
}

#[test]
fn tests_test_exit_hint_mode() {
    exit_hint_mode();
}

#[test]
fn mode_tests_test_exit_hint_mode() {
    exit_hint_mode();
}

fn mode_stack_push_pop() {
    let mut nav_state = NavState::default();
    assert_eq!(nav_state.current_mode, NavMode::Normal);
    assert_eq!(nav_state.mode_stack.len(), 0);
    nav_state.push_mode(NavMode::Hints);
    assert_eq!(nav_state.current_mode, NavMode::Hints);
    assert_eq!(nav_state.mode_stack.len(), 1);
    assert_eq!(nav_state.mode_stack[0], NavMode::Normal);
    nav_state.push_mode(NavMode::CommandPalette);
    assert_eq!(nav_state.current_mode, NavMode::CommandPalette);
    assert_eq!(nav_state.mode_stack.len(), 2);
    assert_eq!(nav_state.mode_stack[1], NavMode::Hints);
    assert!(nav_state.pop_mode());
    assert_eq!(nav_state.current_mode, NavMode::Hints);
    assert_eq!(nav_state.mode_stack.len(), 1);
    assert!(nav_state.pop_mode());
    assert_eq!(nav_state.current_mode, NavMode::Normal);
    assert_eq!(nav_state.mode_stack.len(), 0);
    assert!(!nav_state.pop_mode());
    assert_eq!(nav_state.current_mode, NavMode::Normal);
}

#[test]
fn tests_test_mode_stack_push_pop() {
    mode_stack_push_pop();
}

#[test]
fn mode_tests_test_mode_stack_push_pop() {
    mode_stack_push_pop();
}

// ---------- Focus ----------

fn focus_history_tracking() {
    let mut nav_state = NavState::default();
    nav_state.record_focus(11);
    assert_eq!(nav_state.previous_focus(), None);
    nav_state.record_focus(12);
    assert_eq!(nav_state.previous_focus(), Some(11));
    nav_state.record_focus(13);
    assert_eq!(nav_state.previous_focus(), Some(12));
    assert_eq!(nav_state.focus_history.len(), 3);
}

#[test]
fn tests_test_focus_history_tracking() {
    focus_history_tracking();
}

#[test]
fn focus_tests_test_focus_history_tracking() {
    focus_history_tracking();
}

fn focus_history_limit() {
    let mut nav_state = NavState::default();
    nav_state.max_history_size = 3;
    for entity in 100..110 {
        nav_state.record_focus(entity);
    }
    assert_eq!(nav_state.focus_history.len(), 3);
}

#[test]
fn tests_test_focus_history_limit() {
    focus_history_limit();
}

#[test]
fn focus_tests_test_focus_history_limit() {
    focus_history_limit();
}

// ---------- Hints ----------

fn hint_filter_input() {
    let mut nav_state = NavState::default();
    assert!(nav_state.hint_filter.is_empty());
    nav_state.hint_filter.push('a');
    assert_eq!(nav_state.hint_filter, "a");
    nav_state.hint_filter.push('b');
    assert_eq!(nav_state.hint_filter, "ab");
    nav_state.clear_hint_filter();
    assert!(nav_state.hint_filter.is_empty());
}

#[test]
fn tests_test_hint_filter_input() {
    hint_filter_input();
}

#[test]
fn hint_tests_test_hint_filter_input() {
    hint_filter_input();
}

fn hint_activation() {
    let entity = 7;
    let action = NavAction::Open("https://example.com".to_string());
    let event = NavActionEvent::with_source(action.clone(), entity);
    assert_eq!(event.action, action);
    assert_eq!(event.source, Some(entity));
}

#[test]
fn tests_test_hint_activation() {
    hint_activation();
}

#[test]
fn hint_tests_test_hint_activation() {
    hint_activation();
}

// ---------- Focusables ----------

fn max_focusables_limit() {
    let mut config = FocusableScanConfig::default();
    config.max_focusables = 5;
    let detector = FocusableDetector::new(&config);
    let mut text = String::new();
    for i in 0..20 {
        text.push_str(&format!("https://example{}.com ", i));
    }
    let detected = detector.detect_all(&text, config.max_focusables);
    assert_eq!(detected.len(), 5);
}

#[test]
fn tests_test_max_focusables_limit() {
    max_focusables_limit();
}

#[test]
fn focusable_tests_test_max_focusables_limit() {
    max_focusables_limit();
}

#[test]
fn test_focusable_detector_max_limit() {
    max_focusables_limit();
}

#[test]
fn test_focusable_type_eq() {
    assert_eq!(FocusableType::Url, FocusableType::Url);
    assert_ne!(FocusableType::Url, FocusableType::FilePath);
}

#[test]
fn test_focusable_source_eq() {
    assert_eq!(FocusableSource::Terminal, FocusableSource::Terminal);
    assert_ne!(FocusableSource::Terminal, FocusableSource::Ratatui);
}

#[test]
fn test_focusable_region_clone() {
    let region = FocusableRegion {
        region_type: FocusableType::Url,
        grid_start: (10, 5),
        grid_end: (30, 5),
        content: "https://example.com".to_string(),
        source: FocusableSource::Terminal,
        pane_id: None,
        generation: 0,
    };
    let cloned = region.clone();
    assert_eq!(region, cloned);
}

fn detections_of_type(text: &str, t: FocusableType) -> Vec<(String, u16)> {
    let detector = FocusableDetector::new(&FocusableScanConfig::default());
    detector
        .detect_all(text, 100)
        .into_iter()
        .filter(|d| d.1 == t)
        .map(|d| (d.0, d.3))
        .collect()
}

#[test]
fn test_focusable_detector_urls() {
    let urls = detections_of_type("Visit https://example.com or www.github.com for more info", FocusableType::Url);
    assert_eq!(urls.len(), 2);
    assert_eq!(urls[0].0, "https://example.com");
    assert_eq!(urls[1].0, "www.github.com");
}

#[test]
fn test_focusable_detector_emails() {
    let emails =
        detections_of_type("Contact us at support@example.com or info@test.org", FocusableType::Email);
    assert_eq!(emails.len(), 2);
    assert_eq!(emails[0].0, "support@example.com");
    assert_eq!(emails[1].0, "info@test.org");
}

#[test]
fn test_focusable_detector_file_paths() {
    let paths =
        detections_of_type("Check /usr/local/bin/foo.txt or ./relative/path.rs", FocusableType::FilePath);
    assert!(paths.len() >= 2);
    assert!(paths.iter().any(|(content, _)| content.contains("foo.txt")));
    assert!(paths.iter().any(|(content, _)| content.contains("path.rs")));
}

#[test]
fn test_focusable_detector_multiline() {
    let detector = FocusableDetector::new(&FocusableScanConfig::default());
    let text = "Line 1: https://example.com\nLine 2: test@email.com\nLine 3: /path/to/file.txt";
    let focusables = detector.detect_all(text, 100);
    let url = focusables.iter().find(|d| d.0.contains("example.com"));
    assert!(url.is_some());
    assert_eq!(url.unwrap().3, 0);
    let email = focusables.iter().find(|d| d.0.contains("test@email.com"));
    assert!(email.is_some());
    assert_eq!(email.unwrap().3, 1);
}

fn prompt_zone_filtering() {
    let regions = vec![
        region(7, "https://zone1.com", None),
        region(18, "https://zone2.com", None),
        region(28, "https://zone3.com", None),
    ];
    let outside = regions_outside_zone(&regions, 15, 25);
    assert_eq!(outside, vec![0, 2]);
    let kept: Vec<&FocusableRegion> =
        regions.iter().enumerate().filter(|(i, _)| !outside.contains(i)).map(|(_, r)| r).collect();
    assert_eq!(kept.len(), 1);
    assert_eq!(kept[0].content, "https://zone2.com");
    assert_eq!(kept[0].grid_start.1, 18);
}

#[test]
fn tests_test_prompt_zone_filtering() {
    prompt_zone_filtering();
}

#[test]
fn prompt_tests_test_prompt_zone_filtering() {
    prompt_zone_filtering();
}

#[test]
fn test_generation_increment_on_chunk_refresh() {
    let mut generation = FocusableGeneration::new();
    assert_eq!(generation.get_pane_generation(1), 0);
    let new_gen = generation.increment_pane(1);
    assert_eq!(new_gen, 1);
    assert_eq!(generation.get_pane_generation(1), 1);
    let new_gen2 = generation.increment_pane(1);
    assert_eq!(new_gen2, 2);
    assert_eq!(generation.get_pane_generation(1), 2);
    let pane2_gen = generation.increment_pane(2);
    assert_eq!(pane2_gen, 1);
    assert_eq!(generation.get_pane_generation(2), 1);
    assert_eq!(generation.get_pane_generation(1), 2);
}

#[test]
fn removed_pane_generation_starts_over() {
    let mut generation = FocusableGeneration::new();
    generation.increment_pane(4);
    generation.remove_pane(4);
    assert_eq!(generation.get_pane_generation(4), 0);
}

// ---------- Registry ----------

fn registry_creates_state_for_new_pane() {
    let mut registry = NavStateRegistry::new();
    assert_eq!(registry.pane_count(), 0);
    assert!(registry.active_pane().is_none());
    registry.create_for_pane(1);
    assert_eq!(registry.pane_count(), 1);
    assert!(registry.has_pane(1));
    assert!(registry.get(1).is_some());
}

#[test]
fn tests_test_registry_creates_state_for_new_pane() {
    registry_creates_state_for_new_pane();
}

#[test]
fn registry_tests_test_registry_creates_state_for_new_pane() {
    registry_creates_state_for_new_pane();
}

fn registry_isolates_modes_per_pane() {
    let mut registry = NavStateRegistry::new();
    registry.create_for_pane(1);
    registry.create_for_pane(2);
    edit(&mut registry, 1, |s| s.current_mode = NavMode::Hints);
    edit(&mut registry, 2, |s| s.current_mode = NavMode::Insert);
    assert_eq!(registry.get(1).unwrap().current_mode, NavMode::Hints);
    assert_eq!(registry.get(2).unwrap().current_mode, NavMode::Insert);
}

#[test]
fn tests_test_registry_isolates_modes_per_pane() {
    registry_isolates_modes_per_pane();
}

#[test]
fn registry_tests_test_registry_isolates_modes_per_pane() {
    registry_isolates_modes_per_pane();
}

fn registry_switches_active_pane() {
    let mut registry = NavStateRegistry::new();
    registry.create_for_pane(1);
    registry.create_for_pane(2);
    registry.set_active_pane(1);
    assert_eq!(registry.active_pane(), Some(1));
    assert_eq!(registry.get_active().unwrap().current_mode, NavMode::Normal);
    edit(&mut registry, 1, |s| s.current_mode = NavMode::Hints);
    registry.set_active_pane(2);
    assert_eq!(registry.active_pane(), Some(2));
    assert_eq!(registry.get_active().unwrap().current_mode, NavMode::Normal);
    assert_eq!(registry.get(1).unwrap().current_mode, NavMode::Hints);
    registry.set_active_pane(1);
    assert_eq!(registry.active_pane(), Some(1));
    assert_eq!(registry.get_active().unwrap().current_mode, NavMode::Hints);
}

#[test]
fn tests_test_registry_switches_active_pane() {
    registry_switches_active_pane();
}

#[test]
fn registry_tests_test_registry_switches_active_pane() {
    registry_switches_active_pane();
}

fn registry_cleanup_on_pane_close() {
    let mut registry = NavStateRegistry::new();
    registry.create_for_pane(1);
    registry.create_for_pane(2);
    registry.create_for_pane(3);
    registry.set_active_pane(2);
    assert_eq!(registry.pane_count(), 3);
    assert_eq!(registry.active_pane(), Some(2));
    registry.remove_pane(1);
    assert_eq!(registry.pane_count(), 2);
    assert!(!registry.has_pane(1));
    assert_eq!(registry.active_pane(), Some(2));
    registry.remove_pane(2);
    assert_eq!(registry.pane_count(), 1);
    assert!(!registry.has_pane(2));
    assert_eq!(registry.active_pane(), None);
}

#[test]
fn tests_test_registry_cleanup_on_pane_close() {
    registry_cleanup_on_pane_close();
}

#[test]
fn registry_tests_test_registry_cleanup_on_pane_close() {
    registry_cleanup_on_pane_close();
}

fn registry_hint_filter_isolation() {
    let mut registry = NavStateRegistry::new();
    registry.create_for_pane(1);
    registry.create_for_pane(2);
    edit(&mut registry, 1, |s| s.hint_filter = "abc".to_string());
    edit(&mut registry, 2, |s| s.hint_filter = "xyz".to_string());
    assert_eq!(registry.get(1).unwrap().hint_filter, "abc");
    assert_eq!(registry.get(2).unwrap().hint_filter, "xyz");
}

#[test]
fn tests_test_registry_hint_filter_isolation() {
    registry_hint_filter_isolation();
}

#[test]
fn registry_tests_test_registry_hint_filter_isolation() {
    registry_hint_filter_isolation();
}

fn registry_focus_history_isolation() {
    let mut registry = NavStateRegistry::new();
    registry.create_for_pane(1);
    registry.create_for_pane(2);
    edit(&mut registry, 1, |s| s.record_focus(1));
    edit(&mut registry, 1, |s| s.record_focus(2));
    edit(&mut registry, 2, |s| s.record_focus(3));
    let pane1_history = &registry.get(1).unwrap().focus_history;
    assert_eq!(pane1_history.len(), 2);
    assert_eq!(pane1_history[0], 1);
    assert_eq!(pane1_history[1], 2);
    let pane2_history = &registry.get(2).unwrap().focus_history;
    assert_eq!(pane2_history.len(), 1);
    assert_eq!(pane2_history[0], 3);
}

#[test]
fn tests_test_registry_focus_history_isolation() {
    registry_focus_history_isolation();
}

#[test]
fn registry_tests_test_registry_focus_history_isolation() {
    registry_focus_history_isolation();
}

fn registry_mode_stack_isolation() {
    let mut registry = NavStateRegistry::new();
    registry.create_for_pane(1);
    registry.create_for_pane(2);
    edit(&mut registry, 1, |s| s.push_mode(NavMode::Hints));
    edit(&mut registry, 1, |s| s.push_mode(NavMode::CommandPalette));
    edit(&mut registry, 2, |s| s.push_mode(NavMode::Insert));
    let pane1_state = registry.get(1).unwrap();
    assert_eq!(pane1_state.current_mode, NavMode::CommandPalette);
    assert_eq!(pane1_state.mode_stack.len(), 2);
    assert_eq!(pane1_state.mode_stack[0], NavMode::Normal);
    assert_eq!(pane1_state.mode_stack[1], NavMode::Hints);
    let pane2_state = registry.get(2).unwrap();
    assert_eq!(pane2_state.current_mode, NavMode::Insert);
    assert_eq!(pane2_state.mode_stack.len(), 1);
    assert_eq!(pane2_state.mode_stack[0], NavMode::Normal);
}

#[test]
fn tests_test_registry_mode_stack_isolation() {
    registry_mode_stack_isolation();
}

#[test]
fn registry_tests_test_registry_mode_stack_isolation() {
    registry_mode_stack_isolation();
}

fn pane_lifecycle_integration() {
    let mut registry = NavStateRegistry::new();
    on_pane_created(&mut registry, ObjectKind::Pane, 1);
    assert_eq!(registry.pane_count(), 1);
    assert!(registry.has_pane(1));
    assert!(!on_pane_focused(&mut registry, ObjectKind::Pane, 1));
    assert_eq!(registry.active_pane(), Some(1));
    on_pane_created(&mut registry, ObjectKind::Pane, 2);
    edit(&mut registry, 1, |s| s.current_mode = NavMode::Hints);
    let exit_hints = on_pane_focused(&mut registry, ObjectKind::Pane, 2);
    assert!(exit_hints);
    assert_eq!(registry.active_pane(), Some(2));
    assert_eq!(registry.get_active().unwrap().current_mode, NavMode::Normal);
    assert_eq!(registry.get(1).unwrap().current_mode, NavMode::Hints);
    on_pane_closed(&mut registry, ObjectKind::Pane, 1, &vec![]);
    assert_eq!(registry.pane_count(), 1);
    assert!(!registry.has_pane(1));
    assert_eq!(registry.active_pane(), Some(2));
}

#[test]
fn tests_test_pane_lifecycle_integration() {
    pane_lifecycle_integration();
}

#[test]
fn registry_tests_test_pane_lifecycle_integration() {
    pane_lifecycle_integration();
}

#[test]
fn events_for_other_objects_are_ignored() {
    let mut registry = NavStateRegistry::new();
    on_pane_created(&mut registry, ObjectKind::Tab, 1);
    assert_eq!(registry.pane_count(), 0);
    assert!(!on_pane_focused(&mut registry, ObjectKind::Window, 1));
    assert_eq!(registry.active_pane(), None);
}

#[test]
fn test_pane_switch_preserves_hint_mode() {
    let mut registry = NavStateRegistry::new();
    on_pane_created(&mut registry, ObjectKind::Pane, 1);
    on_pane_focused(&mut registry, ObjectKind::Pane, 1);
    edit(&mut registry, 1, |s| {
        s.current_mode = NavMode::Hints;
        s.hint_filter = "ab".to_string();
    });
    assert_eq!(registry.active_pane(), Some(1));
    assert_eq!(registry.get(1).unwrap().current_mode, NavMode::Hints);
    assert_eq!(registry.get(1).unwrap().hint_filter, "ab");
    on_pane_created(&mut registry, ObjectKind::Pane, 2);
    on_pane_focused(&mut registry, ObjectKind::Pane, 2);
    assert_eq!(registry.active_pane(), Some(2));
    assert_eq!(registry.get(2).unwrap().current_mode, NavMode::Normal);
    assert!(registry.get(2).unwrap().hint_filter.is_empty());
    assert_eq!(registry.get(1).unwrap().current_mode, NavMode::Hints);
    assert_eq!(registry.get(1).unwrap().hint_filter, "ab");
    on_pane_focused(&mut registry, ObjectKind::Pane, 1);
    assert_eq!(registry.active_pane(), Some(1));
    assert_eq!(registry.get(1).unwrap().current_mode, NavMode::Hints);
    assert_eq!(registry.get(1).unwrap().hint_filter, "ab");
    assert_eq!(registry.get(2).unwrap().current_mode, NavMode::Normal);
    assert!(registry.get(2).unwrap().hint_filter.is_empty());
}

#[test]
fn test_navstate_restoration_on_switch() {
    let mut registry = NavStateRegistry::new();
    on_pane_created(&mut registry, ObjectKind::Pane, 1);
    on_pane_focused(&mut registry, ObjectKind::Pane, 1);
    edit(&mut registry, 1, |s| {
        s.record_focus(1);
        s.record_focus(2);
        s.record_focus(3);
        s.push_mode(NavMode::Hints);
        s.push_mode(NavMode::CommandPalette);
    });
    {
        let state_a = registry.get(1).unwrap();
        assert_eq!(state_a.focus_history, vec![1, 2, 3]);
        assert_eq!(state_a.current_mode, NavMode::CommandPalette);
        assert_eq!(state_a.mode_stack, vec![NavMode::Normal, NavMode::Hints]);
    }
    on_pane_created(&mut registry, ObjectKind::Pane, 2);
    on_pane_focused(&mut registry, ObjectKind::Pane, 2);
    {
        assert_eq!(registry.active_pane(), Some(2));
        let state_b = registry.get(2).unwrap();
        assert_eq!(state_b.focus_history.len(), 0);
        assert_eq!(state_b.current_mode, NavMode::Normal);
        assert_eq!(state_b.mode_stack.len(), 0);
    }
    on_pane_focused(&mut registry, ObjectKind::Pane, 1);
    assert_eq!(registry.active_pane(), Some(1));
    let state_a = registry.get(1).unwrap();
    assert_eq!(state_a.focus_history, vec![1, 2, 3]);
    assert_eq!(state_a.current_mode, NavMode::CommandPalette);
    assert_eq!(state_a.mode_stack, vec![NavMode::Normal, NavMode::Hints]);
}

#[test]
fn test_rapid_pane_switching_no_race() {
    let mut registry = NavStateRegistry::new();
    for pane_id in 1..=3 {
        on_pane_created(&mut registry, ObjectKind::Pane, pane_id);
        on_pane_focused(&mut registry, ObjectKind::Pane, pane_id);
    }
    let modes = [NavMode::Hints, NavMode::Insert, NavMode::CommandPalette];
    for pane_id in 1..=3u64 {
        edit(&mut registry, pane_id, |s| {
            s.current_mode = modes[(pane_id - 1) as usize];
            s.hint_filter = format!("pane{}", pane_id);
            for e in 0..5 {
                s.record_focus(pane_id * 100 + e);
            }
        });
    }
    for i in 0..20u64 {
        let pane_id = (i % 3) + 1;
        on_pane_focused(&mut registry, ObjectKind::Pane, pane_id);
        assert_eq!(registry.active_pane(), Some(pane_id));
    }
    for pane_id in 1..=3u64 {
        let state = registry.get(pane_id).unwrap();
        assert_eq!(state.current_mode, modes[(pane_id - 1) as usize]);
        assert_eq!(state.hint_filter, format!("pane{}", pane_id));
        assert_eq!(state.focus_history.len(), 5);
    }
    assert_eq!(registry.pane_count(), 3);
}

#[test]
fn test_pane_close_clears_focusables() {
    let mut registry = NavStateRegistry::new();
    let mut generation = FocusableGeneration::new();
    on_pane_created(&mut registry, ObjectKind::Pane, 1);
    on_pane_focused(&mut registry, ObjectKind::Pane, 1);
    on_pane_created(&mut registry, ObjectKind::Pane, 2);
    let regions = vec![
        region(5, "https://pane1.com", Some(1)),
        region(10, "https://pane1-second.com", Some(1)),
        region(5, "https://pane2.com", Some(2)),
    ];
    let panes: Vec<Option<u64>> = regions.iter().map(|r| r.pane_id).collect();
    let despawn = on_pane_closed(&mut registry, ObjectKind::Pane, 1, &panes);
    generation.remove_pane(1);
    assert_eq!(despawn, vec![0, 1]);
    let remaining: Vec<&FocusableRegion> =
        regions.iter().enumerate().filter(|(i, _)| !despawn.contains(i)).map(|(_, r)| r).collect();
    assert_eq!(remaining.len(), 1);
    assert_eq!(remaining[0].content, "https://pane2.com");
    assert_eq!(remaining[0].pane_id, Some(2));
    assert!(!registry.has_pane(1));
    assert_eq!(registry.pane_count(), 1);
}

#[test]
fn detection_content_is_the_slice_between_its_columns() {
    let detector = FocusableDetector::new(&FocusableScanConfig::default());
    let text = "Visit https://example.com or www.github.com\nmail me: test@email.com or see /tmp/x.log";
    let found = detector.detect_all(text, 100);
    assert!(!found.is_empty());
    let lines: Vec<&str> = text.lines().collect();
    for (content, _, start, row, end, end_row) in &found {
        assert_eq!(row, end_row);
        let line = lines[*row as usize];
        assert_eq!(&line[*start as usize..*end as usize], content.as_str());
    }
}

#[test]
fn pane_count_follows_creation_and_removal() {
    let mut registry = NavStateRegistry::new();
    registry.create_for_pane(1);
    registry.create_for_pane(2);
    registry.create_for_pane(1);
    assert_eq!(registry.pane_count(), 2);
    registry.remove_pane(7);
    assert_eq!(registry.pane_count(), 2);
    registry.remove_pane(1);
    assert_eq!(registry.pane_count(), 1);
    assert!(!registry.has_pane(1));
}
