use scarab_client::copy_mode::{search_spans, selection_spans, HighlightSpan, MatchBounds, SelectionMode};
use scarab_client::daemon_events::{convert_event, ClientEvent, DaemonEventMessage, ObjectHandle};
use scarab_client::input::keys::Key;
use scarab_client::inspector::{
    handle_navigation_input, handle_search_input, refresh_entity_list, BevyInspectorState, EntityInfo, InspectorKey,
};
use scarab_client::ipc::{
    key_to_bytes, startup_input, text_input_bytes, valid_frame_len, ReconnectBackoff, ReconnectStep,
};
use scarab_client::navigation::ObjectKind;

fn message(event_type: &str, window: Option<u64>, tab: Option<u64>, pane: Option<u64>, data: &str) -> DaemonEventMessage {
    DaemonEventMessage {
        event_type: event_type.to_string(),
        window_id: window,
        pane_id: pane,
        tab_id: tab,
        data: data.as_bytes().to_vec(),
        timestamp_micros: 0,
    }
}

fn handle(kind: ObjectKind, id: u64) -> ObjectHandle {
    ObjectHandle { object_type: kind, id, generation: 0 }
}

#[test]
fn daemon_events_become_typed_events() {
    assert_eq!(
        convert_event(&message("bell", None, None, Some(3), "")),
        Some(ClientEvent::Bell { pane: handle(ObjectKind::Pane, 3) })
    );
    assert_eq!(
        convert_event(&message("window-resized", Some(1), None, None, r#"{"cols": 120, "rows": 40}"#)),
        Some(ClientEvent::WindowResized { window: handle(ObjectKind::Window, 1), cols: 120, rows: 40 })
    );
    assert_eq!(
        convert_event(&message("pane-title-changed", None, None, Some(2), r#"{"old": "a", "new": "b"}"#)),
        Some(ClientEvent::PaneTitleChanged {
            pane: handle(ObjectKind::Pane, 2),
            old_title: "a".to_string(),
            new_title: "b".to_string()
        })
    );
    assert_eq!(
        convert_event(&message("window-focus-changed", Some(1), None, None, "not json")),
        Some(ClientEvent::WindowFocusChanged { window: handle(ObjectKind::Window, 1), is_focused: false })
    );
}

#[test]
fn daemon_events_missing_parts_are_dropped() {
    assert_eq!(convert_event(&message("bell", Some(1), None, None, "")), None);
    assert_eq!(convert_event(&message("window-resized", Some(1), None, None, r#"{"cols": 120}"#)), None);
    assert_eq!(convert_event(&message("something-else", Some(1), Some(1), Some(1), "")), None);
    assert_eq!(convert_event(&message("pane-created", Some(1), None, Some(1), "")), None);
}

#[test]
fn special_keys_send_escape_sequences() {
    assert_eq!(key_to_bytes(Key::Enter), Some(vec![13]));
    assert_eq!(key_to_bytes(Key::ArrowUp), Some(vec![0x1B, b'[', b'A']));
    assert_eq!(key_to_bytes(Key::F5), Some(vec![0x1B, b'[', b'1', b'5', b'~']));
    assert_eq!(key_to_bytes(Key::KeyA), None);
}

#[test]
fn typed_text_is_filtered() {
    assert_eq!(text_input_bytes(Key::KeyA, "a"), Some(b"a".to_vec()));
    assert_eq!(text_input_bytes(Key::Enter, "\r"), None);
    assert_eq!(text_input_bytes(Key::Other, "\u{7f}"), None);
    assert_eq!(text_input_bytes(Key::Other, "é"), Some("é".as_bytes().to_vec()));
}

#[test]
fn startup_command_ends_with_carriage_return() {
    assert_eq!(startup_input("ls"), b"ls\r".to_vec());
}

#[test]
fn reconnection_backs_off_then_gives_up() {
    let mut b = ReconnectBackoff::new(1000, 4);
    assert_eq!(b.on_failure(), ReconnectStep::RetryAfter(1000));
    assert_eq!(b.on_failure(), ReconnectStep::RetryAfter(2000));
    assert_eq!(b.on_failure(), ReconnectStep::RetryAfter(4000));
    assert_eq!(b.delay_ms, 5000);
    assert_eq!(b.on_failure(), ReconnectStep::GiveUp);
}

#[test]
fn frame_lengths() {
    assert!(!valid_frame_len(0, 10));
    assert!(valid_frame_len(10, 10));
    assert!(!valid_frame_len(11, 10));
}

#[test]
fn selection_spans_per_mode() {
    assert_eq!(
        selection_spans(SelectionMode::Cell, 2, 0, 5, 2, 10),
        vec![
            HighlightSpan { y: 0, start_x: 2, cells: 8 },
            HighlightSpan { y: 1, start_x: 0, cells: 10 },
            HighlightSpan { y: 2, start_x: 0, cells: 6 },
        ]
    );
    assert_eq!(
        selection_spans(SelectionMode::Block, 2, -1, 4, 0, 10),
        vec![HighlightSpan { y: -1, start_x: 2, cells: 3 }, HighlightSpan { y: 0, start_x: 2, cells: 3 }]
    );
    assert_eq!(selection_spans(SelectionMode::Line, 2, 3, 4, 3, 10), vec![HighlightSpan { y: 3, start_x: 0, cells: 10 }]);
    assert_eq!(selection_spans(SelectionMode::Word, 2, 3, 4, 5, 10), vec![HighlightSpan { y: 3, start_x: 2, cells: 3 }]);
    assert!(selection_spans(SelectionMode::Inactive, 0, 0, 1, 1, 10).is_empty());
}

#[test]
fn search_spans_mark_the_current_match() {
    let matches = [
        MatchBounds { start_x: 1, start_y: 0, end_x: 3, end_y: 0 },
        MatchBounds { start_x: 4, start_y: 2, end_x: 4, end_y: 2 },
    ];
    let spans = search_spans(&matches, Some(1));
    assert_eq!(spans.len(), 2);
    assert_eq!(spans[0].span, HighlightSpan { y: 0, start_x: 1, cells: 3 });
    assert!(!spans[0].is_current);
    assert!(spans[1].is_current);
}

fn entity(index: u32, generation: u32, name: &str) -> EntityInfo {
    EntityInfo {
        entity: ((generation as u64) << 32) | index as u64,
        index,
        generation,
        name: name.to_string(),
        id_text: format!("{}v{}", index, generation),
        component_count: 0,
        component_names: vec![],
    }
}

fn names(state: &BevyInspectorState) -> Vec<&str> {
    state.entity_infos.iter().map(|e| e.name.as_str()).collect()
}

#[test]
fn entity_list_is_sorted_and_filtered() {
    let mut state = BevyInspectorState::default();
    state.toggle();
    refresh_entity_list(&mut state, vec![entity(5, 0, "Camera"), entity(1, 1, "Window"), entity(1, 0, "Root")]);
    assert_eq!(names(&state), vec!["Root", "Window", "Camera"]);

    state.selected_index = 7;
    state.search_query = "WIN".to_string();
    refresh_entity_list(&mut state, vec![entity(5, 0, "Camera"), entity(1, 1, "Window"), entity(1, 0, "Root")]);
    assert_eq!(names(&state), vec!["Window"]);
    assert_eq!(state.selected_index, 0);

    state.search_query = "5v0".to_string();
    refresh_entity_list(&mut state, vec![entity(5, 0, "Camera"), entity(1, 1, "Window")]);
    assert_eq!(names(&state), vec!["Camera"]);
}

#[test]
fn hidden_inspector_keeps_its_list() {
    let mut state = BevyInspectorState::default();
    refresh_entity_list(&mut state, vec![entity(1, 0, "A")]);
    assert!(state.entity_infos.is_empty());
}

#[test]
fn inspector_keys() {
    let mut state = BevyInspectorState::default();
    state.toggle();
    refresh_entity_list(&mut state, vec![entity(1, 0, "A"), entity(2, 0, "B")]);
    handle_navigation_input(&mut state, InspectorKey::Char('j'));
    handle_navigation_input(&mut state, InspectorKey::Down);
    assert_eq!(state.selected_index, 1);
    handle_navigation_input(&mut state, InspectorKey::Right);
    assert!(state.expanded_entities.contains(&2));
    handle_navigation_input(&mut state, InspectorKey::Left);
    assert!(!state.expanded_entities.contains(&2));
    handle_navigation_input(&mut state, InspectorKey::Char('/'));
    assert!(state.search_mode);
    handle_search_input(&mut state, InspectorKey::Char('a'));
    handle_search_input(&mut state, InspectorKey::Char('b'));
    handle_search_input(&mut state, InspectorKey::Backspace);
    assert_eq!(state.search_query, "a");
    handle_search_input(&mut state, InspectorKey::Esc);
    assert!(!state.search_mode);
    assert!(state.search_query.is_empty());
    handle_navigation_input(&mut state, InspectorKey::Esc);
    assert!(!state.visible);
}

use scarab_client::bench::{cursor_color, flood_iterations, push_bounded, BenchColor, FLOOD_LINE, MEGABYTE};

#[test]
fn flood_writes_whole_lines() {
    assert_eq!(FLOOD_LINE.len(), 69);
    assert_eq!(flood_iterations(1, FLOOD_LINE.len()), MEGABYTE / 69);
    assert_eq!(flood_iterations(0, FLOOD_LINE.len()), 0);
}

#[test]
fn cursor_colours_cycle() {
    let colours: Vec<BenchColor> = (0..5).map(cursor_color).collect();
    assert_eq!(
        colours,
        vec![BenchColor::Red, BenchColor::Green, BenchColor::Blue, BenchColor::Yellow, BenchColor::Red]
    );
}

#[test]
fn window_keeps_the_newest_samples() {
    let mut w: Vec<u32> = Vec::new();
    for i in 0..5 {
        push_bounded(&mut w, i, 3);
    }
    assert_eq!(w, vec![2, 3, 4]);
}
