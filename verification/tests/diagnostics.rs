use scarab_client::diagnostics::format::{
    EventData, EventType, RecordedEvent, Recording, RecordingMetadata, FORMAT_VERSION,
};
use scarab_client::diagnostics::recorder::DiagnosticsRecorder;
use scarab_client::diagnostics::replay::{DiagnosticsReplay, PlaybackState};

fn create_test_recording() -> Recording {
    let mut recording = Recording::new(80, 24);
    recording.add_event(RecordedEvent::new(0, EventType::Input, EventData::data(b"test1")));
    recording.add_event(RecordedEvent::new(100, EventType::Output, EventData::data(b"test2")));
    recording.add_event(RecordedEvent::new(200, EventType::Output, EventData::data(b"test3")));
    recording
}

#[test]
fn test_recording_creation() {
    let recording = Recording::new(80, 24);
    assert_eq!(recording.version, FORMAT_VERSION);
    assert_eq!(recording.metadata.terminal_size, [80, 24]);
    assert_eq!(recording.events.len(), 0);
}

#[test]
fn test_event_data_encoding() {
    let utf8_data = EventData::data(b"hello world");
    assert_eq!(utf8_data.as_bytes().unwrap(), b"hello world");
    let binary_data = EventData::data(&[0xFF, 0xFE, 0xFD]);
    let decoded = binary_data.as_bytes().unwrap();
    assert_eq!(decoded, vec![0xFF, 0xFE, 0xFD]);
}

#[test]
fn binary_payload_is_base64_text() {
    match EventData::data(&[0xFF, 0xFE, 0xFD]) {
        EventData::Data { data } => assert_eq!(data, "base64://79"),
        other => panic!("unexpected {:?}", other),
    }
    match EventData::data(b"plain") {
        EventData::Data { data } => assert_eq!(data, "plain"),
        other => panic!("unexpected {:?}", other),
    }
}

#[test]
fn resize_and_marker_carry_no_bytes() {
    assert_eq!(EventData::resize(100, 30).as_bytes(), None);
    assert_eq!(EventData::marker("m".to_string()).as_bytes(), None);
}

#[test]
fn recording_duration_is_last_timestamp() {
    let recording = create_test_recording();
    assert_eq!(recording.duration_ms(), 200);
    assert_eq!(recording.event_count(), 3);
    assert_eq!(Recording::new(1, 1).duration_ms(), 0);
}

#[test]
fn unsupported_version_is_refused() {
    let mut recording = Recording::new(80, 24);
    recording.version = "0.9".to_string();
    match recording.validated() {
        Err(e) => assert_eq!(e.found, "0.9"),
        Ok(_) => panic!("accepted"),
    }
    assert!(Recording::new(80, 24).validated().is_ok());
}

#[test]
fn metadata_builders() {
    let m = RecordingMetadata::new(10, 5).with_title("t".to_string()).with_description("d".to_string());
    assert_eq!(m.terminal_size, [10, 5]);
    assert_eq!(m.title, Some("t".to_string()));
    assert_eq!(m.description, Some("d".to_string()));
}

#[test]
fn test_recorder_lifecycle() {
    let mut recorder = DiagnosticsRecorder::new();
    assert!(!recorder.is_recording());
    recorder.start(80, 24);
    assert!(recorder.is_recording());
    recorder.record_input(b"test input");
    recorder.record_output(b"test output");
    recorder.record_resize(100, 30);
    let recording = recorder.stop().unwrap();
    assert!(!recorder.is_recording());
    assert_eq!(recording.event_count(), 3);
}

#[test]
fn test_recording_stats() {
    let mut recorder = DiagnosticsRecorder::new();
    recorder.start(80, 24);
    recorder.record_input(b"hello");
    recorder.record_output(b"world!");
    recorder.record_marker("checkpoint".to_string());
    let stats = recorder.stats();
    assert_eq!(stats.input_events, 1);
    assert_eq!(stats.input_bytes, 5);
    assert_eq!(stats.output_events, 1);
    assert_eq!(stats.output_bytes, 6);
    assert_eq!(stats.marker_events, 1);
    assert_eq!(stats.total_events(), 3);
}

#[test]
fn recorder_ignores_events_while_stopped() {
    let mut recorder = DiagnosticsRecorder::new();
    recorder.record_input(b"lost");
    assert_eq!(recorder.stats().total_events(), 0);
    assert!(recorder.stop().is_none());
}

#[test]
fn recorded_timestamps_are_kept() {
    let mut recorder = DiagnosticsRecorder::new();
    recorder.start(80, 24);
    recorder.record_input_at(b"a", 5);
    recorder.record_output_at(b"b", 7);
    let recording = recorder.stop().unwrap();
    assert_eq!(recording.events[0].timestamp_ms, 5);
    assert_eq!(recording.events[1].timestamp_ms, 7);
    assert_eq!(recording.events[1].event_type, EventType::Output);
}

#[test]
fn test_replay_load() {
    let mut replay = DiagnosticsReplay::new();
    replay.load_recording(create_test_recording());
    assert!(replay.is_loaded());
    assert_eq!(replay.state(), PlaybackState::Stopped);
}

#[test]
fn test_replay_state_transitions() {
    let mut replay = DiagnosticsReplay::new();
    replay.load_recording(create_test_recording());
    assert_eq!(replay.state(), PlaybackState::Stopped);
    replay.play();
    assert_eq!(replay.state(), PlaybackState::Playing);
    replay.pause(0);
    assert_eq!(replay.state(), PlaybackState::Paused);
    replay.play();
    assert_eq!(replay.state(), PlaybackState::Playing);
    replay.stop();
    assert_eq!(replay.state(), PlaybackState::Stopped);
}

#[test]
fn replay_delivers_due_events_then_finishes() {
    let mut replay = DiagnosticsReplay::new();
    replay.load_recording(create_test_recording());
    assert!(replay.play());
    let (due, restarted) = replay.poll_events(100);
    assert!(!restarted);
    assert_eq!(due.len(), 2);
    assert_eq!(due[1].timestamp_ms, 100);
    let (rest, _) = replay.poll_events(250);
    assert_eq!(rest.len(), 1);
    assert_eq!(rest[0].timestamp_ms, 200);
    let (none, _) = replay.poll_events(300);
    assert!(none.is_empty());
    assert_eq!(replay.state(), PlaybackState::Finished);
}

#[test]
fn pause_then_resume_keeps_playback_time() {
    let mut replay = DiagnosticsReplay::new();
    replay.load_recording(create_test_recording());
    replay.play();
    replay.pause(150);
    assert_eq!(replay.accumulated_time_ms(), 150);
    replay.play();
    assert_eq!(replay.current_playback_time_ms(20), 170);
}

#[test]
fn seek_moves_to_last_event_not_after_time() {
    let mut replay = DiagnosticsReplay::new();
    replay.load_recording(create_test_recording());
    replay.seek(150);
    assert_eq!(replay.position(), 1);
    assert_eq!(replay.accumulated_time_ms(), 150);
}

#[test]
fn play_without_recording_does_nothing() {
    let mut replay = DiagnosticsReplay::new();
    assert!(!replay.play());
    assert_eq!(replay.state(), PlaybackState::Stopped);
    assert_eq!(replay.duration_ms(), None);
}

#[test]
fn clock_stamped_events_come_in_time_order_and_match_the_stats() {
    let mut recorder = DiagnosticsRecorder::new();
    recorder.start(80, 24);
    recorder.record_input_at(b"x", 3);
    for i in 0..20u16 {
        recorder.record_input(b"a");
        recorder.record_output(b"bc");
        recorder.record_resize(80 + i, 24);
        recorder.record_marker(format!("m{}", i));
    }
    let total = recorder.stats().total_events();
    let recording = recorder.stop().unwrap();
    assert_eq!(recording.events.len(), total);
    assert_eq!(total, 81);
    for w in recording.events.windows(2) {
        assert!(w[0].timestamp_ms <= w[1].timestamp_ms);
    }
    assert!(recording.events[1].timestamp_ms >= 3);
}
