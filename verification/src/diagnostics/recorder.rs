//! Session recorder: captures input, output, resize and marker events with
//! their time since the recording started, and keeps running statistics.
use std::path::PathBuf;
use std::time::Instant;
use vstd::prelude::*;
use crate::diagnostics::format::{
    payload_text, EventData, EventType, RecordedEvent, Recording, RecordingMetadata, FORMAT_VERSION,
};
use crate::rate_limiter::now_instant;

verus! {

#[verifier::external_type_specification]
#[verifier::external_body]
pub struct ExPathBuf(PathBuf);

/// Milliseconds elapsed since `start`: `start.elapsed().as_millis()`,
/// truncated to 64 bits. Nothing is claimed of the clock reading.
#[verifier::external_body]
fn millis_since(start: &Instant) -> (ms: u64) {
    start.elapsed().as_millis() as u64
}

/// Recording statistics.
#[derive(Debug, Clone, Copy, PartialEq, Eq, Structural)]
pub struct RecordingStats {
    /// Number of input events recorded
    pub input_events: usize,
    /// Total input bytes recorded
    pub input_bytes: usize,
    /// Number of output events recorded
    pub output_events: usize,
    /// Total output bytes recorded
    pub output_bytes: usize,
    /// Number of resize events recorded
    pub resize_events: usize,
    /// Number of marker events recorded
    pub marker_events: usize,
}

/// Statistics of a recording that has not recorded anything yet.
pub open spec fn zero_stats() -> RecordingStats {
    RecordingStats {
        input_events: 0,
        input_bytes: 0,
        output_events: 0,
        output_bytes: 0,
        resize_events: 0,
        marker_events: 0,
    }
}

impl Default for RecordingStats {
    fn default() -> (s: Self)
        ensures
            s == zero_stats(),
    {
        RecordingStats {
            input_events: 0,
            input_bytes: 0,
            output_events: 0,
            output_bytes: 0,
            resize_events: 0,
            marker_events: 0,
        }
    }
}

impl RecordingStats {
    /// Total event count.
    pub fn total_events(&self) -> (n: usize)
        requires
            self.input_events + self.output_events + self.resize_events + self.marker_events
                <= usize::MAX,
        ensures
            n == self.input_events + self.output_events + self.resize_events + self.marker_events,
    {
        self.input_events + self.output_events + self.resize_events + self.marker_events
    }

    /// Total bytes recorded.
    pub fn total_bytes(&self) -> (n: usize)
        requires
            self.input_bytes + self.output_bytes <= usize::MAX,
        ensures
            n == self.input_bytes + self.output_bytes,
    {
        self.input_bytes + self.output_bytes
    }
}

/// `ev` is a data event of type `kind` at `ts` carrying `bytes`.
pub open spec fn is_data_event(ev: RecordedEvent, ts: u64, kind: EventType, bytes: Seq<u8>) -> bool {
    &&& ev.timestamp_ms == ts
    &&& ev.event_type == kind
    &&& ev.data matches EventData::Data { data } && data@ == payload_text(bytes)
}

/// `after` is `before` with `ev` appended as its last event.
pub open spec fn appended(before: Recording, after: Recording, ev: RecordedEvent) -> bool {
    &&& after.version == before.version
    &&& after.metadata == before.metadata
    &&& after.events@ == before.events@.push(ev)
}

/// `after` is `before` with one more event at its end.
pub open spec fn extended(before: Recording, after: Recording) -> bool {
    &&& after.version == before.version
    &&& after.metadata == before.metadata
    &&& after.events@.len() == before.events@.len() + 1
    &&& after.events@.drop_last() == before.events@
}

/// The number of events that statistics count.
pub open spec fn stats_total(s: RecordingStats) -> int {
    s.input_events + s.output_events + s.resize_events + s.marker_events
}

/// Events in time order: no event is stamped earlier than one before it.
pub open spec fn in_time_order(evs: Seq<RecordedEvent>) -> bool {
    forall|i: int, j: int| 0 <= i <= j < evs.len() ==> #[trigger] evs[i].timestamp_ms <= #[trigger] evs[j].timestamp_ms
}

/// The stamp of a recording's last event (zero when it has none): the
/// earliest stamp its next event may carry.
pub open spec fn last_stamp(rec: Recording) -> u64 {
    if rec.events@.len() == 0 {
        0
    } else {
        rec.events@.last().timestamp_ms
    }
}

/// A stamp that keeps the recording in progress in time order.
pub open spec fn stamp_in_order(r: DiagnosticsRecorder, ts: u64) -> bool {
    r.active() matches Some(rec) ==> last_stamp(rec) <= ts
}

/// Recorder for terminal sessions.
pub struct DiagnosticsRecorder {
    /// Whether recording is currently active
    recording: bool,
    /// Current recording data
    current_recording: Option<Recording>,
    /// Recording start time
    start_time: Option<Instant>,
    /// Auto-save path (if configured)
    auto_save_path: Option<PathBuf>,
    /// Recording statistics
    stats: RecordingStats,
}

impl DiagnosticsRecorder {
    /// The recording in progress, if any.
    pub closed spec fn active(&self) -> Option<Recording> {
        self.current_recording
    }

    /// The statistics of the current (or last) recording.
    pub closed spec fn spec_stats(&self) -> RecordingStats {
        self.stats
    }

    /// The configured auto-save path.
    pub closed spec fn spec_auto_save_path(&self) -> Option<PathBuf> {
        self.auto_save_path
    }

    /// A recording is in progress exactly when there is recording data and a
    /// start time; its events are those the statistics count, in time order.
    pub closed spec fn wf(&self) -> bool {
        &&& self.recording == self.current_recording is Some
        &&& self.recording == self.start_time is Some
        &&& self.current_recording matches Some(rec) ==> rec.events@.len() == stats_total(self.stats)
        &&& self.current_recording matches Some(rec) ==> in_time_order(rec.events@)
    }

    /// Create a new recorder (not recording).
    pub fn new() -> (r: Self)
        ensures
            r.wf(),
            r.active() is None,
            r.spec_stats() == zero_stats(),
            r.spec_auto_save_path() is None,
    {
        DiagnosticsRecorder {
            recording: false,
            current_recording: None,
            start_time: None,
            auto_save_path: None,
            stats: RecordingStats::default(),
        }
    }

    /// Start a new recording session, dropping any recording in progress.
    pub fn start(&mut self, terminal_cols: u16, terminal_rows: u16)
        requires
            old(self).wf(),
        ensures
            final(self).wf(),
            final(self).active() matches Some(rec) && rec.version@ == FORMAT_VERSION@
                && rec.metadata.terminal_size@ == seq![terminal_cols, terminal_rows]
                && rec.metadata.title is None && rec.metadata.description is None
                && rec.events@.len() == 0,
            final(self).spec_stats() == zero_stats(),
            final(self).spec_auto_save_path() == old(self).spec_auto_save_path(),
    {
        if self.recording {
            let _ = self.stop();
        }
        let recording = Recording::new(terminal_cols, terminal_rows);
        self.current_recording = Some(recording);
        self.start_time = Some(now_instant());
        self.recording = true;
        self.stats = RecordingStats::default();
    }

    /// Start recording with an optional title and description.
    pub fn start_with_metadata(
        &mut self,
        terminal_cols: u16,
        terminal_rows: u16,
        title: Option<String>,
        description: Option<String>,
    )
        requires
            old(self).wf(),
        ensures
            final(self).wf(),
            final(self).active() matches Some(rec) && rec.version@ == FORMAT_VERSION@
                && rec.metadata.terminal_size@ == seq![terminal_cols, terminal_rows]
                && rec.metadata.title == title && rec.metadata.description == description
                && rec.events@.len() == 0,
            final(self).spec_stats() == zero_stats(),
            final(self).spec_auto_save_path() == old(self).spec_auto_save_path(),
    {
        self.start(terminal_cols, terminal_rows);
        let mut rec = self.current_recording.take().unwrap();
        if let Some(t) = title {
            rec.metadata.title = Some(t);
        }
        if let Some(d) = description {
            rec.metadata.description = Some(d);
        }
        self.current_recording = Some(rec);
    }

    /// Stop recording and return the completed recording (`None` when not
    /// recording).
    pub fn stop(&mut self) -> (r: Option<Recording>)
        requires
            old(self).wf(),
        ensures
            final(self).wf(),
            r == old(self).active(),
            r matches Some(rec) ==> rec.events@.len() == stats_total(old(self).spec_stats()),
            r matches Some(rec) ==> in_time_order(rec.events@),
            final(self).active() is None,
            final(self).spec_stats() == old(self).spec_stats(),
            final(self).spec_auto_save_path() == old(self).spec_auto_save_path(),
    {
        if !self.recording {
            return None;
        }
        self.recording = false;
        let recording = self.current_recording.take();
        self.start_time = None;
        recording
    }

    /// The stamp of the last event recorded (zero when none).
    fn last_event_stamp(&self) -> (ts: u64)
        ensures
            self.active() matches Some(rec) ==> ts == last_stamp(rec),
    {
        match &self.current_recording {
            Some(rec) => {
                let n = rec.events.len();
                if n == 0 {
                    0
                } else {
                    rec.events[n - 1].timestamp_ms
                }
            },
            None => 0,
        }
    }

    /// Milliseconds since the recording started (zero when not recording).
    /// The clock is monotonic, so this never falls behind the last event's
    /// stamp; should it, the last stamp is used, keeping events in time order.
    fn elapsed_ms(&self) -> (ms: u64)
        requires
            self.wf(),
        ensures
            self.start_time is None ==> ms == 0,
            self.active() is None ==> ms == 0,
            stamp_in_order(*self, ms),
    {
        match &self.start_time {
            Some(start) => {
                let elapsed = millis_since(start);
                let last = self.last_event_stamp();
                if elapsed < last {
                    last
                } else {
                    elapsed
                }
            },
            None => 0,
        }
    }

    /// Record user input, stamped with the time since the recording started.
    pub fn record_input(&mut self, data: &[u8])
        requires
            old(self).wf(),
            old(self).spec_stats().input_events < usize::MAX,
            old(self).spec_stats().input_bytes + data@.len() <= usize::MAX,
        ensures
            final(self).wf(),
            old(self).active() is None ==> *final(self) == *old(self),
            old(self).active() is Some ==> exists|ts: u64|
                stamp_in_order(*old(self), ts) && recorded_data(*old(self), *final(self), ts, EventType::Input, data@),
    {
        if !self.recording {
            return;
        }
        let ts = self.elapsed_ms();
        self.record_input_at(data, ts);
    }

    /// Record user input at `timestamp_ms`.
    pub fn record_input_at(&mut self, data: &[u8], timestamp_ms: u64)
        requires
            old(self).wf(),
            stamp_in_order(*old(self), timestamp_ms),
            old(self).spec_stats().input_events < usize::MAX,
            old(self).spec_stats().input_bytes + data@.len() <= usize::MAX,
        ensures
            final(self).wf(),
            old(self).active() is None ==> *final(self) == *old(self),
            old(self).active() is Some ==> recorded_data(
                *old(self),
                *final(self),
                timestamp_ms,
                EventType::Input,
                data@,
            ),
    {
        if !self.recording {
            return;
        }
        let event = RecordedEvent::new(timestamp_ms, EventType::Input, EventData::data(data));
        let mut rec = self.current_recording.take().unwrap();
        let ghost before = rec;
        rec.add_event(event);
        proof {
            assert forall|i: int, j: int| 0 <= i <= j < rec.events@.len() implies #[trigger] rec.events@[i].timestamp_ms
                <= #[trigger] rec.events@[j].timestamp_ms by {
                if j == before.events@.len() && i < j {
                    assert(before.events@[i].timestamp_ms <= before.events@[j - 1].timestamp_ms);
                }
            }
        }
        self.current_recording = Some(rec);
        self.stats.input_events = self.stats.input_events + 1;
        self.stats.input_bytes = self.stats.input_bytes + data.len();
    }

    /// Record terminal output, stamped with the time since the recording
    /// started.
    pub fn record_output(&mut self, data: &[u8])
        requires
            old(self).wf(),
            old(self).spec_stats().output_events < usize::MAX,
            old(self).spec_stats().output_bytes + data@.len() <= usize::MAX,
        ensures
            final(self).wf(),
            old(self).active() is None ==> *final(self) == *old(self),
            old(self).active() is Some ==> exists|ts: u64|
                stamp_in_order(*old(self), ts) && recorded_data(*old(self), *final(self), ts, EventType::Output, data@),
    {
        if !self.recording {
            return;
        }
        let ts = self.elapsed_ms();
        self.record_output_at(data, ts);
    }

    /// Record terminal output at `timestamp_ms`.
    pub fn record_output_at(&mut self, data: &[u8], timestamp_ms: u64)
        requires
            old(self).wf(),
            stamp_in_order(*old(self), timestamp_ms),
            old(self).spec_stats().output_events < usize::MAX,
            old(self).spec_stats().output_bytes + data@.len() <= usize::MAX,
        ensures
            final(self).wf(),
            old(self).active() is None ==> *final(self) == *old(self),
            old(self).active() is Some ==> recorded_data(
                *old(self),
                *final(self),
                timestamp_ms,
                EventType::Output,
                data@,
            ),
    {
        if !self.recording {
            return;
        }
        let event = RecordedEvent::new(timestamp_ms, EventType::Output, EventData::data(data));
        let mut rec = self.current_recording.take().unwrap();
        let ghost before = rec;
        rec.add_event(event);
        proof {
            assert forall|i: int, j: int| 0 <= i <= j < rec.events@.len() implies #[trigger] rec.events@[i].timestamp_ms
                <= #[trigger] rec.events@[j].timestamp_ms by {
                if j == before.events@.len() && i < j {
                    assert(before.events@[i].timestamp_ms <= before.events@[j - 1].timestamp_ms);
                }
            }
        }
        self.current_recording = Some(rec);
        self.stats.output_events = self.stats.output_events + 1;
        self.stats.output_bytes = self.stats.output_bytes + data.len();
    }

    /// Record a terminal resize, stamped with the time since the recording
    /// started.
    pub fn record_resize(&mut self, cols: u16, rows: u16)
        requires
            old(self).wf(),
            old(self).spec_stats().resize_events < usize::MAX,
        ensures
            final(self).wf(),
            old(self).active() is None ==> *final(self) == *old(self),
            old(self).active() is Some ==> exists|ts: u64|
                stamp_in_order(*old(self), ts) && recorded_event(
                    *old(self),
                    *final(self),
                    RecordedEvent {
                        timestamp_ms: ts,
                        event_type: EventType::Resize,
                        data: EventData::Resize { cols, rows },
                    },
                    RecordingStats { resize_events: (old(self).spec_stats().resize_events + 1) as usize, ..old(self).spec_stats() },
                ),
    {
        if !self.recording {
            return;
        }
        let ts = self.elapsed_ms();
        self.record_resize_at(cols, rows, ts);
    }

    /// Record a terminal resize at `timestamp_ms`.
    pub fn record_resize_at(&mut self, cols: u16, rows: u16, timestamp_ms: u64)
        requires
            old(self).wf(),
            stamp_in_order(*old(self), timestamp_ms),
            old(self).spec_stats().resize_events < usize::MAX,
        ensures
            final(self).wf(),
            old(self).active() is None ==> *final(self) == *old(self),
            old(self).active() is Some ==> recorded_event(
                *old(self),
                *final(self),
                RecordedEvent {
                    timestamp_ms,
                    event_type: EventType::Resize,
                    data: EventData::Resize { cols, rows },
                },
                RecordingStats { resize_events: (old(self).spec_stats().resize_events + 1) as usize, ..old(self).spec_stats() },
            ),
    {
        if !self.recording {
            return;
        }
        let event = RecordedEvent::new(timestamp_ms, EventType::Resize, EventData::resize(cols, rows));
        let mut rec = self.current_recording.take().unwrap();
        let ghost before = rec;
        rec.add_event(event);
        proof {
            assert forall|i: int, j: int| 0 <= i <= j < rec.events@.len() implies #[trigger] rec.events@[i].timestamp_ms
                <= #[trigger] rec.events@[j].timestamp_ms by {
                if j == before.events@.len() && i < j {
                    assert(before.events@[i].timestamp_ms <= before.events@[j - 1].timestamp_ms);
                }
            }
        }
        self.current_recording = Some(rec);
        self.stats.resize_events = self.stats.resize_events + 1;
    }

    /// Record a marker, stamped with the time since the recording started.
    pub fn record_marker(&mut self, label: String)
        requires
            old(self).wf(),
            old(self).spec_stats().marker_events < usize::MAX,
        ensures
            final(self).wf(),
            old(self).active() is None ==> *final(self) == *old(self),
            old(self).active() is Some ==> exists|ts: u64|
                stamp_in_order(*old(self), ts) && recorded_event(
                    *old(self),
                    *final(self),
                    RecordedEvent {
                        timestamp_ms: ts,
                        event_type: EventType::Marker,
                        data: EventData::Marker { label, metadata: None },
                    },
                    RecordingStats { marker_events: (old(self).spec_stats().marker_events + 1) as usize, ..old(self).spec_stats() },
                ),
    {
        if !self.recording {
            return;
        }
        let ts = self.elapsed_ms();
        self.record_marker_at(label, ts);
    }

    /// Record a marker at `timestamp_ms`.
    pub fn record_marker_at(&mut self, label: String, timestamp_ms: u64)
        requires
            old(self).wf(),
            stamp_in_order(*old(self), timestamp_ms),
            old(self).spec_stats().marker_events < usize::MAX,
        ensures
            final(self).wf(),
            old(self).active() is None ==> *final(self) == *old(self),
            old(self).active() is Some ==> recorded_event(
                *old(self),
                *final(self),
                RecordedEvent {
                    timestamp_ms,
                    event_type: EventType::Marker,
                    data: EventData::Marker { label, metadata: None },
                },
                RecordingStats { marker_events: (old(self).spec_stats().marker_events + 1) as usize, ..old(self).spec_stats() },
            ),
    {
        if !self.recording {
            return;
        }
        let event = RecordedEvent::new(timestamp_ms, EventType::Marker, EventData::marker(label));
        let mut rec = self.current_recording.take().unwrap();
        let ghost before = rec;
        rec.add_event(event);
        proof {
            assert forall|i: int, j: int| 0 <= i <= j < rec.events@.len() implies #[trigger] rec.events@[i].timestamp_ms
                <= #[trigger] rec.events@[j].timestamp_ms by {
                if j == before.events@.len() && i < j {
                    assert(before.events@[i].timestamp_ms <= before.events@[j - 1].timestamp_ms);
                }
            }
        }
        self.current_recording = Some(rec);
        self.stats.marker_events = self.stats.marker_events + 1;
    }

    /// Whether a recording is in progress.
    pub fn is_recording(&self) -> (r: bool)
        requires
            self.wf(),
        ensures
            r == self.active() is Some,
    {
        self.recording
    }

    /// Current recording statistics.
    pub fn stats(&self) -> (s: &RecordingStats)
        ensures
            *s == self.spec_stats(),
    {
        &self.stats
    }

    /// Set the auto-save path.
    pub fn set_auto_save_path(&mut self, path: Option<PathBuf>)
        ensures
            final(self).spec_auto_save_path() == path,
            final(self).active() == old(self).active(),
            final(self).spec_stats() == old(self).spec_stats(),
            old(self).wf() ==> final(self).wf(),
    {
        self.auto_save_path = path;
    }

    /// The auto-save path, if one is set.
    pub fn auto_save_path(&self) -> (p: &Option<PathBuf>)
        ensures
            *p == self.spec_auto_save_path(),
    {
        &self.auto_save_path
    }

    /// Metadata of the recording in progress.
    pub fn metadata(&self) -> (m: Option<&RecordingMetadata>)
        ensures
            match self.active() {
                Some(rec) => m == Some(&rec.metadata),
                None => m is None,
            },
    {
        match &self.current_recording {
            Some(r) => Some(&r.metadata),
            None => None,
        }
    }
}

/// `after` is `before` with one data event of type `kind` at `ts` carrying
/// `bytes` appended, and its count and byte total raised accordingly.
pub open spec fn recorded_data(
    before: DiagnosticsRecorder,
    after: DiagnosticsRecorder,
    ts: u64,
    kind: EventType,
    bytes: Seq<u8>,
) -> bool {
    &&& before.active() matches Some(b) && after.active() matches Some(a) && extended(b, a)
        && is_data_event(a.events@.last(), ts, kind, bytes)
    &&& after.spec_auto_save_path() == before.spec_auto_save_path()
    &&& after.spec_stats() == (if kind == EventType::Input {
        RecordingStats {
            input_events: (before.spec_stats().input_events + 1) as usize,
            input_bytes: (before.spec_stats().input_bytes + bytes.len()) as usize,
            ..before.spec_stats()
        }
    } else {
        RecordingStats {
            output_events: (before.spec_stats().output_events + 1) as usize,
            output_bytes: (before.spec_stats().output_bytes + bytes.len()) as usize,
            ..before.spec_stats()
        }
    })
}

/// `after` is `before` with `ev` appended to the recording and statistics
/// `stats`.
pub open spec fn recorded_event(
    before: DiagnosticsRecorder,
    after: DiagnosticsRecorder,
    ev: RecordedEvent,
    stats: RecordingStats,
) -> bool {
    &&& before.active() matches Some(b) && after.active() matches Some(a) && appended(b, a, ev)
    &&& after.spec_auto_save_path() == before.spec_auto_save_path()
    &&& after.spec_stats() == stats
}

} // verus!
