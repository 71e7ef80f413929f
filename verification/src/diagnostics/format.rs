//! Recording format: a recording holds a version, metadata and the recorded
//! events in chronological order. Input and output payloads are kept as text
//! when they are valid UTF-8 and as `base64:`-prefixed text otherwise.
use base64::Engine;
use std::time::{SystemTime, UNIX_EPOCH};
use vstd::prelude::*;
use vstd::slice::slice_to_vec;
use vstd::utf8::{decode_utf8, encode_utf8, valid_utf8};
use crate::text::{push_str, starts_with, string_of};

verus! {

/// Current recording format version.
pub const FORMAT_VERSION: &'static str = "1.0";

/// Version of the client that writes recordings.
pub const CLIENT_VERSION: &'static str = "0.1.0";

/// Prefix that marks a base64-encoded payload.
pub const BASE64_PREFIX: &'static str = "base64:";

#[verifier::external_type_specification]
#[verifier::external_body]
pub struct ExJsonValue(serde_json::Value);

#[verifier::external_type_specification]
#[verifier::external_body]
pub struct ExSystemTime(SystemTime);

/// `serde_json::Value` derives `Clone`: a clone is an equal value.
pub assume_specification[ <serde_json::Value as Clone>::clone ](v: &serde_json::Value) -> (r:
    serde_json::Value)
    ensures
        r == *v,
;

// ==================== Outside calls ====================

/// The standard base64 alphabet (with padding) encoding of `bytes`, as
/// produced by `base64::engine::general_purpose::STANDARD.encode`.
pub uninterp spec fn base64_text(bytes: Seq<u8>) -> Seq<char>;

/// What `base64::engine::general_purpose::STANDARD.decode` gives for `text`:
/// the decoded bytes, or `None` when the text is not valid padded base64.
pub uninterp spec fn base64_decoded(text: Seq<char>) -> Option<Seq<u8>>;

/// The text `chrono` gives for the UTC instant `secs` seconds after the Unix
/// epoch, formatted as `%Y-%m-%dT%H:%M:%SZ`; `None` when
/// `DateTime::from_timestamp` refuses the instant as out of range.
pub uninterp spec fn utc_iso8601_text(secs: i64) -> Option<Seq<char>>;

/// Encodes `bytes` with `base64::engine::general_purpose::STANDARD.encode`.
/// Claimed: the result is the named encoding, and decoding it with the same
/// engine gives `bytes` back.
#[verifier::external_body]
fn base64_encode(bytes: &[u8]) -> (s: String)
    ensures
        s@ == base64_text(bytes@),
        base64_decoded(s@) == Some(bytes@),
{
    base64::engine::general_purpose::STANDARD.encode(bytes)
}

/// Decodes `text` with `base64::engine::general_purpose::STANDARD.decode`;
/// the decode error becomes `None`. Claimed: the result is the named decoding.
#[verifier::external_body]
fn base64_decode(text: &str) -> (r: Option<Vec<u8>>)
    ensures
        match r {
            Some(v) => base64_decoded(text@) == Some(v@),
            None => base64_decoded(text@) is None,
        },
{
    match base64::engine::general_purpose::STANDARD.decode(text) {
        Ok(v) => Some(v),
        Err(_) => None,
    }
}

/// `String::from_utf8`, with the error as `None`. Claimed, as std documents:
/// it succeeds exactly on valid UTF-8, and the string holds the decoded
/// characters.
#[verifier::external_body]
fn string_from_utf8(bytes: Vec<u8>) -> (r: Option<String>)
    ensures
        r is Some <==> valid_utf8(bytes@),
        r matches Some(s) ==> s@ == decode_utf8(bytes@),
{
    match String::from_utf8(bytes) {
        Ok(s) => Some(s),
        Err(_) => None,
    }
}

/// Reads the system clock: `std::time::SystemTime::now`. Nothing is claimed
/// of the value read.
#[verifier::external_body]
pub(crate) fn system_now() -> (t: SystemTime) {
    SystemTime::now()
}

/// Whole seconds from the Unix epoch to `t`: `t.duration_since(UNIX_EPOCH)`,
/// zero when `t` is earlier. Nothing is claimed of the value.
#[verifier::external_body]
pub(crate) fn secs_since_unix_epoch(t: SystemTime) -> (secs: u64) {
    t.duration_since(UNIX_EPOCH).unwrap_or_default().as_secs()
}

/// Formats the UTC instant `secs` seconds after the Unix epoch as
/// `%Y-%m-%dT%H:%M:%SZ` with `chrono::DateTime::from_timestamp` and `format`.
/// Claimed: the result is the named text.
#[verifier::external_body]
fn utc_iso8601(secs: i64) -> (r: Option<String>)
    ensures
        match r {
            Some(s) => utc_iso8601_text(secs) == Some(s@),
            None => utc_iso8601_text(secs) is None,
        },
{
    match chrono::DateTime::from_timestamp(secs, 0) {
        Some(dt) => Some(dt.format("%Y-%m-%dT%H:%M:%SZ").to_string()),
        None => None,
    }
}

// ==================== Event types ====================

/// Event type enumeration.
#[derive(Debug, Clone, Copy, PartialEq, Eq, Structural)]
pub enum EventType {
    /// User input to terminal
    Input,
    /// Output from terminal
    Output,
    /// Terminal resize
    Resize,
    /// Marker/annotation
    Marker,
}

/// Event data (type-specific payload).
#[derive(Debug)]
pub enum EventData {
    /// Input or output data: UTF-8 text, or `base64:` followed by the base64
    /// encoding of binary data.
    Data { data: String },
    /// Resize event
    Resize { cols: u16, rows: u16 },
    /// Marker/annotation
    Marker { label: String, metadata: Option<serde_json::Value> },
}

impl Clone for EventData {
    fn clone(&self) -> (r: Self)
        ensures
            r == *self,
    {
        match self {
            EventData::Data { data } => EventData::Data { data: data.clone() },
            EventData::Resize { cols, rows } => EventData::Resize { cols: *cols, rows: *rows },
            EventData::Marker { label, metadata } => EventData::Marker {
                label: label.clone(),
                metadata: match metadata {
                    Some(v) => Some(v.clone()),
                    None => None,
                },
            },
        }
    }
}

/// `p` begins `text`.
pub open spec fn has_prefix(text: Seq<char>, p: Seq<char>) -> bool {
    p.len() <= text.len() && text.take(p.len() as int) == p
}

/// The text stored for a payload: the decoded characters when the bytes are
/// valid UTF-8, else the base64 prefix followed by their base64 encoding.
pub open spec fn payload_text(bytes: Seq<u8>) -> Seq<char> {
    if valid_utf8(bytes) {
        decode_utf8(bytes)
    } else {
        BASE64_PREFIX@ + base64_text(bytes)
    }
}

/// The bytes a stored payload text stands for: the base64 decoding of what
/// follows the prefix when it carries one, else the UTF-8 encoding of the
/// text.
pub open spec fn payload_bytes(text: Seq<char>) -> Option<Seq<u8>> {
    if has_prefix(text, BASE64_PREFIX@) {
        base64_decoded(text.skip(BASE64_PREFIX@.len() as int))
    } else {
        Some(encode_utf8(text))
    }
}

impl EventData {
    /// Payload for input or output data: kept as text when it is valid
    /// UTF-8, base64-encoded with a prefix otherwise. Reading the bytes back
    /// gives `bytes`, except for UTF-8 text that itself begins with the prefix.
    pub fn data(bytes: &[u8]) -> (r: Self)
        ensures
            r matches EventData::Data { data } && data@ == payload_text(bytes@),
            !(valid_utf8(bytes@) && has_prefix(decode_utf8(bytes@), BASE64_PREFIX@))
                ==> payload_bytes(payload_text(bytes@)) == Some(bytes@),
    {
        let owned = slice_to_vec(bytes);
        match string_from_utf8(owned) {
            Some(s) => {
                proof {
                    vstd::utf8::decode_utf8_encode_utf8(bytes@);
                }
                EventData::Data { data: s }
            },
            None => {
                let mut text = string_of(BASE64_PREFIX);
                let encoded = base64_encode(bytes);
                push_str(&mut text, encoded.as_str());
                proof {
                    let t = BASE64_PREFIX@ + base64_text(bytes@);
                    assert(t.take(BASE64_PREFIX@.len() as int) =~= BASE64_PREFIX@);
                    assert(t.skip(BASE64_PREFIX@.len() as int) =~= base64_text(bytes@));
                }
                EventData::Data { data: text }
            },
        }
    }

    /// Resize payload.
    pub fn resize(cols: u16, rows: u16) -> (r: Self)
        ensures
            r == (EventData::Resize { cols, rows }),
    {
        EventData::Resize { cols, rows }
    }

    /// Marker payload, without metadata.
    pub fn marker(label: String) -> (r: Self)
        ensures
            r == (EventData::Marker { label, metadata: None }),
    {
        EventData::Marker { label, metadata: None }
    }

    /// The payload bytes of a data event, decoding base64 when the text
    /// carries the prefix; `None` for other events or undecodable base64.
    pub fn as_bytes(&self) -> (r: Option<Vec<u8>>)
        ensures
            match self {
                EventData::Data { data } => match r {
                    Some(v) => payload_bytes(data@) == Some(v@),
                    None => payload_bytes(data@) is None,
                },
                _ => r is None,
            },
    {
        match self {
            EventData::Data { data } => {
                if starts_with(data.as_str(), BASE64_PREFIX) {
                    let n = data.as_str().unicode_len();
                    let rest = data.as_str().substring_char(BASE64_PREFIX.unicode_len(), n);
                    proof {
                        assert(rest@ =~= data@.skip(BASE64_PREFIX@.len() as int));
                    }
                    base64_decode(rest)
                } else {
                    Some(data.as_str().as_bytes_vec())
                }
            },
            _ => None,
        }
    }
}

// ==================== Recorded events and recordings ====================

/// A single recorded event.
#[derive(Debug)]
pub struct RecordedEvent {
    /// Timestamp in milliseconds from recording start
    pub timestamp_ms: u64,
    /// Event type
    pub event_type: EventType,
    /// Event-specific data
    pub data: EventData,
}

impl Clone for RecordedEvent {
    fn clone(&self) -> (r: Self)
        ensures
            r == *self,
    {
        RecordedEvent { timestamp_ms: self.timestamp_ms, event_type: self.event_type, data: self.data.clone() }
    }
}

impl RecordedEvent {
    /// Create a new event with timestamp.
    pub fn new(timestamp_ms: u64, event_type: EventType, data: EventData) -> (r: Self)
        ensures
            r == (RecordedEvent { timestamp_ms, event_type, data }),
    {
        RecordedEvent { timestamp_ms, event_type, data }
    }
}

/// Recording metadata.
#[derive(Debug, Clone)]
pub struct RecordingMetadata {
    /// When the recording was created (ISO 8601 timestamp)
    pub recorded_at: String,
    /// Terminal size at recording time [cols, rows]
    pub terminal_size: [u16; 2],
    /// Client version used for recording
    pub scarab_version: String,
    /// Optional user-provided title
    pub title: Option<String>,
    /// Optional description
    pub description: Option<String>,
    /// Environment variables captured at recording time, as name/value pairs
    pub environment: Option<Vec<(String, String)>>,
}

impl RecordingMetadata {
    /// Create new metadata stamped with the current time.
    pub fn new(terminal_cols: u16, terminal_rows: u16) -> (r: Self)
        ensures
            exists|secs: i64| r.recorded_at@ == recorded_at_text(utc_iso8601_text(secs)),
            r.terminal_size@ == seq![terminal_cols, terminal_rows],
            r.scarab_version@ == CLIENT_VERSION@,
            r.title is None,
            r.description is None,
            r.environment is None,
    {
        let secs = secs_since_unix_epoch(system_now());
        let stamp = utc_iso8601(secs as i64);
        Self::stamped(terminal_cols, terminal_rows, stamp)
    }

    /// Metadata for a recording whose formatted start time is `stamp`
    /// (`"unknown"` when the time could not be formatted).
    pub fn stamped(terminal_cols: u16, terminal_rows: u16, stamp: Option<String>) -> (r: Self)
        ensures
            r.recorded_at@ == recorded_at_text(
                match stamp {
                    Some(s) => Some(s@),
                    None => None,
                },
            ),
            r.terminal_size@ == seq![terminal_cols, terminal_rows],
            r.scarab_version@ == CLIENT_VERSION@,
            r.title is None,
            r.description is None,
            r.environment is None,
    {
        let recorded_at = match stamp {
            Some(s) => s,
            None => string_of("unknown"),
        };
        RecordingMetadata {
            recorded_at,
            terminal_size: [terminal_cols, terminal_rows],
            scarab_version: string_of(CLIENT_VERSION),
            title: None,
            description: None,
            environment: None,
        }
    }

    /// Set title for the recording.
    pub fn with_title(self, title: String) -> (r: Self)
        ensures
            r == (RecordingMetadata { title: Some(title), ..self }),
    {
        let mut m = self;
        m.title = Some(title);
        m
    }

    /// Set description for the recording.
    pub fn with_description(self, description: String) -> (r: Self)
        ensures
            r == (RecordingMetadata { description: Some(description), ..self }),
    {
        let mut m = self;
        m.description = Some(description);
        m
    }

    /// Records the environment variables that were found set, as name/value
    /// pairs; nothing changes when none was found.
    pub fn with_environment(self, found: Vec<(String, String)>) -> (r: Self)
        ensures
            found@.len() == 0 ==> r == self,
            found@.len() > 0 ==> r == (RecordingMetadata { environment: Some(found), ..self }),
    {
        let mut m = self;
        if found.len() > 0 {
            m.environment = Some(found);
        }
        m
    }
}

/// The `recorded_at` text for a formatted start time: the text itself, or
/// `"unknown"`.
pub open spec fn recorded_at_text(stamp: Option<Seq<char>>) -> Seq<char> {
    match stamp {
        Some(s) => s,
        None => "unknown"@,
    }
}

/// Complete recording structure.
#[derive(Debug, Clone)]
pub struct Recording {
    /// Format version for compatibility checking
    pub version: String,
    /// Recording metadata
    pub metadata: RecordingMetadata,
    /// Recorded events in chronological order
    pub events: Vec<RecordedEvent>,
}

/// A recording of a format version this client cannot read.
#[derive(Debug, Clone)]
pub struct UnsupportedVersion {
    pub found: String,
}

impl UnsupportedVersion {
    /// The error message.
    pub fn message(&self) -> (s: String)
        ensures
            s@ == "Unsupported recording version: "@ + self.found@ + " (expected "@
                + FORMAT_VERSION@ + ")"@,
    {
        let mut s = string_of("Unsupported recording version: ");
        push_str(&mut s, self.found.as_str());
        push_str(&mut s, " (expected ");
        push_str(&mut s, FORMAT_VERSION);
        push_str(&mut s, ")");
        s
    }
}

/// Duration of a recording: the timestamp of its last event, or zero.
pub open spec fn events_duration(events: Seq<RecordedEvent>) -> u64 {
    if events.len() == 0 {
        0
    } else {
        events.last().timestamp_ms
    }
}

impl Recording {
    /// Create a new empty recording stamped with the current time.
    pub fn new(terminal_cols: u16, terminal_rows: u16) -> (r: Self)
        ensures
            r.version@ == FORMAT_VERSION@,
            r.metadata.terminal_size@ == seq![terminal_cols, terminal_rows],
            r.metadata.title is None,
            r.metadata.description is None,
            r.metadata.environment is None,
            r.events@.len() == 0,
    {
        Recording {
            version: string_of(FORMAT_VERSION),
            metadata: RecordingMetadata::new(terminal_cols, terminal_rows),
            events: Vec::new(),
        }
    }

    /// A parsed recording, accepted only when its version is the current
    /// format version.
    pub fn validated(self) -> (r: Result<Self, UnsupportedVersion>)
        ensures
            self.version@ == FORMAT_VERSION@ ==> r == Ok::<Self, UnsupportedVersion>(self),
            self.version@ != FORMAT_VERSION@ ==> (r matches Err(e) && e.found@ == self.version@),
    {
        if crate::text::str_eq(self.version.as_str(), FORMAT_VERSION) {
            Ok(self)
        } else {
            Err(UnsupportedVersion { found: self.version })
        }
    }

    /// Total recording duration in milliseconds: the last event's timestamp.
    pub fn duration_ms(&self) -> (d: u64)
        ensures
            d == events_duration(self.events@),
    {
        if self.events.len() == 0 {
            0
        } else {
            self.events[self.events.len() - 1].timestamp_ms
        }
    }

    /// Event count.
    pub fn event_count(&self) -> (n: usize)
        ensures
            n == self.events@.len(),
    {
        self.events.len()
    }

    /// Add an event to the recording.
    pub fn add_event(&mut self, event: RecordedEvent)
        ensures
            final(self).events@ == old(self).events@.push(event),
            final(self).events@.drop_last() == old(self).events@,
            final(self).version == old(self).version,
            final(self).metadata == old(self).metadata,
    {
        self.events.push(event);
        proof {
            assert(self.events@.drop_last() =~= old(self).events@);
        }
    }
}

} // verus!
