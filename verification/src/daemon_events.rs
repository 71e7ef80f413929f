//! Conversion of the daemon's event messages into typed client events.
//! Payloads are small JSON objects; their members are read with `serde_json`.
use vstd::prelude::*;
use crate::navigation::ObjectKind;
use crate::text::str_eq;

verus! {

/// A handle to a window, tab or pane.
#[derive(Debug, Clone, Copy, PartialEq, Eq, Structural)]
pub struct ObjectHandle {
    pub object_type: ObjectKind,
    pub id: u64,
    pub generation: u64,
}

/// An event message from the daemon.
#[derive(Debug, Clone)]
pub struct DaemonEventMessage {
    pub event_type: String,
    pub window_id: Option<u64>,
    pub pane_id: Option<u64>,
    pub tab_id: Option<u64>,
    pub data: Vec<u8>,
    pub timestamp_micros: u64,
}

/// A scalar member of a JSON object.
#[derive(Debug, Clone, PartialEq, Eq)]
pub enum JsonScalar {
    Str(String),
    Bool(bool),
    /// A number representable as `u64`
    Unsigned(u64),
    /// Any other JSON value
    Other,
}

/// A JSON scalar with its text as characters.
pub enum JsonScalarView {
    Str(Seq<char>),
    Bool(bool),
    Unsigned(u64),
    Other,
}

impl View for JsonScalar {
    type V = JsonScalarView;

    open spec fn view(&self) -> JsonScalarView {
        match self {
            JsonScalar::Str(s) => JsonScalarView::Str(s@),
            JsonScalar::Bool(b) => JsonScalarView::Bool(*b),
            JsonScalar::Unsigned(n) => JsonScalarView::Unsigned(*n),
            JsonScalar::Other => JsonScalarView::Other,
        }
    }
}

/// What `serde_json` finds under `key` when `data` is parsed as a JSON
/// value: `None` when the bytes are not JSON, the value is not an object or
/// has no such member.
pub uninterp spec fn json_member(data: Seq<u8>, key: Seq<char>) -> Option<JsonScalarView>;

/// The view of an optional scalar.
pub open spec fn scalar_opt(s: Option<JsonScalar>) -> Option<JsonScalarView> {
    match s {
        Some(x) => Some(x@),
        None => None,
    }
}

/// Parses `data` with `serde_json::from_slice::<serde_json::Value>` and
/// reads the member `key` with `Value::get`, telling apart strings, booleans
/// and numbers that `as_u64` accepts. Claimed: the result is the named
/// member.
#[verifier::external_body]
fn json_field(data: &[u8], key: &str) -> (r: Option<JsonScalar>)
    ensures
        scalar_opt(r) == json_member(data@, key@),
{
    let value: serde_json::Value = match serde_json::from_slice(data) {
        Ok(v) => v,
        Err(_) => return None,
    };
    match value.get(key) {
        Some(serde_json::Value::String(s)) => Some(JsonScalar::Str(s.clone())),
        Some(serde_json::Value::Bool(b)) => Some(JsonScalar::Bool(*b)),
        Some(serde_json::Value::Number(n)) => Some(match n.as_u64() {
            Some(u) => JsonScalar::Unsigned(u),
            None => JsonScalar::Other,
        }),
        Some(_) => Some(JsonScalar::Other),
        None => None,
    }
}

/// The members of an event payload that event conversion reads.
#[derive(Debug, Clone)]
pub struct PayloadFields {
    pub old: Option<JsonScalar>,
    pub new: Option<JsonScalar>,
    pub is_focused: Option<JsonScalar>,
    pub cols: Option<JsonScalar>,
    pub rows: Option<JsonScalar>,
}

/// Reads the members of an event payload.
pub fn payload_fields(data: &[u8]) -> (f: PayloadFields)
    ensures
        scalar_opt(f.old) == json_member(data@, "old"@),
        scalar_opt(f.new) == json_member(data@, "new"@),
        scalar_opt(f.is_focused) == json_member(data@, "is_focused"@),
        scalar_opt(f.cols) == json_member(data@, "cols"@),
        scalar_opt(f.rows) == json_member(data@, "rows"@),
{
    PayloadFields {
        old: json_field(data, "old"),
        new: json_field(data, "new"),
        is_focused: json_field(data, "is_focused"),
        cols: json_field(data, "cols"),
        rows: json_field(data, "rows"),
    }
}

/// A typed event from the daemon.
#[derive(Debug, Clone, PartialEq, Eq)]
pub enum ClientEvent {
    Bell { pane: ObjectHandle },
    PaneTitleChanged { pane: ObjectHandle, old_title: String, new_title: String },
    WindowCreated { window: ObjectHandle },
    WindowClosed { window: ObjectHandle },
    WindowFocusChanged { window: ObjectHandle, is_focused: bool },
    WindowResized { window: ObjectHandle, cols: u16, rows: u16 },
    TabCreated { window: ObjectHandle, tab: ObjectHandle },
    TabClosed { window: ObjectHandle, tab: ObjectHandle },
    PaneCreated { window: ObjectHandle, tab: ObjectHandle, pane: ObjectHandle },
    PaneClosed { window: ObjectHandle, tab: ObjectHandle, pane: ObjectHandle },
}

/// A typed event with its texts as characters.
pub enum ClientEventView {
    Bell { pane: ObjectHandle },
    PaneTitleChanged { pane: ObjectHandle, old_title: Seq<char>, new_title: Seq<char> },
    WindowCreated { window: ObjectHandle },
    WindowClosed { window: ObjectHandle },
    WindowFocusChanged { window: ObjectHandle, is_focused: bool },
    WindowResized { window: ObjectHandle, cols: u16, rows: u16 },
    TabCreated { window: ObjectHandle, tab: ObjectHandle },
    TabClosed { window: ObjectHandle, tab: ObjectHandle },
    PaneCreated { window: ObjectHandle, tab: ObjectHandle, pane: ObjectHandle },
    PaneClosed { window: ObjectHandle, tab: ObjectHandle, pane: ObjectHandle },
}

impl View for ClientEvent {
    type V = ClientEventView;

    open spec fn view(&self) -> ClientEventView {
        match self {
            ClientEvent::Bell { pane } => ClientEventView::Bell { pane: *pane },
            ClientEvent::PaneTitleChanged { pane, old_title, new_title } => ClientEventView::PaneTitleChanged {
                pane: *pane,
                old_title: old_title@,
                new_title: new_title@,
            },
            ClientEvent::WindowCreated { window } => ClientEventView::WindowCreated { window: *window },
            ClientEvent::WindowClosed { window } => ClientEventView::WindowClosed { window: *window },
            ClientEvent::WindowFocusChanged { window, is_focused } => ClientEventView::WindowFocusChanged {
                window: *window,
                is_focused: *is_focused,
            },
            ClientEvent::WindowResized { window, cols, rows } => ClientEventView::WindowResized {
                window: *window,
                cols: *cols,
                rows: *rows,
            },
            ClientEvent::TabCreated { window, tab } => ClientEventView::TabCreated { window: *window, tab: *tab },
            ClientEvent::TabClosed { window, tab } => ClientEventView::TabClosed { window: *window, tab: *tab },
            ClientEvent::PaneCreated { window, tab, pane } => ClientEventView::PaneCreated {
                window: *window,
                tab: *tab,
                pane: *pane,
            },
            ClientEvent::PaneClosed { window, tab, pane } => ClientEventView::PaneClosed {
                window: *window,
                tab: *tab,
                pane: *pane,
            },
        }
    }
}

/// The view of an optional event.
pub open spec fn event_opt(e: Option<ClientEvent>) -> Option<ClientEventView> {
    match e {
        Some(x) => Some(x@),
        None => None,
    }
}

/// The handle of object `id` of a kind, at generation zero.
pub open spec fn handle(kind: ObjectKind, id: Option<u64>) -> Option<ObjectHandle> {
    match id {
        Some(i) => Some(ObjectHandle { object_type: kind, id: i, generation: 0 }),
        None => None,
    }
}

/// The text of a string member.
pub open spec fn str_member(m: Option<JsonScalarView>) -> Option<Seq<char>> {
    match m {
        Some(JsonScalarView::Str(s)) => Some(s),
        _ => None,
    }
}

/// The number of an unsigned member.
pub open spec fn u64_member(m: Option<JsonScalarView>) -> Option<u64> {
    match m {
        Some(JsonScalarView::Unsigned(n)) => Some(n),
        _ => None,
    }
}

/// The typed event for a message of type `t` about the given window, tab
/// and pane, whose payload has the members `old`, `new`, `focused`, `cols`
/// and `rows`: each type needs its objects (and, for a title change or a
/// resize, its members); unknown types and missing parts give nothing. A
/// focus change without a boolean member counts as unfocused; sizes are
/// truncated to 16 bits.
pub open spec fn typed_event(
    t: Seq<char>,
    window: Option<u64>,
    tab: Option<u64>,
    pane: Option<u64>,
    old: Option<JsonScalarView>,
    new: Option<JsonScalarView>,
    focused: Option<JsonScalarView>,
    cols: Option<JsonScalarView>,
    rows: Option<JsonScalarView>,
) -> Option<ClientEventView> {
    let w = handle(ObjectKind::Window, window);
    let tb = handle(ObjectKind::Tab, tab);
    let p = handle(ObjectKind::Pane, pane);
    if t == "bell"@ {
        match p { Some(p) => Some(ClientEventView::Bell { pane: p }), None => None }
    } else if t == "pane-title-changed"@ {
        match (p, str_member(old), str_member(new)) {
            (Some(p), Some(o), Some(n)) => Some(ClientEventView::PaneTitleChanged { pane: p, old_title: o, new_title: n }),
            _ => None,
        }
    } else if t == "window-created"@ {
        match w { Some(w) => Some(ClientEventView::WindowCreated { window: w }), None => None }
    } else if t == "window-closed"@ {
        match w { Some(w) => Some(ClientEventView::WindowClosed { window: w }), None => None }
    } else if t == "window-focus-changed"@ {
        match w {
            Some(w) => Some(ClientEventView::WindowFocusChanged {
                window: w,
                is_focused: match focused { Some(JsonScalarView::Bool(b)) => b, _ => false },
            }),
            None => None,
        }
    } else if t == "window-resized"@ {
        match (w, u64_member(cols), u64_member(rows)) {
            (Some(w), Some(c), Some(r)) => Some(ClientEventView::WindowResized { window: w, cols: c as u16, rows: r as u16 }),
            _ => None,
        }
    } else if t == "tab-created"@ {
        match (w, tb) { (Some(w), Some(tb)) => Some(ClientEventView::TabCreated { window: w, tab: tb }), _ => None }
    } else if t == "tab-closed"@ {
        match (w, tb) { (Some(w), Some(tb)) => Some(ClientEventView::TabClosed { window: w, tab: tb }), _ => None }
    } else if t == "pane-created"@ {
        match (w, tb, p) {
            (Some(w), Some(tb), Some(p)) => Some(ClientEventView::PaneCreated { window: w, tab: tb, pane: p }),
            _ => None,
        }
    } else if t == "pane-closed"@ {
        match (w, tb, p) {
            (Some(w), Some(tb), Some(p)) => Some(ClientEventView::PaneClosed { window: w, tab: tb, pane: p }),
            _ => None,
        }
    } else {
        None
    }
}

/// The handle with id `id` of an object of kind `kind`, first generation.
pub open spec fn first_handle(kind: ObjectKind, id: u64) -> ObjectHandle {
    ObjectHandle { object_type: kind, id, generation: 0 }
}

/// Each lifecycle message names what happened to what: a `*-created` type
/// gives the Created event and a `*-closed` type the Closed event of its
/// kind of object, with the window, tab and pane ids of the message as
/// first-generation handles; a bell rings on its pane.
pub proof fn lemma_lifecycle_events(
    w: u64,
    t: u64,
    p: u64,
    old: Option<JsonScalarView>,
    new: Option<JsonScalarView>,
    focused: Option<JsonScalarView>,
    cols: Option<JsonScalarView>,
    rows: Option<JsonScalarView>,
)
    ensures
        typed_event("window-created"@, Some(w), Some(t), Some(p), old, new, focused, cols, rows) == Some(
            ClientEventView::WindowCreated { window: first_handle(ObjectKind::Window, w) },
        ),
        typed_event("window-closed"@, Some(w), Some(t), Some(p), old, new, focused, cols, rows) == Some(
            ClientEventView::WindowClosed { window: first_handle(ObjectKind::Window, w) },
        ),
        typed_event("tab-created"@, Some(w), Some(t), Some(p), old, new, focused, cols, rows) == Some(
            ClientEventView::TabCreated {
                window: first_handle(ObjectKind::Window, w),
                tab: first_handle(ObjectKind::Tab, t),
            },
        ),
        typed_event("tab-closed"@, Some(w), Some(t), Some(p), old, new, focused, cols, rows) == Some(
            ClientEventView::TabClosed {
                window: first_handle(ObjectKind::Window, w),
                tab: first_handle(ObjectKind::Tab, t),
            },
        ),
        typed_event("pane-created"@, Some(w), Some(t), Some(p), old, new, focused, cols, rows) == Some(
            ClientEventView::PaneCreated {
                window: first_handle(ObjectKind::Window, w),
                tab: first_handle(ObjectKind::Tab, t),
                pane: first_handle(ObjectKind::Pane, p),
            },
        ),
        typed_event("pane-closed"@, Some(w), Some(t), Some(p), old, new, focused, cols, rows) == Some(
            ClientEventView::PaneClosed {
                window: first_handle(ObjectKind::Window, w),
                tab: first_handle(ObjectKind::Tab, t),
                pane: first_handle(ObjectKind::Pane, p),
            },
        ),
        typed_event("bell"@, Some(w), Some(t), Some(p), old, new, focused, cols, rows) == Some(
            ClientEventView::Bell { pane: first_handle(ObjectKind::Pane, p) },
        ),
        typed_event("pane-closed"@, Some(w), Some(t), None, old, new, focused, cols, rows) is None,
        typed_event("tab-closed"@, Some(w), None, Some(p), old, new, focused, cols, rows) is None,
        typed_event("window-closed"@, None, Some(t), Some(p), old, new, focused, cols, rows) is None,
{
    reveal_strlit("bell");
    reveal_strlit("pane-title-changed");
    reveal_strlit("window-created");
    reveal_strlit("window-closed");
    reveal_strlit("window-focus-changed");
    reveal_strlit("window-resized");
    reveal_strlit("tab-created");
    reveal_strlit("tab-closed");
    reveal_strlit("pane-created");
    reveal_strlit("pane-closed");
    // The type names differ at these positions.
    assert("bell"@[0] == 'b');
    assert("pane-title-changed"@[0] == 'p' && "pane-title-changed"@[5] == 't' && "pane-title-changed"@[6] == 'i' && "pane-title-changed"@[8] == 'l');
    assert("window-created"@[0] == 'w' && "window-created"@[5] == 'w' && "window-created"@[6] == '-' && "window-created"@[8] == 'r');
    assert("window-closed"@[0] == 'w' && "window-closed"@[5] == 'w' && "window-closed"@[6] == '-' && "window-closed"@[8] == 'l');
    assert("window-focus-changed"@[0] == 'w' && "window-focus-changed"@[5] == 'w' && "window-focus-changed"@[6] == '-' && "window-focus-changed"@[8] == 'o');
    assert("window-resized"@[0] == 'w' && "window-resized"@[5] == 'w' && "window-resized"@[6] == '-' && "window-resized"@[8] == 'e');
    assert("tab-created"@[0] == 't' && "tab-created"@[5] == 'r' && "tab-created"@[6] == 'e' && "tab-created"@[8] == 't');
    assert("tab-closed"@[0] == 't' && "tab-closed"@[5] == 'l' && "tab-closed"@[6] == 'o' && "tab-closed"@[8] == 'e');
    assert("pane-created"@[0] == 'p' && "pane-created"@[5] == 'c' && "pane-created"@[6] == 'r' && "pane-created"@[8] == 'a');
    assert("pane-closed"@[0] == 'p' && "pane-closed"@[5] == 'c' && "pane-closed"@[6] == 'l' && "pane-closed"@[8] == 's');
}

/// The payload-carrying messages: a resize reports the columns and rows of
/// its payload (in that order), a focus change its `is_focused` flag (false
/// when missing), a title change the old and new titles of its payload.
pub proof fn lemma_payload_events(
    w: u64,
    t: u64,
    p: u64,
    old_title: Seq<char>,
    new_title: Seq<char>,
    focused: bool,
    c: u64,
    r: u64,
)
    ensures
        typed_event(
            "window-resized"@,
            Some(w),
            Some(t),
            Some(p),
            None,
            None,
            None,
            Some(JsonScalarView::Unsigned(c)),
            Some(JsonScalarView::Unsigned(r)),
        ) == Some(
            ClientEventView::WindowResized { window: first_handle(ObjectKind::Window, w), cols: c as u16, rows: r as u16 },
        ),
        typed_event(
            "window-focus-changed"@,
            Some(w),
            Some(t),
            Some(p),
            None,
            None,
            Some(JsonScalarView::Bool(focused)),
            None,
            None,
        ) == Some(ClientEventView::WindowFocusChanged { window: first_handle(ObjectKind::Window, w), is_focused: focused }),
        typed_event("window-focus-changed"@, Some(w), Some(t), Some(p), None, None, None, None, None) == Some(
            ClientEventView::WindowFocusChanged { window: first_handle(ObjectKind::Window, w), is_focused: false },
        ),
        typed_event(
            "pane-title-changed"@,
            Some(w),
            Some(t),
            Some(p),
            Some(JsonScalarView::Str(old_title)),
            Some(JsonScalarView::Str(new_title)),
            None,
            None,
            None,
        ) == Some(
            ClientEventView::PaneTitleChanged {
                pane: first_handle(ObjectKind::Pane, p),
                old_title,
                new_title,
            },
        ),
        typed_event("window-resized"@, Some(w), Some(t), Some(p), None, None, None, None, None) is None,
{
    reveal_strlit("bell");
    reveal_strlit("pane-title-changed");
    reveal_strlit("window-created");
    reveal_strlit("window-closed");
    reveal_strlit("window-focus-changed");
    reveal_strlit("window-resized");
    assert("bell"@[0] == 'b');
    assert("pane-title-changed"@[0] == 'p' && "pane-title-changed"@[7] == 't');
    assert("window-created"@[7] == 'c' && "window-closed"@[7] == 'c');
    assert("window-focus-changed"@[0] == 'w' && "window-focus-changed"@[7] == 'f');
    assert("window-resized"@[0] == 'w' && "window-resized"@[7] == 'r');
}

fn make_handle(kind: ObjectKind, id: Option<u64>) -> (h: Option<ObjectHandle>)
    ensures
        h == handle(kind, id),
{
    match id {
        Some(i) => Some(ObjectHandle { object_type: kind, id: i, generation: 0 }),
        None => None,
    }
}

fn member_str(m: &Option<JsonScalar>) -> (r: Option<String>)
    ensures
        match str_member(scalar_opt(*m)) {
            Some(s) => (r matches Some(x) && x@ == s),
            None => r is None,
        },
{
    match m {
        Some(JsonScalar::Str(s)) => Some(s.clone()),
        _ => None,
    }
}

fn member_u64(m: &Option<JsonScalar>) -> (r: Option<u64>)
    ensures
        r == u64_member(scalar_opt(*m)),
{
    match m {
        Some(JsonScalar::Unsigned(n)) => Some(*n),
        _ => None,
    }
}

/// The typed event for a message, given its payload's members.
pub fn classify_event(
    event_type: &str,
    window_id: Option<u64>,
    tab_id: Option<u64>,
    pane_id: Option<u64>,
    fields: &PayloadFields,
) -> (r: Option<ClientEvent>)
    ensures
        event_opt(r) == typed_event(
            event_type@,
            window_id,
            tab_id,
            pane_id,
            scalar_opt(fields.old),
            scalar_opt(fields.new),
            scalar_opt(fields.is_focused),
            scalar_opt(fields.cols),
            scalar_opt(fields.rows),
        ),
{
    proof {
        reveal_strlit("bell");
        reveal_strlit("pane-title-changed");
        reveal_strlit("window-created");
        reveal_strlit("window-closed");
        reveal_strlit("window-focus-changed");
        reveal_strlit("window-resized");
        reveal_strlit("tab-created");
        reveal_strlit("tab-closed");
        reveal_strlit("pane-created");
        reveal_strlit("pane-closed");
    }
    let window = make_handle(ObjectKind::Window, window_id);
    let tab = make_handle(ObjectKind::Tab, tab_id);
    let pane = make_handle(ObjectKind::Pane, pane_id);
    if str_eq(event_type, "bell") {
        match pane { Some(p) => Some(ClientEvent::Bell { pane: p }), None => None }
    } else if str_eq(event_type, "pane-title-changed") {
        match (pane, member_str(&fields.old), member_str(&fields.new)) {
            (Some(p), Some(o), Some(n)) => Some(ClientEvent::PaneTitleChanged { pane: p, old_title: o, new_title: n }),
            _ => None,
        }
    } else if str_eq(event_type, "window-created") {
        match window { Some(w) => Some(ClientEvent::WindowCreated { window: w }), None => None }
    } else if str_eq(event_type, "window-closed") {
        match window { Some(w) => Some(ClientEvent::WindowClosed { window: w }), None => None }
    } else if str_eq(event_type, "window-focus-changed") {
        match window {
            Some(w) => {
                let is_focused = match &fields.is_focused {
                    Some(JsonScalar::Bool(b)) => *b,
                    _ => false,
                };
                Some(ClientEvent::WindowFocusChanged { window: w, is_focused })
            },
            None => None,
        }
    } else if str_eq(event_type, "window-resized") {
        match (window, member_u64(&fields.cols), member_u64(&fields.rows)) {
            (Some(w), Some(c), Some(r)) => Some(ClientEvent::WindowResized { window: w, cols: c as u16, rows: r as u16 }),
            _ => None,
        }
    } else if str_eq(event_type, "tab-created") {
        match (window, tab) { (Some(w), Some(t)) => Some(ClientEvent::TabCreated { window: w, tab: t }), _ => None }
    } else if str_eq(event_type, "tab-closed") {
        match (window, tab) { (Some(w), Some(t)) => Some(ClientEvent::TabClosed { window: w, tab: t }), _ => None }
    } else if str_eq(event_type, "pane-created") {
        match (window, tab, pane) {
            (Some(w), Some(t), Some(p)) => Some(ClientEvent::PaneCreated { window: w, tab: t, pane: p }),
            _ => None,
        }
    } else if str_eq(event_type, "pane-closed") {
        match (window, tab, pane) {
            (Some(w), Some(t), Some(p)) => Some(ClientEvent::PaneClosed { window: w, tab: t, pane: p }),
            _ => None,
        }
    } else {
        None
    }
}

/// The typed event for a daemon event message, if its type is known and it
/// carries what that type needs.
pub fn convert_event(msg: &DaemonEventMessage) -> (r: Option<ClientEvent>)
    ensures
        event_opt(r) == typed_event(
            msg.event_type@,
            msg.window_id,
            msg.tab_id,
            msg.pane_id,
            json_member(msg.data@, "old"@),
            json_member(msg.data@, "new"@),
            json_member(msg.data@, "is_focused"@),
            json_member(msg.data@, "cols"@),
            json_member(msg.data@, "rows"@),
        ),
{
    let fields = payload_fields(msg.data.as_slice());
    classify_event(msg.event_type.as_str(), msg.window_id, msg.tab_id, msg.pane_id, &fields)
}

} // verus!
