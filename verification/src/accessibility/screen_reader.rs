//! Screen reader announcements and settings.
use vstd::prelude::*;

verus! {

/// Priority of an announcement.
#[derive(Debug, Clone, Copy, PartialEq, Eq, Structural)]
pub enum AnnouncementPriority {
    /// Can be interrupted
    Low,
    /// Normal announcements
    Medium,
    /// Important information
    High,
    /// Must be heard immediately
    Critical,
}

/// A screen reader announcement.
#[derive(Debug, Clone)]
pub struct Announcement {
    /// Text to announce
    pub text: String,
    /// Priority level
    pub priority: AnnouncementPriority,
    /// Whether to interrupt current speech
    pub interrupt: bool,
}

impl Announcement {
    /// A normal announcement that waits its turn.
    pub fn new(text: String) -> (a: Self)
        ensures
            a.text == text,
            a.priority == AnnouncementPriority::Medium,
            !a.interrupt,
    {
        Announcement { text, priority: AnnouncementPriority::Medium, interrupt: false }
    }

    /// A high priority announcement that interrupts.
    pub fn urgent(text: String) -> (a: Self)
        ensures
            a.text == text,
            a.priority == AnnouncementPriority::High,
            a.interrupt,
    {
        Announcement { text, priority: AnnouncementPriority::High, interrupt: true }
    }

    /// A critical announcement that interrupts.
    pub fn critical(text: String) -> (a: Self)
        ensures
            a.text == text,
            a.priority == AnnouncementPriority::Critical,
            a.interrupt,
    {
        Announcement { text, priority: AnnouncementPriority::Critical, interrupt: true }
    }
}

/// Screen reader settings.
#[derive(Debug, Clone, Copy, PartialEq, Eq, Structural)]
pub struct ScreenReaderState {
    /// Whether screen reader support is enabled
    pub enabled: bool,
    /// Whether to announce cursor movements
    pub announce_cursor: bool,
    /// Whether to announce focus changes
    pub announce_focus: bool,
    /// Whether to announce content changes
    pub announce_content: bool,
    /// Last announced line (to avoid duplicate announcements)
    pub last_announced_line: Option<usize>,
    /// Whether a screen reader connection is up
    pub atspi_connected: bool,
}

impl ScreenReaderState {
    /// Disabled until enabled explicitly; announcing cursor, focus and
    /// content once enabled.
    pub fn default() -> (s: Self)
        ensures
            !s.enabled,
            s.announce_cursor,
            s.announce_focus,
            s.announce_content,
            s.last_announced_line is None,
            !s.atspi_connected,
    {
        ScreenReaderState {
            enabled: false,
            announce_cursor: true,
            announce_focus: true,
            announce_content: true,
            last_announced_line: None,
            atspi_connected: false,
        }
    }
}

} // verus!
