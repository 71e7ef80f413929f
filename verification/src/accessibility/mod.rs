//! Accessibility: exporting the terminal grid as text, HTML or Markdown,
//! the export formats, accessibility commands and screen reader
//! announcements.
pub mod settings;
pub mod export;
pub mod commands;
pub mod screen_reader;
