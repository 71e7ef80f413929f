use scarab_client::accessibility::commands::{
    float_literal_check, parse_accessibility_command, parse_export_command, AccessibilityCommand,
};
use scarab_client::accessibility::export::TerminalExporter;
use scarab_client::accessibility::screen_reader::{Announcement, AnnouncementPriority, ScreenReaderState};
use scarab_client::accessibility::settings::ExportFormat;
use scarab_client::grid::{extract_grid_text, get_cell_at, GridCell};

fn create_test_grid() -> Vec<GridCell> {
    let mut grid = vec![GridCell::default(); 80 * 24];
    for (i, &byte) in b"Hello, World!".iter().enumerate() {
        grid[i].char_codepoint = byte as u32;
    }
    grid
}

#[test]
fn test_export_to_text() {
    let grid = create_test_grid();
    let text = TerminalExporter::export_to_text(&grid, 80, 24);
    assert!(text.contains("Hello, World!"));
}

#[test]
fn test_export_to_html() {
    let grid = create_test_grid();
    let html = TerminalExporter::export_to_html(&grid, 80, 24);
    assert!(html.contains("<!DOCTYPE html>"));
    assert!(html.contains("Hello, World!"));
}

#[test]
fn test_export_to_markdown() {
    let grid = create_test_grid();
    let md = TerminalExporter::export_to_markdown(&grid, 80, 24);
    assert!(md.contains("```"));
    assert!(md.contains("Hello, World!"));
}

#[test]
fn test_extract_region() {
    let grid = create_test_grid();
    let region = TerminalExporter::extract_region(&grid, 80, 0, 0, 13, 1);
    assert_eq!(region.trim(), "Hello, World!");
}

#[test]
fn test_extract_line() {
    let grid = create_test_grid();
    let line = TerminalExporter::extract_line(&grid, 80, 0);
    assert_eq!(line.trim(), "Hello, World!");
}

#[test]
fn plain_text_export_drops_trailing_blanks() {
    let mut grid = vec![GridCell::default(); 4 * 2];
    grid[0].char_codepoint = 'a' as u32;
    grid[5].char_codepoint = 'b' as u32;
    assert_eq!(TerminalExporter::export_to_text(&grid, 4, 2), "a\n b\n");
}

#[test]
fn html_export_escapes_markup() {
    let mut grid = vec![GridCell::default(); 3];
    grid[0].char_codepoint = '<' as u32;
    grid[1].char_codepoint = '&' as u32;
    grid[2].char_codepoint = '>' as u32;
    let html = TerminalExporter::export_to_html(&grid, 3, 1);
    assert!(html.contains("<span class=\"terminal-line\">&lt;&amp;&gt;</span>"));
    assert!(!html.contains("<&>"));
}

#[test]
fn test_parse_export_command() {
    let event = parse_export_command(":a11y export text /tmp/output.txt");
    assert!(event.is_some());
    let event = event.unwrap();
    assert_eq!(event.format, ExportFormat::PlainText);
    assert_eq!(event.path, "/tmp/output.txt");
}

#[test]
fn export_command_needs_format_and_path() {
    assert!(parse_export_command(":a11y export text").is_none());
    assert!(parse_export_command(":a11y export pdf /tmp/x").is_none());
    assert!(parse_export_command("export text /tmp/x").is_none());
}

#[test]
fn test_parse_accessibility_command_export() {
    let parsed = parse_accessibility_command(":a11y export html /tmp/output.html");
    assert!(matches!(parsed, Some(AccessibilityCommand::Export { .. })));
}

#[test]
fn test_parse_accessibility_command_contrast() {
    let parsed = parse_accessibility_command(":a11y contrast toggle");
    assert!(matches!(parsed, Some(AccessibilityCommand::ToggleHighContrast)));
}

#[test]
fn test_parse_accessibility_command_scale() {
    let parsed = parse_accessibility_command(":a11y scale 1.5");
    match parsed {
        Some(AccessibilityCommand::SetTextScale { scale }) => assert_eq!(scale.parse::<f32>(), Ok(1.5)),
        other => panic!("unexpected {:?}", other),
    }
}

#[test]
fn test_parse_accessibility_command_help() {
    let parsed = parse_accessibility_command(":a11y help");
    assert!(matches!(parsed, Some(AccessibilityCommand::Help)));
}

#[test]
fn unknown_accessibility_commands_are_refused() {
    assert!(parse_accessibility_command(":a11y").is_none());
    assert!(parse_accessibility_command(":a11y frobnicate").is_none());
    assert!(parse_accessibility_command(":other help").is_none());
}

#[test]
fn export_format_names() {
    assert_eq!(ExportFormat::from_str("TXT"), Some(ExportFormat::PlainText));
    assert_eq!(ExportFormat::from_str("md"), Some(ExportFormat::Markdown));
    assert_eq!(ExportFormat::from_str("pdf"), None);
    assert_eq!(ExportFormat::Html.extension(), "html");
    assert_eq!(ExportFormat::Markdown.mime_type(), "text/markdown");
}

#[test]
fn test_announcement_creation() {
    let ann = Announcement::new("Test message".to_string());
    assert_eq!(ann.text, "Test message");
    assert_eq!(ann.priority, AnnouncementPriority::Medium);
    assert!(!ann.interrupt);
}

#[test]
fn test_urgent_announcement() {
    let ann = Announcement::urgent("Urgent message".to_string());
    assert_eq!(ann.priority, AnnouncementPriority::High);
    assert!(ann.interrupt);
}

#[test]
fn test_critical_announcement() {
    let ann = Announcement::critical("Critical message".to_string());
    assert_eq!(ann.priority, AnnouncementPriority::Critical);
    assert!(ann.interrupt);
}

#[test]
fn test_screen_reader_state_default() {
    let state = ScreenReaderState::default();
    assert!(!state.enabled);
    assert!(state.announce_cursor);
    assert!(state.announce_focus);
    assert!(state.announce_content);
}

const GRID_WIDTH: usize = 200;
const GRID_HEIGHT: usize = 100;

#[test]
fn test_extract_grid_text() {
    let mut cells = vec![GridCell::default(); GRID_WIDTH * GRID_HEIGHT];
    cells[0].char_codepoint = 'H' as u32;
    cells[1].char_codepoint = 'i' as u32;
    let text = extract_grid_text(&cells, GRID_WIDTH, GRID_HEIGHT);
    assert!(text.starts_with("Hi"));
}

#[test]
fn test_get_cell_at() {
    let cells = vec![GridCell::default(); GRID_WIDTH * GRID_HEIGHT];
    assert!(get_cell_at(&cells, GRID_WIDTH, GRID_HEIGHT, 0, 0).is_some());
    assert!(get_cell_at(&cells, GRID_WIDTH, GRID_HEIGHT, GRID_WIDTH, 0).is_none());
    assert!(get_cell_at(&cells, GRID_WIDTH, GRID_HEIGHT, 0, GRID_HEIGHT).is_none());
}

#[test]
fn grid_text_shows_placeholders() {
    let mut cells = vec![GridCell::default(); 3];
    cells[0].char_codepoint = 0;
    cells[1].char_codepoint = 0xD800;
    cells[2].char_codepoint = 'z' as u32;
    assert_eq!(extract_grid_text(&cells, 3, 1), " ?z");
    assert_eq!(extract_grid_text(&cells, 2, 2), " ?\nz ");
}

#[test]
fn scale_reset_resets() {
    assert_eq!(parse_accessibility_command(":a11y scale reset"), Some(AccessibilityCommand::ResetTextScale));
}

#[test]
fn scale_increase_and_decrease_take_an_optional_delta() {
    assert_eq!(
        parse_accessibility_command(":a11y scale increase 0.2"),
        Some(AccessibilityCommand::IncreaseTextScale { delta: Some("0.2".to_string()) })
    );
    assert_eq!(
        parse_accessibility_command(":a11y scale increase"),
        Some(AccessibilityCommand::IncreaseTextScale { delta: None })
    );
    assert_eq!(
        parse_accessibility_command(":a11y scale decrease 0.3"),
        Some(AccessibilityCommand::DecreaseTextScale { delta: Some("0.3".to_string()) })
    );
    assert_eq!(
        parse_accessibility_command(":a11y scale decrease"),
        Some(AccessibilityCommand::DecreaseTextScale { delta: None })
    );
}

#[test]
fn scale_word_that_is_no_number_is_refused() {
    assert_eq!(parse_accessibility_command(":a11y scale abc"), None);
    assert_eq!(parse_accessibility_command(":a11y scale 1.5.2"), None);
    assert_eq!(parse_accessibility_command(":a11y scale"), None);
}

#[test]
fn float_literals_agree_with_the_standard_parser() {
    let cases = [
        "1", "1.5", "-2.", ".5", "+.5e3", "1e10", "1E-3", "inf", "-Infinity", "NaN", "", ".", "e5", "1e",
        "1e+", "1.5.2", "abc", "--1", "1_0", "0x10", "infinit", "1.e4", "5E+07",
    ];
    for c in cases {
        let chars: Vec<char> = c.chars().collect();
        assert_eq!(float_literal_check(&chars), c.parse::<f32>().is_ok(), "case {:?}", c);
    }
}
