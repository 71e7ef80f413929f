//! Export formats.
use vstd::prelude::*;
use crate::text::{str_eq, to_lowercase, unicode_lowercase};

verus! {

/// Export format options.
#[derive(Debug, Clone, Copy, PartialEq, Eq, Structural)]
pub enum ExportFormat {
    /// Plain text with ANSI stripped
    PlainText,
    /// HTML with CSS color preservation
    Html,
    /// Markdown code block format
    Markdown,
}

/// The format a name stands for, ignoring case.
pub open spec fn format_named(lower: Seq<char>) -> Option<ExportFormat> {
    if lower == "text"@ || lower == "txt"@ || lower == "plain"@ {
        Some(ExportFormat::PlainText)
    } else if lower == "html"@ || lower == "htm"@ {
        Some(ExportFormat::Html)
    } else if lower == "markdown"@ || lower == "md"@ {
        Some(ExportFormat::Markdown)
    } else {
        None
    }
}

/// A format's file extension names the format again: reading back the
/// extension that `extension` gives yields the same format, and the formats
/// have distinct extensions.
pub proof fn lemma_extension_round_trip()
    ensures
        format_named("txt"@) == Some(ExportFormat::PlainText),
        format_named("html"@) == Some(ExportFormat::Html),
        format_named("md"@) == Some(ExportFormat::Markdown),
        format_named("text"@) == Some(ExportFormat::PlainText),
        format_named("plain"@) == Some(ExportFormat::PlainText),
        format_named("htm"@) == Some(ExportFormat::Html),
        format_named("markdown"@) == Some(ExportFormat::Markdown),
        format_named("pdf"@) is None,
{
    reveal_strlit("text");
    reveal_strlit("txt");
    reveal_strlit("plain");
    reveal_strlit("html");
    reveal_strlit("htm");
    reveal_strlit("markdown");
    reveal_strlit("md");
    reveal_strlit("pdf");
    assert("txt"@[1] == 'x' && "text"@[1] == 'e');
    assert("html"@[0] == 'h' && "htm"@.len() == 3 && "html"@.len() == 4);
    assert("md"@[0] == 'm' && "markdown"@[0] == 'm' && "md"@.len() == 2);
    assert("pdf"@[0] == 'p' && "plain"@[1] == 'l' && "pdf"@[1] == 'd');
}

impl ExportFormat {
    /// File extension for this format.
    pub fn extension(&self) -> (r: &'static str)
        ensures
            r@ == match self {
                ExportFormat::PlainText => "txt"@,
                ExportFormat::Html => "html"@,
                ExportFormat::Markdown => "md"@,
            },
    {
        match self {
            ExportFormat::PlainText => "txt",
            ExportFormat::Html => "html",
            ExportFormat::Markdown => "md",
        }
    }

    /// MIME type for this format.
    pub fn mime_type(&self) -> (r: &'static str)
        ensures
            r@ == match self {
                ExportFormat::PlainText => "text/plain"@,
                ExportFormat::Html => "text/html"@,
                ExportFormat::Markdown => "text/markdown"@,
            },
    {
        match self {
            ExportFormat::PlainText => "text/plain",
            ExportFormat::Html => "text/html",
            ExportFormat::Markdown => "text/markdown",
        }
    }

    /// Parse a format name, ignoring case.
    pub fn from_str(s: &str) -> (r: Option<Self>)
        ensures
            r == format_named(unicode_lowercase(s@)),
    {
        let lower = to_lowercase(s);
        let l = lower.as_str();
        if str_eq(l, "text") || str_eq(l, "txt") || str_eq(l, "plain") {
            Some(ExportFormat::PlainText)
        } else if str_eq(l, "html") || str_eq(l, "htm") {
            Some(ExportFormat::Html)
        } else if str_eq(l, "markdown") || str_eq(l, "md") {
            Some(ExportFormat::Markdown)
        } else {
            None
        }
    }
}

} // verus!
