//! Accessibility commands typed at the command line: `:a11y export`,
//! `:a11y contrast toggle`, `:a11y scale` and `:a11y help`, and the grammar
//! of the floating-point literals that a scale factor is written in.
use vstd::prelude::*;
use crate::accessibility::settings::{format_named, ExportFormat};
use crate::text::{
    chars_eq, chars_eq_ignore_ascii_case, eq_ignore_ascii_case, push_char, push_chars,
    split_whitespace, string_from_chars, unicode_lowercase, views, words,
};

verus! {

/// Request to export the terminal grid.
#[derive(Debug, Clone)]
pub struct ExportGridEvent {
    /// Export format
    pub format: ExportFormat,
    /// Output file path
    pub path: String,
}

/// An accessibility command. Scale factors and deltas are kept as typed: a
/// scale factor is a floating-point literal, which the caller reads; a delta
/// that the caller cannot read, or that is missing, means the default step.
#[derive(Debug, Clone, PartialEq, Eq)]
pub enum AccessibilityCommand {
    Export { format: ExportFormat, path: String },
    ToggleHighContrast,
    SetTextScale { scale: String },
    IncreaseTextScale { delta: Option<String> },
    DecreaseTextScale { delta: Option<String> },
    ResetTextScale,
    Help,
}

/// A command with its texts as characters.
pub enum CommandView {
    Export { format: ExportFormat, path: Seq<char> },
    ToggleHighContrast,
    SetTextScale { scale: Seq<char> },
    IncreaseTextScale { delta: Option<Seq<char>> },
    DecreaseTextScale { delta: Option<Seq<char>> },
    ResetTextScale,
    Help,
}

impl View for AccessibilityCommand {
    type V = CommandView;

    open spec fn view(&self) -> CommandView {
        match self {
            AccessibilityCommand::Export { format, path } => CommandView::Export { format: *format, path: path@ },
            AccessibilityCommand::ToggleHighContrast => CommandView::ToggleHighContrast,
            AccessibilityCommand::SetTextScale { scale } => CommandView::SetTextScale { scale: scale@ },
            AccessibilityCommand::IncreaseTextScale { delta } => CommandView::IncreaseTextScale {
                delta: match delta { Some(d) => Some(d@), None => None },
            },
            AccessibilityCommand::DecreaseTextScale { delta } => CommandView::DecreaseTextScale {
                delta: match delta { Some(d) => Some(d@), None => None },
            },
            AccessibilityCommand::ResetTextScale => CommandView::ResetTextScale,
            AccessibilityCommand::Help => CommandView::Help,
        }
    }
}

/// Words joined by single spaces.
pub open spec fn joined(ws: Seq<Seq<char>>) -> Seq<char>
    decreases ws.len(),
{
    if ws.len() == 0 {
        seq![]
    } else if ws.len() == 1 {
        ws[0]
    } else {
        joined(ws.drop_last()) + seq![' '] + ws.last()
    }
}

/// The export request of a command's words: `:a11y export <format> <path>`,
/// the path being the remaining words joined by spaces.
pub open spec fn export_request(ws: Seq<Seq<char>>) -> Option<(ExportFormat, Seq<char>)> {
    if ws.len() < 4 || ws[0] != ":a11y"@ || ws[1] != "export"@ {
        None
    } else {
        match format_named(unicode_lowercase(ws[2])) {
            Some(f) => Some((f, joined(ws.skip(3)))),
            None => None,
        }
    }
}

/// The command of a line's words.
pub open spec fn command_of(ws: Seq<Seq<char>>) -> Option<CommandView> {
    if ws.len() < 2 || ws[0] != ":a11y"@ {
        None
    } else if ws[1] == "export"@ && ws.len() >= 4 {
        match format_named(unicode_lowercase(ws[2])) {
            Some(f) => Some(CommandView::Export { format: f, path: joined(ws.skip(3)) }),
            None => None,
        }
    } else if ws[1] == "contrast"@ && ws.len() >= 3 && ws[2] == "toggle"@ {
        Some(CommandView::ToggleHighContrast)
    } else if ws[1] == "scale"@ && ws.len() >= 3 && ws[2] == "reset"@ {
        Some(CommandView::ResetTextScale)
    } else if ws[1] == "scale"@ && ws.len() >= 3 && ws[2] == "increase"@ {
        Some(CommandView::IncreaseTextScale { delta: if ws.len() >= 4 { Some(ws[3]) } else { None } })
    } else if ws[1] == "scale"@ && ws.len() >= 3 && ws[2] == "decrease"@ {
        Some(CommandView::DecreaseTextScale { delta: if ws.len() >= 4 { Some(ws[3]) } else { None } })
    } else if ws[1] == "scale"@ && ws.len() >= 3 && is_float_literal(ws[2]) {
        Some(CommandView::SetTextScale { scale: ws[2] })
    } else if ws[1] == "help"@ {
        Some(CommandView::Help)
    } else {
        None
    }
}

/// A decimal digit.
pub open spec fn is_digit(c: char) -> bool {
    '0' <= c && c <= '9'
}

/// Every character is a decimal digit.
pub open spec fn all_digits(s: Seq<char>) -> bool {
    forall|i: int| 0 <= i < s.len() ==> is_digit(#[trigger] s[i])
}

/// `Digit+`, `Digit+ '.' Digit*` or `Digit* '.' Digit+`.
pub open spec fn is_decimal(s: Seq<char>) -> bool {
    ||| s.len() > 0 && all_digits(s)
    ||| exists|k: int|
        0 <= k < s.len() && s[k] == '.' && s.len() > 1 && all_digits(#[trigger] s.subrange(0, k))
            && all_digits(s.subrange(k + 1, s.len() as int))
}

/// What follows the exponent mark: `Sign? Digit+`.
pub open spec fn is_exponent(t: Seq<char>) -> bool {
    if t.len() > 0 && (t[0] == '+' || t[0] == '-') {
        t.len() > 1 && all_digits(t.subrange(1, t.len() as int))
    } else {
        t.len() > 0 && all_digits(t)
    }
}

/// `Decimal ( ('e' | 'E') Exponent )?`
pub open spec fn is_number(s: Seq<char>) -> bool {
    ||| is_decimal(s)
    ||| exists|e: int|
        0 <= e < s.len() && (s[e] == 'e' || s[e] == 'E') && is_decimal(#[trigger] s.subrange(0, e))
            && is_exponent(s.subrange(e + 1, s.len() as int))
}

/// The text without a leading sign.
pub open spec fn unsigned_part(s: Seq<char>) -> Seq<char> {
    if s.len() > 0 && (s[0] == '+' || s[0] == '-') {
        s.subrange(1, s.len() as int)
    } else {
        s
    }
}

/// A floating-point literal as the standard library reads one:
/// `Sign? ( 'inf' | 'infinity' | 'nan' | Number )`, the names in any case.
pub open spec fn is_float_literal(s: Seq<char>) -> bool {
    let b = unsigned_part(s);
    ||| eq_ignore_ascii_case(b, "inf"@)
    ||| eq_ignore_ascii_case(b, "infinity"@)
    ||| eq_ignore_ascii_case(b, "nan"@)
    ||| is_number(b)
}

fn digits_only(s: &[char]) -> (r: bool)
    ensures
        r == all_digits(s@),
{
    let mut i: usize = 0;
    while i < s.len()
        invariant
            i <= s@.len(),
            forall|j: int| 0 <= j < i ==> is_digit(#[trigger] s@[j]),
        decreases s.len() - i,
    {
        if !(s[i] >= '0' && s[i] <= '9') {
            assert(!is_digit(s@[i as int]));
            return false;
        }
        i = i + 1;
    }
    true
}

proof fn lemma_decimal_chars(s: Seq<char>, i: int)
    requires
        is_decimal(s),
        0 <= i < s.len(),
    ensures
        is_digit(s[i]) || s[i] == '.',
{
    if !(s.len() > 0 && all_digits(s)) {
        let k = choose|k: int|
            0 <= k < s.len() && s[k] == '.' && s.len() > 1 && all_digits(#[trigger] s.subrange(0, k))
                && all_digits(s.subrange(k + 1, s.len() as int));
        if i < k {
            assert(s.subrange(0, k)[i] == s[i]);
        } else if i > k {
            assert(s.subrange(k + 1, s.len() as int)[i - k - 1] == s[i]);
        }
    }
}

fn decimal_check(s: &[char]) -> (r: bool)
    ensures
        r == is_decimal(s@),
{
    let mut k: usize = 0;
    while k < s.len() && s[k] != '.'
        invariant
            k <= s@.len(),
            forall|j: int| 0 <= j < k ==> s@[j] != '.',
        decreases s.len() - k,
    {
        k = k + 1;
    }
    if k == s.len() {
        let r = s.len() > 0 && digits_only(s);
        proof {
            if !r {
                assert forall|k2: int|
                    0 <= k2 < s@.len() && s@[k2] == '.' && s@.len() > 1 && all_digits(
                        #[trigger] s@.subrange(0, k2),
                    ) implies !all_digits(s@.subrange(k2 + 1, s@.len() as int)) by {
                    assert(s@[k2] != '.');
                }
            }
        }
        r
    } else {
        let before = vstd::slice::slice_subrange(s, 0, k);
        let after = vstd::slice::slice_subrange(s, k + 1, s.len());
        let r = s.len() > 1 && digits_only(before) && digits_only(after);
        proof {
            assert(!is_digit(s@[k as int]));
            if r {
                assert(all_digits(s@.subrange(0, k as int)));
            } else {
                assert forall|k2: int|
                    0 <= k2 < s@.len() && s@[k2] == '.' && s@.len() > 1 && all_digits(
                        #[trigger] s@.subrange(0, k2),
                    ) implies !all_digits(s@.subrange(k2 + 1, s@.len() as int)) by {
                    if k2 > k {
                        assert(s@.subrange(0, k2)[k as int] == s@[k as int]);
                    }
                    assert(k2 == k);
                }
            }
        }
        r
    }
}

fn exponent_check(t: &[char]) -> (r: bool)
    ensures
        r == is_exponent(t@),
{
    if t.len() > 0 && (t[0] == '+' || t[0] == '-') {
        let rest = vstd::slice::slice_subrange(t, 1, t.len());
        t.len() > 1 && digits_only(rest)
    } else {
        t.len() > 0 && digits_only(t)
    }
}

fn number_check(s: &[char]) -> (r: bool)
    ensures
        r == is_number(s@),
{
    let mut e: usize = 0;
    while e < s.len() && s[e] != 'e' && s[e] != 'E'
        invariant
            e <= s@.len(),
            forall|j: int| 0 <= j < e ==> s@[j] != 'e' && s@[j] != 'E',
        decreases s.len() - e,
    {
        e = e + 1;
    }
    if e == s.len() {
        let r = decimal_check(s);
        proof {
            assert forall|e2: int|
                0 <= e2 < s@.len() && (s@[e2] == 'e' || s@[e2] == 'E') implies !is_decimal(
                #[trigger] s@.subrange(0, e2),
            ) || !is_exponent(s@.subrange(e2 + 1, s@.len() as int)) by {
                assert(s@[e2] != 'e' && s@[e2] != 'E');
            }
        }
        r
    } else {
        let mantissa = vstd::slice::slice_subrange(s, 0, e);
        let rest = vstd::slice::slice_subrange(s, e + 1, s.len());
        let r = decimal_check(mantissa) && exponent_check(rest);
        proof {
            if is_decimal(s@) {
                lemma_decimal_chars(s@, e as int);
            }
            if !r {
                assert forall|e2: int|
                    0 <= e2 < s@.len() && (s@[e2] == 'e' || s@[e2] == 'E') implies !is_decimal(
                    #[trigger] s@.subrange(0, e2),
                ) || !is_exponent(s@.subrange(e2 + 1, s@.len() as int)) by {
                    if e2 > e && is_decimal(s@.subrange(0, e2)) {
                        lemma_decimal_chars(s@.subrange(0, e2), e as int);
                    }
                    if e2 < e {
                        assert(s@[e2] != 'e' && s@[e2] != 'E');
                    }
                }
            }
        }
        r
    }
}

/// Whether a word is a floating-point literal.
pub fn float_literal_check(w: &[char]) -> (r: bool)
    ensures
        r == is_float_literal(w@),
{
    let body = if w.len() > 0 && (w[0] == '+' || w[0] == '-') {
        vstd::slice::slice_subrange(w, 1, w.len())
    } else {
        w
    };
    let inf = crate::text::chars_of("inf");
    let infinity = crate::text::chars_of("infinity");
    let nan = crate::text::chars_of("nan");
    chars_eq_ignore_ascii_case(body, inf.as_slice()) || chars_eq_ignore_ascii_case(
        body,
        infinity.as_slice(),
    ) || chars_eq_ignore_ascii_case(body, nan.as_slice()) || number_check(body)
}

/// Whether a word equals a literal.
fn word_is(w: &Vec<char>, lit: &str) -> (r: bool)
    ensures
        r == (w@ == lit@),
{
    let l = crate::text::chars_of(lit);
    chars_eq(w.as_slice(), l.as_slice())
}

/// The words from index `from` on, joined by spaces.
fn join_from(ws: &Vec<Vec<char>>, from: usize) -> (s: String)
    requires
        from <= ws@.len(),
    ensures
        s@ == joined(views(ws@).skip(from as int)),
{
    let mut s = String::new();
    let mut i = from;
    while i < ws.len()
        invariant
            from <= i <= ws@.len(),
            s@ == joined(views(ws@).subrange(from as int, i as int)),
        decreases ws.len() - i,
    {
        let ghost before = views(ws@).subrange(from as int, i as int);
        if i > from {
            push_char(&mut s, ' ');
        }
        push_chars(&mut s, ws[i].as_slice());
        proof {
            let after = views(ws@).subrange(from as int, i + 1);
            assert(after.drop_last() =~= before);
            assert(after.last() == ws@[i as int]@);
            if i == from {
                assert(after.len() == 1);
                assert(Seq::<char>::empty() + ws@[i as int]@ =~= ws@[i as int]@);
            }
        }
        i = i + 1;
    }
    proof {
        assert(views(ws@).subrange(from as int, ws@.len() as int) =~= views(ws@).skip(from as int));
    }
    s
}

/// Parse `:a11y export <format> <path>`.
pub fn parse_export_command(command: &str) -> (r: Option<ExportGridEvent>)
    ensures
        match export_request(words(command@)) {
            Some((f, p)) => (r matches Some(e) && e.format == f && e.path@ == p),
            None => r is None,
        },
{
    let parts = split_whitespace(command);
    if parts.len() < 4 {
        return None;
    }
    if !word_is(&parts[0], ":a11y") || !word_is(&parts[1], "export") {
        return None;
    }
    let name = string_from_chars(parts[2].as_slice());
    let format = match ExportFormat::from_str(name.as_str()) {
        Some(f) => f,
        None => return None,
    };
    let path = join_from(&parts, 3);
    Some(ExportGridEvent { format, path })
}

/// Parse an accessibility command.
///
/// `:a11y scale reset`, `:a11y scale increase [delta]` and
/// `:a11y scale decrease [delta]` change the scale step by step; any other
/// third word sets the scale if it is a floating-point literal.
pub fn parse_accessibility_command(command: &str) -> (r: Option<AccessibilityCommand>)
    ensures
        match command_of(words(command@)) {
            Some(c) => (r matches Some(x) && x@ == c),
            None => r is None,
        },
{
    let parts = split_whitespace(command);
    if parts.len() == 0 || !word_is(&parts[0], ":a11y") {
        return None;
    }
    if parts.len() < 2 {
        return None;
    }
    if word_is(&parts[1], "export") && parts.len() >= 4 {
        let name = string_from_chars(parts[2].as_slice());
        let format = match ExportFormat::from_str(name.as_str()) {
            Some(f) => f,
            None => return None,
        };
        let path = join_from(&parts, 3);
        Some(AccessibilityCommand::Export { format, path })
    } else if word_is(&parts[1], "contrast") && parts.len() >= 3 && word_is(&parts[2], "toggle") {
        Some(AccessibilityCommand::ToggleHighContrast)
    } else if word_is(&parts[1], "scale") && parts.len() >= 3 && word_is(&parts[2], "reset") {
        Some(AccessibilityCommand::ResetTextScale)
    } else if word_is(&parts[1], "scale") && parts.len() >= 3 && word_is(&parts[2], "increase") {
        let delta = if parts.len() >= 4 { Some(string_from_chars(parts[3].as_slice())) } else { None };
        Some(AccessibilityCommand::IncreaseTextScale { delta })
    } else if word_is(&parts[1], "scale") && parts.len() >= 3 && word_is(&parts[2], "decrease") {
        let delta = if parts.len() >= 4 { Some(string_from_chars(parts[3].as_slice())) } else { None };
        Some(AccessibilityCommand::DecreaseTextScale { delta })
    } else if word_is(&parts[1], "scale") && parts.len() >= 3 && float_literal_check(parts[2].as_slice()) {
        Some(AccessibilityCommand::SetTextScale { scale: string_from_chars(parts[2].as_slice()) })
    } else if word_is(&parts[1], "help") {
        Some(AccessibilityCommand::Help)
    } else {
        None
    }
}

/// Help text for accessibility commands.
pub const HELP_TEXT: &'static str = r#"Accessibility Commands:
  :a11y export text <path>       - Export terminal to plain text
  :a11y export html <path>       - Export terminal to HTML with colors
  :a11y export markdown <path>   - Export terminal to Markdown
  :a11y contrast toggle          - Toggle high contrast mode
  :a11y scale <factor>           - Set text scale (0.5 - 3.0)
  :a11y scale increase [delta]   - Increase text scale (default: 0.1)
  :a11y scale decrease [delta]   - Decrease text scale (default: 0.1)
  :a11y scale reset              - Reset text scale to 1.0
  :a11y help                     - Show this help"#;

impl AccessibilityCommand {
    /// Help text for accessibility commands.
    pub fn help_text() -> (r: &'static str)
        ensures
            r@ == HELP_TEXT@,
    {
        HELP_TEXT
    }
}

} // verus!
