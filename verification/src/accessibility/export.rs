//! Export of the terminal grid for accessibility: plain text with trailing
//! blanks trimmed, HTML keeping colours and styles, and Markdown.
use vstd::prelude::*;
use crate::accessibility::settings::ExportFormat;
use crate::grid::{cell_char, cell_char_of, GridCell};
use crate::text::{
    chars_of, dec_digits, push_char, push_decimal, push_str, push_trimmed, string_from_chars,
    trim_end, trimmed_len,
};

verus! {

/// Exporter of the terminal grid.
pub struct TerminalExporter;

/// How many cells row `row` of a grid `width` wide has before the grid's
/// cells run out: at most `width`.
pub open spec fn row_len(g: Seq<GridCell>, width: nat, row: nat) -> nat {
    let start = row * width;
    if start >= g.len() {
        0
    } else if g.len() - start < width {
        (g.len() - start) as nat
    } else {
        width
    }
}

/// The characters of row `row`.
pub open spec fn row_chars(g: Seq<GridCell>, width: nat, row: nat) -> Seq<char> {
    Seq::new(row_len(g, width, row), |i: int| cell_char(g[row * width + i]))
}

/// A line has content when some character in it is not a space.
pub open spec fn has_content(line: Seq<char>) -> bool {
    exists|i: int| 0 <= i < line.len() && line[i] != ' '
}

/// The text of the first `n` rows: blank rows before the first row with
/// content are skipped; every later row appears without its trailing
/// whitespace and followed by a newline.
pub open spec fn text_rows(g: Seq<GridCell>, width: nat, n: nat) -> Seq<char>
    decreases n,
{
    if n == 0 {
        seq![]
    } else {
        let prev = text_rows(g, width, (n - 1) as nat);
        let line = row_chars(g, width, (n - 1) as nat);
        if has_content(line) || prev.len() > 0 {
            prev + trim_end(line) + seq!['\n']
        } else {
            prev
        }
    }
}

/// The plain text export: the rows' text without trailing whitespace,
/// ended by one newline.
pub open spec fn plain_text(g: Seq<GridCell>, width: nat, height: nat) -> Seq<char> {
    trim_end(text_rows(g, width, height)).push('\n')
}

/// The opening of an HTML export, with its style sheet.
pub const HTML_HEADER: &'static str = "<!DOCTYPE html>\n<html>\n<head>\n  <meta charset=\"UTF-8\">\n  <title>Terminal Export</title>\n  <style>\n    body {\n      background-color: #000;\n      color: #fff;\n      font-family: 'Courier New', monospace;\n      font-size: 14px;\n      line-height: 1.2;\n      padding: 20px;\n    }\n    .terminal {\n      white-space: pre;\n      display: inline-block;\n    }\n    .terminal-line {\n      display: block;\n    }\n    .cell {\n      display: inline;\n    }\n    .bold { font-weight: bold; }\n    .italic { font-style: italic; }\n  </style>\n</head>\n<body>\n<div class=\"terminal\">\n";

/// The closing of an HTML export.
pub const HTML_FOOTER: &'static str = "</div>\n</body>\n</html>\n";

/// A character escaped for HTML: `<`, `>`, `&` as entities. Spaces stay
/// spaces: the export's style keeps white space as it is, and the text of a
/// row reads as it does on the terminal.
pub open spec fn html_escaped(c: char) -> Seq<char> {
    if c == '<' {
        "&lt;"@
    } else if c == '>' {
        "&gt;"@
    } else if c == '&' {
        "&amp;"@
    } else {
        seq![c]
    }
}

/// The red, green and blue components of an RGBA colour, as decimal text.
pub open spec fn rgb_text(color: u32) -> Seq<char> {
    "rgb("@ + dec_digits(((color >> 24u32) & 0xFFu32) as nat) + ", "@
        + dec_digits(((color >> 16u32) & 0xFFu32) as nat) + ", "@
        + dec_digits(((color >> 8u32) & 0xFFu32) as nat) + ")"@
}

/// Whether a cell is shown with a style span: it is bold or italic, or a
/// colour differs from white on black.
pub open spec fn styled(c: GridCell) -> bool {
    c.fg != 0xFFFF_FFFFu32 || c.bg != 0x0000_00FFu32 || c.flags & 1u8 != 0 || c.flags & 2u8 != 0
}

/// A cell's style classes.
pub open spec fn classes_text(c: GridCell) -> Seq<char> {
    "cell"@ + (if c.flags & 1u8 != 0 { " bold"@ } else { seq![] }) + (if c.flags & 2u8 != 0 {
        " italic"@
    } else {
        seq![]
    })
}

/// Escaping leaves no markup characters: `<`, `>` and `&` become their
/// entities and every other character stands for itself.
pub proof fn lemma_html_escaping(c: char)
    ensures
        !html_escaped(c).contains('<'),
        !html_escaped(c).contains('>'),
        html_escaped('<') == "&lt;"@,
        html_escaped('>') == "&gt;"@,
        html_escaped('&') == "&amp;"@,
        c != '<' && c != '>' && c != '&' ==> html_escaped(c) == seq![c],
        html_escaped(c).len() >= 1,
{
    reveal_strlit("&lt;");
    reveal_strlit("&gt;");
    reveal_strlit("&amp;");
    let e = html_escaped(c);
    assert forall|i: int| 0 <= i < e.len() implies e[i] != '<' && e[i] != '>' by {
        if c == '<' {
            assert(e == seq!['&', 'l', 't', ';']);
        } else if c == '>' {
            assert(e == seq!['&', 'g', 't', ';']);
        } else if c == '&' {
            assert(e == seq!['&', 'a', 'm', 'p', ';']);
        }
    }
}

/// A colour packs red, green, blue and alpha from the high byte down; its
/// text gives red, green and blue in that order and leaves alpha out.
pub proof fn lemma_rgb_channels(r: u8, g: u8, b: u8, a: u8)
    ensures
        rgb_text(((r as u32) << 24u32) | ((g as u32) << 16u32) | ((b as u32) << 8u32) | (a as u32)) == "rgb("@
            + dec_digits(r as nat) + ", "@ + dec_digits(g as nat) + ", "@ + dec_digits(b as nat) + ")"@,
{
    let c: u32 = ((r as u32) << 24u32) | ((g as u32) << 16u32) | ((b as u32) << 8u32) | (a as u32);
    assert(((c >> 24u32) & 0xFFu32) == r as u32) by (bit_vector)
        requires
            c == ((r as u32) << 24u32) | ((g as u32) << 16u32) | ((b as u32) << 8u32) | (a as u32),
    ;
    assert(((c >> 16u32) & 0xFFu32) == g as u32) by (bit_vector)
        requires
            c == ((r as u32) << 24u32) | ((g as u32) << 16u32) | ((b as u32) << 8u32) | (a as u32),
    ;
    assert(((c >> 8u32) & 0xFFu32) == b as u32) by (bit_vector)
        requires
            c == ((r as u32) << 24u32) | ((g as u32) << 16u32) | ((b as u32) << 8u32) | (a as u32),
    ;
}

/// The foreground colour goes to `color` and the background to
/// `background-color`, each only when it differs from white on black.
pub proof fn lemma_cell_colors(c: GridCell)
    ensures
        c.fg == 0xFFFF_FFFFu32 && c.bg == 0x0000_00FFu32 ==> colors_text(c) == Seq::<char>::empty(),
        c.fg != 0xFFFF_FFFFu32 && c.bg == 0x0000_00FFu32 ==> colors_text(c) == "color: "@ + rgb_text(c.fg) + ";"@,
        c.fg == 0xFFFF_FFFFu32 && c.bg != 0x0000_00FFu32 ==> colors_text(c) == "background-color: "@ + rgb_text(c.bg)
            + ";"@,
        c.fg != 0xFFFF_FFFFu32 && c.bg != 0x0000_00FFu32 ==> colors_text(c) == "color: "@ + rgb_text(c.fg) + ";"@
            + "background-color: "@ + rgb_text(c.bg) + ";"@,
{
    let e = Seq::<char>::empty();
    assert(e + e =~= e);
    assert(("color: "@ + rgb_text(c.fg) + ";"@) + e =~= "color: "@ + rgb_text(c.fg) + ";"@);
    assert(e + ("background-color: "@ + rgb_text(c.bg) + ";"@) =~= "background-color: "@ + rgb_text(c.bg) + ";"@);
}

/// Bit 0 of a cell's flags makes it bold and bit 1 italic: its class list is
/// `cell`, then ` bold` exactly when bold, then ` italic` exactly when
/// italic; a cell with only the bold bit is exported in a `cell bold` span.
pub proof fn lemma_style_classes(c: GridCell)
    ensures
        c.flags & 1u8 != 0 ==> classes_text(c).len() >= 9 && classes_text(c).subrange(4, 9) == " bold"@,
        c.flags & 1u8 == 0 ==> classes_text(c).len() < 9 || classes_text(c).subrange(4, 9) != " bold"@,
        c.flags & 2u8 != 0 ==> classes_text(c).len() >= 11 && classes_text(c).subrange(
            classes_text(c).len() - 7,
            classes_text(c).len() as int,
        ) == " italic"@,
        c.flags & 2u8 == 0 ==> !classes_text(c).contains('t'),
        c.flags == 0 ==> classes_text(c) == "cell"@,
        c.flags == 1 ==> classes_text(c) == "cell bold"@,
        c.flags == 2 ==> classes_text(c) == "cell italic"@,
        c.flags == 3 ==> classes_text(c) == "cell bold italic"@,
        c.flags == 1 ==> cell_html(c) == "<span class=\"cell bold\" style=\""@ + colors_text(c) + "\">"@
            + html_escaped(cell_char(c)) + "</span>"@,
{
    reveal_strlit("cell");
    reveal_strlit(" bold");
    reveal_strlit(" italic");
    reveal_strlit("cell bold");
    reveal_strlit("cell italic");
    reveal_strlit("cell bold italic");
    reveal_strlit("<span class=\"cell bold\" style=\"");
    reveal_strlit("<span class=\"");
    reveal_strlit("\" style=\"");
    let f = c.flags;
    assert(f == 0u8 ==> f & 1u8 == 0 && f & 2u8 == 0) by (bit_vector);
    assert(f == 1u8 ==> f & 1u8 != 0 && f & 2u8 == 0) by (bit_vector);
    assert(f == 2u8 ==> f & 1u8 == 0 && f & 2u8 != 0) by (bit_vector);
    assert(f == 3u8 ==> f & 1u8 != 0 && f & 2u8 != 0) by (bit_vector);
    let t = classes_text(c);
    let b: Seq<char> = if f & 1u8 != 0 { " bold"@ } else { seq![] };
    let it: Seq<char> = if f & 2u8 != 0 { " italic"@ } else { seq![] };
    assert(t == "cell"@ + b + it);
    if f & 1u8 != 0 {
        assert(t.subrange(4, 9) =~= " bold"@);
    } else if t.len() >= 9 {
        assert(f & 2u8 != 0);
        assert(t.subrange(4, 9)[1] == 'i');
        assert(" bold"@[1] == 'b');
    }
    if f & 2u8 != 0 {
        assert(t.subrange(t.len() - 7, t.len() as int) =~= " italic"@);
    } else {
        assert(t == "cell"@ + b);
        assert forall|k: int| 0 <= k < t.len() implies t[k] != 't' by {
            if k >= 4 {
                assert(t[k] == b[k - 4]);
            }
        }
    }
    if f == 1u8 {
        assert(t =~= "cell bold"@);
        assert("<span class=\""@ + t + "\" style=\""@ =~= "<span class=\"cell bold\" style=\""@);
    }
    if f == 0u8 {
        assert(t =~= "cell"@);
    }
    if f == 2u8 {
        assert(t =~= "cell italic"@);
    }
    if f == 3u8 {
        assert(t =~= "cell bold italic"@);
    }
}

/// A cell's non-default colours, as CSS declarations.
pub open spec fn colors_text(c: GridCell) -> Seq<char> {
    (if c.fg != 0xFFFF_FFFFu32 { "color: "@ + rgb_text(c.fg) + ";"@ } else { seq![] }) + (if c.bg
        != 0x0000_00FFu32 {
        "background-color: "@ + rgb_text(c.bg) + ";"@
    } else {
        seq![]
    })
}

/// The opening of a cell's style span: its classes and non-default colours.
pub open spec fn open_tag(c: GridCell) -> Seq<char> {
    "<span class=\""@ + classes_text(c) + "\" style=\""@ + colors_text(c) + "\">"@
}

/// The HTML of one cell: its escaped character, wrapped in a span carrying
/// its style classes and non-default colours when it has any.
pub open spec fn cell_html(c: GridCell) -> Seq<char> {
    if styled(c) {
        open_tag(c) + html_escaped(cell_char(c)) + "</span>"@
    } else {
        html_escaped(cell_char(c))
    }
}

/// The HTML of the first `k` cells from `start`.
pub open spec fn cells_html(g: Seq<GridCell>, start: int, k: nat) -> Seq<char>
    decreases k,
{
    if k == 0 {
        seq![]
    } else {
        cells_html(g, start, (k - 1) as nat) + cell_html(g[start + k - 1])
    }
}

/// The HTML of the first `n` rows, each a line span.
pub open spec fn html_rows(g: Seq<GridCell>, width: nat, n: nat) -> Seq<char>
    decreases n,
{
    if n == 0 {
        seq![]
    } else {
        let row = (n - 1) as nat;
        html_rows(g, width, row) + "<span class=\"terminal-line\">"@ + cells_html(
            g,
            (row * width) as int,
            row_len(g, width, row),
        ) + "</span>\n"@
    }
}

/// The HTML export.
pub open spec fn html_document(g: Seq<GridCell>, width: nat, height: nat) -> Seq<char> {
    HTML_HEADER@ + html_rows(g, width, height) + HTML_FOOTER@
}

/// The Markdown export: a heading and the plain text in a code block.
pub open spec fn markdown_document(g: Seq<GridCell>, width: nat, height: nat) -> Seq<char> {
    "# Terminal Export\n\n"@ + "```\n"@ + plain_text(g, width, height) + "```\n"@
}

/// The characters of row `row` from column `x` on: at most `region_width`
/// of them, not past the grid's width nor the end of its cells.
pub open spec fn region_line(g: Seq<GridCell>, width: nat, x: nat, row: nat, region_width: nat) -> Seq<char> {
    let cols: int = if x >= width { 0 } else if width - x < region_width { width - x } else { region_width as int };
    let start = row * width + x;
    let n: int = if start >= g.len() { 0 } else if g.len() - start < cols { g.len() - start } else { cols };
    Seq::new(n as nat, |i: int| cell_char(g[start + i]))
}

/// The first `k` rows of a region, each without trailing whitespace and
/// followed by a newline.
pub open spec fn region_rows(g: Seq<GridCell>, width: nat, x: nat, y: nat, region_width: nat, k: nat) -> Seq<char>
    decreases k,
{
    if k == 0 {
        seq![]
    } else {
        region_rows(g, width, x, y, region_width, (k - 1) as nat) + trim_end(
            region_line(g, width, x, (y + k - 1) as nat, region_width),
        ) + seq!['\n']
    }
}

/// The characters of the cells from `start` while they last, at most `n`.
fn cells_chars(grid: &[GridCell], start: usize, n: usize) -> (v: Vec<char>)
    requires
        start + n <= usize::MAX,
    ensures
        v@ == Seq::new(
            (if start >= grid@.len() { 0 } else if grid@.len() - start < n { grid@.len() - start } else { n as int }) as nat,
            |i: int| cell_char(grid@[start + i]),
        ),
{
    let mut v: Vec<char> = Vec::new();
    let mut i: usize = 0;
    while i < n && start + i < grid.len()
        invariant
            start + n <= usize::MAX,
            i <= n,
            start >= grid@.len() ==> i == 0,
            start < grid@.len() ==> start + i <= grid@.len(),
            v@ == Seq::new(i as nat, |j: int| cell_char(grid@[start + j])),
        decreases n - i,
    {
        v.push(cell_char_of(&grid[start + i]));
        proof {
            assert(v@ =~= Seq::new((i + 1) as nat, |j: int| cell_char(grid@[start + j])));
        }
        i = i + 1;
    }
    proof {
        let count: int = if start >= grid@.len() { 0 } else if grid@.len() - start < n { grid@.len() - start } else { n as int };
        assert(i == count);
    }
    v
}

/// Whether some character is not a space.
fn any_non_space(v: &[char]) -> (r: bool)
    ensures
        r == has_content(v@),
{
    let mut i: usize = 0;
    while i < v.len()
        invariant
            i <= v@.len(),
            forall|j: int| 0 <= j < i ==> v@[j] == ' ',
        decreases v.len() - i,
    {
        if v[i] != ' ' {
            return true;
        }
        i = i + 1;
    }
    false
}

/// Appends a cell's style classes.
fn push_classes(out: &mut String, c: &GridCell)
    ensures
        final(out)@ == old(out)@ + classes_text(*c),
{
    let ghost start = out@;
    push_str(out, "cell");
    let ghost a = out@;
    if c.flags & 1u8 != 0 {
        push_str(out, " bold");
    }
    let ghost b = out@;
    if c.flags & 2u8 != 0 {
        push_str(out, " italic");
    }
    proof {
        assert(out@ =~= start + classes_text(*c));
    }
}

/// Appends a cell's non-default colours.
fn push_colors(out: &mut String, c: &GridCell)
    ensures
        final(out)@ == old(out)@ + colors_text(*c),
{
    let ghost start = out@;
    if c.fg != 0xFFFF_FFFFu32 {
        push_str(out, "color: ");
        push_rgb(out, c.fg);
        push_str(out, ";");
    }
    let ghost mid = out@;
    proof {
        assert(mid =~= start + (if c.fg != 0xFFFF_FFFFu32 { "color: "@ + rgb_text(c.fg) + ";"@ } else { seq![] }));
    }
    if c.bg != 0x0000_00FFu32 {
        push_str(out, "background-color: ");
        push_rgb(out, c.bg);
        push_str(out, ";");
    }
    proof {
        assert(out@ =~= start + colors_text(*c));
    }
}

/// Appends the opening of a cell's style span.
fn push_open_tag(out: &mut String, c: &GridCell)
    ensures
        final(out)@ == old(out)@ + open_tag(*c),
{
    let ghost start = out@;
    push_str(out, "<span class=\"");
    push_classes(out, c);
    push_str(out, "\" style=\"");
    push_colors(out, c);
    push_str(out, "\">");
    proof {
        assert(out@ =~= start + open_tag(*c));
    }
}

/// Appends a character escaped for HTML.
fn push_escaped(out: &mut String, ch: char)
    ensures
        final(out)@ == old(out)@ + html_escaped(ch),
{
    if ch == '<' {
        push_str(out, "&lt;");
    } else if ch == '>' {
        push_str(out, "&gt;");
    } else if ch == '&' {
        push_str(out, "&amp;");
    } else {
        push_char(out, ch);
    }
}

/// Appends the HTML of one cell.
fn push_cell_html(out: &mut String, c: &GridCell)
    ensures
        final(out)@ == old(out)@ + cell_html(*c),
{
    let ghost start = out@;
    let is_styled = c.fg != 0xFFFF_FFFFu32 || c.bg != 0x0000_00FFu32 || c.flags & 1u8 != 0 || c.flags & 2u8 != 0;
    if is_styled {
        push_open_tag(out, c);
    }
    let ch = cell_char_of(c);
    push_escaped(out, ch);
    if is_styled {
        push_str(out, "</span>");
    }
    proof {
        assert(out@ =~= start + cell_html(*c));
    }
}

/// Appends `rgb(r, g, b)` for an RGBA colour.
fn push_rgb(out: &mut String, color: u32)
    ensures
        final(out)@ == old(out)@ + rgb_text(color),
{
    let ghost start = out@;
    push_str(out, "rgb(");
    push_decimal(out, ((color >> 24u32) & 0xFFu32) as u64);
    push_str(out, ", ");
    push_decimal(out, ((color >> 16u32) & 0xFFu32) as u64);
    push_str(out, ", ");
    push_decimal(out, ((color >> 8u32) & 0xFFu32) as u64);
    push_str(out, ")");
    proof {
        assert(out@ =~= start + rgb_text(color));
    }
}

impl TerminalExporter {
    /// The export of a grid in `format`.
    pub fn render(grid: &[GridCell], width: usize, height: usize, format: ExportFormat) -> (s: String)
        requires
            width * height <= usize::MAX,
        ensures
            s@ == match format {
                ExportFormat::PlainText => plain_text(grid@, width as nat, height as nat),
                ExportFormat::Html => html_document(grid@, width as nat, height as nat),
                ExportFormat::Markdown => markdown_document(grid@, width as nat, height as nat),
            },
    {
        match format {
            ExportFormat::PlainText => Self::export_to_text(grid, width, height),
            ExportFormat::Html => Self::export_to_html(grid, width, height),
            ExportFormat::Markdown => Self::export_to_markdown(grid, width, height),
        }
    }

    /// Export to plain text: rows from the first with content on, each
    /// without trailing whitespace, trailing blank lines removed.
    pub fn export_to_text(grid: &[GridCell], width: usize, height: usize) -> (s: String)
        requires
            width * height <= usize::MAX,
        ensures
            s@ == plain_text(grid@, width as nat, height as nat),
    {
        let mut output = String::new();
        let mut row: usize = 0;
        while row < height
            invariant
                row <= height,
                width * height <= usize::MAX,
                output@ == text_rows(grid@, width as nat, row as nat),
            decreases height - row,
        {
            proof {
                assert(row * width + width <= width * height) by (nonlinear_arith)
                    requires row < height;
            }
            let line = cells_chars(grid, row * width, width);
            proof {
                assert(line@ =~= row_chars(grid@, width as nat, row as nat));
            }
            let has = any_non_space(line.as_slice());
            if has || !output.as_str().is_empty() {
                push_trimmed(&mut output, line.as_slice());
                push_char(&mut output, '\n');
            }
            row = row + 1;
        }
        let all = chars_of(output.as_str());
        let n = trimmed_len(all.as_slice());
        let mut s = string_from_chars(&all.as_slice()[0..n]);
        push_char(&mut s, '\n');
        proof {
            assert(all@.subrange(0, n as int) =~= all@.take(n as int));
        }
        s
    }

    /// Export to HTML, keeping colours and bold and italic styles.
    pub fn export_to_html(grid: &[GridCell], width: usize, height: usize) -> (s: String)
        requires
            width * height <= usize::MAX,
        ensures
            s@ == html_document(grid@, width as nat, height as nat),
    {
        let mut output = String::new();
        push_str(&mut output, HTML_HEADER);
        let mut row: usize = 0;
        while row < height
            invariant
                row <= height,
                width * height <= usize::MAX,
                output@ == HTML_HEADER@ + html_rows(grid@, width as nat, row as nat),
            decreases height - row,
        {
            proof {
                assert(row * width + width <= width * height) by (nonlinear_arith)
                    requires row < height;
            }
            let start = row * width;
            push_str(&mut output, "<span class=\"terminal-line\">");
            let ghost opened = output@;
            let mut col: usize = 0;
            while col < width && start + col < grid.len()
                invariant
                    start + width <= usize::MAX,
                    col <= width,
                    start == row * width,
                    start >= grid@.len() ==> col == 0,
                    start < grid@.len() ==> start + col <= grid@.len(),
                    output@ == opened + cells_html(grid@, start as int, col as nat),
                decreases width - col,
            {
                push_cell_html(&mut output, &grid[start + col]);
                col = col + 1;
            }
            proof {
                assert(col == row_len(grid@, width as nat, row as nat));
            }
            push_str(&mut output, "</span>\n");
            row = row + 1;
        }
        push_str(&mut output, HTML_FOOTER);
        output
    }

    /// Export to Markdown: a heading and the plain text in a code block.
    pub fn export_to_markdown(grid: &[GridCell], width: usize, height: usize) -> (s: String)
        requires
            width * height <= usize::MAX,
        ensures
            s@ == markdown_document(grid@, width as nat, height as nat),
    {
        let mut output = String::new();
        push_str(&mut output, "# Terminal Export\n\n");
        push_str(&mut output, "```\n");
        let text = Self::export_to_text(grid, width, height);
        push_str(&mut output, text.as_str());
        push_str(&mut output, "```\n");
        output
    }

    /// The text of the rectangle of `region_width` by `region_height` cells
    /// at column `x`, row `y`: each row cut at the grid's width and at the end
    /// of its cells, without trailing whitespace; trailing whitespace of the
    /// whole removed.
    pub fn extract_region(
        grid: &[GridCell],
        width: usize,
        x: usize,
        y: usize,
        region_width: usize,
        region_height: usize,
    ) -> (s: String)
        requires
            x + region_width <= usize::MAX,
            y + region_height <= usize::MAX,
            (y + region_height) * width <= usize::MAX,
        ensures
            s@ == trim_end(region_rows(grid@, width as nat, x as nat, y as nat, region_width as nat, region_height as nat)),
    {
        let mut output = String::new();
        let mut k: usize = 0;
        while k < region_height
            invariant
                k <= region_height,
                x + region_width <= usize::MAX,
                y + region_height <= usize::MAX,
                (y + region_height) * width <= usize::MAX,
                output@ == region_rows(grid@, width as nat, x as nat, y as nat, region_width as nat, k as nat),
            decreases region_height - k,
        {
            let row = y + k;
            proof {
                assert(row * width + width <= (y + region_height) * width) by (nonlinear_arith)
                    requires row < y + region_height;
            }
            let line = if x >= width {
                Vec::new()
            } else {
                let cols: usize = if width - x < region_width { width - x } else { region_width };
                cells_chars(grid, row * width + x, cols)
            };
            proof {
                assert(line@ =~= region_line(grid@, width as nat, x as nat, row as nat, region_width as nat));
            }
            push_trimmed(&mut output, line.as_slice());
            push_char(&mut output, '\n');
            k = k + 1;
        }
        let all = chars_of(output.as_str());
        let n = trimmed_len(all.as_slice());
        proof {
            assert(all@.subrange(0, n as int) =~= all@.take(n as int));
        }
        string_from_chars(&all.as_slice()[0..n])
    }

    /// The text of line `line` without trailing whitespace.
    pub fn extract_line(grid: &[GridCell], width: usize, line: usize) -> (s: String)
        requires
            (line + 1) * width <= usize::MAX,
        ensures
            s@ == trim_end(row_chars(grid@, width as nat, line as nat)),
    {
        proof {
            assert((line + 1) * width == line * width + width) by (nonlinear_arith);
        }
        let v = cells_chars(grid, line * width, width);
        proof {
            assert(v@ =~= row_chars(grid@, width as nat, line as nat));
        }
        let mut s = String::new();
        push_trimmed(&mut s, v.as_slice());
        proof {
            assert(Seq::<char>::empty() + trim_end(v@) =~= trim_end(v@));
        }
        s
    }

    /// The visible text of the grid, as the plain text export.
    pub fn extract_visible_text(grid: &[GridCell], width: usize, height: usize) -> (s: String)
        requires
            width * height <= usize::MAX,
        ensures
            s@ == plain_text(grid@, width as nat, height as nat),
    {
        Self::export_to_text(grid, width, height)
    }
}

} // verus!
