//! Terminal grid cells as the daemon shares them, and the plain text of a
//! grid.
use vstd::prelude::*;
use vstd::utf8::is_scalar;
use crate::text::push_char;

verus! {

/// One cell of the terminal grid.
#[derive(Debug, Clone, Copy, PartialEq, Eq, Structural)]
pub struct GridCell {
    /// Unicode code point of the character shown
    pub char_codepoint: u32,
    /// Foreground colour, RGBA
    pub fg: u32,
    /// Background colour, RGBA
    pub bg: u32,
    /// Style flags: bit 0 bold, bit 1 italic
    pub flags: u8,
}

impl GridCell {
    /// A blank cell: a space, white on black, unstyled.
    pub fn default() -> (c: Self)
        ensures
            c == (GridCell { char_codepoint: 32, fg: 0xFFFF_FFFF, bg: 0x0000_00FF, flags: 0 }),
    {
        GridCell { char_codepoint: 32, fg: 0xFFFF_FFFF, bg: 0x0000_00FF, flags: 0 }
    }
}

/// The character of a code point, if it is a Unicode scalar value.
pub open spec fn scalar_char(u: u32) -> Option<char> {
    if is_scalar(u) {
        Some(u as char)
    } else {
        None
    }
}

/// `char::from_u32`. Claimed, as std documents: the character when `u` is
/// a Unicode scalar value, `None` otherwise.
#[verifier::external_body]
pub(crate) fn char_from_u32(u: u32) -> (r: Option<char>)
    ensures
        r == scalar_char(u),
{
    char::from_u32(u)
}

/// The character a cell shows, a space when its code point is not a
/// character.
pub open spec fn cell_char(c: GridCell) -> char {
    match scalar_char(c.char_codepoint) {
        Some(ch) => ch,
        None => ' ',
    }
}

/// The character a cell shows.
pub fn cell_char_of(c: &GridCell) -> (ch: char)
    ensures
        ch == cell_char(*c),
{
    match char_from_u32(c.char_codepoint) {
        Some(ch) => ch,
        None => ' ',
    }
}

/// The character of a cell in grid text: a space for an empty cell or a
/// space, `?` for a code point that is not a character.
pub open spec fn text_char(c: GridCell) -> char {
    if c.char_codepoint == 0 || c.char_codepoint == 32 {
        ' '
    } else {
        match scalar_char(c.char_codepoint) {
            Some(ch) => ch,
            None => '?',
        }
    }
}

/// The cell at `(row, col)` of a grid of the given width, if stored.
pub open spec fn cell_at(cells: Seq<GridCell>, width: nat, height: nat, row: int, col: int) -> Option<GridCell> {
    if 0 <= row < height && 0 <= col < width && row * width + col < cells.len() {
        Some(cells[row * width + col])
    } else {
        None
    }
}

/// The cell at column `x`, row `y` of a grid of `width` by `height` cells
/// stored row by row, when it lies within the grid and is stored.
pub fn get_cell_at(cells: &[GridCell], width: usize, height: usize, x: usize, y: usize) -> (r: Option<&GridCell>)
    ensures
        r == (match cell_at(cells@, width as nat, height as nat, y as int, x as int) {
            Some(c) => Some(&c),
            None => None::<&GridCell>,
        }),
{
    let n = cells.len();
    if y < height && x < width {
        if let Some(base) = y.checked_mul(width) {
            if let Some(i) = base.checked_add(x) {
                if i < n {
                    return Some(&cells[i]);
                }
            }
        } else {
            assert(y * width + x >= cells@.len()) by (nonlinear_arith)
                requires
                    y * width > usize::MAX,
                    cells@.len() == n,
                    n <= usize::MAX,
                    x >= 0,
            ;
        }
    }
    None
}

/// The text of one row: a character per column, spaces where no cell is
/// stored.
pub open spec fn row_text(cells: Seq<GridCell>, width: nat, height: nat, row: int) -> Seq<char> {
    Seq::new(width, |col: int| match cell_at(cells, width, height, row, col) {
        Some(c) => text_char(c),
        None => ' ',
    })
}

/// The text of the first `n` rows, each but the last row of the grid
/// followed by a newline.
pub open spec fn grid_text_upto(cells: Seq<GridCell>, width: nat, height: nat, n: nat) -> Seq<char>
    decreases n,
{
    if n == 0 {
        seq![]
    } else {
        let prev = grid_text_upto(cells, width, height, (n - 1) as nat) + row_text(cells, width, height, n - 1);
        if n < height {
            prev.push('\n')
        } else {
            prev
        }
    }
}

proof fn lemma_row_offsets(r: int, c: int, n: int, w: int)
    requires
        0 <= r < n,
        0 <= c <= w,
        w >= 0,
    ensures
        r * (w + 1) + c < n * (w + 1),
        r * (w + 1) + c >= 0,
        (n - 1) * (w + 1) + w + 1 == n * (w + 1),
        r < n - 1 ==> r * (w + 1) + c < (n - 1) * (w + 1),
{
    assert(r * (w + 1) + c < n * (w + 1)) by (nonlinear_arith)
        requires
            0 <= r < n,
            0 <= c <= w,
    ;
    assert(r * (w + 1) >= 0) by (nonlinear_arith)
        requires
            0 <= r,
            w >= 0,
    ;
    assert((n - 1) * (w + 1) + w + 1 == n * (w + 1)) by (nonlinear_arith);
    if r < n - 1 {
        assert(r * (w + 1) + c < (n - 1) * (w + 1)) by (nonlinear_arith)
            requires
                0 <= r < n - 1,
                0 <= c <= w,
        ;
    }
}

/// Grid text lays rows out one after another, each `width` characters
/// followed by a newline except the last row of the grid: the character at
/// column `c` of row `r` stands at `r * (width + 1) + c`, and newlines
/// separate the rows.
pub proof fn lemma_grid_text_layout(cells: Seq<GridCell>, width: nat, height: nat, n: nat)
    requires
        n <= height,
    ensures
        grid_text_upto(cells, width, height, n).len() == n * (width + 1) - (if n == height && n > 0 {
            1int
        } else {
            0int
        }),
        forall|r: int, c: int|
            0 <= r < n && 0 <= c < width ==> #[trigger] grid_text_upto(cells, width, height, n)[r * (width + 1) + c]
                == row_text(cells, width, height, r)[c],
        forall|r: int|
            0 <= r < n && r + 1 < height ==> #[trigger] grid_text_upto(cells, width, height, n)[r * (width + 1)
                + width] == '\n',
    decreases n,
{
    if n > 0 {
        let m = (n - 1) as nat;
        lemma_grid_text_layout(cells, width, height, m);
        let prev = grid_text_upto(cells, width, height, m);
        let row = row_text(cells, width, height, m as int);
        let w = width as int;
        lemma_row_offsets(0, 0, n as int, w);
        assert(prev.len() == m * (w + 1));
        let t = grid_text_upto(cells, width, height, n);
        assert forall|r: int, c: int| 0 <= r < n && 0 <= c < width implies #[trigger] t[r * (width + 1) + c]
            == row_text(cells, width, height, r)[c] by {
            lemma_row_offsets(r, c, n as int, w);
            if r < m {
                assert(t[r * (w + 1) + c] == prev[r * (w + 1) + c]);
            } else {
                assert(r * (w + 1) + c == prev.len() + c);
            }
        }
        assert forall|r: int| 0 <= r < n && r + 1 < height implies #[trigger] t[r * (width + 1) + width] == '\n' by {
            lemma_row_offsets(r, w, n as int, w);
            if r < m {
                assert(t[r * (w + 1) + w] == prev[r * (w + 1) + w]);
            } else {
                assert(r * (w + 1) + w == prev.len() + row.len());
            }
        }
    }
}

/// The text of a grid of `width` by `height` cells stored row by row:
/// one line per row, separated by newlines.
pub fn extract_grid_text(cells: &[GridCell], width: usize, height: usize) -> (text: String)
    requires
        width * height <= usize::MAX,
    ensures
        text@ == grid_text_upto(cells@, width as nat, height as nat, height as nat),
{
    let mut text = String::new();
    let mut row: usize = 0;
    while row < height
        invariant
            row <= height,
            width * height <= usize::MAX,
            text@ == grid_text_upto(cells@, width as nat, height as nat, row as nat),
        decreases height - row,
    {
        let ghost before = text@;
        let mut col: usize = 0;
        while col < width
            invariant
                row < height,
                col <= width,
                width * height <= usize::MAX,
                text@ == before + row_text(cells@, width as nat, height as nat, row as int).take(col as int),
            decreases width - col,
        {
            proof {
                assert(row * width + col < width * height) by (nonlinear_arith)
                    requires row < height, col < width;
            }
            let idx = row * width + col;
            let ch = if idx < cells.len() {
                let c = &cells[idx];
                if c.char_codepoint == 0 || c.char_codepoint == 32 {
                    ' '
                } else {
                    match char_from_u32(c.char_codepoint) {
                        Some(ch) => ch,
                        None => '?',
                    }
                }
            } else {
                ' '
            };
            push_char(&mut text, ch);
            proof {
                let rt = row_text(cells@, width as nat, height as nat, row as int);
                assert(rt[col as int] == ch);
                assert(rt.take(col + 1) =~= rt.take(col as int).push(ch));
            }
            col = col + 1;
        }
        proof {
            let rt = row_text(cells@, width as nat, height as nat, row as int);
            assert(rt.take(width as int) =~= rt);
        }
        if row < height - 1 {
            push_char(&mut text, '\n');
        }
        row = row + 1;
    }
    text
}

} // verus!
