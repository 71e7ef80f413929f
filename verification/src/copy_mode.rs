//! Copy mode highlighting: the row spans that cover a selection in each
//! selection mode, and the spans of search matches.
use vstd::prelude::*;

verus! {

/// How a selection extends.
#[derive(Debug, Clone, Copy, PartialEq, Eq, Structural)]
pub enum SelectionMode {
    /// No selection
    Inactive,
    /// Character by character, wrapping across lines
    Cell,
    /// Whole lines
    Line,
    /// A rectangle
    Block,
    /// Words
    Word,
}

/// A highlighted run of cells on one row.
#[derive(Debug, Clone, Copy, PartialEq, Eq, Structural)]
pub struct HighlightSpan {
    /// Row (negative in the scrollback)
    pub y: i32,
    /// First column
    pub start_x: u16,
    /// Number of cells
    pub cells: u16,
}

/// The span of row `y` from column `a` to column `b` inclusive.
pub open spec fn span(y: int, a: u16, b: u16) -> HighlightSpan {
    HighlightSpan { y: y as i32, start_x: a, cells: (b - a + 1) as u16 }
}

/// The span of row `y` of a cell selection over several rows: from its
/// start column to the row's end on the first row, from the row's start to
/// its end column on the last, whole rows between.
pub open spec fn cell_row_span(min_x: u16, min_y: i32, max_x: u16, max_y: i32, cols: u16, y: int) -> HighlightSpan {
    if y == min_y {
        span(y, min_x, (cols - 1) as u16)
    } else if y == max_y {
        span(y, 0, max_x)
    } else {
        span(y, 0, (cols - 1) as u16)
    }
}

/// The spans that highlight a selection with bounds `(min_x, min_y)` to
/// `(max_x, max_y)` on a grid `cols` wide: a cell selection on one row, or
/// row by row over several rows; whole rows for a line selection; the same
/// columns on every row for a block; the first row's columns for a word.
pub open spec fn selection_spans_spec(
    mode: SelectionMode,
    min_x: u16,
    min_y: i32,
    max_x: u16,
    max_y: i32,
    cols: u16,
) -> Seq<HighlightSpan> {
    let rows = (max_y - min_y + 1) as nat;
    match mode {
        SelectionMode::Inactive => seq![],
        SelectionMode::Cell => if min_y == max_y {
            seq![span(min_y as int, min_x, max_x)]
        } else {
            Seq::new(rows, |k: int| cell_row_span(min_x, min_y, max_x, max_y, cols, min_y + k))
        },
        SelectionMode::Line => Seq::new(rows, |k: int| HighlightSpan { y: (min_y + k) as i32, start_x: 0, cells: cols }),
        SelectionMode::Block => Seq::new(rows, |k: int| span(min_y + k, min_x, max_x)),
        SelectionMode::Word => seq![span(min_y as int, min_x, max_x)],
    }
}

/// The highlight span of one row of a selection spanning several rows.
fn row_span(mode: SelectionMode, min_x: u16, min_y: i32, max_x: u16, max_y: i32, cols: u16, y: i32) -> (s: HighlightSpan)
    requires
        min_x <= max_x,
        min_y <= y <= max_y,
        mode != SelectionMode::Line ==> max_x - min_x + 1 <= u16::MAX,
        mode == SelectionMode::Cell ==> min_x < cols && max_x < u16::MAX,
        mode == SelectionMode::Cell || mode == SelectionMode::Line || mode == SelectionMode::Block,
    ensures
        mode == SelectionMode::Cell ==> s == cell_row_span(min_x, min_y, max_x, max_y, cols, y as int),
        mode == SelectionMode::Line ==> s == (HighlightSpan { y, start_x: 0, cells: cols }),
        mode == SelectionMode::Block ==> s == span(y as int, min_x, max_x),
{
    match mode {
        SelectionMode::Cell => {
            if y == min_y {
                HighlightSpan { y, start_x: min_x, cells: cols - 1 - min_x + 1 }
            } else if y == max_y {
                HighlightSpan { y, start_x: 0, cells: max_x + 1 }
            } else {
                HighlightSpan { y, start_x: 0, cells: cols }
            }
        },
        SelectionMode::Line => HighlightSpan { y, start_x: 0, cells: cols },
        _ => HighlightSpan { y, start_x: min_x, cells: max_x - min_x + 1 },
    }
}

/// The highlight spans of a selection.
pub fn selection_spans(
    mode: SelectionMode,
    min_x: u16,
    min_y: i32,
    max_x: u16,
    max_y: i32,
    cols: u16,
) -> (r: Vec<HighlightSpan>)
    requires
        min_x <= max_x,
        min_y <= max_y,
        mode != SelectionMode::Line ==> max_x - min_x + 1 <= u16::MAX,
        mode == SelectionMode::Cell && min_y != max_y ==> min_x < cols && max_x < u16::MAX,
    ensures
        r@ == selection_spans_spec(mode, min_x, min_y, max_x, max_y, cols),
{
    let mut r: Vec<HighlightSpan> = Vec::new();
    if mode == SelectionMode::Inactive {
        return r;
    }
    if mode == SelectionMode::Word || (mode == SelectionMode::Cell && min_y == max_y) {
        r.push(HighlightSpan { y: min_y, start_x: min_x, cells: max_x - min_x + 1 });
        proof {
            assert(r@ =~= selection_spans_spec(mode, min_x, min_y, max_x, max_y, cols));
        }
        return r;
    }
    let ghost all = selection_spans_spec(mode, min_x, min_y, max_x, max_y, cols);
    let mut y: i64 = min_y as i64;
    while y <= max_y as i64
        invariant
            min_y <= y <= max_y + 1,
            min_x <= max_x,
            mode != SelectionMode::Line ==> max_x - min_x + 1 <= u16::MAX,
            mode == SelectionMode::Cell ==> min_x < cols && max_x < u16::MAX && min_y != max_y,
            mode == SelectionMode::Cell || mode == SelectionMode::Line || mode == SelectionMode::Block,
            all == selection_spans_spec(mode, min_x, min_y, max_x, max_y, cols),
            all.len() == max_y - min_y + 1,
            r@ == all.take(y - min_y),
        decreases max_y + 1 - y,
    {
        let s = row_span(mode, min_x, min_y, max_x, max_y, cols, y as i32);
        r.push(s);
        proof {
            assert(all[y - min_y] == s);
            assert(all.take(y - min_y + 1) =~= all.take(y - min_y).push(s));
        }
        y = y + 1;
    }
    proof {
        assert(all.take(max_y - min_y + 1) =~= all);
    }
    r
}

/// A search match: from `(start_x, start_y)` to `(end_x, end_y)`.
#[derive(Debug, Clone, Copy, PartialEq, Eq, Structural)]
pub struct MatchBounds {
    pub start_x: u16,
    pub start_y: i32,
    pub end_x: u16,
    pub end_y: i32,
}

/// The highlight of one search match.
#[derive(Debug, Clone, Copy, PartialEq, Eq, Structural)]
pub struct SearchSpan {
    pub span: HighlightSpan,
    /// Whether this is the current match
    pub is_current: bool,
}

/// Whether the selection covers column `x` of row `y` (within its rows): a
/// cell selection covers the cells from its start to its end in reading
/// order, rows between it covers up to the grid's last column; a block the
/// same columns on every row; a line selection whole rows.
pub open spec fn in_selection(mode: SelectionMode, min_x: u16, min_y: i32, max_x: u16, max_y: i32, cols: u16, y: int, x: int) -> bool {
    match mode {
        SelectionMode::Cell => if min_y == max_y {
            min_x <= x <= max_x
        } else {
            &&& 0 <= x
            &&& y == min_y ==> min_x <= x
            &&& y == max_y ==> x <= max_x
            &&& y != max_y ==> x < cols
        },
        SelectionMode::Line => 0 <= x < cols,
        SelectionMode::Block => min_x <= x <= max_x,
        _ => false,
    }
}

/// A selection over rows `min_y` to `max_y` gets one span per row, in row
/// order, and the span of each row covers exactly the columns the selection
/// covers on that row.
pub proof fn lemma_selection_cells(
    mode: SelectionMode,
    min_x: u16,
    min_y: i32,
    max_x: u16,
    max_y: i32,
    cols: u16,
    y: int,
    x: int,
)
    requires
        mode == SelectionMode::Cell || mode == SelectionMode::Line || mode == SelectionMode::Block,
        min_x <= max_x,
        min_y <= y <= max_y,
        mode != SelectionMode::Line ==> max_x - min_x + 1 <= u16::MAX,
        mode == SelectionMode::Cell && min_y != max_y ==> min_x < cols && max_x < u16::MAX,
    ensures
        selection_spans_spec(mode, min_x, min_y, max_x, max_y, cols).len() == max_y - min_y + 1,
        ({
            let sp = selection_spans_spec(mode, min_x, min_y, max_x, max_y, cols)[y - min_y];
            &&& sp.y == y
            &&& (0 <= x && sp.start_x <= x < sp.start_x + sp.cells) == in_selection(mode, min_x, min_y, max_x, max_y, cols, y, x)
        }),
{
}

/// The highlights of search matches: each on its start row, from its start
/// column to its end column, the current one marked.
pub open spec fn search_spans_spec(matches: Seq<MatchBounds>, current: Option<usize>) -> Seq<SearchSpan> {
    Seq::new(matches.len(), |i: int| SearchSpan {
        span: span(matches[i].start_y as int, matches[i].start_x, matches[i].end_x),
        is_current: current == Some(i as usize),
    })
}

/// The highlights of search matches.
pub fn search_spans(matches: &[MatchBounds], current: Option<usize>) -> (r: Vec<SearchSpan>)
    requires
        forall|i: int| 0 <= i < matches@.len() ==> matches@[i].start_x <= matches@[i].end_x && matches@[i].end_x - matches@[i].start_x + 1 <= u16::MAX,
    ensures
        r@ == search_spans_spec(matches@, current),
{
    let mut r: Vec<SearchSpan> = Vec::new();
    let mut i: usize = 0;
    while i < matches.len()
        invariant
            i <= matches@.len(),
            forall|j: int| 0 <= j < matches@.len() ==> matches@[j].start_x <= matches@[j].end_x && matches@[j].end_x - matches@[j].start_x + 1 <= u16::MAX,
            r@ == search_spans_spec(matches@, current).take(i as int),
        decreases matches.len() - i,
    {
        let m = matches[i];
        let is_current = match current {
            Some(c) => c == i,
            None => false,
        };
        let s = SearchSpan {
            span: HighlightSpan { y: m.start_y, start_x: m.start_x, cells: m.end_x - m.start_x + 1 },
            is_current,
        };
        r.push(s);
        proof {
            let all = search_spans_spec(matches@, current);
            assert(all[i as int] == s);
            assert(all.take(i + 1) =~= all.take(i as int).push(s));
        }
        i = i + 1;
    }
    proof {
        assert(search_spans_spec(matches@, current).take(matches@.len() as int) =~= search_spans_spec(matches@, current));
    }
    r
}

} // verus!
