//! Inline-image inspector: the image placements listed (filtered by a text
//! and sorted as the user chose), the selection, the Ctrl+Shift+G toggle and
//! the memory statistics.
use vstd::prelude::*;
use crate::input::keys::{Key, KeyboardState};
use crate::text::{chars_contain, chars_of, contains_seq, dec_digits, to_lowercase, u64_to_decimal, unicode_lowercase};

verus! {

/// Encodings of an inline image.
#[derive(Debug, Clone, Copy, PartialEq, Eq, Structural)]
pub enum ImageFormat {
    Png,
    Jpeg,
    Gif,
    /// Raw pixels, as Sixel sends them
    Rgba,
}

/// One image shown in the terminal: where it stands, its size in cells and
/// where its pixels lie in shared memory.
#[derive(Debug, Clone, Copy, PartialEq, Eq, Structural)]
pub struct ImagePlacement {
    pub id: u64,
    pub x: u16,
    pub y: u16,
    pub width_cells: u16,
    pub height_cells: u16,
    pub format: ImageFormat,
    pub shm_offset: usize,
    pub shm_size: usize,
}

/// Orders of the image list.
#[derive(Debug, Clone, Copy, PartialEq, Eq, Structural)]
pub enum ImageSortMode {
    ById,
    ByPosition,
    BySize,
    ByProtocol,
}

/// The label shown for a format.
pub open spec fn protocol_label(f: ImageFormat) -> Seq<char> {
    match f {
        ImageFormat::Png => "PNG"@,
        ImageFormat::Jpeg => "JPEG"@,
        ImageFormat::Gif => "GIF"@,
        ImageFormat::Rgba => "RGBA (Sixel)"@,
    }
}

/// The label shown for a format.
pub fn format_protocol(format: ImageFormat) -> (r: &'static str)
    ensures
        r@ == protocol_label(format),
{
    match format {
        ImageFormat::Png => "PNG",
        ImageFormat::Jpeg => "JPEG",
        ImageFormat::Gif => "GIF",
        ImageFormat::Rgba => "RGBA (Sixel)",
    }
}

/// The format's name in lower case, as a filter text is held against it.
pub open spec fn format_name(f: ImageFormat) -> Seq<char> {
    match f {
        ImageFormat::Png => "png"@,
        ImageFormat::Jpeg => "jpeg"@,
        ImageFormat::Gif => "gif"@,
        ImageFormat::Rgba => "rgba"@,
    }
}

/// The format's name in lower case.
fn format_name_chars(f: ImageFormat) -> (r: Vec<char>)
    ensures
        r@ == format_name(f),
{
    match f {
        ImageFormat::Png => chars_of("png"),
        ImageFormat::Jpeg => chars_of("jpeg"),
        ImageFormat::Gif => chars_of("gif"),
        ImageFormat::Rgba => chars_of("rgba"),
    }
}

/// Where formats come when the list is sorted by protocol: by name.
pub open spec fn protocol_rank(f: ImageFormat) -> int {
    match f {
        ImageFormat::Gif => 0,
        ImageFormat::Jpeg => 1,
        ImageFormat::Png => 2,
        ImageFormat::Rgba => 3,
    }
}

/// The key by which a placement is sorted: its identifier; its row, then
/// its column; its area in cells, larger first; its format's name.
pub open spec fn placement_key(p: ImagePlacement, mode: ImageSortMode) -> int {
    match mode {
        ImageSortMode::ById => p.id as int,
        ImageSortMode::ByPosition => p.y * 0x10000 + p.x,
        ImageSortMode::BySize => 0xFFFF_FFFF - p.width_cells * p.height_cells,
        ImageSortMode::ByProtocol => protocol_rank(p.format),
    }
}

fn sort_key(p: &ImagePlacement, mode: ImageSortMode) -> (k: u64)
    ensures
        k == placement_key(*p, mode),
{
    match mode {
        ImageSortMode::ById => p.id,
        ImageSortMode::ByPosition => (p.y as u64) * 0x10000 + p.x as u64,
        ImageSortMode::BySize => {
            let w: u64 = p.width_cells as u64;
            let h: u64 = p.height_cells as u64;
            assert(w * h <= 0xFFFF * 0xFFFF) by (nonlinear_arith)
                requires
                    w <= 0xFFFF,
                    h <= 0xFFFF,
            ;
            let area: u64 = w * h;
            0xFFFF_FFFFu64 - area
        },
        ImageSortMode::ByProtocol => match p.format {
            ImageFormat::Gif => 0,
            ImageFormat::Jpeg => 1,
            ImageFormat::Png => 2,
            ImageFormat::Rgba => 3,
        },
    }
}

/// A placement passes a lower-cased filter when its identifier in decimal
/// or its format's name contains it.
pub open spec fn placement_matches(p: ImagePlacement, lowered: Seq<char>) -> bool {
    contains_seq(dec_digits(p.id as nat), lowered) || contains_seq(format_name(p.format), lowered)
}

/// The test of `placement_matches` against one filter text.
pub open spec fn passes(filter: Seq<char>) -> spec_fn(ImagePlacement) -> bool {
    |p: ImagePlacement| placement_matches(p, unicode_lowercase(filter))
}

/// The placements a filter text keeps: all for an empty text.
pub open spec fn filtered(v: Seq<ImagePlacement>, filter: Seq<char>) -> Seq<ImagePlacement> {
    if filter.len() == 0 {
        v
    } else {
        v.filter(passes(filter))
    }
}

/// `order` lists every index of `v` once, by key, equal keys in the
/// order given.
pub open spec fn is_key_order(v: Seq<ImagePlacement>, mode: ImageSortMode, order: Seq<usize>) -> bool {
    &&& order.len() == v.len()
    &&& forall|k: int| 0 <= k < order.len() ==> order[k] < v.len()
    &&& forall|j: usize| j < v.len() ==> #[trigger] order.contains(j)
    &&& forall|a: int, b: int|
        0 <= a < b < order.len() ==> placement_key(v[#[trigger] order[a] as int], mode) < placement_key(
            v[#[trigger] order[b] as int],
            mode,
        ) || (placement_key(v[order[a] as int], mode) == placement_key(v[order[b] as int], mode) && order[a]
            < order[b])
}

/// The placements of `v` in the order `order`.
pub open spec fn placed_in_order(v: Seq<ImagePlacement>, order: Seq<usize>) -> Seq<ImagePlacement> {
    order.map_values(|j: usize| v[j as int])
}

/// A list in key order runs by identifier upwards; by position row by row,
/// left to right within a row; by size from the largest area down; by
/// protocol from GIF through JPEG and PNG to RGBA.
pub proof fn lemma_key_order_fields(v: Seq<ImagePlacement>, mode: ImageSortMode, order: Seq<usize>, i: int, j: int)
    requires
        is_key_order(v, mode, order),
        0 <= i < j < order.len(),
    ensures
        ({
            let a = placed_in_order(v, order)[i];
            let b = placed_in_order(v, order)[j];
            &&& mode == ImageSortMode::ById ==> a.id <= b.id
            &&& mode == ImageSortMode::ByPosition ==> a.y < b.y || (a.y == b.y && a.x <= b.x)
            &&& mode == ImageSortMode::BySize ==> a.width_cells * a.height_cells >= b.width_cells * b.height_cells
            &&& mode == ImageSortMode::ByProtocol ==> (a.format == ImageFormat::Gif || b.format != ImageFormat::Gif)
                && (b.format == ImageFormat::Rgba || a.format != ImageFormat::Rgba)
                && !(a.format == ImageFormat::Png && b.format == ImageFormat::Jpeg)
        }),
{
    let a = placed_in_order(v, order)[i];
    let b = placed_in_order(v, order)[j];
    assert(a == v[order[i] as int]);
    assert(b == v[order[j] as int]);
    assert(placement_key(a, mode) <= placement_key(b, mode));
}

/// The placements of `v` that pass the filter text.
fn filter_placements(v: &Vec<ImagePlacement>, filter: &str) -> (r: Vec<ImagePlacement>)
    ensures
        r@ == filtered(v@, filter@),
{
    let fchars = chars_of(filter);
    if fchars.len() == 0 {
        let mut all: Vec<ImagePlacement> = Vec::new();
        let mut i: usize = 0;
        while i < v.len()
            invariant
                i <= v@.len(),
                all@ == v@.subrange(0, i as int),
            decreases v.len() - i,
        {
            all.push(v[i]);
            i = i + 1;
        }
        assert(v@.subrange(0, v@.len() as int) =~= v@);
        return all;
    }
    let lowered = to_lowercase(filter);
    let lq = chars_of(lowered.as_str());
    let mut kept: Vec<ImagePlacement> = Vec::new();
    let mut i: usize = 0;
    while i < v.len()
        invariant
            i <= v@.len(),
            lq@ == unicode_lowercase(filter@),
            kept@ == v@.subrange(0, i as int).filter(passes(filter@)),
        decreases v.len() - i,
    {
        let p = v[i];
        proof {
            reveal(Seq::filter);
            assert(v@.subrange(0, i + 1).drop_last() =~= v@.subrange(0, i as int));
            assert(v@.subrange(0, i + 1).last() == p);
        }
        let id_text = u64_to_decimal(p.id);
        let id_chars = chars_of(id_text.as_str());
        let name = format_name_chars(p.format);
        if chars_contain(id_chars.as_slice(), lq.as_slice()) || chars_contain(name.as_slice(), lq.as_slice()) {
            kept.push(p);
        }
        i = i + 1;
    }
    assert(v@.subrange(0, v@.len() as int) =~= v@);
    kept
}

/// Sort placements by the mode's key, keeping equal keys in their order.
fn sort_placements(v: &Vec<ImagePlacement>, mode: ImageSortMode) -> (sorted: Vec<ImagePlacement>)
    ensures
        exists|order: Seq<usize>| is_key_order(v@, mode, order) && sorted@ == placed_in_order(v@, order),
{
    let mut sorted: Vec<ImagePlacement> = Vec::new();
    let ghost mut order: Seq<usize> = Seq::empty();
    let mut i: usize = 0;
    while i < v.len()
        invariant
            i <= v@.len(),
            order.len() == i,
            sorted@.len() == i,
            forall|m: int| 0 <= m < i ==> #[trigger] sorted@[m] == v@[order[m] as int],
            forall|k: int| 0 <= k < order.len() ==> order[k] < i,
            forall|j: usize| j < i ==> #[trigger] order.contains(j),
            forall|a: int, b: int|
                0 <= a < b < order.len() ==> placement_key(v@[#[trigger] order[a] as int], mode) < placement_key(
                    v@[#[trigger] order[b] as int],
                    mode,
                ) || (placement_key(v@[order[a] as int], mode) == placement_key(v@[order[b] as int], mode)
                    && order[a] < order[b]),
        decreases v.len() - i,
    {
        let p = v[i];
        let ki = sort_key(&p, mode);
        let mut k: usize = 0;
        while k < sorted.len() && sort_key(&sorted[k], mode) <= ki
            invariant
                i < v@.len(),
                p == v@[i as int],
                k <= sorted@.len(),
                sorted@.len() == order.len(),
                ki == placement_key(v@[i as int], mode),
                forall|m: int| 0 <= m < sorted@.len() ==> #[trigger] sorted@[m] == v@[order[m] as int],
                forall|m: int| 0 <= m < k ==> placement_key(v@[#[trigger] order[m] as int], mode) <= placement_key(
                    v@[i as int],
                    mode,
                ),
            decreases sorted.len() - k,
        {
            assert(sorted@[k as int] == v@[order[k as int] as int]);
            k = k + 1;
        }
        let ghost old_order = order;
        let ghost old_sorted = sorted@;
        sorted.insert(k, p);
        proof {
            order = order.insert(k as int, i);
            let no = order;
            assert forall|m: int| 0 <= m < i + 1 implies #[trigger] sorted@[m] == v@[no[m] as int] by {
                if m < k {
                    assert(sorted@[m] == old_sorted[m] && no[m] == old_order[m]);
                } else if m > k {
                    assert(sorted@[m] == old_sorted[m - 1] && no[m] == old_order[m - 1]);
                }
            }
            assert forall|a: int, b: int| 0 <= a < b < no.len() implies placement_key(v@[#[trigger] no[a] as int], mode)
                < placement_key(v@[#[trigger] no[b] as int], mode) || (placement_key(v@[no[a] as int], mode)
                == placement_key(v@[no[b] as int], mode) && no[a] < no[b]) by {
                if b < k {
                    assert(no[a] == old_order[a] && no[b] == old_order[b]);
                } else if b == k {
                    assert(no[a] == old_order[a]);
                } else if a == k {
                    assert(no[b] == old_order[b - 1]);
                    if b - 1 > k {
                        assert(placement_key(v@[old_order[k as int] as int], mode) <= placement_key(
                            v@[old_order[b - 1] as int],
                            mode,
                        ));
                    }
                } else if a < k {
                    assert(no[a] == old_order[a] && no[b] == old_order[b - 1]);
                } else {
                    assert(no[a] == old_order[a - 1] && no[b] == old_order[b - 1]);
                }
            }
            assert forall|j: usize| j < i + 1 implies #[trigger] no.contains(j) by {
                if j == i {
                    assert(no[k as int] == i);
                } else {
                    assert(old_order.contains(j));
                    let w = choose|w: int| 0 <= w < old_order.len() && old_order[w] == j;
                    if w < k {
                        assert(no[w] == j);
                    } else {
                        assert(no[w + 1] == j);
                    }
                }
            }
        }
        i = i + 1;
    }
    proof {
        assert(sorted@ =~= placed_in_order(v@, order));
    }
    sorted
}

/// The image list as shown: the placements that pass the filter text,
/// sorted by the mode's key, equal keys in their order.
pub fn visible_placements(placements: &Vec<ImagePlacement>, filter: &str, mode: ImageSortMode) -> (r: Vec<
    ImagePlacement,
>)
    ensures
        exists|order: Seq<usize>|
            is_key_order(filtered(placements@, filter@), mode, order) && r@ == placed_in_order(
                filtered(placements@, filter@),
                order,
            ),
{
    let kept = filter_placements(placements, filter);
    sort_placements(&kept, mode)
}

/// Counts and memory of the images.
#[derive(Debug, Clone, Copy, PartialEq, Eq, Structural)]
pub struct GraphicsStats {
    /// Images loaded
    pub total_loaded: usize,
    /// Bytes of shared memory the images use
    pub total_memory: usize,
    /// Images shown
    pub visible_count: usize,
    /// The most memory seen in use
    pub peak_memory: usize,
}

impl GraphicsStats {
    /// All zero.
    pub fn default() -> (s: Self)
        ensures
            s == (GraphicsStats { total_loaded: 0, total_memory: 0, visible_count: 0, peak_memory: 0 }),
    {
        GraphicsStats { total_loaded: 0, total_memory: 0, visible_count: 0, peak_memory: 0 }
    }
}

/// The shared memory that placements use, in bytes.
pub open spec fn memory_of(v: Seq<ImagePlacement>) -> int
    decreases v.len(),
{
    if v.len() == 0 {
        0
    } else {
        memory_of(v.drop_last()) + v.last().shm_size
    }
}

/// Recount from the placements in the cache and, where the shared-memory
/// reader is open, the number of placements it sees. The total memory must
/// fit in a `usize`.
pub fn update_stats(stats: &mut GraphicsStats, placements: &Vec<ImagePlacement>, reader_count: Option<usize>)
    requires
        memory_of(placements@) <= usize::MAX,
    ensures
        final(stats).total_loaded == placements@.len(),
        final(stats).total_memory == memory_of(placements@),
        final(stats).peak_memory == (if memory_of(placements@) > old(stats).peak_memory {
            memory_of(placements@)
        } else {
            old(stats).peak_memory as int
        }),
        final(stats).visible_count == match reader_count {
            Some(n) => n as int,
            None => placements@.len() as int,
        },
{
    let mut total: usize = 0;
    let mut i: usize = 0;
    while i < placements.len()
        invariant
            i <= placements@.len(),
            memory_of(placements@) <= usize::MAX,
            total == memory_of(placements@.subrange(0, i as int)),
        decreases placements.len() - i,
    {
        proof {
            lemma_memory_prefix_bounded(placements@, i as int + 1);
            assert(placements@.subrange(0, i + 1).drop_last() =~= placements@.subrange(0, i as int));
        }
        total = total + placements[i].shm_size;
        i = i + 1;
    }
    assert(placements@.subrange(0, placements@.len() as int) =~= placements@);
    stats.total_loaded = placements.len();
    stats.visible_count = placements.len();
    stats.total_memory = total;
    if total > stats.peak_memory {
        stats.peak_memory = total;
    }
    if let Some(n) = reader_count {
        stats.visible_count = n;
    }
}

/// The memory of a prefix is at most that of the whole.
proof fn lemma_memory_prefix_bounded(v: Seq<ImagePlacement>, n: int)
    requires
        0 <= n <= v.len(),
    ensures
        memory_of(v.subrange(0, n)) <= memory_of(v),
    decreases v.len() - n,
{
    if n < v.len() {
        lemma_memory_prefix_bounded(v, n + 1);
        assert(v.subrange(0, n + 1).drop_last() =~= v.subrange(0, n));
    } else {
        assert(v.subrange(0, n) =~= v);
    }
}

/// The inspector's state.
#[derive(Debug)]
pub struct GraphicsInspectorState {
    /// Whether the inspector window is shown
    pub visible: bool,
    /// Selected image in the list
    pub selected_index: usize,
    /// Filter text for the list
    pub filter_text: String,
    /// Order of the list
    pub sort_mode: ImageSortMode,
    /// Statistics
    pub stats: GraphicsStats,
}

impl GraphicsInspectorState {
    /// Hidden, first entry selected, no filter, by identifier, zero counts.
    pub fn default() -> (s: Self)
        ensures
            !s.visible,
            s.selected_index == 0,
            s.filter_text@.len() == 0,
            s.sort_mode == ImageSortMode::ById,
            s.stats == (GraphicsStats { total_loaded: 0, total_memory: 0, visible_count: 0, peak_memory: 0 }),
    {
        GraphicsInspectorState {
            visible: false,
            selected_index: 0,
            filter_text: String::new(),
            sort_mode: ImageSortMode::ById,
            stats: GraphicsStats::default(),
        }
    }
}

/// Ctrl+Shift+G, with either Control and either Shift held, shows or hides
/// the inspector; any other keyboard state leaves it as it is.
pub fn toggle_on_shortcut(state: &mut GraphicsInspectorState, keyboard: &KeyboardState)
    ensures
        final(state).visible == (if (keyboard.pressed@.contains(Key::ControlLeft) || keyboard.pressed@.contains(
            Key::ControlRight,
        )) && (keyboard.pressed@.contains(Key::ShiftLeft) || keyboard.pressed@.contains(Key::ShiftRight))
            && keyboard.just_pressed@.contains(Key::KeyG) {
            !old(state).visible
        } else {
            old(state).visible
        }),
        final(state).selected_index == old(state).selected_index,
        final(state).filter_text == old(state).filter_text,
        final(state).sort_mode == old(state).sort_mode,
        final(state).stats == old(state).stats,
{
    if keyboard.pressed(Key::ControlLeft) || keyboard.pressed(Key::ControlRight) {
        if keyboard.pressed(Key::ShiftLeft) || keyboard.pressed(Key::ShiftRight) {
            if keyboard.just_pressed(Key::KeyG) {
                state.visible = !state.visible;
            }
        }
    }
}

/// Pixels assumed per cell, across and down, when estimating decoded sizes.
pub const CELL_PIXEL_WIDTH: u64 = 10;
pub const CELL_PIXEL_HEIGHT: u64 = 20;

/// The estimated size of an image once decoded: its cells at 10 by 20
/// pixels each, four bytes (RGBA) per pixel.
pub fn estimated_decoded_size(p: &ImagePlacement) -> (n: u64)
    ensures
        n == (p.width_cells * CELL_PIXEL_WIDTH) * (p.height_cells * CELL_PIXEL_HEIGHT) * 4,
{
    let w: u64 = p.width_cells as u64 * CELL_PIXEL_WIDTH;
    let h: u64 = p.height_cells as u64 * CELL_PIXEL_HEIGHT;
    assert(w * h * 4 <= 655350 * 1310700 * 4) by (nonlinear_arith)
        requires
            w <= 655350,
            h <= 1310700,
    ;
    w * h * 4
}

} // verus!
