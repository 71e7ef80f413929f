use scarab_client::graphics::{
    estimated_decoded_size, format_protocol, update_stats, visible_placements, GraphicsInspectorState, GraphicsStats, ImageFormat,
    ImagePlacement, ImageSortMode,
};
use scarab_client::input::keys::{Key, KeyboardState};
use scarab_client::graphics::toggle_on_shortcut;

fn placement(id: u64, x: u16, y: u16, w: u16, h: u16, format: ImageFormat, size: usize) -> ImagePlacement {
    ImagePlacement { id, x, y, width_cells: w, height_cells: h, format, shm_offset: 0, shm_size: size }
}

fn ids(v: &[ImagePlacement]) -> Vec<u64> {
    v.iter().map(|p| p.id).collect()
}

#[test]
fn test_format_protocol() {
    assert_eq!(format_protocol(ImageFormat::Png), "PNG");
    assert_eq!(format_protocol(ImageFormat::Jpeg), "JPEG");
    assert_eq!(format_protocol(ImageFormat::Gif), "GIF");
    assert_eq!(format_protocol(ImageFormat::Rgba), "RGBA (Sixel)");
}

#[test]
fn test_inspector_state_default() {
    let state = GraphicsInspectorState::default();
    assert!(!state.visible);
    assert_eq!(state.selected_index, 0);
    assert_eq!(state.filter_text, "");
}

fn sample() -> Vec<ImagePlacement> {
    vec![
        placement(3, 5, 1, 2, 2, ImageFormat::Png, 100),
        placement(12, 0, 1, 10, 10, ImageFormat::Gif, 200),
        placement(1, 9, 0, 4, 1, ImageFormat::Rgba, 300),
    ]
}

#[test]
fn sorts_by_each_mode() {
    let v = sample();
    assert_eq!(ids(&visible_placements(&v, "", ImageSortMode::ById)), vec![1, 3, 12]);
    assert_eq!(ids(&visible_placements(&v, "", ImageSortMode::ByPosition)), vec![1, 12, 3]);
    assert_eq!(ids(&visible_placements(&v, "", ImageSortMode::BySize)), vec![12, 3, 1]);
    assert_eq!(ids(&visible_placements(&v, "", ImageSortMode::ByProtocol)), vec![12, 3, 1]);
}

#[test]
fn equal_keys_keep_their_order() {
    let v = vec![
        placement(7, 0, 0, 1, 1, ImageFormat::Png, 0),
        placement(5, 0, 0, 1, 1, ImageFormat::Png, 0),
    ];
    assert_eq!(ids(&visible_placements(&v, "", ImageSortMode::BySize)), vec![7, 5]);
}

#[test]
fn filters_by_identifier_or_format_name() {
    let v = sample();
    assert_eq!(ids(&visible_placements(&v, "1", ImageSortMode::ById)), vec![1, 12]);
    assert_eq!(ids(&visible_placements(&v, "PNG", ImageSortMode::ById)), vec![3]);
    assert_eq!(ids(&visible_placements(&v, "gb", ImageSortMode::ById)), vec![1]);
    assert!(visible_placements(&v, "jpeg", ImageSortMode::ById).is_empty());
}

#[test]
fn stats_count_memory_and_keep_the_peak() {
    let mut stats = GraphicsStats::default();
    update_stats(&mut stats, &sample(), None);
    assert_eq!(stats.total_loaded, 3);
    assert_eq!(stats.total_memory, 600);
    assert_eq!(stats.peak_memory, 600);
    assert_eq!(stats.visible_count, 3);
    update_stats(&mut stats, &vec![placement(1, 0, 0, 1, 1, ImageFormat::Png, 50)], Some(7));
    assert_eq!(stats.total_memory, 50);
    assert_eq!(stats.peak_memory, 600);
    assert_eq!(stats.visible_count, 7);
}

#[test]
fn shortcut_toggles_only_with_both_modifiers() {
    let mut state = GraphicsInspectorState::default();
    let kb = KeyboardState { pressed: vec![Key::ControlLeft, Key::ShiftRight, Key::KeyG], just_pressed: vec![Key::KeyG] };
    toggle_on_shortcut(&mut state, &kb);
    assert!(state.visible);
    let no_shift = KeyboardState { pressed: vec![Key::ControlLeft, Key::KeyG], just_pressed: vec![Key::KeyG] };
    toggle_on_shortcut(&mut state, &no_shift);
    assert!(state.visible);
    toggle_on_shortcut(&mut state, &kb);
    assert!(!state.visible);
}

#[test]
fn estimated_decoded_size_is_rgba_at_ten_by_twenty_pixels_per_cell() {
    assert_eq!(estimated_decoded_size(&placement(1, 0, 0, 8, 4, ImageFormat::Png, 0)), 80 * 80 * 4);
    assert_eq!(
        estimated_decoded_size(&placement(2, 0, 0, u16::MAX, u16::MAX, ImageFormat::Png, 0)),
        655350 * 1310700 * 4
    );
}
