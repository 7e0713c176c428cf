use waycorner::config::Location;
use waycorner::layout::anchor_bits;
use waycorner::layout::overlay_pixels;
use waycorner::layout::pixel_count;
use waycorner::layout::surface_margins;
use waycorner::layout::surface_size;
use waycorner::layout::ANCHOR_BOTTOM;
use waycorner::layout::ANCHOR_LEFT;
use waycorner::layout::ANCHOR_RIGHT;
use waycorner::layout::ANCHOR_TOP;
use waycorner::COLOR_TRANSPARENT;

#[test]
fn corners_anchor_to_their_two_edges() {
    assert_eq!(anchor_bits(&Location::TopLeft), ANCHOR_TOP | ANCHOR_LEFT);
    assert_eq!(anchor_bits(&Location::TopRight), ANCHOR_TOP | ANCHOR_RIGHT);
    assert_eq!(anchor_bits(&Location::BottomRight), ANCHOR_BOTTOM | ANCHOR_RIGHT);
    assert_eq!(anchor_bits(&Location::BottomLeft), ANCHOR_BOTTOM | ANCHOR_LEFT);
}

#[test]
fn edges_anchor_across_the_whole_side() {
    assert_eq!(anchor_bits(&Location::Left), ANCHOR_LEFT | ANCHOR_TOP | ANCHOR_BOTTOM);
    assert_eq!(anchor_bits(&Location::Right), ANCHOR_RIGHT | ANCHOR_TOP | ANCHOR_BOTTOM);
    assert_eq!(anchor_bits(&Location::Top), ANCHOR_TOP | ANCHOR_LEFT | ANCHOR_RIGHT);
    assert_eq!(anchor_bits(&Location::Bottom), ANCHOR_BOTTOM | ANCHOR_LEFT | ANCHOR_RIGHT);
}

#[test]
fn full_edges_stretch_along_their_axis() {
    assert_eq!(surface_size(&Location::Top, 10), (0, 10));
    assert_eq!(surface_size(&Location::Bottom, 10), (0, 10));
    assert_eq!(surface_size(&Location::Left, 10), (10, 0));
    assert_eq!(surface_size(&Location::Right, 10), (10, 0));
    assert_eq!(surface_size(&Location::TopLeft, 10), (10, 10));
    assert_eq!(surface_size(&Location::BottomRight, 7), (7, 7));
}

#[test]
fn margins_inset_edge_placements_only() {
    assert_eq!(surface_margins(&Location::Left, 20), (20, 0, 20, 0));
    assert_eq!(surface_margins(&Location::Right, 20), (20, 0, 20, 0));
    assert_eq!(surface_margins(&Location::Top, 20), (0, 20, 0, 20));
    assert_eq!(surface_margins(&Location::Bottom, 20), (0, 20, 0, 20));
    assert_eq!(surface_margins(&Location::TopLeft, 20), (0, 0, 0, 0));
    assert_eq!(surface_margins(&Location::BottomRight, -5), (0, 0, 0, 0));
}

#[test]
fn pixel_count_is_width_times_height() {
    assert_eq!(pixel_count(0, 100), 0);
    assert_eq!(pixel_count(10, 10), 100);
    assert_eq!(pixel_count(u32::MAX, u32::MAX), (u32::MAX as u64) * (u32::MAX as u64));
}

#[test]
fn preview_paints_the_zone_color() {
    let pixels = overlay_pixels(6, true, 0xFF_FF_00_00);
    assert_eq!(pixels.len(), 6);
    assert!(pixels.iter().all(|p| *p == 0xFF_FF_00_00));
}

#[test]
fn without_preview_the_overlay_is_transparent() {
    let pixels = overlay_pixels(4, false, 0xFF_FF_00_00);
    assert_eq!(pixels, vec![COLOR_TRANSPARENT; 4]);
}
