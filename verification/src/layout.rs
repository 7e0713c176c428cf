//! The pure geometry behind a zone's overlay surfaces: which edges a
//! placement anchors to, the surface's size and margins, and the pixel
//! buffer the overlay is painted with.

use vstd::prelude::*;

verus! {

use crate::COLOR_TRANSPARENT;
use crate::config::Location;

/// Edge bits of an anchor, combinable by bit-or.
pub const ANCHOR_TOP: u32 = 1;

pub const ANCHOR_BOTTOM: u32 = 2;

pub const ANCHOR_LEFT: u32 = 4;

pub const ANCHOR_RIGHT: u32 = 8;

/// The edges a placement anchors its surface to: corners anchor to their
/// two edges, edge placements span between the two neighbouring edges.
pub open spec fn spec_anchor_bits(l: Location) -> u32 {
    match l {
        Location::TopLeft => ANCHOR_TOP | ANCHOR_LEFT,
        Location::TopRight => ANCHOR_TOP | ANCHOR_RIGHT,
        Location::BottomRight => ANCHOR_BOTTOM | ANCHOR_RIGHT,
        Location::BottomLeft => ANCHOR_BOTTOM | ANCHOR_LEFT,
        Location::Left => ANCHOR_LEFT | ANCHOR_TOP | ANCHOR_BOTTOM,
        Location::Right => ANCHOR_RIGHT | ANCHOR_TOP | ANCHOR_BOTTOM,
        Location::Top => ANCHOR_TOP | ANCHOR_LEFT | ANCHOR_RIGHT,
        Location::Bottom => ANCHOR_BOTTOM | ANCHOR_LEFT | ANCHOR_RIGHT,
    }
}

pub fn anchor_bits(location: &Location) -> (r: u32)
    ensures
        r == spec_anchor_bits(*location),
{
    match location {
        Location::TopLeft => ANCHOR_TOP | ANCHOR_LEFT,
        Location::TopRight => ANCHOR_TOP | ANCHOR_RIGHT,
        Location::BottomRight => ANCHOR_BOTTOM | ANCHOR_RIGHT,
        Location::BottomLeft => ANCHOR_BOTTOM | ANCHOR_LEFT,
        Location::Left => ANCHOR_LEFT | ANCHOR_TOP | ANCHOR_BOTTOM,
        Location::Right => ANCHOR_RIGHT | ANCHOR_TOP | ANCHOR_BOTTOM,
        Location::Top => ANCHOR_TOP | ANCHOR_LEFT | ANCHOR_RIGHT,
        Location::Bottom => ANCHOR_BOTTOM | ANCHOR_LEFT | ANCHOR_RIGHT,
    }
}

/// A surface's (width, height): a full edge stretches along its axis
/// (written as zero), everything else is the configured square size.
pub open spec fn spec_surface_size(l: Location, size: u8) -> (u32, u32) {
    (
        if l == Location::Top || l == Location::Bottom {
            0u32
        } else {
            size as u32
        },
        if l == Location::Left || l == Location::Right {
            0u32
        } else {
            size as u32
        },
    )
}

pub fn surface_size(location: &Location, size: u8) -> (r: (u32, u32))
    ensures
        r == spec_surface_size(*location, size),
{
    let w: u32 = match location {
        Location::Top | Location::Bottom => 0,
        _ => size as u32,
    };
    let h: u32 = match location {
        Location::Left | Location::Right => 0,
        _ => size as u32,
    };
    (w, h)
}

/// A surface's margins as (top, right, bottom, left): side edges are
/// inset vertically, top and bottom edges horizontally, corners not at
/// all.
pub open spec fn spec_surface_margins(l: Location, margin: i8) -> (i32, i32, i32, i32) {
    let side = if l == Location::Left || l == Location::Right {
        margin as i32
    } else {
        0i32
    };
    let band = if l == Location::Top || l == Location::Bottom {
        margin as i32
    } else {
        0i32
    };
    (side, band, side, band)
}

pub fn surface_margins(location: &Location, margin: i8) -> (r: (i32, i32, i32, i32))
    ensures
        r == spec_surface_margins(*location, margin),
{
    let side: i32 = match location {
        Location::Left | Location::Right => margin as i32,
        _ => 0,
    };
    let band: i32 = match location {
        Location::Top | Location::Bottom => margin as i32,
        _ => 0,
    };
    (side, band, side, band)
}

/// The color every overlay pixel is painted with: the zone's color when
/// previewing, else fully transparent.
pub open spec fn spec_overlay_color(preview: bool, preview_color: u32) -> u32 {
    if preview {
        preview_color
    } else {
        COLOR_TRANSPARENT
    }
}

/// How many pixels an overlay buffer of the given extent holds.
pub fn pixel_count(width: u32, height: u32) -> (r: u64)
    ensures
        r == width * height,
{
    proof {
        assert((width as u64) * (height as u64) == (width as int) * (height as int) && (
        width as int) * (height as int) < 0x1_0000_0000_0000_0000) by (nonlinear_arith)
            requires
                0 <= (width as int) < 0x1_0000_0000,
                0 <= (height as int) < 0x1_0000_0000,
        ;
    }
    (width as u64) * (height as u64)
}

/// The whole overlay buffer: one word per pixel, all in the overlay color.
pub fn overlay_pixels(count: usize, preview: bool, preview_color: u32) -> (r: Vec<u32>)
    ensures
        r@.len() == count,
        forall|i: int| #![trigger r@[i]]
            0 <= i < r@.len() ==> r@[i] == spec_overlay_color(preview, preview_color),
{
    let color: u32 = if preview {
        preview_color
    } else {
        COLOR_TRANSPARENT
    };
    let mut v: Vec<u32> = Vec::new();
    let mut i: usize = 0;
    while i < count
        invariant
            i <= count,
            v@.len() == i,
            color == spec_overlay_color(preview, preview_color),
            forall|j: int| #![trigger v@[j]]
                0 <= j < v@.len() ==> v@[j] == spec_overlay_color(preview, preview_color),
        decreases count - i,
    {
        v.push(color);
        i = i + 1;
    }
    v
}

} // verus!
