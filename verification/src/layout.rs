//! The layout orchestrator's geometry: the drawing surface is split into a
//! fixed two-by-two grid, two equal vertical halves each split into two
//! equal horizontal halves, in a deterministic order matching panel
//! registration order.

use vstd::prelude::*;

verus! {

/// A screen region: produced fresh each frame by the layout step.
#[derive(Clone, Copy, PartialEq, Eq, Structural, Debug)]
pub struct Region {
    pub x: u16,
    pub y: u16,
    pub width: u16,
    pub height: u16,
}

/// The four grid cells, in registration order: first row left to right,
/// then second row left to right.
#[derive(Clone, Copy, PartialEq, Eq, Structural, Debug)]
pub struct Grid {
    pub top_left: Region,
    pub top_right: Region,
    pub bottom_left: Region,
    pub bottom_right: Region,
}

/// Splits the drawing surface into the two-by-two grid. Widths and heights
/// that are odd give the right and bottom cells the extra cell, so the four
/// regions always tile the surface exactly: each row's widths sum to the
/// surface width and each column's heights to the surface height, with no
/// overlap.
pub fn split_grid(area: Region) -> (g: Grid)
    requires
        area.x + area.width <= u16::MAX,
        area.y + area.height <= u16::MAX,
    ensures
        g.top_left == (Region {
            x: area.x,
            y: area.y,
            width: (area.width / 2) as u16,
            height: (area.height / 2) as u16,
        }),
        g.top_right == (Region {
            x: (area.x + area.width / 2) as u16,
            y: area.y,
            width: (area.width - area.width / 2) as u16,
            height: (area.height / 2) as u16,
        }),
        g.bottom_left == (Region {
            x: area.x,
            y: (area.y + area.height / 2) as u16,
            width: (area.width / 2) as u16,
            height: (area.height - area.height / 2) as u16,
        }),
        g.bottom_right == (Region {
            x: (area.x + area.width / 2) as u16,
            y: (area.y + area.height / 2) as u16,
            width: (area.width - area.width / 2) as u16,
            height: (area.height - area.height / 2) as u16,
        }),
        g.top_left.width + g.top_right.width == area.width,
        g.bottom_left.width + g.bottom_right.width == area.width,
        g.top_left.height + g.bottom_left.height == area.height,
        g.top_right.height + g.bottom_right.height == area.height,
        g.top_right.x == g.top_left.x + g.top_left.width,
        g.bottom_left.y == g.top_left.y + g.top_left.height,
{
    let half_w = area.width / 2;
    let rest_w = area.width - half_w;
    let half_h = area.height / 2;
    let rest_h = area.height - half_h;
    let mid_x = area.x + half_w;
    let mid_y = area.y + half_h;
    Grid {
        top_left: Region { x: area.x, y: area.y, width: half_w, height: half_h },
        top_right: Region { x: mid_x, y: area.y, width: rest_w, height: half_h },
        bottom_left: Region { x: area.x, y: mid_y, width: half_w, height: rest_h },
        bottom_right: Region { x: mid_x, y: mid_y, width: rest_w, height: rest_h },
    }
}

} // verus!
