//! The layout arithmetic: the drawable area, less a one-cell margin,
//! is cut into five equal-height horizontal bands, one per panel.

use vstd::prelude::*;
use vstd::arithmetic::div_mod::lemma_fundamental_div_mod;

verus! {

/// A rectangle of terminal cells.
#[derive(Clone, Copy, PartialEq, Eq, Structural, Debug)]
pub struct Rect {
    pub x: u16,
    pub y: u16,
    pub width: u16,
    pub height: u16,
}

/// A drawable area must not run past the addressable cell range.
pub open spec fn fits(area: Rect) -> bool {
    area.x + area.width <= 0xffff && area.y + area.height <= 0xffff
}

/// The left edge inside the one-cell margin.
pub open spec fn inner_x(area: Rect) -> int {
    if area.width >= 2 {
        area.x + 1
    } else {
        area.x as int
    }
}

/// The top edge inside the one-cell margin.
pub open spec fn inner_y(area: Rect) -> int {
    if area.height >= 2 {
        area.y + 1
    } else {
        area.y as int
    }
}

/// The width left inside the one-cell margin.
pub open spec fn inner_width(area: Rect) -> int {
    if area.width >= 2 {
        area.width - 2
    } else {
        0
    }
}

/// The height left inside the one-cell margin.
pub open spec fn inner_height(area: Rect) -> int {
    if area.height >= 2 {
        area.height - 2
    } else {
        0
    }
}

/// Every band gets a fifth of the inner height.
pub open spec fn band_height(area: Rect) -> int {
    inner_height(area) / 5
}

/// Band `i` (0 at the top): full inner width, a fifth of the inner
/// height, stacked without gaps below the inner top edge.
pub open spec fn spec_band(area: Rect, i: int) -> Rect {
    Rect {
        x: inner_x(area) as u16,
        y: (inner_y(area) + i * band_height(area)) as u16,
        width: inner_width(area) as u16,
        height: band_height(area) as u16,
    }
}

/// Splits the drawable area into the five panel bands, top to bottom.
pub fn five_bands(area: Rect) -> (r: Vec<Rect>)
    requires
        fits(area),
    ensures
        r@.len() == 5,
        forall|i: int| 0 <= i < 5 ==> r@[i] == spec_band(area, i),
{
    let ix: u16 = if area.width >= 2 {
        area.x + 1
    } else {
        area.x
    };
    let iy: u16 = if area.height >= 2 {
        area.y + 1
    } else {
        area.y
    };
    let iw: u16 = if area.width >= 2 {
        area.width - 2
    } else {
        0
    };
    let ih: u16 = if area.height >= 2 {
        area.height - 2
    } else {
        0
    };
    let bh: u16 = ih / 5;
    proof {
        lemma_fundamental_div_mod(ih as int, 5);
        assert(5 * (ih as int / 5) <= ih as int);
        assert(iy + 4 * (bh as int) <= 0xffff);
    }
    let y0: u16 = iy;
    let y1: u16 = y0 + bh;
    let y2: u16 = y1 + bh;
    let y3: u16 = y2 + bh;
    let y4: u16 = y3 + bh;
    let mut r: Vec<Rect> = Vec::new();
    r.push(Rect { x: ix, y: y0, width: iw, height: bh });
    r.push(Rect { x: ix, y: y1, width: iw, height: bh });
    r.push(Rect { x: ix, y: y2, width: iw, height: bh });
    r.push(Rect { x: ix, y: y3, width: iw, height: bh });
    r.push(Rect { x: ix, y: y4, width: iw, height: bh });
    proof {
        assert(r@[0] == spec_band(area, 0));
        assert(r@[1] == spec_band(area, 1));
        assert(r@[2] == spec_band(area, 2));
        assert(r@[3] == spec_band(area, 3));
        assert(r@[4] == spec_band(area, 4));
    }
    r
}

/// Stacked bands never run past the drawable area: the last band ends
/// at or above the area's bottom edge.
pub proof fn lemma_bands_within_area(area: Rect)
    requires
        fits(area),
    ensures
        inner_y(area) + 5 * band_height(area) <= area.y + area.height,
{
    lemma_fundamental_div_mod(inner_height(area), 5);
}

} // verus!
