use vstd::prelude::*;

use crate::geometry::{Anchor, Point, UiRect, Val};

verus! {

/// Where on the screen a tooltip's anchor point goes.
#[derive(Clone, Copy, Debug, PartialEq, Eq, Structural)]
pub enum TargetPoint {
    /// A point of the target element's rectangle.
    Fixed(Anchor),
    /// The pointer: where it was when the tooltip activated, or, with `follow`, where it
    /// is now.
    Cursor { follow: bool },
}

/// How a tooltip is placed.
#[derive(Clone, Copy, Debug, PartialEq, Eq, Structural)]
pub struct TooltipPlacement {
    /// The point of the tooltip that lands on the target point.
    pub anchor_point: Anchor,
    /// The point the anchor point lands on.
    pub target_point: TargetPoint,
    /// Added to the position horizontally.
    pub offset_x: Val,
    /// Added to the position vertically.
    pub offset_y: Val,
    /// Insets from the viewport edges that the tooltip stays within.
    pub clamp_padding: UiRect,
}

pub open spec fn no_padding() -> UiRect {
    UiRect { left: Val::Px(0), right: Val::Px(0), top: Val::Px(0), bottom: Val::Px(0) }
}

/// A placement at the pointer: `anchor` on the pointer, moved by `offset` sub-pixel
/// units, with no padding.
pub open spec fn cursor_placement(anchor: Anchor, follow: bool, offset: i32) -> TooltipPlacement {
    TooltipPlacement {
        anchor_point: anchor,
        target_point: TargetPoint::Cursor { follow },
        offset_x: Val::Px(offset),
        offset_y: Val::Px(offset),
        clamp_padding: no_padding(),
    }
}

/// The offset of the pointer presets: 16 pixels right and down.
pub const CURSOR_OFFSET: i32 = 1024;

impl TooltipPlacement {
    /// Centered on the pointer.
    pub fn cursor_centered() -> (r: TooltipPlacement)
        ensures
            r == cursor_placement(Anchor { x: 0, y: 0 }, false, 0),
    {
        TooltipPlacement {
            anchor_point: Anchor::center(),
            target_point: TargetPoint::Cursor { follow: false },
            offset_x: Val::Px(0),
            offset_y: Val::Px(0),
            clamp_padding: UiRect::zero(),
        }
    }

    /// Top-left corner 16 pixels right of and below the pointer.
    pub fn cursor() -> (r: TooltipPlacement)
        ensures
            r == cursor_placement(Anchor { x: -500i16, y: 500i16 }, false, CURSOR_OFFSET),
    {
        TooltipPlacement {
            anchor_point: Anchor::top_left(),
            target_point: TargetPoint::Cursor { follow: false },
            offset_x: Val::Px(CURSOR_OFFSET),
            offset_y: Val::Px(CURSOR_OFFSET),
            clamp_padding: UiRect::zero(),
        }
    }

    /// Centered on the pointer as it moves.
    pub fn follow_cursor_centered() -> (r: TooltipPlacement)
        ensures
            r == cursor_placement(Anchor { x: 0, y: 0 }, true, 0),
    {
        TooltipPlacement {
            anchor_point: Anchor::center(),
            target_point: TargetPoint::Cursor { follow: true },
            offset_x: Val::Px(0),
            offset_y: Val::Px(0),
            clamp_padding: UiRect::zero(),
        }
    }

    /// Top-left corner 16 pixels right of and below the pointer as it moves.
    pub fn follow_cursor() -> (r: TooltipPlacement)
        ensures
            r == cursor_placement(Anchor { x: -500i16, y: 500i16 }, true, CURSOR_OFFSET),
    {
        TooltipPlacement {
            anchor_point: Anchor::top_left(),
            target_point: TargetPoint::Cursor { follow: true },
            offset_x: Val::Px(CURSOR_OFFSET),
            offset_y: Val::Px(CURSOR_OFFSET),
            clamp_padding: UiRect::zero(),
        }
    }

    /// Outside the target element at `anchor`: the tooltip's opposite point lands on
    /// that point of the target.
    pub fn from_anchor(anchor: Anchor) -> (r: TooltipPlacement)
        requires
            anchor.x > i16::MIN && anchor.y > i16::MIN,
        ensures
            r == (TooltipPlacement {
                anchor_point: Anchor { x: -anchor.x as i16, y: -anchor.y as i16 },
                target_point: TargetPoint::Fixed(anchor),
                offset_x: Val::Px(0),
                offset_y: Val::Px(0),
                clamp_padding: no_padding(),
            }),
    {
        TooltipPlacement {
            anchor_point: anchor.opposite(),
            target_point: TargetPoint::Fixed(anchor),
            offset_x: Val::Px(0),
            offset_y: Val::Px(0),
            clamp_padding: UiRect::zero(),
        }
    }

    /// Top-left corner at the pointer, moved by `offset`.
    pub fn from_offset(offset: Point) -> (r: TooltipPlacement)
        ensures
            r == (TooltipPlacement {
                anchor_point: Anchor { x: -500i16, y: 500i16 },
                target_point: TargetPoint::Cursor { follow: false },
                offset_x: Val::Px(offset.x),
                offset_y: Val::Px(offset.y),
                clamp_padding: no_padding(),
            }),
    {
        TooltipPlacement {
            anchor_point: Anchor::top_left(),
            target_point: TargetPoint::Cursor { follow: false },
            offset_x: Val::Px(offset.x),
            offset_y: Val::Px(offset.y),
            clamp_padding: UiRect::zero(),
        }
    }
}

impl Default for TooltipPlacement {
    /// Centered on the pointer.
    fn default() -> (r: TooltipPlacement)
        ensures
            r == cursor_placement(Anchor { x: 0, y: 0 }, false, 0),
    {
        TooltipPlacement::cursor_centered()
    }
}

} // verus!

verus! {

use crate::geometry::{
    floor_div, mul_i32, resolve, resolved, FINE, FINE_BOUND, PX_FINE, UNITS_PER_PX,
};
use crate::context::{TooltipContext, TooltipState};

/// What the host measured for placing the shown tooltip this frame, in sub-pixel units.
#[derive(Clone, Copy, Debug, PartialEq, Eq, Structural)]
pub struct PlacementFrame {
    /// The center of the target element on screen.
    pub target_center: Point,
    /// The size of the target element.
    pub target_size: Point,
    /// The size of the tooltip element.
    pub tooltip_size: Point,
    /// The size of the viewport that the target is rendered in.
    pub viewport_size: Point,
    /// The viewport's render scale factor, in thousandths.
    pub scale: i32,
}

/// Where the tooltip goes.
#[derive(Clone, Copy, Debug, PartialEq, Eq, Structural)]
pub struct TooltipPosition {
    /// The tooltip's center, in sub-pixel units.
    pub center_x: i64,
    pub center_y: i64,
    /// The tooltip's top-left corner in half sub-pixel units (twice its coordinates in
    /// sub-pixel units): the center less half the size, exactly.
    pub left2: i64,
    pub top2: i64,
}

/// The target point, in fine units: the anchored point of the target's rectangle, or
/// the pointer.
pub open spec fn target_x(p: TooltipPlacement, cursor: Point, f: PlacementFrame) -> int {
    match p.target_point {
        TargetPoint::Fixed(a) => f.target_center.x * FINE + f.target_size.x * a.x * (FINE / 1000),
        TargetPoint::Cursor { .. } => cursor.x * FINE,
    }
}

pub open spec fn target_y(p: TooltipPlacement, cursor: Point, f: PlacementFrame) -> int {
    match p.target_point {
        TargetPoint::Fixed(a) => f.target_center.y * FINE - f.target_size.y * a.y * (FINE / 1000),
        TargetPoint::Cursor { .. } => cursor.y * FINE,
    }
}

/// The tooltip's center before clamping, in fine units: its anchor point on the target
/// point, moved by the offset.
pub open spec fn unclamped_x(p: TooltipPlacement, cursor: Point, f: PlacementFrame) -> int {
    target_x(p, cursor, f) - f.tooltip_size.x * p.anchor_point.x * (FINE / 1000) + resolved(
        p.offset_x,
        f.scale as int,
        f.viewport_size.x as int,
        f.viewport_size,
    )
}

pub open spec fn unclamped_y(p: TooltipPlacement, cursor: Point, f: PlacementFrame) -> int {
    target_y(p, cursor, f) + f.tooltip_size.y * p.anchor_point.y * (FINE / 1000) + resolved(
        p.offset_y,
        f.scale as int,
        f.viewport_size.y as int,
        f.viewport_size,
    )
}

/// The least horizontal center that keeps the tooltip within the padded viewport.
pub open spec fn min_x(p: TooltipPlacement, f: PlacementFrame) -> int {
    f.tooltip_size.x * (FINE / 2) + resolved(
        p.clamp_padding.left,
        f.scale as int,
        f.viewport_size.x as int,
        f.viewport_size,
    )
}

pub open spec fn max_x(p: TooltipPlacement, f: PlacementFrame) -> int {
    f.viewport_size.x * FINE - f.tooltip_size.x * (FINE / 2) - resolved(
        p.clamp_padding.right,
        f.scale as int,
        f.viewport_size.x as int,
        f.viewport_size,
    )
}

pub open spec fn min_y(p: TooltipPlacement, f: PlacementFrame) -> int {
    f.tooltip_size.y * (FINE / 2) + resolved(
        p.clamp_padding.top,
        f.scale as int,
        f.viewport_size.x as int,
        f.viewport_size,
    )
}

pub open spec fn max_y(p: TooltipPlacement, f: PlacementFrame) -> int {
    f.viewport_size.y * FINE - f.tooltip_size.y * (FINE / 2) - resolved(
        p.clamp_padding.bottom,
        f.scale as int,
        f.viewport_size.x as int,
        f.viewport_size,
    )
}

/// `pos` clamped into `[lo, hi]`; a range with `lo > hi` collapses to its midpoint.
pub open spec fn clamp_axis(pos: int, lo: int, hi: int) -> int {
    let (l, h) = if lo > hi {
        ((lo + hi) / 2, (lo + hi) / 2)
    } else {
        (lo, hi)
    };
    if pos < l {
        l
    } else if pos > h {
        h
    } else {
        pos
    }
}

/// `pos` (fine units) snapped to the pixel grid, in sub-pixel units: to the nearest
/// pixel for an element whose size, rounded to pixels, is even, else to the nearest
/// half pixel; ties go up.
pub open spec fn snap(pos: int, size: int) -> int {
    let px = PX_FINE as int;
    let u = UNITS_PER_PX as int;
    if ((size + u / 2) / u) % 2 == 0 {
        ((pos + px / 2) / px) * u
    } else {
        ((pos + px) / px) * u - u / 2
    }
}

pub open spec fn clamped_x(p: TooltipPlacement, cursor: Point, f: PlacementFrame) -> int {
    clamp_axis(unclamped_x(p, cursor, f), min_x(p, f), max_x(p, f))
}

pub open spec fn clamped_y(p: TooltipPlacement, cursor: Point, f: PlacementFrame) -> int {
    clamp_axis(unclamped_y(p, cursor, f), min_y(p, f), max_y(p, f))
}

/// The tooltip's position for placement `p`, pointer position `cursor` and frame `f`.
pub open spec fn placed(p: TooltipPlacement, cursor: Point, f: PlacementFrame) -> TooltipPosition {
    let cx = snap(clamped_x(p, cursor, f), f.tooltip_size.x as int);
    let cy = snap(clamped_y(p, cursor, f), f.tooltip_size.y as int);
    TooltipPosition {
        center_x: cx as i64,
        center_y: cy as i64,
        left2: (2 * cx - f.tooltip_size.x) as i64,
        top2: (2 * cy - f.tooltip_size.y) as i64,
    }
}

/// Sizes are never negative.
pub open spec fn valid_frame(f: PlacementFrame) -> bool {
    f.tooltip_size.x >= 0 && f.tooltip_size.y >= 0
}

fn clamp_fine(pos: i128, lo: i128, hi: i128) -> (r: i128)
    requires
        -4 * FINE_BOUND <= pos <= 4 * FINE_BOUND,
        -4 * FINE_BOUND <= lo <= 4 * FINE_BOUND,
        -4 * FINE_BOUND <= hi <= 4 * FINE_BOUND,
    ensures
        r == clamp_axis(pos as int, lo as int, hi as int),
        -4 * FINE_BOUND <= r <= 4 * FINE_BOUND,
{
    let (l, h) = if lo > hi {
        let mid = floor_div(lo + hi, 2);
        (mid, mid)
    } else {
        (lo, hi)
    };
    if pos < l {
        l
    } else if pos > h {
        h
    } else {
        pos
    }
}

fn snap_fine(pos: i128, size: i32) -> (r: i64)
    requires
        -4 * FINE_BOUND <= pos <= 4 * FINE_BOUND,
        size >= 0,
    ensures
        r == snap(pos as int, size as int),
        -0x200_0000_0000_0000 <= r <= 0x200_0000_0000_0000,
{
    let size_px = (size as i64 + 32) / 64;
    let q = if size_px % 2 == 0 {
        floor_div(pos + PX_FINE / 2, PX_FINE)
    } else {
        floor_div(pos + PX_FINE, PX_FINE)
    };
    proof {
        let lo: int = -4 * FINE_BOUND;
        let hi: int = 4 * FINE_BOUND + PX_FINE;
        if size_px % 2 == 0 {
            vstd::arithmetic::div_mod::lemma_div_is_ordered(lo, pos + PX_FINE / 2, PX_FINE as int);
            vstd::arithmetic::div_mod::lemma_div_is_ordered(pos + PX_FINE / 2, hi, PX_FINE as int);
        } else {
            vstd::arithmetic::div_mod::lemma_div_is_ordered(lo, pos + PX_FINE, PX_FINE as int);
            vstd::arithmetic::div_mod::lemma_div_is_ordered(pos + PX_FINE, hi, PX_FINE as int);
        }
        assert(lo / (PX_FINE as int) >= -0x4_0000_0000_0000);
        assert(hi / (PX_FINE as int) <= 0x4_0000_0000_0000);
    }
    if size_px % 2 == 0 {
        q as i64 * 64
    } else {
        q as i64 * 64 - 32
    }
}

/// Places the governing tooltip of `ctx` for the frame `f`: nothing unless the
/// tooltip is active.
pub fn place_tooltip(ctx: &TooltipContext, f: &PlacementFrame) -> (r: Option<TooltipPosition>)
    requires
        valid_frame(*f),
    ensures
        ctx.state != TooltipState::Active ==> r is None,
        ctx.state == TooltipState::Active ==> r == Some(
            placed(ctx.tooltip.placement, ctx.cursor_pos, *f),
        ),
{
    if ctx.state != TooltipState::Active {
        return None;
    }
    Some(place(&ctx.tooltip.placement, ctx.cursor_pos, f))
}

/// The position of a tooltip placed by `p`, with the pointer at `cursor`.
pub fn place(p: &TooltipPlacement, cursor: Point, f: &PlacementFrame) -> (r: TooltipPosition)
    requires
        valid_frame(*f),
    ensures
        r == placed(*p, cursor, *f),
{
    let vw = f.viewport_size;
    let size = f.tooltip_size;

    // The target point.
    let (tx, ty) = match p.target_point {
        TargetPoint::Fixed(a) => (
            f.target_center.x as i128 * FINE + mul_i32(f.target_size.x, a.x as i32) * 200,
            f.target_center.y as i128 * FINE - mul_i32(f.target_size.y, a.y as i32) * 200,
        ),
        TargetPoint::Cursor { .. } => (cursor.x as i128 * FINE, cursor.y as i128 * FINE),
    };

    // The tooltip's own anchor, then the offset.
    let x = tx - mul_i32(size.x, p.anchor_point.x as i32) * 200 + resolve(p.offset_x, f.scale, vw.x, vw);
    let y = ty + mul_i32(size.y, p.anchor_point.y as i32) * 200 + resolve(p.offset_y, f.scale, vw.y, vw);

    // Clamping into the padded viewport.
    let pad = p.clamp_padding;
    let min_x = size.x as i128 * (FINE / 2) + resolve(pad.left, f.scale, vw.x, vw);
    let max_x = vw.x as i128 * FINE - size.x as i128 * (FINE / 2) - resolve(pad.right, f.scale, vw.x, vw);
    let min_y = size.y as i128 * (FINE / 2) + resolve(pad.top, f.scale, vw.x, vw);
    let max_y = vw.y as i128 * FINE - size.y as i128 * (FINE / 2) - resolve(pad.bottom, f.scale, vw.x, vw);
    let x = clamp_fine(x, min_x, max_x);
    let y = clamp_fine(y, min_y, max_y);

    // The pixel grid.
    let cx = snap_fine(x, size.x);
    let cy = snap_fine(y, size.y);
    TooltipPosition {
        center_x: cx,
        center_y: cy,
        left2: 2 * cx - size.x as i64,
        top2: 2 * cy - size.y as i64,
    }
}

/// Corner to corner: a tooltip whose top-left corner is anchored on the top-left
/// corner of its target, with no offset and no padding, has its top-left corner exactly
/// at the target's before rounding; clamping leaves it there while the tooltip lies
/// within the viewport.
pub proof fn lemma_corner_round_trip(p: TooltipPlacement, cursor: Point, f: PlacementFrame)
    requires
        p.anchor_point == (Anchor { x: -500i16, y: 500i16 }),
        p.target_point == TargetPoint::Fixed(Anchor { x: -500i16, y: 500i16 }),
        p.offset_x == Val::Px(0),
        p.offset_y == Val::Px(0),
        p.clamp_padding == no_padding(),
    ensures
        unclamped_x(p, cursor, f) - f.tooltip_size.x * (FINE / 2) == f.target_center.x * FINE
            - f.target_size.x * (FINE / 2),
        unclamped_y(p, cursor, f) - f.tooltip_size.y * (FINE / 2) == f.target_center.y * FINE
            - f.target_size.y * (FINE / 2),
        min_x(p, f) <= unclamped_x(p, cursor, f) <= max_x(p, f) ==> clamped_x(p, cursor, f)
            == unclamped_x(p, cursor, f),
        min_y(p, f) <= unclamped_y(p, cursor, f) <= max_y(p, f) ==> clamped_y(p, cursor, f)
            == unclamped_y(p, cursor, f),
{
    let ts = f.target_size.x as int;
    let ws = f.tooltip_size.x as int;
    assert(ts * (-500) * 200 == -(ts * 100_000)) by (nonlinear_arith);
    assert(ws * (-500) * 200 == -(ws * 100_000)) by (nonlinear_arith);
}

/// A tooltip too wide for the padded viewport is centered on the middle of the range
/// it would have, whatever its position before clamping; with equal left and right
/// padding that is the middle of the viewport.
pub proof fn lemma_clamp_collapses(
    p: TooltipPlacement,
    c1: Point,
    c2: Point,
    f: PlacementFrame,
)
    requires
        min_x(p, f) > max_x(p, f),
    ensures
        clamped_x(p, c1, f) == (min_x(p, f) + max_x(p, f)) / 2,
        clamped_x(p, c1, f) == clamped_x(p, c2, f),
        placed(p, c1, f).center_x == placed(p, c2, f).center_x,
        p.clamp_padding.left == p.clamp_padding.right ==> clamped_x(p, c1, f) == f.viewport_size.x
            * FINE / 2,
{
}

/// Snapping to the pixel grid moves a position by at most half a pixel.
pub proof fn lemma_snap_within_half_pixel(pos: int, size: int)
    ensures
        pos - PX_FINE / 2 <= snap(pos, size) * FINE <= pos + PX_FINE / 2,
{
    let px = PX_FINE as int;
    let u = UNITS_PER_PX as int;
    let n = if ((size + u / 2) / u) % 2 == 0 {
        pos + px / 2
    } else {
        pos + px
    };
    let q = n / px;
    vstd::arithmetic::div_mod::lemma_fundamental_div_mod(n, px);
    assert(0 <= n % px < px);
    assert(q * u * FINE == q * px) by (nonlinear_arith)
        requires
            px == 12_800_000,
            u == 64,
    ;
    assert((q * u - u / 2) * FINE == q * px - px / 2) by (nonlinear_arith)
        requires
            px == 12_800_000,
            u == 64,
    ;
    assert(px * q == q * px) by (nonlinear_arith);
}

/// Corner to corner after rounding: while the tooltip lies within the viewport, its
/// top-left corner is within half a pixel of the target's top-left corner.
pub proof fn lemma_corner_after_rounding(p: TooltipPlacement, cursor: Point, f: PlacementFrame)
    requires
        p.anchor_point == (Anchor { x: -500i16, y: 500i16 }),
        p.target_point == TargetPoint::Fixed(Anchor { x: -500i16, y: 500i16 }),
        p.offset_x == Val::Px(0),
        p.offset_y == Val::Px(0),
        p.clamp_padding == no_padding(),
        min_x(p, f) <= unclamped_x(p, cursor, f) <= max_x(p, f),
        min_y(p, f) <= unclamped_y(p, cursor, f) <= max_y(p, f),
    ensures
        ({
            let cx = snap(clamped_x(p, cursor, f), f.tooltip_size.x as int);
            let left2 = 2 * cx - f.tooltip_size.x;
            let target_left2 = 2 * f.target_center.x - f.target_size.x;
            -PX_FINE <= (left2 - target_left2) * FINE <= PX_FINE
        }),
        ({
            let cy = snap(clamped_y(p, cursor, f), f.tooltip_size.y as int);
            let top2 = 2 * cy - f.tooltip_size.y;
            let target_top2 = 2 * f.target_center.y - f.target_size.y;
            -PX_FINE <= (top2 - target_top2) * FINE <= PX_FINE
        }),
{
    lemma_corner_round_trip(p, cursor, f);
    lemma_snap_within_half_pixel(clamped_x(p, cursor, f), f.tooltip_size.x as int);
    lemma_snap_within_half_pixel(clamped_y(p, cursor, f), f.tooltip_size.y as int);
}

/// A tooltip that fits in the padded viewport ends up inside it, up to half a pixel of
/// rounding: its center lies between the least and the greatest center that keep it
/// within the padding (see [`min_x`], [`max_x`], [`min_y`], [`max_y`]).
pub proof fn lemma_stays_in_viewport(p: TooltipPlacement, cursor: Point, f: PlacementFrame)
    requires
        min_x(p, f) <= max_x(p, f),
        min_y(p, f) <= max_y(p, f),
    ensures
        min_x(p, f) - PX_FINE / 2 <= snap(clamped_x(p, cursor, f), f.tooltip_size.x as int) * FINE
            <= max_x(p, f) + PX_FINE / 2,
        min_y(p, f) - PX_FINE / 2 <= snap(clamped_y(p, cursor, f), f.tooltip_size.y as int) * FINE
            <= max_y(p, f) + PX_FINE / 2,
{
    lemma_snap_within_half_pixel(clamped_x(p, cursor, f), f.tooltip_size.x as int);
    lemma_snap_within_half_pixel(clamped_y(p, cursor, f), f.tooltip_size.y as int);
}

} // verus!
