use vstd::prelude::*;

verus! {

/// Number of sub-pixel units in one pixel. Every length of the library is an integer
/// count of these units.
pub const UNITS_PER_PX: i32 = 64;

/// The exact scale of the placement computation: one sub-pixel unit is `FINE` fine
/// units. Anchors and scale factors are in thousandths and percentages in thousandths
/// of a percent, so every product that placement forms is a whole (even) number of
/// fine units.
pub const FINE: i128 = 200_000;

/// A bound on each term that placement adds up, in fine units.
pub const FINE_BOUND: i128 = 0x40_0000_0000_0000_0000;

/// Fine units in one pixel.
pub const PX_FINE: i128 = 12_800_000;

/// A point or a size in sub-pixel units, `y` growing downwards.
#[derive(Clone, Copy, Debug, PartialEq, Eq, Structural)]
pub struct Point {
    pub x: i32,
    pub y: i32,
}

impl Point {
    /// The point at whole pixels `(x, y)`.
    pub fn from_px(x: i16, y: i16) -> (r: Point)
        ensures
            r.x == x * UNITS_PER_PX,
            r.y == y * UNITS_PER_PX,
    {
        Point { x: x as i32 * UNITS_PER_PX, y: y as i32 * UNITS_PER_PX }
    }

    pub fn zero() -> (r: Point)
        ensures
            r.x == 0 && r.y == 0,
    {
        Point { x: 0, y: 0 }
    }
}

/// A point of a rectangle, in thousandths of its size from its center: `x` from -500
/// (left edge) to 500 (right edge), `y` from -500 (bottom edge) to 500 (top edge).
#[derive(Clone, Copy, Debug, PartialEq, Eq, Structural)]
pub struct Anchor {
    pub x: i16,
    pub y: i16,
}

impl Anchor {
    pub fn new(x: i16, y: i16) -> (r: Anchor)
        ensures
            r.x == x && r.y == y,
    {
        Anchor { x, y }
    }

    pub fn top_left() -> (r: Anchor)
        ensures
            r.x == -500 && r.y == 500,
    {
        Anchor { x: -500, y: 500 }
    }

    pub fn top_center() -> (r: Anchor)
        ensures
            r.x == 0 && r.y == 500,
    {
        Anchor { x: 0, y: 500 }
    }

    pub fn top_right() -> (r: Anchor)
        ensures
            r.x == 500 && r.y == 500,
    {
        Anchor { x: 500, y: 500 }
    }

    pub fn center_left() -> (r: Anchor)
        ensures
            r.x == -500 && r.y == 0,
    {
        Anchor { x: -500, y: 0 }
    }

    pub fn center() -> (r: Anchor)
        ensures
            r.x == 0 && r.y == 0,
    {
        Anchor { x: 0, y: 0 }
    }

    pub fn center_right() -> (r: Anchor)
        ensures
            r.x == 500 && r.y == 0,
    {
        Anchor { x: 500, y: 0 }
    }

    pub fn bottom_left() -> (r: Anchor)
        ensures
            r.x == -500 && r.y == -500,
    {
        Anchor { x: -500, y: -500 }
    }

    pub fn bottom_center() -> (r: Anchor)
        ensures
            r.x == 0 && r.y == -500,
    {
        Anchor { x: 0, y: -500 }
    }

    pub fn bottom_right() -> (r: Anchor)
        ensures
            r.x == 500 && r.y == -500,
    {
        Anchor { x: 500, y: -500 }
    }

    /// The opposite point of the rectangle.
    pub fn opposite(self) -> (r: Anchor)
        requires
            self.x > i16::MIN && self.y > i16::MIN,
        ensures
            r.x == -self.x && r.y == -self.y,
    {
        Anchor { x: -self.x, y: -self.y }
    }
}

/// A length that may depend on the viewport.
#[derive(Clone, Copy, Debug, PartialEq, Eq, Structural)]
pub enum Val {
    /// No length; resolves to zero.
    Auto,
    /// Sub-pixel units, multiplied by the render scale factor.
    Px(i32),
    /// Thousandths of a percent of a base length given by the context.
    Percent(i32),
    /// Thousandths of a percent of the viewport width.
    Vw(i32),
    /// Thousandths of a percent of the viewport height.
    Vh(i32),
    /// Thousandths of a percent of the smaller viewport dimension.
    VMin(i32),
    /// Thousandths of a percent of the larger viewport dimension.
    VMax(i32),
}

/// Four edge insets.
#[derive(Clone, Copy, Debug, PartialEq, Eq, Structural)]
pub struct UiRect {
    pub left: Val,
    pub right: Val,
    pub top: Val,
    pub bottom: Val,
}

impl UiRect {
    pub fn zero() -> (r: UiRect)
        ensures
            r.left == Val::Px(0) && r.right == Val::Px(0) && r.top == Val::Px(0) && r.bottom
                == Val::Px(0),
    {
        UiRect { left: Val::Px(0), right: Val::Px(0), top: Val::Px(0), bottom: Val::Px(0) }
    }

    pub fn all(v: Val) -> (r: UiRect)
        ensures
            r.left == v && r.right == v && r.top == v && r.bottom == v,
    {
        UiRect { left: v, right: v, top: v, bottom: v }
    }
}

pub open spec fn min_int(a: int, b: int) -> int {
    if a <= b { a } else { b }
}

pub open spec fn max_int(a: int, b: int) -> int {
    if a >= b { a } else { b }
}

/// What `v` amounts to, in fine units, with render scale `scale` (in thousandths),
/// a base length `base` for percentages and a viewport of size `viewport` (both in
/// sub-pixel units). `Auto` amounts to nothing.
pub open spec fn resolved(v: Val, scale: int, base: int, viewport: Point) -> int {
    match v {
        Val::Auto => 0,
        Val::Px(n) => n * scale * (FINE / 1000),
        Val::Percent(p) => base * p * (FINE / 100_000),
        Val::Vw(p) => viewport.x * p * (FINE / 100_000),
        Val::Vh(p) => viewport.y * p * (FINE / 100_000),
        Val::VMin(p) => min_int(viewport.x as int, viewport.y as int) * p * (FINE / 100_000),
        Val::VMax(p) => max_int(viewport.x as int, viewport.y as int) * p * (FINE / 100_000),
    }
}

/// The product of two 32-bit integers, which fits in 63 bits.
pub fn mul_i32(a: i32, b: i32) -> (r: i128)
    ensures
        r == a * b,
        -0x4000_0000_0000_0000 <= r <= 0x4000_0000_0000_0000,
{
    proof {
        lemma_mul_i32_bound(a as int, b as int);
    }
    a as i128 * b as i128
}

proof fn lemma_mul_i32_bound(a: int, b: int)
    requires
        -0x8000_0000 <= a < 0x8000_0000,
        -0x8000_0000 <= b < 0x8000_0000,
    ensures
        -0x4000_0000_0000_0000 <= a * b <= 0x4000_0000_0000_0000,
{
    assert(-0x4000_0000_0000_0000 <= a * b <= 0x4000_0000_0000_0000) by (nonlinear_arith)
        requires
            -0x8000_0000 <= a < 0x8000_0000,
            -0x8000_0000 <= b < 0x8000_0000,
    ;
}

/// Resolves `v` in fine units (see [`resolved`]).
pub fn resolve(v: Val, scale: i32, base: i32, viewport: Point) -> (r: i128)
    ensures
        r == resolved(v, scale as int, base as int, viewport),
        -FINE_BOUND <= r <= FINE_BOUND,
{
    match v {
        Val::Auto => 0,
        Val::Px(n) => mul_i32(n, scale) * 200,
        Val::Percent(p) => mul_i32(base, p) * 2,
        Val::Vw(p) => mul_i32(viewport.x, p) * 2,
        Val::Vh(p) => mul_i32(viewport.y, p) * 2,
        Val::VMin(p) => {
            let m = if viewport.x <= viewport.y { viewport.x } else { viewport.y };
            mul_i32(m, p) * 2
        },
        Val::VMax(p) => {
            let m = if viewport.x >= viewport.y { viewport.x } else { viewport.y };
            mul_i32(m, p) * 2
        },
    }
}

/// `a` divided by `b`, rounded down.
pub fn floor_div(a: i128, b: i128) -> (r: i128)
    requires
        b > 0,
        a > i128::MIN + b,
    ensures
        r == a / b,
{
    if a >= 0 {
        a / b
    } else {
        let c = (-a + b - 1) / b;
        proof {
            let n: int = -a + b - 1;
            vstd::arithmetic::div_mod::lemma_fundamental_div_mod(n, b as int);
            let rem = n % (b as int);
            assert(c == n / (b as int));
            assert(0 <= rem < b);
            assert((-c) * b == -(b * c)) by (nonlinear_arith);
            vstd::arithmetic::div_mod::lemma_fundamental_div_mod_converse(
                a as int,
                b as int,
                -c,
                b - 1 - rem,
            );
        }
        -c
    }
}

} // verus!
