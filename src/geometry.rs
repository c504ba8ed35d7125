//! Fixed-point vectors, rectangles, colors and the integer helpers that the
//! rest of the simulation is built on.
use vstd::prelude::*;

verus! {

/// Thousandths of a world unit in one world unit.
pub const UNIT: i64 = 1000;

/// Largest magnitude of a coordinate or a velocity component that the
/// simulation accepts; keeps every intermediate product inside `i64`.
pub const COORD_LIMIT: i64 = 536_870_912;

/// Largest magnitude of a difference that lengths are taken of.
pub const SPAN_LIMIT: i64 = 2_147_483_648;

/// Division of `a` by a positive `d`, rounded toward zero (Rust's `/`).
pub open spec fn tdiv(a: int, d: int) -> int {
    if a >= 0 {
        a / d
    } else {
        -((-a) / d)
    }
}

pub open spec fn abs(a: int) -> int {
    if a >= 0 {
        a
    } else {
        -a
    }
}

pub open spec fn in_limit(a: int) -> bool {
    -COORD_LIMIT <= a <= COORD_LIMIT
}

/// Largest magnitude of a component that wide lengths are taken of.
pub const WIDE_LIMIT: i64 = 4_611_686_018_427_387_904;

/// Bound on a component that wide lengths are taken of.
pub open spec fn in_wide(a: int) -> bool {
    -WIDE_LIMIT <= a <= WIDE_LIMIT
}

/// Bound on a difference that lengths are taken of.
pub open spec fn in_span(a: int) -> bool {
    -SPAN_LIMIT <= a <= SPAN_LIMIT
}

/// Exact `i64` division rounded toward zero, for a positive divisor.
pub fn div_trunc(a: i64, d: i64) -> (r: i64)
    requires
        d > 0,
        a > i64::MIN,
    ensures
        r as int == tdiv(a as int, d as int),
{
    if a >= 0 {
        a / d
    } else {
        let q = (-a) / d;
        -q
    }
}

/// Largest `r` with `r * r <= n`.
pub open spec fn is_isqrt(n: int, r: int) -> bool {
    0 <= r && r * r <= n && n < (r + 1) * (r + 1)
}

/// Square root rounded down.
pub open spec fn sqrt_floor(n: int) -> int {
    choose|r: int| is_isqrt(n, r)
}

/// Every non-negative `n` has its rounded-down root.
pub proof fn lemma_sqrt_floor(n: int)
    requires
        n >= 0,
    ensures
        is_isqrt(n, sqrt_floor(n)),
    decreases n,
{
    if n == 0 {
        assert(is_isqrt(0, 0));
    } else {
        lemma_sqrt_floor(n - 1);
        let r = sqrt_floor(n - 1);
        if (r + 1) * (r + 1) == n {
            assert((r + 2) * (r + 2) > n) by (nonlinear_arith)
                requires
                    (r + 1) * (r + 1) == n,
                    r >= 0,
            ;
            assert(is_isqrt(n, r + 1));
        } else {
            assert(is_isqrt(n, r));
        }
    }
}

/// At most one `r` is the rounded-down root of `n`.
pub proof fn lemma_isqrt_unique(n: int, r1: int, r2: int)
    requires
        is_isqrt(n, r1),
        is_isqrt(n, r2),
    ensures
        r1 == r2,
{
    if r1 < r2 {
        assert((r1 + 1) * (r1 + 1) <= r2 * r2) by (nonlinear_arith)
            requires
                0 <= r1 + 1 <= r2,
        ;
    } else if r2 < r1 {
        assert((r2 + 1) * (r2 + 1) <= r1 * r1) by (nonlinear_arith)
            requires
                0 <= r2 + 1 <= r1,
        ;
    }
}

/// Integer square root of a 128-bit number, by bisection.
pub fn isqrt_wide(n: u128) -> (r: u128)
    ensures
        is_isqrt(n as int, r as int),
        r == sqrt_floor(n as int),
        r < 0x1_0000_0000_0000_0000,
{
    let mut lo: u128 = 0;
    let mut hi: u128 = 0x1_0000_0000_0000_0000;
    assert(n < hi * hi) by (nonlinear_arith)
        requires
            hi == 0x1_0000_0000_0000_0000u128,
            n <= u128::MAX,
    ;
    while lo + 1 < hi
        invariant
            lo < hi,
            hi <= 0x1_0000_0000_0000_0000,
            lo * lo <= n,
            n < hi * hi,
        decreases hi - lo,
    {
        let mid: u128 = lo + (hi - lo) / 2;
        assert(mid * mid <= 0xffff_ffff_ffff_ffffu128 * 0xffff_ffff_ffff_ffffu128) by (nonlinear_arith)
            requires
                mid < 0x1_0000_0000_0000_0000,
        ;
        if mid * mid <= n {
            lo = mid;
        } else {
            hi = mid;
        }
    }
    proof {
        assert(is_isqrt(n as int, lo as int));
        lemma_isqrt_unique(n as int, lo as int, sqrt_floor(n as int));
    }
    lo
}

/// Integer square root.
pub fn isqrt(n: u64) -> (r: u64)
    ensures
        is_isqrt(n as int, r as int),
        r == sqrt_floor(n as int),
{
    let r = isqrt_wide(n as u128);
    assert(r < 4_294_967_296) by (nonlinear_arith)
        requires
            r * r <= n,
            n <= u64::MAX,
            r >= 0,
    ;
    r as u64
}

/// A 2D vector of thousandths of a world unit (or of a rate).
#[derive(Clone, Copy, Debug, PartialEq, Eq, Structural)]
pub struct Vec2 {
    pub x: i64,
    pub y: i64,
}

impl Vec2 {
    pub fn new(x: i64, y: i64) -> (r: Vec2)
        ensures
            r.x == x,
            r.y == y,
    {
        Vec2 { x, y }
    }

    pub fn zero() -> (r: Vec2)
        ensures
            r == Vec2::zero_spec(),
    {
        Vec2 { x: 0, y: 0 }
    }

    pub open spec fn zero_spec() -> Vec2 {
        Vec2 { x: 0, y: 0 }
    }

    pub open spec fn in_limit(self) -> bool {
        in_limit(self.x as int) && in_limit(self.y as int)
    }

    /// Squared Euclidean length.
    pub open spec fn len_sq(self) -> int {
        self.x * self.x + self.y * self.y
    }
}

/// Squared length of a vector whose components are within the span.
pub fn length_sq(dx: i64, dy: i64) -> (r: u64)
    requires
        in_span(dx as int),
        in_span(dy as int),
    ensures
        r as int == dx * dx + dy * dy,
{
    let ax: u64 = if dx >= 0 { dx as u64 } else { (-dx) as u64 };
    let ay: u64 = if dy >= 0 { dy as u64 } else { (-dy) as u64 };
    assert(ax * ax <= SPAN_LIMIT * SPAN_LIMIT) by (nonlinear_arith)
        requires
            ax <= SPAN_LIMIT,
    ;
    assert(ay * ay <= SPAN_LIMIT * SPAN_LIMIT) by (nonlinear_arith)
        requires
            ay <= SPAN_LIMIT,
    ;
    assert(ax * ax == dx * dx) by (nonlinear_arith)
        requires
            ax == abs(dx as int),
    ;
    assert(ay * ay == dy * dy) by (nonlinear_arith)
        requires
            ay == abs(dy as int),
    ;
    ax * ax + ay * ay
}

/// Euclidean length, rounded down.
pub fn length(dx: i64, dy: i64) -> (r: u64)
    requires
        in_span(dx as int),
        in_span(dy as int),
    ensures
        is_isqrt(dx * dx + dy * dy, r as int),
        r == sqrt_floor(dx * dx + dy * dy),
        r <= 2 * SPAN_LIMIT,
{
    let s = length_sq(dx, dy);
    assert(dx * dx <= SPAN_LIMIT * SPAN_LIMIT) by (nonlinear_arith)
        requires
            in_span(dx as int),
    ;
    assert(dy * dy <= SPAN_LIMIT * SPAN_LIMIT) by (nonlinear_arith)
        requires
            in_span(dy as int),
    ;
    let r = isqrt(s);
    assert(r <= 2 * SPAN_LIMIT) by (nonlinear_arith)
        requires
            r * r <= s,
            s <= 2 * SPAN_LIMIT * SPAN_LIMIT,
            r >= 0,
    ;
    r
}

/// Euclidean length, rounded down, of a vector with wide components.
pub fn length_wide(dx: i64, dy: i64) -> (r: u64)
    requires
        in_wide(dx as int),
        in_wide(dy as int),
    ensures
        is_isqrt(dx * dx + dy * dy, r as int),
        r == sqrt_floor(dx * dx + dy * dy),
        r <= 2 * WIDE_LIMIT,
{
    let ax: u128 = if dx >= 0 { dx as u128 } else { (-(dx as i128)) as u128 };
    let ay: u128 = if dy >= 0 { dy as u128 } else { (-(dy as i128)) as u128 };
    assert(ax * ax <= WIDE_LIMIT * WIDE_LIMIT && ax * ax == dx * dx) by (nonlinear_arith)
        requires
            ax <= WIDE_LIMIT,
            ax == abs(dx as int),
    ;
    assert(ay * ay <= WIDE_LIMIT * WIDE_LIMIT && ay * ay == dy * dy) by (nonlinear_arith)
        requires
            ay <= WIDE_LIMIT,
            ay == abs(dy as int),
    ;
    let s = ax * ax + ay * ay;
    let r = isqrt_wide(s);
    assert(r <= 2 * WIDE_LIMIT) by (nonlinear_arith)
        requires
            r * r <= s,
            s <= 2 * WIDE_LIMIT * WIDE_LIMIT,
            r >= 0,
    ;
    r as u64
}

/// An axis-aligned rectangle: top-left corner and extent.
#[derive(Clone, Copy, Debug, PartialEq, Eq, Structural)]
pub struct Rect {
    pub x: i64,
    pub y: i64,
    pub width: i64,
    pub height: i64,
}

/// Half-open intervals `[a0, a1)` and `[b0, b1)` overlap.
pub open spec fn spans_overlap(a0: int, a1: int, b0: int, b1: int) -> bool {
    a0 < b1 && b0 < a1
}

impl Rect {
    pub fn new(x: i64, y: i64, width: i64, height: i64) -> (r: Rect)
        ensures
            r == (Rect { x, y, width, height }),
    {
        Rect { x, y, width, height }
    }

    pub open spec fn right(self) -> int {
        self.x + self.width
    }

    pub open spec fn bottom(self) -> int {
        self.y + self.height
    }

    pub open spec fn in_limit(self) -> bool {
        in_span(self.x as int) && in_span(self.y as int) && 0 <= self.width <= COORD_LIMIT && 0
            <= self.height <= COORD_LIMIT
    }

    /// The two rectangles share interior area.
    pub open spec fn overlaps(self, o: Rect) -> bool {
        spans_overlap(self.x as int, self.right(), o.x as int, o.right()) && spans_overlap(
            self.y as int,
            self.bottom(),
            o.y as int,
            o.bottom(),
        )
    }

    /// The rectangle of the given size centred on `center`.
    pub open spec fn centered_spec(center: Vec2, size: Vec2) -> Rect {
        Rect {
            x: (center.x - size.x / 2) as i64,
            y: (center.y - size.y / 2) as i64,
            width: size.x,
            height: size.y,
        }
    }

    pub fn centered(center: Vec2, size: Vec2) -> (r: Rect)
        requires
            center.in_limit(),
            0 <= size.x <= COORD_LIMIT,
            0 <= size.y <= COORD_LIMIT,
        ensures
            r == Rect::centered_spec(center, size),
            r.in_limit(),
    {
        Rect { x: center.x - size.x / 2, y: center.y - size.y / 2, width: size.x, height: size.y }
    }

    /// Standard strict axis-aligned overlap test.
    pub fn intersects(&self, other: &Rect) -> (r: bool)
        requires
            self.in_limit(),
            other.in_limit(),
        ensures
            r == self.overlaps(*other),
    {
        self.x < other.x + other.width && other.x < self.x + self.width && self.y < other.y
            + other.height && other.y < self.y + self.height
    }
}

/// An RGBA color.
#[derive(Clone, Copy, Debug, PartialEq, Eq, Structural)]
pub struct Color {
    pub r: u8,
    pub g: u8,
    pub b: u8,
    pub a: u8,
}

impl Color {
    pub fn new(r: u8, g: u8, b: u8, a: u8) -> (c: Color)
        ensures
            c == (Color { r, g, b, a }),
    {
        Color { r, g, b, a }
    }
}

/// Intersection is symmetric.
pub proof fn lemma_overlap_symmetric(a: Rect, b: Rect)
    ensures
        a.overlaps(b) == b.overlaps(a),
{
}

} // verus!
