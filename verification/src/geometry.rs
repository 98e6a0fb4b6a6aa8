//! Integer image-space geometry: positions, colors, axis-aligned bounds,
//! and the image-to-screen transform with a rational scale factor.
//!
//! Every annotation stores its geometry as integer pixel coordinates in
//! image space. Coordinates are kept within `COORD_LIMIT` so that all the
//! products the renderers and the hit tests form stay far away from
//! overflow.

use vstd::prelude::*;

verus! {

/// Largest magnitude an image- or screen-space coordinate may have.
/// A megapixel-per-axis bound: far beyond any real display, small enough
/// that squares and cross products of differences fit comfortably in i128.
pub const COORD_LIMIT: i64 = 1048576;

/// Largest numerator/denominator of a transform's rational scale factor.
pub const SCALE_LIMIT: i64 = 65536;

/// A point, in integer pixels. In image space the origin is the top-left
/// corner of the currently displayed image.
#[derive(Clone, Copy, Debug, PartialEq, Eq, Structural)]
pub struct Pos {
    pub x: i64,
    pub y: i64,
}

/// An RGBA color with 8-bit channels, unmultiplied.
#[derive(Clone, Copy, Debug, PartialEq, Eq, Structural)]
pub struct Color {
    pub r: u8,
    pub g: u8,
    pub b: u8,
    pub a: u8,
}

pub open spec fn pos_wf(p: Pos) -> bool {
    -COORD_LIMIT <= p.x <= COORD_LIMIT && -COORD_LIMIT <= p.y <= COORD_LIMIT
}

impl Pos {
    pub fn new(x: i64, y: i64) -> (r: Pos)
        ensures
            r.x == x && r.y == y,
    {
        Pos { x, y }
    }
}

impl Color {
    pub open spec fn spec_is_transparent(self) -> bool {
        self == (Color { r: 0, g: 0, b: 0, a: 0 })
    }

    /// The fully transparent color; fills of this color are not drawn.
    pub fn transparent() -> (c: Color)
        ensures
            c.spec_is_transparent(),
    {
        Color { r: 0, g: 0, b: 0, a: 0 }
    }

    pub fn new(r: u8, g: u8, b: u8, a: u8) -> (c: Color)
        ensures
            c == (Color { r, g, b, a }),
    {
        Color { r, g, b, a }
    }

    pub fn is_transparent(&self) -> (r: bool)
        ensures
            r == self.spec_is_transparent(),
    {
        self.r == 0 && self.g == 0 && self.b == 0 && self.a == 0
    }
}

/// An axis-aligned rectangle given by two corners. A `Bounds` built by
/// `from_two_pos` is normalized: `min` is the componentwise minimum.
#[derive(Clone, Copy, Debug, PartialEq, Eq, Structural)]
pub struct Bounds {
    pub min: Pos,
    pub max: Pos,
}

pub open spec fn bounds_wf(b: Bounds) -> bool {
    pos_wf(b.min) && pos_wf(b.max) && b.min.x <= b.max.x && b.min.y <= b.max.y
}

pub open spec fn spec_min_i64(a: i64, b: i64) -> i64 {
    if a <= b {
        a
    } else {
        b
    }
}

pub open spec fn spec_max_i64(a: i64, b: i64) -> i64 {
    if a >= b {
        a
    } else {
        b
    }
}

pub fn min_i64(a: i64, b: i64) -> (r: i64)
    ensures
        r == spec_min_i64(a, b),
{
    if a <= b {
        a
    } else {
        b
    }
}

pub fn max_i64(a: i64, b: i64) -> (r: i64)
    ensures
        r == spec_max_i64(a, b),
{
    if a >= b {
        a
    } else {
        b
    }
}

/// Clamp `v` into the closed interval `[lo, hi]`.
pub fn clamp_i64(v: i64, lo: i64, hi: i64) -> (r: i64)
    requires
        lo <= hi,
    ensures
        r == spec_clamp_i64(v, lo, hi),
{
    if v < lo {
        lo
    } else if v > hi {
        hi
    } else {
        v
    }
}

pub open spec fn spec_clamp_i64(v: i64, lo: i64, hi: i64) -> i64 {
    if v < lo {
        lo
    } else if v > hi {
        hi
    } else {
        v
    }
}

impl Bounds {
    /// The normalized rectangle spanned by two arbitrary corners.
    pub open spec fn spec_from_two_pos(a: Pos, b: Pos) -> Bounds {
        Bounds {
            min: Pos { x: spec_min_i64(a.x, b.x), y: spec_min_i64(a.y, b.y) },
            max: Pos { x: spec_max_i64(a.x, b.x), y: spec_max_i64(a.y, b.y) },
        }
    }

    pub fn from_two_pos(a: Pos, b: Pos) -> (r: Bounds)
        ensures
            r == Bounds::spec_from_two_pos(a, b),
            r.min.x <= r.max.x && r.min.y <= r.max.y,
    {
        Bounds {
            min: Pos { x: min_i64(a.x, b.x), y: min_i64(a.y, b.y) },
            max: Pos { x: max_i64(a.x, b.x), y: max_i64(a.y, b.y) },
        }
    }

    pub open spec fn spec_contains(self, p: Pos) -> bool {
        self.min.x <= p.x <= self.max.x && self.min.y <= p.y <= self.max.y
    }

    pub fn contains(&self, p: Pos) -> (r: bool)
        ensures
            r == self.spec_contains(p),
    {
        self.min.x <= p.x && p.x <= self.max.x && self.min.y <= p.y && p.y <= self.max.y
    }

    pub open spec fn spec_clamp(self, p: Pos) -> Pos {
        Pos {
            x: spec_clamp_i64(p.x, self.min.x, self.max.x),
            y: spec_clamp_i64(p.y, self.min.y, self.max.y),
        }
    }

    /// Move `p` to the nearest point inside the bounds.
    pub fn clamp(&self, p: Pos) -> (r: Pos)
        requires
            self.min.x <= self.max.x,
            self.min.y <= self.max.y,
        ensures
            r == self.spec_clamp(p),
            self.spec_contains(r),
    {
        Pos {
            x: clamp_i64(p.x, self.min.x, self.max.x),
            y: clamp_i64(p.y, self.min.y, self.max.y),
        }
    }

    pub open spec fn spec_width(self) -> int {
        self.max.x - self.min.x
    }

    pub open spec fn spec_height(self) -> int {
        self.max.y - self.min.y
    }
}

/// A similarity transform between image space and screen space: a uniform
/// rational scale `num / den` plus an offset, mapping the source area
/// (anchored at `from_min`) onto the target area (anchored at `to_min`).
#[derive(Clone, Copy, Debug, PartialEq, Eq, Structural)]
pub struct Transform {
    pub from_min: Pos,
    pub to_min: Pos,
    pub num: i64,
    pub den: i64,
}

impl Transform {
    pub open spec fn wf(self) -> bool {
        &&& pos_wf(self.from_min)
        &&& pos_wf(self.to_min)
        &&& 1 <= self.num <= SCALE_LIMIT
        &&& 1 <= self.den <= SCALE_LIMIT
    }

    /// Where the transform sends the x coordinate (mathematical value).
    /// Scaling rounds toward zero, on either side of the source anchor.
    pub open spec fn spec_apply_x(self, x: int) -> int {
        self.to_min.x + spec_div_tz((x - self.from_min.x) * (self.num as int), self.den as int)
    }

    pub open spec fn spec_apply_y(self, y: int) -> int {
        self.to_min.y + spec_div_tz((y - self.from_min.y) * (self.num as int), self.den as int)
    }

    pub open spec fn spec_apply(self, p: Pos) -> Pos {
        Pos { x: self.spec_apply_x(p.x as int) as i64, y: self.spec_apply_y(p.y as int) as i64 }
    }

    /// A stroke width of `w` on the source side becomes `w * num / den`
    /// on the target side.
    pub open spec fn spec_scale_width(self, w: int) -> int {
        w * (self.num as int) / (self.den as int)
    }

    /// The identity: scale one, anchors coinciding, every point fixed.
    pub open spec fn spec_is_identity(self) -> bool {
        self.num == self.den && self.from_min == self.to_min
    }

    pub fn identity() -> (t: Transform)
        ensures
            t.wf(),
            t.spec_is_identity(),
    {
        Transform { from_min: Pos { x: 0, y: 0 }, to_min: Pos { x: 0, y: 0 }, num: 1, den: 1 }
    }

    /// The transform that sends the area `from` onto the target anchored at
    /// `to_min` with scale `num / den`.
    pub fn new(from_min: Pos, to_min: Pos, num: i64, den: i64) -> (t: Transform)
        requires
            pos_wf(from_min),
            pos_wf(to_min),
            1 <= num <= SCALE_LIMIT,
            1 <= den <= SCALE_LIMIT,
        ensures
            t == (Transform { from_min, to_min, num, den }),
            t.wf(),
    {
        Transform { from_min, to_min, num, den }
    }

    /// Map a source-side point to the target side. Points up to four
    /// times the coordinate box away are accepted, so overlays that stick
    /// out of the image (an arrow's tip) can be transformed too.
    pub fn apply(&self, p: Pos) -> (r: Pos)
        requires
            self.wf(),
            -16 * COORD_LIMIT <= p.x <= 16 * COORD_LIMIT,
            -16 * COORD_LIMIT <= p.y <= 16 * COORD_LIMIT,
        ensures
            r == self.spec_apply(p),
            -18 * COORD_LIMIT * SCALE_LIMIT <= r.x <= 18 * COORD_LIMIT * SCALE_LIMIT,
            -18 * COORD_LIMIT * SCALE_LIMIT <= r.y <= 18 * COORD_LIMIT * SCALE_LIMIT,
    {
        let dx: i64 = p.x - self.from_min.x;
        let dy: i64 = p.y - self.from_min.y;
        proof {
            let b = 17 * COORD_LIMIT * SCALE_LIMIT;
            assert(-b <= dx * self.num <= b && -b <= dy * self.num <= b) by (nonlinear_arith)
                requires
                    b == 17 * COORD_LIMIT * SCALE_LIMIT,
                    -17 * COORD_LIMIT <= dx <= 17 * COORD_LIMIT,
                    -17 * COORD_LIMIT <= dy <= 17 * COORD_LIMIT,
                    1 <= self.num <= SCALE_LIMIT,
            ;
            lemma_div_tz_bound((dx * self.num) as int, self.den as int, b);
            lemma_div_tz_bound((dy * self.num) as int, self.den as int, b);
            assert(b == 17 * COORD_LIMIT * SCALE_LIMIT);
        }
        let sx: i64 = div_tz(dx * self.num, self.den);
        let sy: i64 = div_tz(dy * self.num, self.den);
        Pos { x: self.to_min.x + sx, y: self.to_min.y + sy }
    }

    /// Scale a non-negative stroke width by the transform's scale factor.
    pub fn scale_width(&self, w: i64) -> (r: i64)
        requires
            self.wf(),
            0 <= w <= 4 * COORD_LIMIT,
        ensures
            r == self.spec_scale_width(w as int),
    {
        proof {
            assert(w * self.num <= 4 * COORD_LIMIT * SCALE_LIMIT) by (nonlinear_arith)
                requires
                    0 <= w <= 4 * COORD_LIMIT,
                    1 <= self.num <= SCALE_LIMIT,
            ;
            vstd::arithmetic::div_mod::lemma_div_is_ordered_by_denominator(
                w * self.num,
                1,
                self.den as int,
            );
        }
        ((w as u64) * (self.num as u64) / (self.den as u64)) as i64
    }
}

/// If the dividend is at most `b * c` in magnitude, the truncated
/// quotient is at most `c` in magnitude.
pub proof fn lemma_div_tz_quotient_bound(a: int, b: int, c: int)
    requires
        1 <= b,
        0 <= c,
        -(b * c) <= a <= b * c,
    ensures
        -c <= spec_div_tz(a, b) <= c,
{
    vstd::arithmetic::div_mod::lemma_div_multiples_vanish(c, b);
    if a >= 0 {
        vstd::arithmetic::div_mod::lemma_div_is_ordered(a, b * c, b);
        vstd::arithmetic::div_mod::lemma_div_pos_is_pos(a, b);
    } else {
        vstd::arithmetic::div_mod::lemma_div_is_ordered(-a, b * c, b);
        vstd::arithmetic::div_mod::lemma_div_pos_is_pos(-a, b);
    }
}

/// Truncated division undoes multiplication by the same positive factor.
pub proof fn lemma_div_tz_multiples_vanish(a: int, n: int)
    requires
        1 <= n,
    ensures
        spec_div_tz(a * n, n) == a,
{
    if a >= 0 {
        assert(a * n >= 0 && a * n == n * a) by (nonlinear_arith)
            requires
                a >= 0 && n >= 1,
        ;
        vstd::arithmetic::div_mod::lemma_div_multiples_vanish(a, n);
    } else {
        assert(a * n < 0 && -(a * n) == n * (-a)) by (nonlinear_arith)
            requires
                a < 0 && n >= 1,
        ;
        vstd::arithmetic::div_mod::lemma_div_multiples_vanish(-a, n);
    }
}

/// An identity transform changes nothing: points map to themselves and
/// widths keep their value.
pub proof fn lemma_identity_transform(t: Transform, p: Pos, w: int)
    requires
        t.wf(),
        t.spec_is_identity(),
        0 <= w,
    ensures
        t.spec_apply(p) == p,
        t.spec_scale_width(w) == w,
{
    let n = t.num as int;
    lemma_div_tz_multiples_vanish(p.x - t.from_min.x, n);
    lemma_div_tz_multiples_vanish(p.y - t.from_min.y, n);
    vstd::arithmetic::div_mod::lemma_div_multiples_vanish(w, n);
    assert(w * n == n * w) by (nonlinear_arith);
}

/// Squared distance between two points (mathematical value).
pub open spec fn spec_dist2(a: Pos, b: Pos) -> int {
    (b.x - a.x) * (b.x - a.x) + (b.y - a.y) * (b.y - a.y)
}

pub fn dist2(a: Pos, b: Pos) -> (r: u64)
    requires
        pos_wf(a),
        pos_wf(b),
    ensures
        r == spec_dist2(a, b),
{
    let dx: i64 = b.x - a.x;
    let dy: i64 = b.y - a.y;
    proof {
        assert(0 <= dx * dx <= 4 * COORD_LIMIT * COORD_LIMIT) by (nonlinear_arith)
            requires
                -2 * COORD_LIMIT <= dx <= 2 * COORD_LIMIT,
        ;
        assert(0 <= dy * dy <= 4 * COORD_LIMIT * COORD_LIMIT) by (nonlinear_arith)
            requires
                -2 * COORD_LIMIT <= dy <= 2 * COORD_LIMIT,
        ;
    }
    (dx * dx) as u64 + (dy * dy) as u64
}

/// Division that rounds toward zero, as the hardware does; used by the
/// fixed-point arrow-tip formula, whose numerators may be negative.
pub open spec fn spec_div_tz(a: int, b: int) -> int {
    if a >= 0 {
        a / b
    } else {
        -((-a) / b)
    }
}

pub fn div_tz(a: i64, b: i64) -> (r: i64)
    requires
        1 <= b,
        -0x4000_0000_0000_0000 <= a <= 0x4000_0000_0000_0000,
    ensures
        r == spec_div_tz(a as int, b as int),
{
    if a >= 0 {
        ((a as u64) / (b as u64)) as i64
    } else {
        proof {
            vstd::arithmetic::div_mod::lemma_div_is_ordered_by_denominator(-a, 1, b as int);
        }
        -((((-a) as u64) / (b as u64)) as i64)
    }
}

/// Truncated division cannot grow the magnitude of its dividend.
pub proof fn lemma_div_tz_bound(a: int, b: int, m: int)
    requires
        1 <= b,
        0 <= m,
        -m <= a <= m,
    ensures
        -m <= spec_div_tz(a, b) <= m,
{
    if a >= 0 {
        vstd::arithmetic::div_mod::lemma_div_nonincreasing(a, b);
        vstd::arithmetic::div_mod::lemma_div_pos_is_pos(a, b);
    } else {
        vstd::arithmetic::div_mod::lemma_div_nonincreasing(-a, b);
        vstd::arithmetic::div_mod::lemma_div_pos_is_pos(-a, b);
    }
}

/// The integer square root, as a mathematical function: the largest `r`
/// with `r * r <= n`.
pub open spec fn spec_isqrt(n: nat) -> nat
    decreases n,
{
    if n == 0 {
        0
    } else {
        let r = spec_isqrt((n - 1) as nat);
        if (r + 1) * (r + 1) <= n {
            (r + 1) as nat
        } else {
            r
        }
    }
}

pub proof fn lemma_spec_isqrt_bounds(n: nat)
    ensures
        spec_isqrt(n) * spec_isqrt(n) <= n,
        n < (spec_isqrt(n) + 1) * (spec_isqrt(n) + 1),
    decreases n,
{
    let s = spec_isqrt(n);
    if n == 0 {
        assert(s == 0);
        assert(n < (s + 1) * (s + 1)) by (nonlinear_arith)
            requires
                n == 0 && s == 0,
        ;
    } else {
        lemma_spec_isqrt_bounds((n - 1) as nat);
        let r = spec_isqrt((n - 1) as nat);
        if (r + 1) * (r + 1) <= n {
            assert(s == r + 1);
            assert(n - 1 < (r + 1) * (r + 1));
            assert(n == (r + 1) * (r + 1));
            assert(s * s <= n && n < (s + 1) * (s + 1)) by (nonlinear_arith)
                requires
                    s == r + 1 && r >= 0 && n == (r + 1) * (r + 1),
            ;
        } else {
            assert(s == r);
            assert(r * r <= n - 1);
            assert(s * s <= n && n < (s + 1) * (s + 1)) by (nonlinear_arith)
                requires
                    s == r && r * r <= n - 1 && n < (r + 1) * (r + 1),
            ;
        }
    }
}

/// Any `r` squeezed between the same squares is the integer square root.
pub proof fn lemma_isqrt_unique(n: nat, r: nat)
    requires
        r * r <= n,
        n < (r + 1) * (r + 1),
    ensures
        r == spec_isqrt(n),
{
    let s = spec_isqrt(n);
    lemma_spec_isqrt_bounds(n);
    if r < s {
        assert((r + 1) * (r + 1) <= s * s) by (nonlinear_arith)
            requires
                r + 1 <= s,
        ;
    }
    if s < r {
        assert((s + 1) * (s + 1) <= r * r) by (nonlinear_arith)
            requires
                s + 1 <= r,
        ;
    }
}

/// Integer square root: the largest `r` with `r * r <= n`.
pub fn isqrt(n: u64) -> (r: u64)
    ensures
        r * r <= n,
        n < (r + 1) * (r + 1),
        r == spec_isqrt(n as nat),
{
    let mut lo: u64 = 0;
    let mut hi: u64 = 4294967296;
    while lo + 1 < hi
        invariant
            lo < hi <= 4294967296,
            lo * lo <= n,
            n < hi * hi,
        decreases hi - lo,
    {
        let mid: u64 = lo + (hi - lo) / 2;
        proof {
            assert(mid * mid <= 4294967296 * 4294967296) by (nonlinear_arith)
                requires
                    0 <= mid <= 4294967296,
            ;
        }
        if (mid as u128) * (mid as u128) <= (n as u128) {
            lo = mid;
        } else {
            hi = mid;
        }
    }
    proof {
        lemma_isqrt_unique(n as nat, lo as nat);
    }
    lo
}

} // verus!
