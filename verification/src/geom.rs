//! Arena geometry: fixed-point 2D vectors, the two clamp rules, rectangle
//! tests, integer square roots, normalisation to a requested length, and a
//! small fixed-point sine/cosine kernel for the random-walk heading.

use vstd::prelude::*;

verus! {

use vstd::arithmetic::div_mod::lemma_fundamental_div_mod;
use vstd::arithmetic::mul::lemma_mul_inequality;
use vstd::arithmetic::mul::lemma_mul_is_distributive_add_other_way;

/// Fixed-point scale: 1000 units per pixel, per second, or per unit.
pub const MILLI: i64 = 1000;

/// Largest arena extent the model admits, in milli-pixels.
pub const ARENA_LIMIT: i64 = 10_000_000;

/// Positions may briefly leave the arena by a jitter offset; this bound
/// still holds of every position the simulation produces.
pub const POS_LIMIT: i64 = 10_002_000;

/// Bound on every velocity component, in milli-pixels per second (or, for a
/// dash, milli-pixels per tick).
pub const VEL_LIMIT: i64 = 10_000_000;

/// Largest tick duration, in milliseconds.
pub const DT_LIMIT: i64 = 10_000;

/// Bound on the countdown timers, in milliseconds.
pub const TIME_LIMIT: i64 = 10_000_000;

/// Bound on the components handed to `norm_to`.
pub const COORD_LIMIT: i64 = 300_000_000;

/// Bound on the target length handed to `norm_to`.
pub const LEN_LIMIT: i64 = 300_000_000;

/// One half turn in milliradians.
pub const PI_MRAD: i64 = 3142;

/// One full turn in milliradians.
pub const TAU_MRAD: i64 = 6284;

/// Which way an entity's sprite faces.
#[derive(Clone, Copy, PartialEq, Eq, Structural, Debug)]
pub enum Facing {
    Left,
    Right,
}

/// A 2D vector in fixed-point milli-pixel units.
#[derive(Clone, Copy, PartialEq, Eq, Structural, Debug)]
pub struct Vec2 {
    pub x: i64,
    pub y: i64,
}

impl Vec2 {
    /// The squared Euclidean length, as a mathematical integer.
    pub open spec fn norm2(self) -> int {
        self.x * self.x + self.y * self.y
    }
}

/// One axis of a clamp into `[lo, hi]`, testing the low bound first, as the
/// movement code does.
pub open spec fn clamp1(p: int, lo: int, hi: int) -> int {
    if p < lo {
        lo
    } else if p > hi {
        hi
    } else {
        p
    }
}

/// Truncating division, the semantics shared by the movement arithmetic:
/// rounds toward zero for either sign of `a`.
pub open spec fn div_trunc(a: int, b: int) -> int
    recommends
        b > 0,
{
    if a >= 0 {
        a / b
    } else {
        -((-a) / b)
    }
}

/// Inclusive point-in-rectangle test against `center ± size/2`.
pub open spec fn spec_in_rect(point: Vec2, center: Vec2, size: Vec2) -> bool {
    &&& point.x >= center.x - size.x / 2
    &&& point.x <= center.x + size.x / 2
    &&& point.y >= center.y - size.y / 2
    &&& point.y <= center.y + size.y / 2
}

/// Axis-aligned overlap test: true unless the rectangles are fully
/// separated on some axis. `pa` and `pb` are the low corners.
pub open spec fn spec_rects_overlap(pa: Vec2, sa: Vec2, pb: Vec2, sb: Vec2) -> bool {
    !(pa.x > pb.x + sb.x || pa.x + sa.x < pb.x || pa.y + sa.y < pb.y || pa.y > pb.y + sb.y)
}

/// `r` is the square root of `n`, rounded up.
pub open spec fn is_ceil_root(n: int, r: int) -> bool {
    &&& r >= 0
    &&& n <= r * r
    &&& r > 0 ==> (r - 1) * (r - 1) < n
}

/// The square root of `n`, rounded up (0 for `n <= 0`).
pub open spec fn ceil_sqrt(n: int) -> int {
    choose|r: int| is_ceil_root(n, r)
}

/// At most one integer is a rounded-up square root of `n`.
pub proof fn lemma_ceil_root_unique(n: int, a: int, b: int)
    by (nonlinear_arith)
    requires
        a >= 0,
        n <= a * a,
        a > 0 ==> (a - 1) * (a - 1) < n,
        b >= 0,
        n <= b * b,
        b > 0 ==> (b - 1) * (b - 1) < n,
    ensures
        a == b,
{
}

/// `ceil_sqrt` agrees with any witness of `is_ceil_root`.
pub proof fn lemma_ceil_sqrt_is(n: int, r: int)
    requires
        is_ceil_root(n, r),
    ensures
        ceil_sqrt(n) == r,
{
    let c = choose|x: int| is_ceil_root(n, x);
    assert(is_ceil_root(n, c));
    lemma_ceil_root_unique(n, c, r);
}

/// The square root of `n`, rounded up.
pub fn ceil_sqrt_i64(n: i64) -> (r: i64)
    requires
        0 <= n <= 1_000_000_000_000_000_000,
    ensures
        is_ceil_root(n as int, r as int),
        r as int == ceil_sqrt(n as int),
        0 <= r <= 1_000_000_001,
        n > 0 ==> r > 0,
{
    if n == 0 {
        proof {
            lemma_ceil_sqrt_is(0, 0);
        }
        return 0;
    }
    let mut lo: i64 = 0;
    let mut hi: i64 = 1_000_000_001;
    assert(1_000_000_001int * 1_000_000_001int > 1_000_000_000_000_000_000);
    while lo + 1 < hi
        invariant
            0 <= lo < hi <= 1_000_000_001,
            (lo as int) * (lo as int) < n as int,
            n as int <= (hi as int) * (hi as int),
            1 <= n <= 1_000_000_000_000_000_000,
        decreases hi - lo,
    {
        let mid = lo + (hi - lo) / 2;
        assert(lo < mid < hi);
        assert(0 <= (mid as int) * (mid as int) <= 1_000_000_000_000_000_000) by (nonlinear_arith)
            requires
                0 <= mid <= 1_000_000_000,
        ;
        if mid * mid < n {
            lo = mid;
        } else {
            hi = mid;
        }
    }
    assert(lo + 1 == hi);
    proof {
        lemma_ceil_sqrt_is(n as int, hi as int);
    }
    hi
}

/// From `0 <= q*l <= m` it follows that `q*q*l*l <= m*m`.
proof fn lemma_sq_le(q: int, l: int, m: int)
    by (nonlinear_arith)
    requires
        q >= 0,
        l >= 0,
        m >= 0,
        q * l <= m,
    ensures
        (q * q) * (l * l) <= m * m,
{
}

/// Scaling a vector that fits inside a circle of radius `l` down by `l`
/// keeps it inside a circle of the target radius.
proof fn lemma_norm_to_bound(x: int, y: int, len: int, l: int, qx: int, qy: int)
    requires
        x >= 0,
        y >= 0,
        len >= 0,
        l > 0,
        x * x + y * y <= l * l,
        qx == (x * len) / l,
        qy == (y * len) / l,
    ensures
        qx * qx + qy * qy <= len * len,
        0 <= qx <= len,
        0 <= qy <= len,
{
    lemma_fundamental_div_mod(x * len, l);
    lemma_fundamental_div_mod(y * len, l);
    assert(x * len >= 0) by (nonlinear_arith)
        requires
            x >= 0,
            len >= 0,
    ;
    assert(y * len >= 0) by (nonlinear_arith)
        requires
            y >= 0,
            len >= 0,
    ;
    assert(qx >= 0 && qx * l <= x * len) by (nonlinear_arith)
        requires
            l > 0,
            x * len >= 0,
            x * len == l * qx + (x * len) % l,
            0 <= (x * len) % l < l,
    ;
    assert(qy >= 0 && qy * l <= y * len) by (nonlinear_arith)
        requires
            l > 0,
            y * len >= 0,
            y * len == l * qy + (y * len) % l,
            0 <= (y * len) % l < l,
    ;
    lemma_sq_le(qx, l, x * len);
    lemma_sq_le(qy, l, y * len);
    assert((x * len) * (x * len) == (x * x) * (len * len)) by (nonlinear_arith);
    assert((y * len) * (y * len) == (y * y) * (len * len)) by (nonlinear_arith);
    lemma_mul_is_distributive_add_other_way(l * l, qx * qx, qy * qy);
    lemma_mul_is_distributive_add_other_way(len * len, x * x, y * y);
    lemma_mul_inequality(x * x + y * y, l * l, len * len);
    assert((qx * qx + qy * qy) * (l * l) <= (l * l) * (len * len));
    assert(l * l > 0) by (nonlinear_arith)
        requires
            l > 0,
    ;
    assert(qx * qx + qy * qy <= len * len) by (nonlinear_arith)
        requires
            l * l > 0,
            (qx * qx + qy * qy) * (l * l) <= (l * l) * (len * len),
    ;
    assert(x * x <= l * l) by (nonlinear_arith)
        requires
            x >= 0,
            y * y >= 0,
            x * x + y * y <= l * l,
    ;
    assert(x <= l) by (nonlinear_arith)
        requires
            x >= 0,
            l > 0,
            x * x <= l * l,
    ;
    assert(qx <= len) by (nonlinear_arith)
        requires
            qx >= 0,
            l > 0,
            len >= 0,
            x <= l,
            qx * l <= x * len,
    ;
    assert(y * y <= l * l) by (nonlinear_arith)
        requires
            y >= 0,
            x * x >= 0,
            x * x + y * y <= l * l,
    ;
    assert(y <= l) by (nonlinear_arith)
        requires
            y >= 0,
            l > 0,
            y * y <= l * l,
    ;
    assert(qy <= len) by (nonlinear_arith)
        requires
            qy >= 0,
            l > 0,
            len >= 0,
            y <= l,
            qy * l <= y * len,
    ;
}

/// `v` rescaled to length `len`: the zero vector stays zero; otherwise each
/// component is `v_i * len / l` with `l` the rounded-up length of `v` and
/// the division truncating toward zero.
pub open spec fn spec_norm_to(v: Vec2, len: int) -> Vec2 {
    if v.x == 0 && v.y == 0 {
        Vec2 { x: 0, y: 0 }
    } else {
        let l = ceil_sqrt(v.norm2());
        Vec2 { x: div_trunc(v.x * len, l) as i64, y: div_trunc(v.y * len, l) as i64 }
    }
}

/// Rescales `v` to length (at most) `len`, guarding the degenerate zero
/// vector. Rounding the divisor up keeps the result inside the circle of
/// radius `len`.
pub fn norm_to(v: Vec2, len: i64) -> (w: Vec2)
    requires
        -COORD_LIMIT <= v.x <= COORD_LIMIT,
        -COORD_LIMIT <= v.y <= COORD_LIMIT,
        0 <= len <= LEN_LIMIT,
    ensures
        w == spec_norm_to(v, len as int),
        w.x * w.x + w.y * w.y <= len * len,
        -len <= w.x <= len,
        -len <= w.y <= len,
{
    if v.x == 0 && v.y == 0 {
        assert(0 <= (len as int) * (len as int)) by (nonlinear_arith);
        return Vec2 { x: 0, y: 0 };
    }
    let ax = if v.x >= 0 {
        v.x
    } else {
        -v.x
    };
    let ay = if v.y >= 0 {
        v.y
    } else {
        -v.y
    };
    assert(ax * ax == v.x * v.x && ay * ay == v.y * v.y) by (nonlinear_arith)
        requires
            ax == if v.x >= 0 { v.x as int } else { -(v.x as int) },
            ay == if v.y >= 0 { v.y as int } else { -(v.y as int) },
    ;
    assert(ax * ax + ay * ay <= 2 * 300_000_000_000_000_000) by (nonlinear_arith)
        requires
            0 <= ax <= COORD_LIMIT,
            0 <= ay <= COORD_LIMIT,
    ;
    assert(ax * ax + ay * ay >= 1) by (nonlinear_arith)
        requires
            ax >= 0,
            ay >= 0,
            ax >= 1 || ay >= 1,
    ;
    let n = ax * ax + ay * ay;
    let l = ceil_sqrt_i64(n);
    assert(l > 0);
    assert(0 <= ax * len <= 90_000_000_000_000_000) by (nonlinear_arith)
        requires
            0 <= ax <= COORD_LIMIT,
            0 <= len <= LEN_LIMIT,
    ;
    assert(0 <= ay * len <= 90_000_000_000_000_000) by (nonlinear_arith)
        requires
            0 <= ay <= COORD_LIMIT,
            0 <= len <= LEN_LIMIT,
    ;
    let qx = (ax * len) / l;
    let qy = (ay * len) / l;
    proof {
        lemma_norm_to_bound(ax as int, ay as int, len as int, l as int, qx as int, qy as int);
    }
    assert((-(v.x as int)) * (len as int) == -((v.x as int) * (len as int))) by (nonlinear_arith);
    assert((-(v.y as int)) * (len as int) == -((v.y as int) * (len as int))) by (nonlinear_arith);
    let wx = if v.x >= 0 {
        qx
    } else {
        -qx
    };
    let wy = if v.y >= 0 {
        qy
    } else {
        -qy
    };
    assert(wx * wx == qx * qx && wy * wy == qy * qy) by (nonlinear_arith)
        requires
            wx == if v.x >= 0 { qx as int } else { -(qx as int) },
            wy == if v.y >= 0 { qy as int } else { -(qy as int) },
    ;
    Vec2 { x: wx, y: wy }
}

/// The squared Euclidean distance between two points.
pub open spec fn dist2(a: Vec2, b: Vec2) -> int {
    (a.x - b.x) * (a.x - b.x) + (a.y - b.y) * (a.y - b.y)
}

/// The squared distance of two in-range points, computed exactly.
pub fn dist2_i64(a: Vec2, b: Vec2) -> (d: i64)
    requires
        -POS_LIMIT <= a.x <= POS_LIMIT,
        -POS_LIMIT <= a.y <= POS_LIMIT,
        -POS_LIMIT <= b.x <= POS_LIMIT,
        -POS_LIMIT <= b.y <= POS_LIMIT,
    ensures
        d == dist2(a, b),
        0 <= d <= 1_000_000_000_000_000,
{
    let dx = a.x - b.x;
    let dy = a.y - b.y;
    assert(0 <= dx * dx <= 500_000_000_000_000 && 0 <= dy * dy <= 500_000_000_000_000)
        by (nonlinear_arith)
        requires
            -2 * POS_LIMIT <= dx <= 2 * POS_LIMIT,
            -2 * POS_LIMIT <= dy <= 2 * POS_LIMIT,
    ;
    dx * dx + dy * dy
}

/// One tick's displacement: each velocity component times `dt`
/// milliseconds, truncated toward zero.
pub fn vel_step(v: Vec2, dt: i64) -> (c: Vec2)
    requires
        -100_000_000 <= v.x <= 100_000_000,
        -100_000_000 <= v.y <= 100_000_000,
        0 <= dt <= DT_LIMIT,
    ensures
        c.x == div_trunc(v.x * dt, 1000),
        c.y == div_trunc(v.y * dt, 1000),
        -1_000_000_000 <= c.x <= 1_000_000_000,
        -1_000_000_000 <= c.y <= 1_000_000_000,
{
    let ax = if v.x >= 0 {
        v.x
    } else {
        -v.x
    };
    let ay = if v.y >= 0 {
        v.y
    } else {
        -v.y
    };
    assert(0 <= ax * dt <= 1_000_000_000_000 && 0 <= ay * dt <= 1_000_000_000_000)
        by (nonlinear_arith)
        requires
            0 <= ax <= 100_000_000,
            0 <= ay <= 100_000_000,
            0 <= dt <= DT_LIMIT,
    ;
    let qx = (ax * dt) / 1000;
    let qy = (ay * dt) / 1000;
    assert((-(v.x as int)) * (dt as int) == -((v.x as int) * (dt as int))) by (nonlinear_arith);
    assert((-(v.y as int)) * (dt as int) == -((v.y as int) * (dt as int))) by (nonlinear_arith);
    let cx = if v.x >= 0 {
        qx
    } else {
        -qx
    };
    let cy = if v.y >= 0 {
        qy
    } else {
        -qy
    };
    Vec2 { x: cx, y: cy }
}

/// The Bhaskara rational approximation of the sine, for `x` in
/// `[0, PI_MRAD]`, scaled by 1000.
pub open spec fn bhaskara(x: int) -> int {
    (16 * x * (3142 - x) * 1000) / (5 * 3142 * 3142 - 4 * x * (3142 - x))
}

/// The model's sine of `x` milliradians, scaled by 1000, for `x` in
/// `[0, TAU_MRAD)`.
pub open spec fn spec_sin_mrad(x: int) -> int {
    if x <= 3142 {
        bhaskara(x)
    } else {
        -bhaskara(x - 3142)
    }
}

/// The model's cosine, as the sine shifted a quarter turn.
pub open spec fn spec_cos_mrad(x: int) -> int {
    if x + 1571 < 6284 {
        spec_sin_mrad(x + 1571)
    } else {
        spec_sin_mrad(x + 1571 - 6284)
    }
}

/// The product `x * (PI_MRAD - x)` stays within a quarter of `PI_MRAD`
/// squared, and is nonnegative on the half turn.
proof fn lemma_bhaskara_range(x: int)
    by (nonlinear_arith)
    requires
        0 <= x <= 3142,
    ensures
        0 <= x * (3142 - x),
        x * (3142 - x) <= 2468041,
{
}

/// Sine on the first half turn, from the Bhaskara approximation.
fn sin_half_turn(x: i64) -> (r: i64)
    requires
        0 <= x <= PI_MRAD,
    ensures
        r == bhaskara(x as int),
        0 <= r <= 1000,
{
    proof {
        lemma_bhaskara_range(x as int);
    }
    let t = x * (3142 - x);
    let num = 16 * t * 1000;
    let den = 5 * 3142 * 3142 - 4 * t;
    assert(den >= 39488656);
    assert(num <= 1000 * den);
    let r = num / den;
    assert(0 <= num as int / den as int <= 1000) by (nonlinear_arith)
        requires
            num >= 0,
            den >= 39488656,
            num <= 1000 * den,
    ;
    assert(16 * (x as int) * (3142 - x as int) * 1000 == 16 * ((x as int) * (3142 - x as int))
        * 1000) by (nonlinear_arith);
    assert(4 * (x as int) * (3142 - x as int) == 4 * ((x as int) * (3142 - x as int)))
        by (nonlinear_arith);
    assert(r == bhaskara(x as int));
    r
}

/// The model's sine of `x` milliradians, scaled by 1000.
pub fn sin_mrad(x: i64) -> (r: i64)
    requires
        0 <= x < TAU_MRAD,
    ensures
        r == spec_sin_mrad(x as int),
        -1000 <= r <= 1000,
{
    if x <= 3142 {
        sin_half_turn(x)
    } else {
        -sin_half_turn(x - 3142)
    }
}

/// The model's cosine of `x` milliradians, scaled by 1000.
pub fn cos_mrad(x: i64) -> (r: i64)
    requires
        0 <= x < TAU_MRAD,
    ensures
        r == spec_cos_mrad(x as int),
        -1000 <= r <= 1000,
{
    let y = if x + 1571 < 6284 {
        x + 1571
    } else {
        x + 1571 - 6284
    };
    sin_mrad(y)
}

/// A heading in `[0, TAU_MRAD)` nudged by `delta` and wrapped back into
/// range.
pub open spec fn spec_wrap_angle(t: int, delta: int) -> int {
    let s = t + delta;
    if s < 0 {
        s + 6284
    } else if s >= 6284 {
        s - 6284
    } else {
        s
    }
}

/// Advances a heading by `delta` milliradians, wrapping around the circle.
pub fn wrap_angle(t: i64, delta: i64) -> (r: i64)
    requires
        0 <= t < TAU_MRAD,
        -TAU_MRAD <= delta <= TAU_MRAD,
    ensures
        r == spec_wrap_angle(t as int, delta as int),
        0 <= r < TAU_MRAD,
{
    let s = t + delta;
    if s < 0 {
        s + TAU_MRAD
    } else if s >= TAU_MRAD {
        s - TAU_MRAD
    } else {
        s
    }
}

} // verus!
