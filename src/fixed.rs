use vstd::prelude::*;

verus! {

/// Number of fixed-point sub-units in one game unit (positions, radii,
/// speeds) and in one whole (colour channels, decay factors).
pub const SCALE: i64 = 1000;

/// Largest magnitude of a coordinate that the simulation keeps.
pub const POS_MAX: i64 = 1_000_000_000_000_000;

/// Largest radius of an entity.
pub const RADIUS_MAX: i64 = 1_000_000_000_000;

/// Largest magnitude of a velocity component (sub-units per second).
pub const VEL_MAX: i64 = 1_000_000_000;

/// Longest frame, in milliseconds.
pub const DT_MAX: i64 = 1_000_000;

/// Largest magnitude of `a * b / SCALE` for `|a| <= VEL_MAX`, `|b| <= DT_MAX`.
pub const STEP_MAX: i64 = 1_000_000_000_000;

/// Division rounding toward zero, as Rust's `/` on integers does.
pub open spec fn div_trunc(a: int, b: int) -> int
    recommends
        b > 0,
{
    if a >= 0 {
        a / b
    } else {
        -((-a) / b)
    }
}

/// `a / b` rounding toward zero, for a positive divisor.
pub fn div_toward_zero(a: i128, b: i128) -> (r: i128)
    requires
        b > 0,
        a > i128::MIN,
    ensures
        r == div_trunc(a as int, b as int),
        -(a as int) <= r <= a || a <= r <= -(a as int),
{
    if a >= 0 {
        a / b
    } else {
        -((-a) / b)
    }
}

/// `v` held within `[-bound, bound]`.
pub open spec fn clamp_spec(v: int, bound: int) -> int {
    if v > bound {
        bound
    } else if v < -bound {
        -bound
    } else {
        v
    }
}

/// Scaling by a factor of at most one in magnitude never grows a value.
pub proof fn lemma_scaling_shrinks(x: int, f: int)
    requires
        -SCALE <= f <= SCALE,
    ensures
        -x <= div_trunc(x * f, SCALE as int) <= x || x <= div_trunc(x * f, SCALE as int) <= -x,
        div_trunc(x * f, SCALE as int) == div_trunc(f * x, SCALE as int),
{
    assert(x * f == f * x) by (nonlinear_arith);
    let q = div_trunc(x * f, 1000);
    assert(-x <= q <= x || x <= q <= -x) by (nonlinear_arith)
        requires
            q == div_trunc(x * f, 1000),
            -1000 <= f <= 1000,
    ;
}

/// One step moves a coordinate by at most `STEP_MAX`.
pub proof fn lemma_advance_bounded(pos: Vec2, vel: Vec2, dt: int)
    requires
        within(pos, POS_MAX as int),
        within(vel, VEL_MAX as int),
        0 <= dt <= DT_MAX,
    ensures
        pos.x - STEP_MAX <= advance(pos, vel, dt).0 <= pos.x + STEP_MAX,
        pos.y - STEP_MAX <= advance(pos, vel, dt).1 <= pos.y + STEP_MAX,
{
    let qx = div_trunc(vel.x * dt, 1000);
    let qy = div_trunc(vel.y * dt, 1000);
    assert(-1_000_000_000_000 <= qx <= 1_000_000_000_000) by (nonlinear_arith)
        requires
            qx == div_trunc(vel.x * dt, 1000),
            -1_000_000_000 <= vel.x <= 1_000_000_000,
            0 <= dt <= 1_000_000,
    ;
    assert(-1_000_000_000_000 <= qy <= 1_000_000_000_000) by (nonlinear_arith)
        requires
            qy == div_trunc(vel.y * dt, 1000),
            -1_000_000_000 <= vel.y <= 1_000_000_000,
            0 <= dt <= 1_000_000,
    ;
}

/// A two-dimensional vector in fixed-point sub-units.
#[derive(Clone, Copy, Debug, PartialEq, Eq, Structural)]
pub struct Vec2 {
    pub x: i64,
    pub y: i64,
}

/// An RGBA colour, each channel in thousandths of full intensity.
#[derive(Clone, Copy, Debug, PartialEq, Eq, Structural)]
pub struct Color {
    pub r: u16,
    pub g: u16,
    pub b: u16,
    pub a: u16,
}

/// Every channel lies in `[0, SCALE]`.
pub open spec fn color_ok(c: Color) -> bool {
    c.r <= SCALE && c.g <= SCALE && c.b <= SCALE && c.a <= SCALE
}

impl Color {
    pub fn from_rgba(r: u16, g: u16, b: u16, a: u16) -> (c: Color)
        ensures
            c == (Color { r, g, b, a }),
    {
        Color { r, g, b, a }
    }

    /// Full white, fully opaque.
    pub fn white() -> (c: Color)
        ensures
            c == (Color { r: 1000, g: 1000, b: 1000, a: 1000 }),
    {
        Color { r: 1000, g: 1000, b: 1000, a: 1000 }
    }
}

/// Whether both components lie in `[-bound, bound]`.
pub open spec fn within(v: Vec2, bound: int) -> bool {
    -bound <= v.x <= bound && -bound <= v.y <= bound
}

/// Squared length of a vector of integers.
pub open spec fn norm_sq(v: (int, int)) -> int {
    v.0 * v.0 + v.1 * v.1
}

/// A direction: a unit vector scaled by `SCALE`, each component rounded
/// toward zero. Its length lies in `[997, 1000]` sub-units.
pub open spec fn is_direction(d: Vec2) -> bool {
    within(d, SCALE as int) && 994_009 <= d.x * d.x + d.y * d.y <= 1_000_000
}

/// `v` is at most `len` long and, up to rounding, at least 0.997 `len`:
/// `|v| <= len` and `1_000_000 |v|^2 >= 994_009 len^2 - 4_000_000 len`.
pub open spec fn length_near(v: (int, int), len: int) -> bool {
    norm_sq(v) <= len * len && 1_000_000 * norm_sq(v) >= 994_009 * len * len - 4_000_000 * len
}

proof fn lemma_square_near(a: int, c: int)
    requires
        0 <= c <= a,
        a - 999 <= c,
    ensures
        c * c <= a * a,
        c * c >= a * a - 1998 * a,
{
    assert(c * c <= c * a) by (nonlinear_arith)
        requires
            0 <= c <= a,
    ;
    assert(c * a <= a * a) by (nonlinear_arith)
        requires
            0 <= c <= a,
    ;
    if a >= 999 {
        let e = a - 999;
        assert(c * c >= e * e) by (nonlinear_arith)
            requires
                0 <= e <= c,
        ;
        assert(e * e == a * a - 1998 * a + 998001) by (nonlinear_arith)
            requires
                e == a - 999,
        ;
    } else {
        assert(a * a - 1998 * a <= 0) by (nonlinear_arith)
            requires
                0 <= a < 999,
        ;
        assert(c * c >= 0) by (nonlinear_arith);
    }
}

/// One component of a direction scaled to a length: `1000 * o`, for
/// `o = d * len / 1000` rounded toward zero, lies within 999 of `d * len`,
/// on the side of zero.
proof fn lemma_trunc_square(d: int, len: int, m: int)
    requires
        -1000 <= d <= 1000,
        len >= 0,
        m == if d >= 0 { d } else { -d },
    ensures
        (1000 * div_trunc(d * len, 1000)) * (1000 * div_trunc(d * len, 1000)) <= (d * len) * (d
            * len),
        (1000 * div_trunc(d * len, 1000)) * (1000 * div_trunc(d * len, 1000)) >= (d * len) * (d
            * len) - 1998 * (m * len),
{
    let a = d * len;
    let o = div_trunc(a, 1000);
    let q = 1000 * o;
    let b = m * len;
    if d >= 0 {
        assert(a >= 0 && b == a) by (nonlinear_arith)
            requires
                d >= 0,
                len >= 0,
                a == d * len,
                b == m * len,
                m == d,
        ;
        assert(a - 999 <= q <= a) by (nonlinear_arith)
            requires
                a >= 0,
                o == a / 1000,
                q == 1000 * o,
        ;
        assert(q >= 0);
        lemma_square_near(a, q);
    } else {
        assert(a <= 0 && b == -a) by (nonlinear_arith)
            requires
                d < 0,
                len >= 0,
                a == d * len,
                b == m * len,
                m == -d,
        ;
        if a == 0 {
            assert(o == 0);
        } else {
            assert(o == -((-a) / 1000));
        }
        assert(b - 999 <= -q <= b) by (nonlinear_arith)
            requires
                b == -a,
                b >= 0,
                a == 0 ==> o == 0,
                a != 0 ==> o == -((-a) / 1000),
                q == 1000 * o,
        ;
        lemma_square_near(b, -q);
        assert(q * q == (-q) * (-q)) by (nonlinear_arith);
        assert(a * a == b * b) by (nonlinear_arith)
            requires
                b == -a,
        ;
    }
}

/// A direction scaled to a length `len` is `len` long, up to rounding.
pub proof fn lemma_scaled_length(d: Vec2, len: int)
    requires
        is_direction(d),
        0 <= len,
    ensures
        length_near(scaled(d, len), len),
{
    let mx: int = if d.x >= 0 { d.x as int } else { -d.x };
    let my: int = if d.y >= 0 { d.y as int } else { -d.y };
    lemma_trunc_square(d.x as int, len, mx);
    lemma_trunc_square(d.y as int, len, my);
    let o = scaled(d, len);
    let qx = 1000 * o.0;
    let qy = 1000 * o.1;
    let ax = d.x * len;
    let ay = d.y * len;
    assert(ax * ax + ay * ay == (d.x * d.x + d.y * d.y) * (len * len)) by (nonlinear_arith)
        requires
            ax == d.x * len,
            ay == d.y * len,
    ;
    assert(994_009 * (len * len) <= (d.x * d.x + d.y * d.y) * (len * len) <= 1_000_000 * (len * len))
        by (nonlinear_arith)
        requires
            994_009 <= d.x * d.x + d.y * d.y <= 1_000_000,
    ;
    assert(1998 * (mx * len) + 1998 * (my * len) <= 4_000_000 * len) by (nonlinear_arith)
        requires
            0 <= mx <= 1000,
            0 <= my <= 1000,
            len >= 0,
    ;
    assert(qx * qx + qy * qy == 1_000_000 * norm_sq(o)) by (nonlinear_arith)
        requires
            qx == 1000 * o.0,
            qy == 1000 * o.1,
    ;
    assert(1_000_000 * norm_sq(o) <= 1_000_000 * (len * len));
    assert(norm_sq(o) <= len * len) by (nonlinear_arith)
        requires
            1_000_000 * norm_sq(o) <= 1_000_000 * (len * len),
    ;
    assert(994_009 * len * len == 994_009 * (len * len)) by (nonlinear_arith);
}

/// Whether `d` is a direction.
pub fn is_unit_direction(d: Vec2) -> (r: bool)
    ensures
        r == is_direction(d),
{
    if d.x < -1000 || d.x > 1000 || d.y < -1000 || d.y > 1000 {
        return false;
    }
    assert(0 <= d.x * d.x <= 1_000_000 && 0 <= d.y * d.y <= 1_000_000) by (nonlinear_arith)
        requires
            -1000 <= d.x <= 1000,
            -1000 <= d.y <= 1000,
    ;
    let n = d.x * d.x + d.y * d.y;
    994_009 <= n && n <= 1_000_000
}

/// Squared Euclidean distance between two points.
pub open spec fn dist_sq(a: Vec2, b: Vec2) -> int {
    (a.x - b.x) * (a.x - b.x) + (a.y - b.y) * (a.y - b.y)
}

/// Where a point moving at `vel` sub-units per second is after `dt` milliseconds.
pub open spec fn advance(pos: Vec2, vel: Vec2, dt: int) -> (int, int) {
    (pos.x + div_trunc(vel.x * dt, SCALE as int), pos.y + div_trunc(vel.y * dt, SCALE as int))
}

/// `dir` scaled to `len` sub-units.
pub open spec fn scaled(dir: Vec2, len: int) -> (int, int) {
    (div_trunc(dir.x * len, SCALE as int), div_trunc(dir.y * len, SCALE as int))
}

impl Vec2 {
    pub fn new(x: i64, y: i64) -> (r: Vec2)
        ensures
            r.x == x,
            r.y == y,
    {
        Vec2 { x, y }
    }
}

/// `d * len / SCALE` rounded toward zero: a direction component scaled to a length.
pub fn scale_dir(d: i64, len: i64) -> (r: i64)
    requires
        -SCALE <= d <= SCALE,
        -RADIUS_MAX <= len <= RADIUS_MAX,
    ensures
        r == div_trunc(d * len, SCALE as int),
        -RADIUS_MAX <= r <= RADIUS_MAX,
        len >= 0 ==> -len <= r <= len,
        len < 0 ==> len <= r <= -len,
{
    assert(-1_000_000_000_000_000 <= d * len <= 1_000_000_000_000_000) by (nonlinear_arith)
        requires
            -1000 <= d <= 1000,
            -1_000_000_000_000 <= len <= 1_000_000_000_000,
    ;
    let p: i128 = (d as i128) * (len as i128);
    let q = div_toward_zero(p, 1000);
    assert(len < 0 ==> len <= q <= -len) by (nonlinear_arith)
        requires
            q == div_trunc(p as int, 1000),
            p == d * len,
            -1000 <= d <= 1000,
    ;
    assert(len >= 0 ==> -len <= q <= len) by (nonlinear_arith)
        requires
            q == div_trunc(p as int, 1000),
            p == d * len,
            -1000 <= d <= 1000,
    ;
    assert(-1_000_000_000_000 <= q <= 1_000_000_000_000) by (nonlinear_arith)
        requires
            q == div_trunc(p as int, 1000),
            -1_000_000_000_000_000 <= p <= 1_000_000_000_000_000,
    ;
    q as i64
}

/// `a * b / SCALE` rounded toward zero.
pub fn mul_scaled(a: i64, b: i64) -> (r: i64)
    requires
        -VEL_MAX <= a <= VEL_MAX,
        -DT_MAX <= b <= DT_MAX,
    ensures
        r == div_trunc(a * b, SCALE as int),
        -STEP_MAX <= r <= STEP_MAX,
        0 <= b <= SCALE ==> -VEL_MAX <= r <= VEL_MAX,
{
    assert(-1_000_000_000_000_000 <= a * b <= 1_000_000_000_000_000) by (nonlinear_arith)
        requires
            -1_000_000_000 <= a <= 1_000_000_000,
            -1_000_000 <= b <= 1_000_000,
    ;
    let p: i128 = (a as i128) * (b as i128);
    let q = div_toward_zero(p, 1000);
    assert(0 <= b <= 1000 ==> -1_000_000_000 <= q <= 1_000_000_000) by (nonlinear_arith)
        requires
            q == div_trunc(p as int, 1000),
            p == a * b,
            -1_000_000_000 <= a <= 1_000_000_000,
    ;
    q as i64
}

/// Position after moving at `vel` for `dt` milliseconds.
pub fn advance_pos(pos: Vec2, vel: Vec2, dt: i64) -> (r: Vec2)
    requires
        within(pos, POS_MAX as int),
        within(vel, VEL_MAX as int),
        0 <= dt <= DT_MAX,
    ensures
        (r.x as int, r.y as int) == advance(pos, vel, dt as int),
        within(r, POS_MAX + STEP_MAX),
{
    let dx = mul_scaled(vel.x, dt);
    let dy = mul_scaled(vel.y, dt);
    Vec2 { x: pos.x + dx, y: pos.y + dy }
}

} // verus!
