//! Fixed-point planar vector arithmetic for the motion controller.
//!
//! Distances, speeds and direction components are integers counted in
//! thousandths of a world unit, so clamping, normalisation and scaling can
//! be specified and proved exactly. Ground-plane vectors have an `x` and a
//! `z` component; the vertical axis `y` only appears in the composed output.

use vstd::prelude::*;

verus! {

/// Number of fixed-point steps per world unit: one thousandth each.
pub const SCALE: i64 = 1000;

/// Largest magnitude accepted for a per-character tunable (in thousandths),
/// chosen so that every product the composer forms fits in 64 bits.
pub const MAX_TUNABLE: i64 = 1_000_000_000;

/// A ground-plane vector in thousandths of a unit.
#[derive(Clone, Copy, Debug, PartialEq, Eq, Structural)]
pub struct Vec2Fixed {
    pub x: i64,
    pub z: i64,
}

/// A world-space vector in thousandths of a unit.
#[derive(Clone, Copy, Debug, PartialEq, Eq, Structural)]
pub struct Vec3Fixed {
    pub x: i64,
    pub y: i64,
    pub z: i64,
}

impl Vec2Fixed {
    /// Squared length, in squared thousandths.
    pub open spec fn mag_sq(self) -> int {
        self.x * self.x + self.z * self.z
    }
}

/// Absolute value of a mathematical integer.
pub open spec fn abs_val(a: int) -> int {
    if a >= 0 {
        a
    } else {
        -a
    }
}

/// Division that truncates toward zero, as the machine division does;
/// meaningful for positive divisors only.
pub open spec fn trunc_div(a: int, b: int) -> int
    recommends
        b > 0,
{
    if a >= 0 {
        a / b
    } else {
        -((-a) / b)
    }
}

/// The least `r` with `r * r >= n`.
pub open spec fn spec_ceil_sqrt(n: nat) -> nat
    decreases n,
{
    if n == 0 {
        0
    } else {
        let r = spec_ceil_sqrt((n - 1) as nat);
        if r * r >= n {
            r
        } else {
            r + 1
        }
    }
}

pub proof fn lemma_ceil_sqrt_bounds(n: nat)
    ensures
        spec_ceil_sqrt(n) * spec_ceil_sqrt(n) >= n,
        spec_ceil_sqrt(n) > 0 ==> (spec_ceil_sqrt(n) - 1) * (spec_ceil_sqrt(n) - 1) < n,
        spec_ceil_sqrt(n) <= n,
    decreases n,
{
    if n > 0 {
        lemma_ceil_sqrt_bounds((n - 1) as nat);
        let r = spec_ceil_sqrt((n - 1) as nat);
        if r * r >= n {
        } else {
            assert((r + 1) * (r + 1) >= n && r * r < n) by (nonlinear_arith)
                requires
                    r * r >= n - 1,
                    r * r < n,
            ;
        }
    }
}

pub proof fn lemma_ceil_sqrt_unique(n: nat, r: nat)
    requires
        r * r >= n,
        r > 0 ==> (r - 1) * (r - 1) < n,
        r == 0 ==> n == 0,
    ensures
        r == spec_ceil_sqrt(n),
{
    lemma_ceil_sqrt_bounds(n);
    let s = spec_ceil_sqrt(n);
    assert(r == s) by (nonlinear_arith)
        requires
            r * r >= n,
            r > 0 ==> (r - 1) * (r - 1) < n,
            r == 0 ==> n == 0,
            s * s >= n,
            s > 0 ==> (s - 1) * (s - 1) < n,
    ;
}

/// Least `r` with `r * r >= n`, found by walking the squares upward.
pub fn ceil_sqrt(n: u64) -> (r: u64)
    requires
        n <= 0x1_0000_0000u64,
    ensures
        r as nat == spec_ceil_sqrt(n as nat),
        r <= 0x1_0000u64,
{
    let mut r: u64 = 0;
    let mut rr: u64 = 0;
    while rr < n
        invariant
            n <= 0x1_0000_0000u64,
            rr == r * r,
            rr <= 0x1_0000_0000u64,
            r <= 0x1_0000u64,
            r > 0 ==> (r - 1) * (r - 1) < n,
        decreases 0x1_0000u64 - r,
    {
        proof {
            assert(r < 0x1_0000) by (nonlinear_arith)
                requires
                    r * r < 0x1_0000_0000,
                    r <= 0x1_0000u64,
            ;
            assert((r + 1) * (r + 1) == r * r + 2 * r + 1) by (nonlinear_arith);
            assert((r + 1) * (r + 1) <= 0x1_0000_0000) by (nonlinear_arith)
                requires
                    r < 0x1_0000,
            ;
        }
        rr = rr + 2 * r + 1;
        r = r + 1;
    }
    proof {
        lemma_ceil_sqrt_unique(n as nat, r as nat);
    }
    r
}

/// Components after scaling a non-zero vector by `SCALE` over the ceiling
/// square root of its squared magnitude: the result's squared magnitude
/// never exceeds one squared unit.
pub proof fn lemma_scaled_to_sqrt_bounded(x: int, z: int)
    requires
        x != 0 || z != 0,
    ensures
        ({
            let m = spec_ceil_sqrt((x * x + z * z) as nat) as int;
            trunc_div(x * SCALE, m) * trunc_div(x * SCALE, m) + trunc_div(z * SCALE, m)
                * trunc_div(z * SCALE, m) <= SCALE * SCALE
        }),
{
    let q = x * x + z * z;
    assert(x * x + z * z > 0) by (nonlinear_arith)
        requires
            x != 0 || z != 0,
    ;
    lemma_ceil_sqrt_bounds(q as nat);
    let m = spec_ceil_sqrt(q as nat) as int;
    assert(m * m >= q);
    assert(m >= 1) by (nonlinear_arith)
        requires
            m * m >= q,
            q > 0,
            m >= 0,
    ;
    let ax = abs_val(x);
    let az = abs_val(z);
    let u = (ax * SCALE) / m;
    let w = (az * SCALE) / m;
    vstd::arithmetic::div_mod::lemma_fundamental_div_mod(ax * SCALE, m);
    vstd::arithmetic::div_mod::lemma_fundamental_div_mod(az * SCALE, m);
    vstd::arithmetic::div_mod::lemma_mod_bound(ax * SCALE, m);
    vstd::arithmetic::div_mod::lemma_mod_bound(az * SCALE, m);
    vstd::arithmetic::div_mod::lemma_div_pos_is_pos(ax * SCALE, m);
    vstd::arithmetic::div_mod::lemma_div_pos_is_pos(az * SCALE, m);
    assert(u * m <= ax * SCALE && w * m <= az * SCALE);
    assert(u * u * (m * m) <= (ax * SCALE) * (ax * SCALE)) by (nonlinear_arith)
        requires
            u * m <= ax * SCALE,
            u >= 0,
            m >= 1,
    ;
    assert(w * w * (m * m) <= (az * SCALE) * (az * SCALE)) by (nonlinear_arith)
        requires
            w * m <= az * SCALE,
            w >= 0,
            m >= 1,
    ;
    assert((u * u + w * w) * (m * m) <= q * (SCALE * SCALE)) by (nonlinear_arith)
        requires
            u * u * (m * m) <= (ax * SCALE) * (ax * SCALE),
            w * w * (m * m) <= (az * SCALE) * (az * SCALE),
            ax == x || ax == -x,
            az == z || az == -z,
            q == x * x + z * z,
    ;
    assert(u * u + w * w <= SCALE * SCALE) by (nonlinear_arith)
        requires
            (u * u + w * w) * (m * m) <= q * (SCALE * SCALE),
            q <= m * m,
            m >= 1,
            u >= 0,
            w >= 0,
    ;
    assert(trunc_div(x * SCALE, m) == u || trunc_div(x * SCALE, m) == -u);
    assert(trunc_div(z * SCALE, m) == w || trunc_div(z * SCALE, m) == -w);
    assert((-u) * (-u) == u * u && (-w) * (-w) == w * w) by (nonlinear_arith);
}

/// A squared magnitude of at most one squared unit bounds each component
/// by one unit.
pub proof fn lemma_mag_sq_component_bound(x: int, z: int)
    requires
        x * x + z * z <= SCALE * SCALE,
    ensures
        -SCALE <= x <= SCALE,
        -SCALE <= z <= SCALE,
{
    assert(-1000 <= x <= 1000 && -1000 <= z <= 1000) by (nonlinear_arith)
        requires
            x * x + z * z <= 1_000_000,
    ;
}

/// `trunc_div(a * s, m)` for a small signed `a`, a small non-negative
/// factor `s` and a positive divisor `m`.
pub fn mul_div_trunc(a: i64, s: i64, m: u64) -> (r: i64)
    requires
        -(2 * SCALE) <= a <= 2 * SCALE,
        0 <= s <= SCALE,
        1 <= m,
    ensures
        r as int == trunc_div(a * s, m as int),
{
    let aa: u64 = if a >= 0 {
        a as u64
    } else {
        (-a) as u64
    };
    proof {
        assert(aa * s <= 2_000_000) by (nonlinear_arith)
            requires
                aa <= 2000,
                0 <= s <= 1000,
        ;
    }
    let p: u64 = aa * (s as u64);
    proof {
        assert(p / m <= p) by (nonlinear_arith)
            requires
                1 <= m,
                0 <= p,
        ;
    }
    let q: u64 = p / m;
    let qi: i64 = q as i64;
    proof {
        assert(a >= 0 ==> a * s >= 0 && a * s == aa * s) by (nonlinear_arith)
            requires
                a >= 0 ==> aa == a,
                s >= 0,
        ;
        assert(a < 0 ==> a * s <= 0 && aa * s == -(a * s)) by (nonlinear_arith)
            requires
                a < 0 ==> aa == -a,
                s >= 0,
        ;
        assert(a < 0 && a * s == 0 ==> q == 0 && trunc_div(a * s, m as int) == 0);
    }
    if a >= 0 {
        qi
    } else {
        -qi
    }
}

/// One component of `direction * factor * speed / (SCALE * SCALE)`:
/// the scaled desired velocity along one ground axis.
pub fn vel_component(d: i64, factor: i64, speed: i64) -> (r: i64)
    requires
        -SCALE <= d <= SCALE,
        0 <= factor <= SCALE,
        0 <= speed <= MAX_TUNABLE,
    ensures
        r as int == trunc_div(d * factor * speed, 1_000_000),
{
    let da: u64 = if d >= 0 {
        d as u64
    } else {
        (-d) as u64
    };
    proof {
        assert(da * factor <= 1_000_000) by (nonlinear_arith)
            requires
                da <= 1000,
                0 <= factor <= 1000,
        ;
    }
    let partial: u64 = da * (factor as u64);
    proof {
        assert(partial * speed <= 1_000_000_000_000_000) by (nonlinear_arith)
            requires
                partial <= 1_000_000,
                0 <= speed <= 1_000_000_000,
        ;
    }
    let p: u64 = partial * (speed as u64);
    let q: u64 = p / 1_000_000;
    let qi: i64 = q as i64;
    proof {
        assert(d >= 0 ==> d * factor * speed >= 0 && d * factor * speed == da * factor * speed)
            by (nonlinear_arith)
            requires
                d >= 0 ==> da == d,
                factor >= 0,
                speed >= 0,
        ;
        assert(d < 0 ==> d * factor * speed <= 0 && da * factor * speed == -(d * factor * speed))
            by (nonlinear_arith)
            requires
                d < 0 ==> da == -d,
                factor >= 0,
                speed >= 0,
        ;
        assert(p == da * factor * speed) by (nonlinear_arith)
            requires
                partial == da * factor,
                p == partial * speed,
        ;
    }
    if d >= 0 {
        qi
    } else {
        -qi
    }
}

/// One component of `n * len / SCALE`: a unit direction component scaled
/// to a configured length.
pub fn scale_component(n: i64, len: i64) -> (r: i64)
    requires
        -SCALE <= n <= SCALE,
        0 <= len <= MAX_TUNABLE,
    ensures
        r as int == trunc_div(n * len, SCALE as int),
{
    let na: u64 = if n >= 0 {
        n as u64
    } else {
        (-n) as u64
    };
    proof {
        assert(na * len <= 1_000_000_000_000) by (nonlinear_arith)
            requires
                na <= 1000,
                0 <= len <= 1_000_000_000,
        ;
    }
    let p: u64 = na * (len as u64);
    let q: u64 = p / 1000;
    let qi: i64 = q as i64;
    proof {
        assert(n >= 0 ==> n * len >= 0 && n * len == na * len) by (nonlinear_arith)
            requires
                n >= 0 ==> na == n,
                len >= 0,
        ;
        assert(n < 0 ==> n * len <= 0 && na * len == -(n * len)) by (nonlinear_arith)
            requires
                n < 0 ==> na == -n,
                len >= 0,
        ;
    }
    if n >= 0 {
        qi
    } else {
        -qi
    }
}

/// The vector unchanged while its squared magnitude is at most one squared
/// unit; otherwise scaled down by its ceiling square root so the magnitude
/// lands at or just under one unit.
pub open spec fn spec_clamp_unit(x: int, z: int) -> (int, int) {
    let q = x * x + z * z;
    if q <= SCALE * SCALE {
        (x, z)
    } else {
        let m = spec_ceil_sqrt(q as nat) as int;
        (trunc_div(x * SCALE, m), trunc_div(z * SCALE, m))
    }
}

/// The zero vector stays zero; any other vector is scaled onto (or just
/// inside) the unit circle.
pub open spec fn spec_normalize_or_zero(x: int, z: int) -> (int, int) {
    if x == 0 && z == 0 {
        (0, 0)
    } else {
        let m = spec_ceil_sqrt((x * x + z * z) as nat) as int;
        (trunc_div(x * SCALE, m), trunc_div(z * SCALE, m))
    }
}

/// Law: clamping to unit length never yields a squared magnitude above one
/// squared unit, whatever the input components.
pub proof fn lemma_clamp_unit_bounded(x: int, z: int)
    ensures
        ({
            let (cx, cz) = spec_clamp_unit(x, z);
            cx * cx + cz * cz <= SCALE * SCALE
        }),
{
    let q = x * x + z * z;
    if q <= SCALE * SCALE {
    } else {
        assert(x != 0 || z != 0);
        lemma_scaled_to_sqrt_bounded(x, z);
    }
}

/// Law: normalising never yields a squared magnitude above one squared
/// unit.
pub proof fn lemma_normalize_bounded(x: int, z: int)
    ensures
        ({
            let (nx, nz) = spec_normalize_or_zero(x, z);
            nx * nx + nz * nz <= SCALE * SCALE
        }),
{
    if x == 0 && z == 0 {
    } else {
        lemma_scaled_to_sqrt_bounded(x, z);
    }
}

/// Clamp a ground-plane vector to at most one unit of length.
pub fn clamp_length_max_unit(v: Vec2Fixed) -> (r: Vec2Fixed)
    requires
        -(2 * SCALE) <= v.x <= 2 * SCALE,
        -(2 * SCALE) <= v.z <= 2 * SCALE,
    ensures
        (r.x as int, r.z as int) == spec_clamp_unit(v.x as int, v.z as int),
        r.mag_sq() <= SCALE * SCALE,
        -SCALE <= r.x <= SCALE,
        -SCALE <= r.z <= SCALE,
{
    let ax: u64 = if v.x >= 0 {
        v.x as u64
    } else {
        (-v.x) as u64
    };
    let az: u64 = if v.z >= 0 {
        v.z as u64
    } else {
        (-v.z) as u64
    };
    proof {
        assert(ax * ax <= 4_000_000 && az * az <= 4_000_000) by (nonlinear_arith)
            requires
                ax <= 2000,
                az <= 2000,
        ;
        assert(ax * ax == v.x * v.x && az * az == v.z * v.z) by (nonlinear_arith)
            requires
                ax == v.x || ax == -v.x,
                az == v.z || az == -v.z,
        ;
    }
    let q: u64 = ax * ax + az * az;
    if q <= 1_000_000 {
        proof {
            lemma_mag_sq_component_bound(v.x as int, v.z as int);
        }
        v
    } else {
        let m: u64 = ceil_sqrt(q);
        proof {
            lemma_ceil_sqrt_bounds(q as nat);
        }
        let rx: i64 = mul_div_trunc(v.x, SCALE, m);
        let rz: i64 = mul_div_trunc(v.z, SCALE, m);
        proof {
            lemma_scaled_to_sqrt_bounded(v.x as int, v.z as int);
            lemma_mag_sq_component_bound(rx as int, rz as int);
        }
        Vec2Fixed { x: rx, z: rz }
    }
}

/// Scale a non-zero ground-plane vector onto the unit circle; the zero
/// vector stays zero.
pub fn normalize_or_zero(v: Vec2Fixed) -> (r: Vec2Fixed)
    requires
        -(2 * SCALE) <= v.x <= 2 * SCALE,
        -(2 * SCALE) <= v.z <= 2 * SCALE,
    ensures
        (r.x as int, r.z as int) == spec_normalize_or_zero(v.x as int, v.z as int),
        r.mag_sq() <= SCALE * SCALE,
        -SCALE <= r.x <= SCALE,
        -SCALE <= r.z <= SCALE,
{
    if v.x == 0 && v.z == 0 {
        Vec2Fixed { x: 0, z: 0 }
    } else {
        let ax: u64 = if v.x >= 0 {
            v.x as u64
        } else {
            (-v.x) as u64
        };
        let az: u64 = if v.z >= 0 {
            v.z as u64
        } else {
            (-v.z) as u64
        };
        proof {
            assert(ax * ax <= 4_000_000 && az * az <= 4_000_000) by (nonlinear_arith)
                requires
                    ax <= 2000,
                    az <= 2000,
            ;
            assert(ax * ax == v.x * v.x && az * az == v.z * v.z) by (nonlinear_arith)
                requires
                    ax == v.x || ax == -v.x,
                    az == v.z || az == -v.z,
            ;
            assert(ax * ax + az * az > 0) by (nonlinear_arith)
                requires
                    ax > 0 || az > 0,
            ;
        }
        let q: u64 = ax * ax + az * az;
        let m: u64 = ceil_sqrt(q);
        proof {
            lemma_ceil_sqrt_bounds(q as nat);
        }
        let rx: i64 = mul_div_trunc(v.x, SCALE, m);
        let rz: i64 = mul_div_trunc(v.z, SCALE, m);
        proof {
            lemma_scaled_to_sqrt_bounded(v.x as int, v.z as int);
            lemma_mag_sq_component_bound(rx as int, rz as int);
        }
        Vec2Fixed { x: rx, z: rz }
    }
}

} // verus!
