use vstd::prelude::*;

verus! {

/// Fixed-point units in one metre (lengths) or one radian (angles).
pub const UNIT: i64 = 1_000_000;

/// Microseconds in one second.
pub const MICROS_PER_SECOND: i64 = 1_000_000;

pub open spec fn abs(a: int) -> int {
    if a < 0 {
        -a
    } else {
        a
    }
}

/// `a * num / den` with the magnitude rounded up and the sign of `a` kept.
pub open spec fn scale_up(a: int, num: int, den: int) -> int {
    if a >= 0 {
        (a * num + den - 1) / den
    } else {
        -(((-a) * num + den - 1) / den)
    }
}

/// `a * num / den` with the magnitude rounded down and the sign of `a` kept.
pub open spec fn scale_down(a: int, num: int, den: int) -> int {
    if a >= 0 {
        a * num / den
    } else {
        -(((-a) * num) / den)
    }
}

/// What is left of a residual `a` after the fraction `num / den` of it
/// (rounded up) has been consumed.
pub open spec fn drain(a: int, num: int, den: int) -> int {
    a - scale_up(a, num, den)
}

/// `b` to the power `k`.
pub open spec fn power(b: int, k: nat) -> int
    decreases k,
{
    if k == 0 {
        1
    } else {
        b * power(b, (k - 1) as nat)
    }
}

/// The consumed part never exceeds the residual and has its sign.
pub proof fn lemma_scale_up_bounds(a: int, num: int, den: int)
    requires
        0 <= num <= den,
        0 < den,
    ensures
        abs(scale_up(a, num, den)) <= abs(a),
        a >= 0 ==> scale_up(a, num, den) >= 0,
        a <= 0 ==> scale_up(a, num, den) <= 0,
        abs(scale_up(a, num, den)) * den >= abs(a) * num,
{
    let m = abs(a);
    let q = (m * num + den - 1) / den;
    assert(m * num <= m * den) by (nonlinear_arith)
        requires
            0 <= m,
            num <= den,
    ;
    assert(0 <= m * num) by (nonlinear_arith)
        requires
            0 <= m,
            0 <= num,
    ;
    assert(q <= m) by (nonlinear_arith)
        requires
            q == (m * num + den - 1) / den,
            m * num <= m * den,
            0 < den,
    ;
    assert(q >= 0 && q * den >= m * num) by (nonlinear_arith)
        requires
            q == (m * num + den - 1) / den,
            0 <= m * num,
            0 < den,
    ;
}

/// One draining step shrinks the residual by at least the factor
/// `(den - num) / den` and keeps its sign.
pub proof fn lemma_drain_contracts(a: int, num: int, den: int)
    requires
        0 <= num <= den,
        0 < den,
    ensures
        abs(drain(a, num, den)) * den <= abs(a) * (den - num),
        abs(drain(a, num, den)) <= abs(a),
        a >= 0 ==> drain(a, num, den) >= 0,
        a <= 0 ==> drain(a, num, den) <= 0,
{
    lemma_scale_up_bounds(a, num, den);
    let s = abs(scale_up(a, num, den));
    let m = abs(a);
    assert(abs(drain(a, num, den)) == m - s);
    assert((m - s) * den <= m * (den - num)) by (nonlinear_arith)
        requires
            s * den >= m * num,
    ;
}

pub proof fn lemma_power_nonneg(b: int, k: nat)
    requires
        b >= 0,
    ensures
        power(b, k) >= 0,
    decreases k,
{
    if k > 0 {
        lemma_power_nonneg(b, (k - 1) as nat);
        assert(b * power(b, (k - 1) as nat) >= 0) by (nonlinear_arith)
            requires
                b >= 0,
                power(b, (k - 1) as nat) >= 0,
        ;
    }
}

/// A vector in fixed-point units.
#[derive(Clone, Copy, Debug, PartialEq, Eq, Structural)]
pub struct Vec3 {
    pub x: i64,
    pub y: i64,
    pub z: i64,
}

impl Vec3 {
    pub fn new(x: i64, y: i64, z: i64) -> (r: Vec3)
        ensures
            r == (Vec3 { x, y, z }),
    {
        Vec3 { x, y, z }
    }

    pub fn zeros() -> (r: Vec3)
        ensures
            r.is_zero(),
    {
        Vec3 { x: 0, y: 0, z: 0 }
    }

    pub open spec fn is_zero(self) -> bool {
        self.x == 0 && self.y == 0 && self.z == 0
    }

    /// Every coordinate lies within `[-limit, limit]`.
    pub open spec fn bounded_by(self, limit: int) -> bool {
        abs(self.x as int) <= limit && abs(self.y as int) <= limit && abs(self.z as int) <= limit
    }
}

/// The largest `r` with `r * r <= n`.
pub open spec fn is_floor_sqrt(r: int, n: int) -> bool {
    0 <= r && r * r <= n < (r + 1) * (r + 1)
}

/// The integer square root of `n`, rounded down.
pub open spec fn floor_sqrt_of(n: int) -> int {
    choose|r: int| is_floor_sqrt(r, n)
}

pub proof fn lemma_floor_sqrt_unique(r1: int, r2: int, n: int)
    requires
        is_floor_sqrt(r1, n),
        is_floor_sqrt(r2, n),
    ensures
        r1 == r2,
{
    if r1 < r2 {
        assert((r1 + 1) * (r1 + 1) <= r2 * r2) by (nonlinear_arith)
            requires
                0 <= r1 < r2,
        ;
    } else if r2 < r1 {
        assert((r2 + 1) * (r2 + 1) <= r1 * r1) by (nonlinear_arith)
            requires
                0 <= r2 < r1,
        ;
    }
}

/// A root found by computation is the one `floor_sqrt_of` names.
pub proof fn lemma_floor_sqrt_of(r: int, n: int)
    requires
        is_floor_sqrt(r, n),
    ensures
        floor_sqrt_of(n) == r,
{
    let c = floor_sqrt_of(n);
    assert(is_floor_sqrt(c, n));
    lemma_floor_sqrt_unique(c, r, n);
}

/// No coordinate of a vector is longer than the vector.
pub proof fn lemma_coordinate_within_root(a: int, r: int, n: int)
    requires
        is_floor_sqrt(r, n),
        a * a <= n,
    ensures
        abs(a) <= r,
{
    if abs(a) > r {
        assert((r + 1) * (r + 1) <= a * a) by (nonlinear_arith)
            requires
                abs(a) >= r + 1,
                r >= 0,
        ;
    }
}

/// Integer square root, rounded down.
pub fn floor_sqrt(n: u64) -> (r: u64)
    ensures
        is_floor_sqrt(r as int, n as int),
{
    let mut lo: u64 = 0;
    let mut hi: u64 = 0x1_0000_0000;
    assert(hi * hi > n) by (nonlinear_arith)
        requires
            hi == 0x1_0000_0000u64,
            n <= 0xffff_ffff_ffff_ffffu64,
    ;
    while hi - lo > 1
        invariant
            lo < hi <= 0x1_0000_0000,
            lo * lo <= n,
            n < hi * hi,
        decreases hi - lo,
    {
        let mid: u64 = lo + (hi - lo) / 2;
        assert(mid * mid <= 0x1_0000_0000u64 * 0x1_0000_0000u64) by (nonlinear_arith)
            requires
                mid <= 0x1_0000_0000u64,
        ;
        if (mid as u128) * (mid as u128) <= n as u128 {
            lo = mid;
        } else {
            hi = mid;
        }
    }
    assert(hi == lo + 1);
    lo
}

/// The exact value of `scale_up` on machine integers.
pub fn scale_up_exec(a: i64, num: i64, den: i64) -> (r: i64)
    requires
        0 <= num <= den,
        0 < den,
        a > i64::MIN,
    ensures
        r == scale_up(a as int, num as int, den as int),
{
    proof {
        lemma_scale_up_bounds(a as int, num as int, den as int);
    }
    let m: i128 = if a >= 0 {
        a as i128
    } else {
        -(a as i128)
    };
    assert(m * (num as i128) <= 0x7fff_ffff_ffff_ffff * 0x7fff_ffff_ffff_ffffi128) by (nonlinear_arith)
        requires
            0 <= m <= 0x7fff_ffff_ffff_ffff,
            0 <= num <= 0x7fff_ffff_ffff_ffff,
    ;
    assert(0 <= m * (num as i128)) by (nonlinear_arith)
        requires
            0 <= m,
            0 <= num,
    ;
    let q: i128 = (m * (num as i128) + (den as i128) - 1) / (den as i128);
    if a >= 0 {
        q as i64
    } else {
        -(q as i64)
    }
}

/// The exact value of `scale_down` on machine integers, for a result whose
/// magnitude is at most `num`.
pub fn scale_down_exec(a: i64, num: i64, den: i64) -> (r: i64)
    requires
        0 <= num,
        0 < den,
        abs(a as int) <= den,
    ensures
        r == scale_down(a as int, num as int, den as int),
        abs(r as int) <= num,
{
    let m: i128 = if a >= 0 {
        a as i128
    } else {
        -(a as i128)
    };
    assert(0 <= m * (num as i128) <= (den as i128) * (num as i128)) by (nonlinear_arith)
        requires
            0 <= m <= den,
            0 <= num,
    ;
    assert((den as i128) * (num as i128) <= 0x7fff_ffff_ffff_ffff * 0x7fff_ffff_ffff_ffffi128) by (nonlinear_arith)
        requires
            0 < den <= 0x7fff_ffff_ffff_ffff,
            0 <= num <= 0x7fff_ffff_ffff_ffff,
    ;
    let q: i128 = (m * (num as i128)) / (den as i128);
    assert(q <= num) by (nonlinear_arith)
        requires
            q == (m * num) / (den as int),
            m * num <= den * num,
            0 < den,
    ;
    if a >= 0 {
        q as i64
    } else {
        -(q as i64)
    }
}

} // verus!
