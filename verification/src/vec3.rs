//! Fixed-point three-dimensional vectors.
//!
//! Every coordinate is an `i64` counting millis: thousandths of a world
//! unit. A unit direction vector therefore has components of magnitude at
//! most [`MILLI`], and the length of a vector is the floor of its real
//! Euclidean length in millis, obtained through a verified integer square
//! root.

use vstd::prelude::*;

verus! {

/// Number of millis in one world unit.
pub const MILLI: i64 = 1000;

/// Largest coordinate magnitude accepted for a world position.
pub const COORD_LIMIT: i64 = 500_000_000;

/// Largest coordinate magnitude a vector may have while its squared norm
/// still fits in an `i64`: differences of two in-range positions stay below
/// this bound.
pub const VEC_LIMIT: i64 = 1_000_000_000;

/// Truncating division (rounding towards zero), the behaviour of `/` on
/// `i64` values; `b` must be positive.
pub open spec fn div_t(a: int, b: int) -> int {
    if a >= 0 {
        a / b
    } else {
        -((-a) / b)
    }
}

/// Floor of the real square root of `n`.
pub open spec fn sqrt_floor(n: int) -> int {
    choose|r: int| 0 <= r && #[trigger] (r * r) <= n && (r + 1) * (r + 1) > n
}

proof fn lemma_sqrt_floor_exists(n: int)
    requires
        0 <= n,
    ensures
        exists|r: int| 0 <= r && #[trigger] (r * r) <= n && (r + 1) * (r + 1) > n,
    decreases n,
{
    if n == 0 {
        assert(0 * 0 <= n && (0 + 1) * (0 + 1) > n) by (nonlinear_arith)
            requires
                n == 0,
        ;
    } else {
        lemma_sqrt_floor_exists(n - 1);
        let r = choose|r: int| 0 <= r && #[trigger] (r * r) <= n - 1 && (r + 1) * (r + 1) > n - 1;
        if (r + 1) * (r + 1) <= n {
            assert(0 <= r + 1 && (r + 1) * (r + 1) <= n && (r + 2) * (r + 2) > n)
                by (nonlinear_arith)
                requires
                    0 <= r,
                    (r + 1) * (r + 1) > n - 1,
                    (r + 1) * (r + 1) <= n,
            ;
        } else {
            assert(0 <= r && r * r <= n && (r + 1) * (r + 1) > n);
        }
    }
}

/// The defining property of [`sqrt_floor`].
pub proof fn lemma_sqrt_floor(n: int)
    requires
        0 <= n,
    ensures
        0 <= sqrt_floor(n),
        sqrt_floor(n) * sqrt_floor(n) <= n,
        (sqrt_floor(n) + 1) * (sqrt_floor(n) + 1) > n,
{
    lemma_sqrt_floor_exists(n);
}

/// Any value with the defining property is the floor square root.
pub proof fn lemma_sqrt_floor_unique(n: int, r: int)
    requires
        0 <= n,
        0 <= r,
        r * r <= n,
        (r + 1) * (r + 1) > n,
    ensures
        r == sqrt_floor(n),
{
    lemma_sqrt_floor(n);
    let s = sqrt_floor(n);
    if r < s {
        assert(false) by (nonlinear_arith)
            requires
                0 <= r < s,
                s * s <= n,
                (r + 1) * (r + 1) > n,
        ;
    }
    if s < r {
        assert(false) by (nonlinear_arith)
            requires
                0 <= s < r,
                r * r <= n,
                (s + 1) * (s + 1) > n,
        ;
    }
}

/// Floor square root of a non-negative `i64`, by bisection.
pub fn isqrt(n: i64) -> (r: i64)
    requires
        0 <= n,
    ensures
        r == sqrt_floor(n as int),
        0 <= r,
{
    proof {
        lemma_sqrt_floor(n as int);
    }
    if n == 0 {
        proof {
            lemma_sqrt_floor_unique(0, 0);
        }
        return 0;
    }
    let mut lo: i64 = 0;
    let mut hi: i64 = if n < 3_037_000_499 {
        n + 1
    } else {
        3_037_000_500
    };
    proof {
        if n < 3_037_000_499 {
            assert((n + 1) * (n + 1) > n) by (nonlinear_arith)
                requires
                    1 <= n,
            ;
        } else {
            assert(3_037_000_500int * 3_037_000_500int > n as int);
        }
    }
    while lo + 1 < hi
        invariant
            0 <= lo < hi <= 3_037_000_500,
            n >= 1,
            lo * lo <= n,
            hi * hi > n,
        decreases hi - lo,
    {
        let mid: i64 = lo + (hi - lo) / 2;
        assert(lo < mid < hi);
        assert(mid * mid <= 3_037_000_499 * 3_037_000_499) by (nonlinear_arith)
            requires
                0 <= mid <= 3_037_000_499,
        ;
        let sq: i64 = mid * mid;
        if sq <= n {
            lo = mid;
        } else {
            hi = mid;
        }
    }
    proof {
        lemma_sqrt_floor_unique(n as int, lo as int);
    }
    lo
}

/// A vector of three fixed-point coordinates.
#[derive(Clone, Copy, Debug, PartialEq, Eq, Structural)]
pub struct Vec3 {
    pub x: i64,
    pub y: i64,
    pub z: i64,
}

impl Vec3 {
    /// Every coordinate has magnitude at most `b`.
    pub open spec fn bounded(self, b: int) -> bool {
        &&& -b <= self.x <= b
        &&& -b <= self.y <= b
        &&& -b <= self.z <= b
    }

    pub open spec fn is_zero_spec(self) -> bool {
        self.x == 0 && self.y == 0 && self.z == 0
    }

    pub open spec fn add_spec(self, other: Vec3) -> Vec3 {
        Vec3 { x: (self.x + other.x) as i64, y: (self.y + other.y) as i64, z: (self.z + other.z) as i64 }
    }

    pub open spec fn sub_spec(self, other: Vec3) -> Vec3 {
        Vec3 { x: (self.x - other.x) as i64, y: (self.y - other.y) as i64, z: (self.z - other.z) as i64 }
    }

    pub open spec fn neg_spec(self) -> Vec3 {
        Vec3 { x: (-self.x) as i64, y: (-self.y) as i64, z: (-self.z) as i64 }
    }

    pub open spec fn dot_spec(self, other: Vec3) -> int {
        self.x * other.x + self.y * other.y + self.z * other.z
    }

    pub open spec fn norm_sq_spec(self) -> int {
        self.dot_spec(self)
    }

    /// Length of the vector in millis, rounded down.
    pub open spec fn norm_spec(self) -> int {
        sqrt_floor(self.norm_sq_spec())
    }

    /// The vector scaled to unit length (components in millis of a unit),
    /// rounding each coordinate towards zero.
    pub open spec fn normalized_spec(self) -> Vec3 {
        Vec3 {
            x: div_t(self.x * MILLI, self.norm_spec()) as i64,
            y: div_t(self.y * MILLI, self.norm_spec()) as i64,
            z: div_t(self.z * MILLI, self.norm_spec()) as i64,
        }
    }

    pub fn new(x: i64, y: i64, z: i64) -> (r: Vec3)
        ensures
            r == (Vec3 { x, y, z }),
    {
        Vec3 { x, y, z }
    }

    pub fn zero() -> (r: Vec3)
        ensures
            r == (Vec3 { x: 0i64, y: 0i64, z: 0i64 }),
            r.is_zero_spec(),
    {
        Vec3 { x: 0, y: 0, z: 0 }
    }

    pub fn is_zero(&self) -> (r: bool)
        ensures
            r == self.is_zero_spec(),
    {
        self.x == 0 && self.y == 0 && self.z == 0
    }

    pub fn add(self, other: Vec3) -> (r: Vec3)
        requires
            self.bounded(VEC_LIMIT as int),
            other.bounded(VEC_LIMIT as int),
        ensures
            r == self.add_spec(other),
            r.bounded(2 * VEC_LIMIT as int),
    {
        Vec3 { x: self.x + other.x, y: self.y + other.y, z: self.z + other.z }
    }

    pub fn sub(self, other: Vec3) -> (r: Vec3)
        requires
            self.bounded(VEC_LIMIT as int),
            other.bounded(VEC_LIMIT as int),
        ensures
            r == self.sub_spec(other),
            r.bounded(2 * VEC_LIMIT as int),
    {
        Vec3 { x: self.x - other.x, y: self.y - other.y, z: self.z - other.z }
    }

    pub fn neg(self) -> (r: Vec3)
        requires
            self.bounded(VEC_LIMIT as int),
        ensures
            r == self.neg_spec(),
            r.bounded(VEC_LIMIT as int),
    {
        Vec3 { x: -self.x, y: -self.y, z: -self.z }
    }

    pub fn dot(self, other: Vec3) -> (r: i64)
        requires
            self.bounded(VEC_LIMIT as int),
            other.bounded(VEC_LIMIT as int),
        ensures
            r == self.dot_spec(other),
    {
        proof {
            lemma_product_bound(self.x as int, other.x as int, VEC_LIMIT as int);
            lemma_product_bound(self.y as int, other.y as int, VEC_LIMIT as int);
            lemma_product_bound(self.z as int, other.z as int, VEC_LIMIT as int);
        }
        self.x * other.x + self.y * other.y + self.z * other.z
    }

    pub fn norm_sq(self) -> (r: i64)
        requires
            self.bounded(VEC_LIMIT as int),
        ensures
            r == self.norm_sq_spec(),
            r >= 0,
    {
        proof {
            lemma_square_nonneg(self.x as int);
            lemma_square_nonneg(self.y as int);
            lemma_square_nonneg(self.z as int);
        }
        self.dot(self)
    }

    /// Length of the vector in millis, rounded down.
    pub fn norm(self) -> (r: i64)
        requires
            self.bounded(VEC_LIMIT as int),
        ensures
            r == self.norm_spec(),
            r >= 0,
    {
        let sq = self.norm_sq();
        isqrt(sq)
    }

    /// Scale the vector to unit length. Each coordinate of the result is
    /// exactly `c * MILLI / norm`, rounded towards zero; the result is
    /// never the zero vector, and its dominant coordinate keeps at least
    /// half of the unit scale.
    pub fn normalized(self) -> (r: Vec3)
        requires
            self.bounded(VEC_LIMIT as int),
            !self.is_zero_spec(),
        ensures
            r == self.normalized_spec(),
            r.bounded(MILLI as int),
            !r.is_zero_spec(),
            r.norm_sq_spec() >= 250_000,
    {
        let ghost ns = self.norm_sq_spec();
        let n = self.norm();
        proof {
            assert(ns >= 1) by (nonlinear_arith)
                requires
                    ns == self.x * self.x + self.y * self.y + self.z * self.z,
                    !(self.x == 0 && self.y == 0 && self.z == 0),
            ;
            lemma_sqrt_floor(ns);
            assert(n as int >= 1) by (nonlinear_arith)
                requires
                    n as int >= 0,
                    (n as int + 1) * (n as int + 1) > ns,
                    ns >= 1,
            ;
            assert(-(n as int) <= self.x as int <= n as int && -(n as int) <= self.y as int
                <= n as int && -(n as int) <= self.z as int <= n as int) by (nonlinear_arith)
                requires
                    ns == self.x * self.x + self.y * self.y + self.z * self.z,
                    (n as int + 1) * (n as int + 1) > ns,
                    n as int >= 0,
            ;
            lemma_div_t_bound(self.x as int * MILLI as int, n as int, MILLI as int);
            lemma_div_t_bound(self.y as int * MILLI as int, n as int, MILLI as int);
            lemma_div_t_bound(self.z as int * MILLI as int, n as int, MILLI as int);
        }
        let rx: i64 = self.x * MILLI / n;
        let ry: i64 = self.y * MILLI / n;
        let rz: i64 = self.z * MILLI / n;
        proof {
            lemma_dominant_coordinate_stays(self, n as int, ns);
            assert(rx != 0 || ry != 0 || rz != 0);
            assert(rx * rx + ry * ry + rz * rz >= 250_000) by (nonlinear_arith)
                requires
                    rx >= 500 || rx <= -500 || ry >= 500 || ry <= -500 || rz >= 500 || rz
                        <= -500,
            ;
        }
        Vec3 { x: rx, y: ry, z: rz }
    }
}

/// Distance between two positions in millis, rounded down.
pub open spec fn dist_spec(a: Vec3, b: Vec3) -> int {
    sqrt_floor(a.sub_spec(b).norm_sq_spec())
}

/// Euclidean distance between two in-range positions.
pub fn dist(a: Vec3, b: Vec3) -> (r: i64)
    requires
        a.bounded(COORD_LIMIT as int),
        b.bounded(COORD_LIMIT as int),
    ensures
        r == dist_spec(a, b),
        r >= 0,
{
    let d = a.sub(b);
    d.norm()
}

/// A distance is never negative.
pub proof fn lemma_dist_nonneg(a: Vec3, b: Vec3)
    ensures
        dist_spec(a, b) >= 0,
{
    let d = a.sub_spec(b);
    assert(d.norm_sq_spec() >= 0) by (nonlinear_arith)
        requires
            d.norm_sq_spec() == d.x * d.x + d.y * d.y + d.z * d.z,
    ;
    lemma_sqrt_floor(d.norm_sq_spec());
}

/// The distance between two in-range positions stays well below the
/// integer limits.
pub proof fn lemma_dist_bounds(a: Vec3, b: Vec3)
    requires
        a.bounded(COORD_LIMIT as int),
        b.bounded(COORD_LIMIT as int),
    ensures
        0 <= dist_spec(a, b) <= 2_000_000_000,
{
    lemma_dist_nonneg(a, b);
    let d = a.sub_spec(b);
    let ns = d.norm_sq_spec();
    assert(0 <= ns <= 3_000_000_000_000_000_000) by (nonlinear_arith)
        requires
            ns == d.x * d.x + d.y * d.y + d.z * d.z,
            -1_000_000_000 <= d.x <= 1_000_000_000,
            -1_000_000_000 <= d.y <= 1_000_000_000,
            -1_000_000_000 <= d.z <= 1_000_000_000,
    ;
    lemma_sqrt_floor(ns);
    assert(sqrt_floor(ns) <= 2_000_000_000) by (nonlinear_arith)
        requires
            0 <= sqrt_floor(ns),
            sqrt_floor(ns) * sqrt_floor(ns) <= ns,
            ns <= 3_000_000_000_000_000_000,
    ;
}

/// Truncating division keeps a symmetric bound: `|a| <= m * b` gives
/// `|div_t(a, b)| <= m`.
pub proof fn lemma_div_t_bound(a: int, b: int, m: int)
    requires
        1 <= b,
        0 <= m,
        -(m * b) <= a <= m * b,
    ensures
        -m <= div_t(a, b) <= m,
{
    if a >= 0 {
        lemma_div_quotient_upper(a, b, m);
    } else {
        lemma_div_quotient_upper(-a, b, m);
    }
}

/// For `0 <= a <= m * b` the quotient `a / b` lies in `[0, m]`.
pub proof fn lemma_div_quotient_upper(a: int, b: int, m: int)
    requires
        1 <= b,
        0 <= a,
        a <= m * b,
        0 <= m,
    ensures
        0 <= a / b <= m,
{
    vstd::arithmetic::div_mod::lemma_div_pos_is_pos(a, b);
    vstd::arithmetic::div_mod::lemma_div_is_ordered(a, m * b, b);
    vstd::arithmetic::div_mod::lemma_div_multiples_vanish(m, b);
    assert(m * b == b * m) by (nonlinear_arith);
}

/// For `k * b <= a` with `a` non-negative, the quotient `a / b` is at
/// least `k`.
proof fn lemma_div_quotient_lower(a: int, b: int, k: int)
    requires
        1 <= b,
        0 <= k,
        k * b <= a,
    ensures
        a / b >= k,
{
    vstd::arithmetic::div_mod::lemma_div_is_ordered(k * b, a, b);
    vstd::arithmetic::div_mod::lemma_div_multiples_vanish(k, b);
    assert(k * b == b * k) by (nonlinear_arith);
}

/// A coordinate whose square carries at least a third of the squared norm
/// dominates the norm: the norm is at most twice its magnitude.
proof fn lemma_norm_le_twice_dominant(n: int, a: int, ns: int)
    by (nonlinear_arith)
    requires
        0 <= n,
        0 <= a,
        n * n <= ns,
        ns <= 3 * (a * a),
    ensures
        n <= 2 * a,
{
}

/// Scaling a nonzero vector to unit length keeps its dominant coordinate
/// at no less than half of the unit scale, so the result is nonzero.
proof fn lemma_dominant_coordinate_stays(v: Vec3, n: int, ns: int)
    requires
        ns == v.norm_sq_spec(),
        n == v.norm_spec(),
        !v.is_zero_spec(),
        1 <= n,
    ensures
        div_t(v.x as int * MILLI as int, n) >= 500 || div_t(v.x as int * MILLI as int, n)
            <= -500 || div_t(v.y as int * MILLI as int, n) >= 500 || div_t(
            v.y as int * MILLI as int,
            n,
        ) <= -500 || div_t(v.z as int * MILLI as int, n) >= 500 || div_t(
            v.z as int * MILLI as int,
            n,
        ) <= -500,
{
    assert(ns >= 0) by (nonlinear_arith)
        requires
            ns == v.x * v.x + v.y * v.y + v.z * v.z,
    ;
    lemma_sqrt_floor(ns);
    let xa = if v.x as int >= 0 { v.x as int } else { -(v.x as int) };
    let ya = if v.y as int >= 0 { v.y as int } else { -(v.y as int) };
    let za = if v.z as int >= 0 { v.z as int } else { -(v.z as int) };
    assert(xa * xa == v.x * v.x && ya * ya == v.y * v.y && za * za == v.z * v.z)
        by (nonlinear_arith)
        requires
            xa == v.x as int || xa == -(v.x as int),
            ya == v.y as int || ya == -(v.y as int),
            za == v.z as int || za == -(v.z as int),
    ;
    if xa >= ya && xa >= za {
        assert(ns <= 3 * (xa * xa)) by (nonlinear_arith)
            requires
                ns == v.x * v.x + v.y * v.y + v.z * v.z,
                xa * xa == v.x * v.x,
                ya * ya == v.y * v.y,
                za * za == v.z * v.z,
                0 <= ya <= xa,
                0 <= za <= xa,
        ;
        lemma_norm_le_twice_dominant(n, xa, ns);
        lemma_div_quotient_lower(xa * MILLI as int, n, 500);
        assert(div_t(v.x as int * MILLI as int, n) >= 500 || div_t(v.x as int * MILLI as int, n)
            <= -500);
    } else if ya >= za {
        assert(ns <= 3 * (ya * ya)) by (nonlinear_arith)
            requires
                ns == v.x * v.x + v.y * v.y + v.z * v.z,
                xa * xa == v.x * v.x,
                ya * ya == v.y * v.y,
                za * za == v.z * v.z,
                0 <= xa <= ya,
                0 <= za <= ya,
        ;
        lemma_norm_le_twice_dominant(n, ya, ns);
        lemma_div_quotient_lower(ya * MILLI as int, n, 500);
        assert(div_t(v.y as int * MILLI as int, n) >= 500 || div_t(v.y as int * MILLI as int, n)
            <= -500);
    } else {
        assert(ns <= 3 * (za * za)) by (nonlinear_arith)
            requires
                ns == v.x * v.x + v.y * v.y + v.z * v.z,
                xa * xa == v.x * v.x,
                ya * ya == v.y * v.y,
                za * za == v.z * v.z,
                0 <= xa <= za,
                0 <= ya <= za,
        ;
        lemma_norm_le_twice_dominant(n, za, ns);
        lemma_div_quotient_lower(za * MILLI as int, n, 500);
        assert(div_t(v.z as int * MILLI as int, n) >= 500 || div_t(v.z as int * MILLI as int, n)
            <= -500);
    }
}

/// `|a| <= b` and `|c| <= b` bound the product `a * c` by `b * b`.
proof fn lemma_product_bound(a: int, c: int, b: int)
    by (nonlinear_arith)
    requires
        -b <= a <= b,
        -b <= c <= b,
        0 <= b,
    ensures
        -(b * b) <= a * c <= b * b,
{
}

/// `|a| <= ba` and `|c| <= bc` bound the product `a * c` by `ba * bc`.
pub proof fn lemma_product_bound2(a: int, c: int, ba: int, bc: int)
    by (nonlinear_arith)
    requires
        -ba <= a <= ba,
        -bc <= c <= bc,
        0 <= ba,
        0 <= bc,
    ensures
        -(ba * bc) <= a * c <= ba * bc,
{
}

proof fn lemma_square_nonneg(a: int)
    by (nonlinear_arith)
    ensures
        a * a >= 0,
{
}

} // verus!
