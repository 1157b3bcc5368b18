//! Fixed-point 3D vectors.
//!
//! A component holds a coordinate in thousandths of a world unit, so the
//! vector `(0, 0, -1000)` stands for the unit vector pointing down the
//! negative z axis. Products of two milli values carry a factor of one
//! million, hence the frequent division by 1000 to return to milli scale;
//! that division truncates toward zero, mirroring a narrowing conversion.

use vstd::prelude::*;

verus! {

/// Largest magnitude, in milli units, that vector arithmetic here accepts.
/// Keeping components within this bound keeps every intermediate product
/// of two components inside `i64`.
pub const COORD_LIMIT: i64 = 1_000_000_000;

/// Division by 1000 that truncates toward zero (the spec-level `/` on `int`
/// is Euclidean, which differs on negative operands).
pub open spec fn milli_div(a: int) -> int {
    if a >= 0 {
        a / 1000
    } else {
        -((-a) / 1000)
    }
}

/// General truncating-toward-zero division by a positive divisor.
pub open spec fn trunc_div(a: int, b: int) -> int
    recommends
        b > 0,
{
    if a >= 0 {
        a / b
    } else {
        -((-a) / b)
    }
}

#[derive(Clone, Copy, Debug, PartialEq, Eq, Structural)]
pub struct Vec3 {
    pub x: i64,
    pub y: i64,
    pub z: i64,
}

impl Vec3 {
    /// All components within `COORD_LIMIT`.
    pub open spec fn in_bounds(self) -> bool {
        &&& -COORD_LIMIT <= self.x <= COORD_LIMIT
        &&& -COORD_LIMIT <= self.y <= COORD_LIMIT
        &&& -COORD_LIMIT <= self.z <= COORD_LIMIT
    }

    pub open spec fn norm_sq(self) -> int {
        self.x * self.x + self.y * self.y + self.z * self.z
    }

    pub fn new(x: i64, y: i64, z: i64) -> (r: Vec3)
        ensures
            r == (Vec3 { x, y, z }),
    {
        Vec3 { x, y, z }
    }

    pub fn zero() -> (r: Vec3)
        ensures
            r == zero_vec(),
    {
        Vec3 { x: 0, y: 0, z: 0 }
    }

    /// Runtime bounds test, for callers that must establish `in_bounds`
    /// before handing a vector to the arithmetic here.
    pub fn is_in_bounds(&self) -> (r: bool)
        ensures
            r == self.in_bounds(),
    {
        -COORD_LIMIT <= self.x && self.x <= COORD_LIMIT && -COORD_LIMIT <= self.y && self.y
            <= COORD_LIMIT && -COORD_LIMIT <= self.z && self.z <= COORD_LIMIT
    }

    pub fn add(self, o: Vec3) -> (r: Vec3)
        requires
            i64::MIN <= self.x + o.x <= i64::MAX,
            i64::MIN <= self.y + o.y <= i64::MAX,
            i64::MIN <= self.z + o.z <= i64::MAX,
        ensures
            r.x == self.x + o.x,
            r.y == self.y + o.y,
            r.z == self.z + o.z,
    {
        Vec3 { x: self.x + o.x, y: self.y + o.y, z: self.z + o.z }
    }

    pub fn neg(self) -> (r: Vec3)
        requires
            self.x > i64::MIN,
            self.y > i64::MIN,
            self.z > i64::MIN,
        ensures
            r.x == -self.x,
            r.y == -self.y,
            r.z == -self.z,
    {
        Vec3 { x: -self.x, y: -self.y, z: -self.z }
    }

    /// Componentwise scaling by an integer factor (no rescaling).
    pub fn scale(self, k: i64) -> (r: Vec3)
        requires
            i64::MIN <= self.x * k <= i64::MAX,
            i64::MIN <= self.y * k <= i64::MAX,
            i64::MIN <= self.z * k <= i64::MAX,
        ensures
            r.x == self.x * k,
            r.y == self.y * k,
            r.z == self.z * k,
    {
        Vec3 { x: self.x * k, y: self.y * k, z: self.z * k }
    }

    /// Scaling by a milli factor: multiply, then drop the extra factor of
    /// 1000 that the product of two milli values carries.
    pub fn scale_milli(self, k: i64) -> (r: Vec3)
        requires
            -i64::MAX <= self.x * k <= i64::MAX,
            -i64::MAX <= self.y * k <= i64::MAX,
            -i64::MAX <= self.z * k <= i64::MAX,
        ensures
            r == scale_milli_of(self, k as int),
            r.x == milli_div(self.x * k),
            r.y == milli_div(self.y * k),
            r.z == milli_div(self.z * k),
    {
        Vec3 {
            x: div_milli(mul_i64(self.x, k)),
            y: div_milli(mul_i64(self.y, k)),
            z: div_milli(mul_i64(self.z, k)),
        }
    }

    /// Cross product of two milli vectors, rescaled back to milli units.
    pub fn cross(self, o: Vec3) -> (r: Vec3)
        requires
            self.in_bounds(),
            o.in_bounds(),
        ensures
            r == cross_of(self, o),
            r.x == milli_div(self.y * o.z - self.z * o.y),
            r.y == milli_div(self.z * o.x - self.x * o.z),
            r.z == milli_div(self.x * o.y - self.y * o.x),
    {
        proof {
            lemma_product_bound(self.x as int, o.y as int);
            lemma_product_bound(self.x as int, o.z as int);
            lemma_product_bound(self.y as int, o.x as int);
            lemma_product_bound(self.y as int, o.z as int);
            lemma_product_bound(self.z as int, o.x as int);
            lemma_product_bound(self.z as int, o.y as int);
        }
        let cx = mul_i64(self.y, o.z) - mul_i64(self.z, o.y);
        let cy = mul_i64(self.z, o.x) - mul_i64(self.x, o.z);
        let cz = mul_i64(self.x, o.y) - mul_i64(self.y, o.x);
        Vec3 { x: div_milli(cx), y: div_milli(cy), z: div_milli(cz) }
    }
}

/// The milli-scaled cross product, as a specification value.
pub open spec fn cross_of(a: Vec3, b: Vec3) -> Vec3 {
    Vec3 {
        x: milli_div(a.y * b.z - a.z * b.y) as i64,
        y: milli_div(a.z * b.x - a.x * b.z) as i64,
        z: milli_div(a.x * b.y - a.y * b.x) as i64,
    }
}

/// Milli scaling, as a specification value.
pub open spec fn scale_milli_of(v: Vec3, k: int) -> Vec3 {
    Vec3 {
        x: milli_div(v.x * k) as i64,
        y: milli_div(v.y * k) as i64,
        z: milli_div(v.z * k) as i64,
    }
}

/// Truncating division shrinks magnitudes: a bound on the dividend gives a
/// thousandfold smaller bound on the quotient.
pub proof fn lemma_milli_div_bound(a: int, m: int)
    requires
        0 <= m,
        -m <= a <= m,
    ensures
        -(m / 1000) <= milli_div(a) <= m / 1000,
{
    vstd::arithmetic::div_mod::lemma_div_pos_is_pos(m, 1000);
    if a >= 0 {
        vstd::arithmetic::div_mod::lemma_div_is_ordered(a, m, 1000);
        vstd::arithmetic::div_mod::lemma_div_pos_is_pos(a, 1000);
    } else {
        vstd::arithmetic::div_mod::lemma_div_is_ordered(-a, m, 1000);
        vstd::arithmetic::div_mod::lemma_div_pos_is_pos(-a, 1000);
    }
}

/// A product of two in-bounds coordinates stays within one quintillion.
proof fn lemma_product_bound(a: int, b: int)
    requires
        -COORD_LIMIT <= a <= COORD_LIMIT,
        -COORD_LIMIT <= b <= COORD_LIMIT,
    ensures
        -(COORD_LIMIT as int * COORD_LIMIT as int) <= a * b <= COORD_LIMIT as int
            * COORD_LIMIT as int,
{
    assert(-(COORD_LIMIT as int * COORD_LIMIT as int) <= a * b <= COORD_LIMIT as int
        * COORD_LIMIT as int) by (nonlinear_arith)
        requires
            -COORD_LIMIT <= a <= COORD_LIMIT,
            -COORD_LIMIT <= b <= COORD_LIMIT,
    ;
}

/// Multiplication whose precondition carries the overflow obligation.
fn mul_i64(a: i64, b: i64) -> (r: i64)
    requires
        i64::MIN <= a * b <= i64::MAX,
    ensures
        r == a * b,
{
    a * b
}

/// Executable truncating-toward-zero division by 1000.
fn div_milli(a: i64) -> (r: i64)
    requires
        a > i64::MIN,
    ensures
        r == milli_div(a as int),
{
    if a >= 0 {
        a / 1000
    } else {
        let mag: u64 = ((-a) as u64) / 1000;
        assert(mag <= i64::MAX as u64);
        -(mag as i64)
    }
}

/// `r` is the integer square root of `n`.
pub open spec fn is_isqrt(n: int, r: int) -> bool {
    &&& r >= 0
    &&& r * r <= n
    &&& (r + 1) * (r + 1) > n
}

/// The integer square root, as a specification value.
pub open spec fn isqrt_spec(n: int) -> int {
    choose|r: int| is_isqrt(n, r)
}

/// Any two integer square roots of the same value coincide.
proof fn lemma_isqrt_unique(n: int, a: int, b: int)
    requires
        is_isqrt(n, a),
        is_isqrt(n, b),
    ensures
        a == b,
{
    if a < b {
        assert((a + 1) * (a + 1) <= b * b) by (nonlinear_arith)
            requires
                0 <= a,
                a + 1 <= b,
        ;
    }
    if b < a {
        assert((b + 1) * (b + 1) <= a * a) by (nonlinear_arith)
            requires
                0 <= b,
                b + 1 <= a,
        ;
    }
}

/// Binary-search integer square root.
pub fn isqrt_u64(n: u64) -> (r: u64)
    ensures
        is_isqrt(n as int, r as int),
        r == isqrt_spec(n as int),
        r <= 4_294_967_295u64,
{
    let mut lo: u64 = 0;
    let mut hi: u64 = 4_294_967_296;
    while lo + 1 < hi
        invariant
            0 <= lo < hi <= 4_294_967_296,
            (lo as int) * (lo as int) <= n as int,
            (hi as int) * (hi as int) > n as int,
        decreases hi - lo,
    {
        let mid = lo + (hi - lo) / 2;
        assert(lo < mid < hi);
        assert(mid * mid <= u64::MAX) by (nonlinear_arith)
            requires
                0 <= mid < 4_294_967_296u64,
        ;
        if mid * mid <= n {
            lo = mid;
        } else {
            hi = mid;
        }
    }
    proof {
        lemma_isqrt_unique(n as int, lo as int, isqrt_spec(n as int));
    }
    lo
}

/// Milli length of a milli vector, as a specification value.
pub open spec fn norm_milli(v: Vec3) -> int {
    isqrt_spec(v.norm_sq())
}

/// The zero vector.
pub open spec fn zero_vec() -> Vec3 {
    Vec3 { x: 0i64, y: 0i64, z: 0i64 }
}

/// What `normalize_or_zero` returns: the zero vector stays zero, anything
/// else is scaled to (approximately) unit milli length.
pub open spec fn normalized_or_zero(v: Vec3) -> Vec3 {
    if v == zero_vec() {
        zero_vec()
    } else {
        Vec3 {
            x: trunc_div(v.x * 1000, norm_milli(v)) as i64,
            y: trunc_div(v.y * 1000, norm_milli(v)) as i64,
            z: trunc_div(v.z * 1000, norm_milli(v)) as i64,
        }
    }
}

proof fn lemma_norm_positive(v: Vec3)
    requires
        v != zero_vec(),
    ensures
        v.norm_sq() >= 1,
{
    assert(v.x * v.x >= 0) by (nonlinear_arith);
    assert(v.y * v.y >= 0) by (nonlinear_arith);
    assert(v.z * v.z >= 0) by (nonlinear_arith);
    if v.x != 0 {
        assert(v.x * v.x >= 1) by (nonlinear_arith)
            requires
                v.x != 0,
        ;
    } else if v.y != 0 {
        assert(v.y * v.y >= 1) by (nonlinear_arith)
            requires
                v.y != 0,
        ;
    } else {
        assert(v.z != 0);
        assert(v.z * v.z >= 1) by (nonlinear_arith)
            requires
                v.z != 0,
        ;
    }
}

/// Scales a vector to unit milli length; the zero vector (for instance the
/// net intent of opposing movement keys) is left untouched rather than
/// producing an undefined direction.
pub fn normalize_or_zero(v: Vec3) -> (r: Vec3)
    requires
        v.in_bounds(),
    ensures
        r == normalized_or_zero(v),
        -1000 <= r.x <= 1000,
        -1000 <= r.y <= 1000,
        -1000 <= r.z <= 1000,
{
    if v.x == 0 && v.y == 0 && v.z == 0 {
        Vec3 { x: 0, y: 0, z: 0 }
    } else {
        proof {
            lemma_norm_positive(v);
        }
        let sx = square_to_u64(v.x);
        let sy = square_to_u64(v.y);
        let sz = square_to_u64(v.z);
        let nsq: u64 = sx + sy + sz;
        assert(nsq as int == v.norm_sq());
        let n = isqrt_u64(nsq);
        assert(n as int == norm_milli(v));
        proof {
            assert(is_isqrt(nsq as int, n as int));
            if n == 0 {
                assert((0 + 1) * (0 + 1) > nsq as int);
                assert(false);
            }
            // The square of each component is at most the squared norm,
            // which is below (n + 1)^2.
            assert(v.y * v.y >= 0 && v.z * v.z >= 0 && v.x * v.x >= 0) by (nonlinear_arith);
        }
        let rx = scaled_component(v.x, n);
        let ry = scaled_component(v.y, n);
        let rz = scaled_component(v.z, n);
        Vec3 { x: rx, y: ry, z: rz }
    }
}

/// One component of the normalisation: `c * 1000 / n`, truncating toward
/// zero. The bound `(n + 1)^2 > c^2` (from `n` being the integer square
/// root of the full squared norm) pins the result within one milli unit.
fn scaled_component(c: i64, n: u64) -> (r: i64)
    requires
        -COORD_LIMIT <= c <= COORD_LIMIT,
        1 <= n <= 4_294_967_295u64,
        ((n as int) + 1) * ((n as int) + 1) > c * c,
    ensures
        r == trunc_div(c * 1000, n as int),
        -1000 <= r <= 1000,
{
    proof {
        // |c| <= n: otherwise |c| >= n + 1, so c^2 >= (n + 1)^2.
        assert(-(n as int) <= c <= n as int) by (nonlinear_arith)
            requires
                ((n as int) + 1) * ((n as int) + 1) > c * c,
                n >= 1,
        ;
    }
    let mag: u64 = if c >= 0 {
        c as u64
    } else {
        (-c) as u64
    };
    assert(mag as int == if c >= 0 { c as int } else { -(c as int) });
    assert(mag <= n);
    let q: u64 = (mag * 1000) / n;
    proof {
        assert(mag * 1000 <= n * 1000) by (nonlinear_arith)
            requires
                mag <= n,
        ;
        assert((mag as int * 1000) / (n as int) <= 1000) by (nonlinear_arith)
            requires
                n >= 1,
                0 <= mag as int * 1000 <= n as int * 1000,
        ;
    }
    let r: i64 = if c >= 0 {
        q as i64
    } else {
        -(q as i64)
    };
    proof {
        if c >= 0 {
            assert(c * 1000 == mag as int * 1000);
            assert(r == trunc_div(c * 1000, n as int));
        } else {
            assert(-(c * 1000) == mag as int * 1000) by (nonlinear_arith)
                requires
                    mag as int == -(c as int),
            ;
            assert(c * 1000 < 0) by (nonlinear_arith)
                requires
                    c < 0,
            ;
            assert(r == trunc_div(c * 1000, n as int));
        }
    }
    r
}

/// The square of a (bounded) signed value, as an unsigned 64-bit number.
fn square_to_u64(c: i64) -> (r: u64)
    requires
        -COORD_LIMIT <= c <= COORD_LIMIT,
    ensures
        r as int == c * c,
        r <= 1_000_000_000_000_000_000u64,
{
    proof {
        assert(c * c >= 0) by (nonlinear_arith);
        assert(c * c <= COORD_LIMIT as int * COORD_LIMIT as int) by (nonlinear_arith)
            requires
                -COORD_LIMIT <= c <= COORD_LIMIT,
        ;
    }
    let a: u64 = if c >= 0 {
        c as u64
    } else {
        (-c) as u64
    };
    proof {
        assert(a as int * a as int == c * c) by (nonlinear_arith)
            requires
                a as int == if c >= 0 { c as int } else { -(c as int) },
        ;
    }
    a * a
}

} // verus!
