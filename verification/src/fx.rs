//! Saturating binary fixed-point scalars.
//!
//! An [`Fx`] holds a real number as `raw / SCALE` with `SCALE = 2^16`.
//! Every operation is total: results outside `[-RAW_MAX, RAW_MAX]` saturate
//! to the nearest bound, and division by zero yields the saturation bound
//! (or zero for `0 / 0`). Each executable operation is specified exactly at
//! the integer level by its `f*` spec companion.

use vstd::prelude::*;
use vstd::arithmetic::div_mod::{
    lemma_div_multiples_vanish, lemma_div_nonincreasing, lemma_div_of0, lemma_fundamental_div_mod,
    lemma_fundamental_div_mod_converse, lemma_mod_bound,
};
use vstd::arithmetic::mul::lemma_mul_inequality;
use vstd::arithmetic::power2::{lemma2_to64, lemma_pow2_strictly_increases, lemma_pow2_unfold, pow2};

verus! {

/// Number of raw units per 1.0.
pub const SCALE: i64 = 65536;

/// Largest representable raw value (2^47 - 1); the range is symmetric.
pub const RAW_MAX: i64 = 0x7fff_ffff_ffff;

/// Absolute value on mathematical integers.
pub open spec fn iabs(a: int) -> int {
    if a >= 0 {
        a
    } else {
        -a
    }
}

/// Saturation of a mathematical integer into the representable raw range.
pub open spec fn sat(a: int) -> int {
    if a > RAW_MAX {
        RAW_MAX as int
    } else if a < -(RAW_MAX as int) {
        -(RAW_MAX as int)
    } else {
        a
    }
}

/// Truncating (round-toward-zero) integer quotient, as hardware division
/// computes it; `b` must not be zero for the value to be meaningful.
pub open spec fn quo(a: int, b: int) -> int {
    if (a >= 0) == (b >= 0) {
        iabs(a) / iabs(b)
    } else {
        -(iabs(a) / iabs(b))
    }
}

/// A fixed-point number: the real value `raw / SCALE`.
#[derive(Clone, Copy, PartialEq, Eq, Structural, Debug)]
pub struct Fx {
    pub raw: i64,
}

impl Fx {
    /// Well-formed: the raw value lies in the symmetric representable range.
    pub open spec fn wf(self) -> bool {
        -RAW_MAX <= self.raw <= RAW_MAX
    }
}

/// Fixed-point zero.
pub open spec fn fzero() -> Fx {
    Fx { raw: 0 }
}

/// Fixed-point one.
pub open spec fn fone() -> Fx {
    Fx { raw: SCALE }
}

/// Exact meaning of fixed-point addition.
pub open spec fn fadd(a: Fx, b: Fx) -> Fx {
    Fx { raw: sat(a.raw + b.raw) as i64 }
}

/// Exact meaning of fixed-point subtraction.
pub open spec fn fsub(a: Fx, b: Fx) -> Fx {
    Fx { raw: sat(a.raw - b.raw) as i64 }
}

/// Exact meaning of fixed-point negation (always exact: the range is symmetric).
pub open spec fn fneg(a: Fx) -> Fx {
    Fx { raw: sat(-a.raw) as i64 }
}

/// Exact meaning of fixed-point multiplication: truncated rescale, then saturation.
pub open spec fn fmul(a: Fx, b: Fx) -> Fx {
    Fx { raw: sat(quo(a.raw * b.raw, SCALE as int)) as i64 }
}

/// Exact meaning of fixed-point division. Division by zero saturates to the
/// representable bound (`0 / 0` is zero), so the operation stays total.
pub open spec fn fdiv(a: Fx, b: Fx) -> Fx {
    if b.raw == 0 {
        if a.raw > 0 {
            Fx { raw: RAW_MAX }
        } else if a.raw < 0 {
            Fx { raw: (-RAW_MAX) as i64 }
        } else {
            Fx { raw: 0 }
        }
    } else {
        Fx { raw: sat(quo(a.raw * (SCALE as int), b.raw as int)) as i64 }
    }
}

/// Exact meaning of division by a positive integer constant (no rescale).
pub open spec fn fdivi(a: Fx, k: int) -> Fx {
    Fx { raw: quo(a.raw as int, k) as i64 }
}

/// Exact meaning of the absolute value.
pub open spec fn fabs(a: Fx) -> Fx {
    Fx { raw: iabs(a.raw as int) as i64 }
}

/// Exact meaning of doubling.
pub open spec fn fdbl(a: Fx) -> Fx {
    fadd(a, a)
}

/// Floor integer square root, defined by counting up.
pub open spec fn isqrt(n: int) -> int
    decreases n,
{
    if n <= 0 {
        0
    } else {
        let r = isqrt(n - 1);
        if (r + 1) * (r + 1) <= n {
            r + 1
        } else {
            r
        }
    }
}

/// `isqrt` is the floor square root.
pub proof fn lemma_isqrt_bounds(n: int)
    requires
        n >= 0,
    ensures
        0 <= isqrt(n),
        isqrt(n) * isqrt(n) <= n,
        n < (isqrt(n) + 1) * (isqrt(n) + 1),
    decreases n,
{
    if n == 0 {
    } else {
        lemma_isqrt_bounds(n - 1);
        let r = isqrt(n - 1);
        if (r + 1) * (r + 1) <= n {
            assert((r + 2) * (r + 2) > n) by (nonlinear_arith)
                requires
                    r >= 0,
                    n - 1 < (r + 1) * (r + 1),
                    (r + 1) * (r + 1) <= n,
            ;
        }
    }
}

/// The floor square root is the unique `r >= 0` with `r^2 <= n < (r+1)^2`.
pub proof fn lemma_isqrt_unique(n: int, r: int)
    requires
        n >= 0,
        r >= 0,
        r * r <= n,
        n < (r + 1) * (r + 1),
    ensures
        r == isqrt(n),
{
    lemma_isqrt_bounds(n);
    let s = isqrt(n);
    if r < s {
        assert((r + 1) * (r + 1) <= s * s) by (nonlinear_arith)
            requires
                0 <= r + 1 <= s,
        ;
    }
    if s < r {
        assert((s + 1) * (s + 1) <= r * r) by (nonlinear_arith)
            requires
                0 <= s + 1 <= r,
        ;
    }
}

/// Exact meaning of the fixed-point square root: floor square root of the
/// value, zero on non-positive input.
pub open spec fn fsqrt(a: Fx) -> Fx {
    if a.raw <= 0 {
        Fx { raw: 0 }
    } else {
        Fx { raw: isqrt(a.raw * (SCALE as int)) as i64 }
    }
}

/// Zero annihilates fixed-point multiplication.
pub proof fn lemma_fmul_zero(a: Fx)
    ensures
        fmul(fzero(), a) == fzero(),
        fmul(a, fzero()) == fzero(),
{
    lemma_div_of0(SCALE as int);
}

/// One is the multiplicative identity on well-formed values.
pub proof fn lemma_fmul_one(a: Fx)
    requires
        a.wf(),
    ensures
        fmul(fone(), a) == a,
        fmul(a, fone()) == a,
{
    let s = SCALE as int;
    let x = a.raw as int;
    assert(x * s == s * x);
    if a.raw >= 0 {
        lemma_div_multiples_vanish(x, s);
        assert(iabs(s * x) == s * x);
        assert(quo(s * x, s) == (s * x) / s);
    } else {
        lemma_div_multiples_vanish(-x, s);
        assert(iabs(s * x) == s * (-x));
        assert(quo(s * x, s) == -((s * (-x)) / s));
    }
}

/// One is the divisive identity on well-formed values.
pub proof fn lemma_fdiv_one(a: Fx)
    requires
        a.wf(),
    ensures
        fdiv(a, fone()) == a,
{
    let s = SCALE as int;
    let x = a.raw as int;
    assert(x * s == s * x);
    if a.raw >= 0 {
        lemma_div_multiples_vanish(x, s);
        assert(iabs(x * s) == s * x);
        assert(quo(x * s, s) == (s * x) / s);
    } else {
        lemma_div_multiples_vanish(-x, s);
        assert(iabs(x * s) == s * (-x));
        assert(quo(x * s, s) == -((s * (-x)) / s));
    }
}

/// The exponential kernel maps zero to one exactly.
pub proof fn lemma_fexp_zero()
    ensures
        fexp(fzero()) == fone(),
{
    lemma_div_of0(16);
    lemma_fmul_zero(fzero());
    lemma_div_of0(2);
    lemma_div_of0(6);
    lemma_div_of0(24);
    lemma_div_of0(120);
    lemma_div_of0(720);
    lemma_div_of0(5040);
    lemma_div_of0(40320);
    lemma_fmul_one(fone());
}

/// Truncating signed quotient computed through unsigned division.
fn tq(a: i128, b: i128) -> (q: i128)
    requires
        b != 0,
        iabs(a as int) <= (RAW_MAX as int) * (RAW_MAX as int) * (SCALE as int),
        iabs(b as int) <= (RAW_MAX as int) * (RAW_MAX as int),
    ensures
        q as int == quo(a as int, b as int),
        iabs(q as int) <= iabs(a as int),
{
    let am: u128 = if a >= 0 {
        a as u128
    } else {
        (-a) as u128
    };
    let bm: u128 = if b >= 0 {
        b as u128
    } else {
        (-b) as u128
    };
    proof {
        lemma_div_nonincreasing(am as int, bm as int);
    }
    let m: u128 = am / bm;
    if (a >= 0) == (b >= 0) {
        m as i128
    } else {
        -(m as i128)
    }
}

/// Saturation of an i128 into a well-formed fixed-point number.
fn clamp_raw(q: i128) -> (r: Fx)
    ensures
        r.raw as int == sat(q as int),
        r.wf(),
{
    if q > (RAW_MAX as i128) {
        Fx { raw: RAW_MAX }
    } else if q < -(RAW_MAX as i128) {
        Fx { raw: -RAW_MAX }
    } else {
        Fx { raw: q as i64 }
    }
}

impl Fx {
    /// Builds a fixed-point number from its raw representation.
    pub fn from_raw(raw: i64) -> (r: Fx)
        requires
            -RAW_MAX <= raw <= RAW_MAX,
        ensures
            r == (Fx { raw }),
            r.wf(),
    {
        Fx { raw }
    }

    /// Builds a fixed-point number holding the integer `v`.
    pub fn from_int(v: i32) -> (r: Fx)
        requires
            -2147483647 <= v,
        ensures
            r.raw == v * SCALE,
            r.wf(),
    {
        Fx { raw: (v as i64) * SCALE }
    }

    /// Saturating addition.
    pub fn plus(self, o: Fx) -> (r: Fx)
        requires
            self.wf(),
            o.wf(),
        ensures
            r == fadd(self, o),
            r.wf(),
    {
        let s: i64 = self.raw + o.raw;
        if s > RAW_MAX {
            Fx { raw: RAW_MAX }
        } else if s < -RAW_MAX {
            Fx { raw: -RAW_MAX }
        } else {
            Fx { raw: s }
        }
    }

    /// Saturating subtraction.
    pub fn minus(self, o: Fx) -> (r: Fx)
        requires
            self.wf(),
            o.wf(),
        ensures
            r == fsub(self, o),
            r.wf(),
    {
        let s: i64 = self.raw - o.raw;
        if s > RAW_MAX {
            Fx { raw: RAW_MAX }
        } else if s < -RAW_MAX {
            Fx { raw: -RAW_MAX }
        } else {
            Fx { raw: s }
        }
    }

    /// Exact negation.
    pub fn negate(self) -> (r: Fx)
        requires
            self.wf(),
        ensures
            r == fneg(self),
            r.wf(),
    {
        Fx { raw: -self.raw }
    }

    /// Saturating multiplication with truncated rescale.
    pub fn times(self, o: Fx) -> (r: Fx)
        requires
            self.wf(),
            o.wf(),
        ensures
            r == fmul(self, o),
            r.wf(),
    {
        proof {
            assert(iabs(self.raw as int * o.raw as int) <= (RAW_MAX as int) * (RAW_MAX as int))
                by (nonlinear_arith)
                requires
                    -RAW_MAX <= self.raw <= RAW_MAX,
                    -RAW_MAX <= o.raw <= RAW_MAX,
            ;
        }
        let p: i128 = (self.raw as i128) * (o.raw as i128);
        let q: i128 = tq(p, SCALE as i128);
        clamp_raw(q)
    }

    /// Saturating division; division by zero saturates (`0 / 0` is zero).
    pub fn div_by(self, o: Fx) -> (r: Fx)
        requires
            self.wf(),
            o.wf(),
        ensures
            r == fdiv(self, o),
            r.wf(),
    {
        if o.raw == 0 {
            if self.raw > 0 {
                Fx { raw: RAW_MAX }
            } else if self.raw < 0 {
                Fx { raw: -RAW_MAX }
            } else {
                Fx { raw: 0 }
            }
        } else {
            proof {
                assert(iabs(self.raw as int * SCALE as int) <= (RAW_MAX as int) * (SCALE as int))
                    by (nonlinear_arith)
                    requires
                        -RAW_MAX <= self.raw <= RAW_MAX,
                ;
            }
            let p: i128 = (self.raw as i128) * (SCALE as i128);
            let q: i128 = tq(p, o.raw as i128);
            clamp_raw(q)
        }
    }

    /// Exact truncating division by a positive integer constant.
    pub fn div_int(self, k: i64) -> (r: Fx)
        requires
            self.wf(),
            0 < k <= RAW_MAX,
        ensures
            r == fdivi(self, k as int),
            r.wf(),
    {
        let q: i128 = tq(self.raw as i128, k as i128);
        Fx { raw: q as i64 }
    }

    /// Exact absolute value.
    pub fn abs_val(self) -> (r: Fx)
        requires
            self.wf(),
        ensures
            r == fabs(self),
            r.wf(),
    {
        if self.raw >= 0 {
            self
        } else {
            Fx { raw: -self.raw }
        }
    }

    /// Saturating doubling.
    pub fn dbl(self) -> (r: Fx)
        requires
            self.wf(),
        ensures
            r == fdbl(self),
            r.wf(),
    {
        self.plus(self)
    }

    /// Floor square root; zero on non-positive input.
    pub fn sqrt_floor(self) -> (r: Fx)
        requires
            self.wf(),
        ensures
            r == fsqrt(self),
            r.wf(),
            r.raw >= 0,
    {
        if self.raw <= 0 {
            Fx { raw: 0 }
        } else {
            let n: u64 = (self.raw as u64) * (SCALE as u64);
            let mut lo: u64 = 0;
            let mut hi: u64 = 0x1_0000_0000;
            while lo + 1 < hi
                invariant
                    lo < hi <= 0x1_0000_0000u64,
                    (lo as int) * (lo as int) <= n as int,
                    (n as int) < (hi as int) * (hi as int),
                decreases hi - lo,
            {
                let mid: u64 = lo + (hi - lo) / 2;
                proof {
                    assert((mid as int) * (mid as int) <= 0x1_0000_0000int * 0x1_0000_0000int)
                        by (nonlinear_arith)
                        requires
                            0 <= mid <= 0x1_0000_0000u64,
                    ;
                }
                if (mid as u128) * (mid as u128) <= (n as u128) {
                    lo = mid;
                } else {
                    hi = mid;
                }
            }
            proof {
                lemma_isqrt_unique(n as int, lo as int);
            }
            Fx { raw: lo as i64 }
        }
    }
}

// ---------------------------------------------------------------------------
// Transcendental kernels: truncated power series over the fixed-point ring,
// pinned down exactly by spec companions built from the ring operations.
// ---------------------------------------------------------------------------

/// Raw value of pi.
pub const PI_RAW: i64 = 205887;

/// Raw value of two pi.
pub const TWO_PI_RAW: i64 = 411775;

/// Raw value of the natural logarithm of two.
pub const LN2_RAW: i64 = 45426;

/// Input clamp of the exponential kernel (raw value of 21).
pub const EXP_CLAMP: i64 = 1376256;

/// Reduction of an angle's raw value into `[-pi, pi)` (Euclidean remainder,
/// then a shift of one turn).
pub open spec fn wrap_pi(x: int) -> int {
    let m = x % (TWO_PI_RAW as int);
    if m >= PI_RAW {
        m - TWO_PI_RAW
    } else {
        m
    }
}

/// Exact meaning of the sine kernel: angle reduction, then the degree-9
/// alternating series in fixed-point arithmetic.
pub open spec fn fsin(a: Fx) -> Fx {
    let x = Fx { raw: wrap_pi(a.raw as int) as i64 };
    let x2 = fmul(x, x);
    let x3 = fmul(x2, x);
    let x5 = fmul(x3, x2);
    let x7 = fmul(x5, x2);
    let x9 = fmul(x7, x2);
    fadd(fsub(fadd(fsub(x, fdivi(x3, 6)), fdivi(x5, 120)), fdivi(x7, 5040)), fdivi(x9, 362880))
}

/// Exact meaning of the cosine kernel: angle reduction, then the degree-10
/// alternating series in fixed-point arithmetic.
pub open spec fn fcos(a: Fx) -> Fx {
    let x = Fx { raw: wrap_pi(a.raw as int) as i64 };
    let x2 = fmul(x, x);
    let x4 = fmul(x2, x2);
    let x6 = fmul(x4, x2);
    let x8 = fmul(x6, x2);
    let x10 = fmul(x8, x2);
    fsub(
        fadd(fsub(fadd(fsub(fone(), fdivi(x2, 2)), fdivi(x4, 24)), fdivi(x6, 720)), fdivi(x8, 40320)),
        fdivi(x10, 3628800),
    )
}

/// Exact meaning of the arccosine kernel on `[0, 1]`:
/// `sqrt(1 - u) * (a0 - u (a1 - u (a2 - u a3)))`.
pub open spec fn facos_core(u: Fx) -> Fx {
    let p = fsub(
        Fx { raw: 102940 },
        fmul(u, fsub(Fx { raw: 13901 }, fmul(u, fsub(Fx { raw: 4867 }, fmul(u, Fx { raw: 1228 }))))),
    );
    fmul(fsqrt(fsub(fone(), u)), p)
}

/// Exact meaning of the arccosine kernel: the argument is clamped into
/// `[-1, 1]` (the resolution of the domain-edge question: rounding noise is
/// absorbed, never amplified), negative arguments reflect about `pi / 2`.
pub open spec fn facos(a: Fx) -> Fx {
    let c = if a.raw > SCALE {
        fone()
    } else if a.raw < -(SCALE as int) {
        fneg(fone())
    } else {
        a
    };
    if c.raw >= 0 {
        facos_core(c)
    } else {
        fsub(Fx { raw: PI_RAW }, facos_core(fneg(c)))
    }
}

/// Exact meaning of the exponential kernel: clamp into `[-21, 21]`, a
/// degree-8 series at a sixteenth of the argument, then four squarings.
pub open spec fn fexp(a: Fx) -> Fx {
    let c = if a.raw > EXP_CLAMP {
        Fx { raw: EXP_CLAMP }
    } else if a.raw < -(EXP_CLAMP as int) {
        Fx { raw: (-EXP_CLAMP) as i64 }
    } else {
        a
    };
    let y = fdivi(c, 16);
    let y2 = fmul(y, y);
    let y3 = fmul(y2, y);
    let y4 = fmul(y3, y);
    let y5 = fmul(y4, y);
    let y6 = fmul(y5, y);
    let y7 = fmul(y6, y);
    let y8 = fmul(y7, y);
    let t = fadd(
        fadd(
            fadd(
                fadd(
                    fadd(fadd(fadd(fadd(fone(), y), fdivi(y2, 2)), fdivi(y3, 6)), fdivi(y4, 24)),
                    fdivi(y5, 120),
                ),
                fdivi(y6, 720),
            ),
            fdivi(y7, 5040),
        ),
        fdivi(y8, 40320),
    );
    let s1 = fmul(t, t);
    let s2 = fmul(s1, s1);
    let s3 = fmul(s2, s2);
    fmul(s3, s3)
}

/// `k` truncating halvings of `x`.
pub open spec fn rhalf(x: int, k: nat) -> int
    decreases k,
{
    if k == 0 {
        x
    } else {
        quo(rhalf(x, (k - 1) as nat), 2)
    }
}

/// The mantissa-series half of the logarithm kernel, for `v` in `[1, 2)`:
/// `2 atanh((v - 1) / (v + 1))` by a degree-7 odd series.
pub open spec fn flnpoly(v: Fx) -> Fx {
    let z = fdiv(fsub(v, fone()), fadd(v, fone()));
    let z2 = fmul(z, z);
    let z3 = fmul(z2, z);
    let z5 = fmul(z3, z2);
    let z7 = fmul(z5, z2);
    let s = fadd(fadd(fadd(z, fdivi(z3, 3)), fdivi(z5, 5)), fdivi(z7, 7));
    fadd(s, s)
}

/// Value of the logarithm kernel on positive `x` once `k` halvings have
/// brought it under 2: `k ln 2` plus the mantissa series.
pub open spec fn fln_pos(x: int, k: nat) -> Fx {
    fadd(Fx { raw: ((k as int) * (LN2_RAW as int)) as i64 }, flnpoly(Fx { raw: rhalf(x, k) as i64 }))
}

/// The halving count the logarithm kernel stops at: the first `k` whose
/// `k`-fold halving of `x` is below 2.
pub open spec fn ln_shape(x: int, k: nat) -> bool {
    k <= 64 && rhalf(x, k) < 2 * SCALE && (k == 0 || rhalf(x, (k - 1) as nat) >= 2 * SCALE)
}

/// Repeated halving of a non-negative value stays non-negative.
pub proof fn lemma_rhalf_nonneg(x: int, k: nat)
    requires
        x >= 0,
    ensures
        0 <= rhalf(x, k),
    decreases k,
{
    if k > 0 {
        lemma_rhalf_nonneg(x, (k - 1) as nat);
        vstd::arithmetic::div_mod::lemma_div_pos_is_pos(rhalf(x, (k - 1) as nat), 2);
    }
}

/// Repeated halving is non-increasing.
pub proof fn lemma_rhalf_mono(x: int, j: nat, k: nat)
    requires
        x >= 0,
        j <= k,
    ensures
        0 <= rhalf(x, k) <= rhalf(x, j),
    decreases k - j,
{
    lemma_rhalf_nonneg(x, k);
    if k == j {
    } else {
        lemma_rhalf_mono(x, j, (k - 1) as nat);
        let p = rhalf(x, (k - 1) as nat);
        lemma_div_nonincreasing(p, 2);
    }
}

/// At most one halving count fits the logarithm kernel's stopping shape.
pub proof fn lemma_ln_shape_unique(x: int, k1: nat, k2: nat)
    requires
        x >= 0,
        ln_shape(x, k1),
        ln_shape(x, k2),
    ensures
        k1 == k2,
{
    if k1 < k2 {
        lemma_rhalf_mono(x, k1, (k2 - 1) as nat);
    }
    if k2 < k1 {
        lemma_rhalf_mono(x, k2, (k1 - 1) as nat);
    }
}

/// Exact meaning of the logarithm kernel: saturated negative bound on
/// non-positive input, else `k ln 2` plus the mantissa series at the unique
/// stopping count `k`.
pub open spec fn fln(a: Fx) -> Fx {
    if a.raw <= 0 {
        Fx { raw: (-RAW_MAX) as i64 }
    } else {
        fln_pos(a.raw as int, choose|k: nat| ln_shape(a.raw as int, k))
    }
}

/// Angle reduction into `[-pi, pi)`.
fn wrap(x: i64) -> (r: i64)
    requires
        -RAW_MAX <= x <= RAW_MAX,
    ensures
        r as int == wrap_pi(x as int),
        -TWO_PI_RAW <= r <= TWO_PI_RAW,
{
    let t: i64 = TWO_PI_RAW;
    let m: i64 = if x >= 0 {
        proof {
            lemma_mod_bound(x as int, t as int);
        }
        ((x as u64) % (t as u64)) as i64
    } else {
        let u: i64 = (((-x) as u64) % (t as u64)) as i64;
        proof {
            lemma_mod_bound((-x) as int, t as int);
            lemma_fundamental_div_mod((-x) as int, t as int);
            let q = ((-x) as int) / (t as int);
            if u == 0 {
                lemma_fundamental_div_mod_converse(x as int, t as int, -q, 0);
            } else {
                lemma_fundamental_div_mod_converse(x as int, t as int, -q - 1, (t - u) as int);
            }
        }
        if u == 0 {
            0
        } else {
            t - u
        }
    };
    if m >= PI_RAW {
        m - t
    } else {
        m
    }
}

impl Fx {
    /// Sine of an angle in radians.
    pub fn sine(self) -> (r: Fx)
        requires
            self.wf(),
        ensures
            r == fsin(self),
            r.wf(),
    {
        let x = Fx { raw: wrap(self.raw) };
        let x2 = x.times(x);
        let x3 = x2.times(x);
        let x5 = x3.times(x2);
        let x7 = x5.times(x2);
        let x9 = x7.times(x2);
        x.minus(x3.div_int(6)).plus(x5.div_int(120)).minus(x7.div_int(5040)).plus(
            x9.div_int(362880),
        )
    }

    /// Cosine of an angle in radians.
    pub fn cosine(self) -> (r: Fx)
        requires
            self.wf(),
        ensures
            r == fcos(self),
            r.wf(),
    {
        let x = Fx { raw: wrap(self.raw) };
        let x2 = x.times(x);
        let x4 = x2.times(x2);
        let x6 = x4.times(x2);
        let x8 = x6.times(x2);
        let x10 = x8.times(x2);
        Fx { raw: SCALE }.minus(x2.div_int(2)).plus(x4.div_int(24)).minus(x6.div_int(720)).plus(
            x8.div_int(40320),
        ).minus(x10.div_int(3628800))
    }

    /// Arccosine core on `[0, 1]`.
    fn acos_core(u: Fx) -> (r: Fx)
        requires
            0 <= u.raw <= SCALE,
        ensures
            r == facos_core(u),
            r.wf(),
    {
        let p = Fx { raw: 102940 }.minus(
            u.times(Fx { raw: 13901 }.minus(u.times(Fx { raw: 4867 }.minus(u.times(Fx { raw: 1228 }))))),
        );
        Fx { raw: SCALE }.minus(u).sqrt_floor().times(p)
    }

    /// Arccosine; arguments outside `[-1, 1]` are clamped to the domain edge.
    pub fn arccos(self) -> (r: Fx)
        requires
            self.wf(),
        ensures
            r == facos(self),
            r.wf(),
    {
        let c: Fx = if self.raw > SCALE {
            Fx { raw: SCALE }
        } else if self.raw < -SCALE {
            Fx { raw: -SCALE }
        } else {
            self
        };
        if c.raw >= 0 {
            Fx::acos_core(c)
        } else {
            Fx { raw: PI_RAW }.minus(Fx::acos_core(c.negate()))
        }
    }

    /// Natural exponential; the argument is clamped into `[-21, 21]` (beyond
    /// it the result would saturate anyway).
    pub fn exponential(self) -> (r: Fx)
        requires
            self.wf(),
        ensures
            r == fexp(self),
            r.wf(),
    {
        let c: Fx = if self.raw > EXP_CLAMP {
            Fx { raw: EXP_CLAMP }
        } else if self.raw < -EXP_CLAMP {
            Fx { raw: -EXP_CLAMP }
        } else {
            self
        };
        let y = c.div_int(16);
        let y2 = y.times(y);
        let y3 = y2.times(y);
        let y4 = y3.times(y);
        let y5 = y4.times(y);
        let y6 = y5.times(y);
        let y7 = y6.times(y);
        let y8 = y7.times(y);
        let t = Fx { raw: SCALE }.plus(y).plus(y2.div_int(2)).plus(y3.div_int(6)).plus(
            y4.div_int(24),
        ).plus(y5.div_int(120)).plus(y6.div_int(720)).plus(y7.div_int(5040)).plus(y8.div_int(40320));
        let s1 = t.times(t);
        let s2 = s1.times(s1);
        let s3 = s2.times(s2);
        s3.times(s3)
    }

    /// Natural logarithm; non-positive arguments saturate to the negative
    /// bound (the substrate's stand-in for negative infinity).
    pub fn logarithm(self) -> (r: Fx)
        requires
            self.wf(),
        ensures
            self.raw <= 0 ==> r == (Fx { raw: (-RAW_MAX) as i64 }),
            self.raw > 0 ==> exists|k: nat|
                ln_shape(self.raw as int, k) && r == fln_pos(self.raw as int, k),
            r.wf(),
    {
        if self.raw <= 0 {
            return Fx { raw: -RAW_MAX };
        }
        let ghost x: int = self.raw as int;
        let mut v: i64 = self.raw;
        let mut k: u64 = 0;
        proof {
            assert(pow2(0) == 1) by {
                lemma2_to64();
            }
        }
        while v >= 2 * SCALE
            invariant
                1 <= v <= RAW_MAX,
                k <= 47,
                v as int == rhalf(x, k as nat),
                k > 0 ==> rhalf(x, (k - 1) as nat) >= 2 * SCALE,
                (v as int) * (pow2(k as nat) as int) <= RAW_MAX as int,
            decreases v,
        {
            proof {
                lemma2_to64();
                lemma_pow2_unfold((k + 1) as nat);
                if k >= 31 {
                    if k > 31 {
                        lemma_pow2_strictly_increases(31, k as nat);
                    }
                    assert((v as int) * (pow2(k as nat) as int) >= 140737488355328int)
                        by (nonlinear_arith)
                        requires
                            v >= 131072,
                            pow2(k as nat) >= 0x80000000,
                    ;
                }
                let vh = quo(v as int, 2);
                assert(2 * vh <= v as int) by {
                    lemma_fundamental_div_mod(v as int, 2);
                    lemma_mod_bound(v as int, 2);
                }
                assert((2 * vh) * (pow2(k as nat) as int) <= (v as int) * (pow2(k as nat) as int))
                    by {
                    lemma_mul_inequality(2 * vh, v as int, pow2(k as nat) as int);
                }
                assert(vh * (pow2((k + 1) as nat) as int) == (2 * vh) * (pow2(k as nat) as int))
                    by (nonlinear_arith)
                    requires
                        pow2((k + 1) as nat) == 2 * pow2(k as nat),
                ;
            }
            v = ((v as u64) / 2) as i64;
            k = k + 1;
        }
        let lnk: i64 = (k as i64) * LN2_RAW;
        let m = Fx { raw: v };
        let z = m.minus(Fx { raw: SCALE }).div_by(m.plus(Fx { raw: SCALE }));
        let z2 = z.times(z);
        let z3 = z2.times(z);
        let z5 = z3.times(z2);
        let z7 = z5.times(z2);
        let s = z.plus(z3.div_int(3)).plus(z5.div_int(5)).plus(z7.div_int(7));
        let r = Fx { raw: lnk }.plus(s.plus(s));
        proof {
            assert(ln_shape(x, k as nat) && r == fln_pos(x, k as nat));
        }
        r
    }
}

} // verus!
