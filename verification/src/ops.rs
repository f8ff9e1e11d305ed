//! The grade-filtered product operators over the entity types, each pinned
//! to an exact fixed-point formula through its `*_spec` trait member.

use vstd::prelude::*;
use crate::fx::{fabs, fadd, fdbl, fdiv, fmul, fneg, fone, fsqrt, fsub, Fx, SCALE};
use crate::types::{Branch, Dir, Flat, IdealLine, Line, Motor, Plane, Point, Rotor, Scalar, Translator};

verus! {

/// Well-formedness: every component in the representable range.
pub trait Wf: Sized {
    spec fn wf(self) -> bool;
}

impl Wf for Fx {
    open spec fn wf(self) -> bool {
        -crate::fx::RAW_MAX <= self.raw <= crate::fx::RAW_MAX
    }
}

/// All elements set to zero.
pub trait Zero: Wf {
    spec fn zero_spec() -> Self;

    fn zero() -> (r: Self)
        ensures
            r == Self::zero_spec(),
            r.wf(),
    ;
}

/// All elements set to zero, except for the scalar, which is set to one.
pub trait One: Wf {
    spec fn one_spec() -> Self;

    fn one() -> (r: Self)
        ensures
            r == Self::one_spec(),
            r.wf(),
    ;
}

/// Element order reversed.
pub trait Dual: Wf {
    type Output: Wf;

    spec fn dual_spec(self) -> Self::Output;

    fn dual(self) -> (r: Self::Output)
        requires
            self.wf(),
        ensures
            r == self.dual_spec(),
            r.wf(),
    ;
}

/// Negates elements with `grade % 2 == 1` (the main involution).
pub trait Automorphism: Sized {
    type Output;

    fn automorphism(self) -> Self::Output;
}

/// Negates elements with `grade % 4 >= 2` (the transpose).
pub trait Reversal: Wf {
    type Output: Wf;

    spec fn reversal_spec(self) -> Self::Output;

    fn reversal(self) -> (r: Self::Output)
        requires
            self.wf(),
        ensures
            r == self.reversal_spec(),
            r.wf(),
    ;
}

/// Negates elements with `(grade + 3) % 4 < 2`.
pub trait Conjugation: Sized {
    type Output;

    fn conjugation(self) -> Self::Output;
}

/// General multivector multiplication.
pub trait GeometricProduct<T: Wf>: Wf {
    type Output: Wf;

    spec fn geometric_product_spec(self, other: T) -> Self::Output;

    fn geometric_product(self, other: T) -> (r: Self::Output)
        requires
            self.wf(),
            other.wf(),
        ensures
            r == self.geometric_product_spec(other),
            r.wf(),
    ;
}

/// Dual of the geometric product grade filtered by `t == r + s` (the join).
pub trait RegressiveProduct<T: Wf>: Wf {
    type Output: Wf;

    spec fn regressive_product_spec(self, other: T) -> Self::Output;

    fn regressive_product(self, other: T) -> (r: Self::Output)
        requires
            self.wf(),
            other.wf(),
        ensures
            r == self.regressive_product_spec(other),
            r.wf(),
    ;
}

/// Geometric product grade filtered by `t == r + s` (the meet).
pub trait OuterProduct<T: Wf>: Wf {
    type Output: Wf;

    spec fn outer_product_spec(self, other: T) -> Self::Output;

    fn outer_product(self, other: T) -> (r: Self::Output)
        requires
            self.wf(),
            other.wf(),
        ensures
            r == self.outer_product_spec(other),
            r.wf(),
    ;
}

/// Geometric product grade filtered by `t == (r - s).abs()` (the fat dot).
pub trait InnerProduct<T>: Sized {
    type Output;

    fn inner_product(self, other: T) -> Self::Output;
}

/// Geometric product grade filtered by `t == s - r`.
pub trait LeftContraction<T: Wf>: Wf {
    type Output: Wf;

    spec fn left_contraction_spec(self, other: T) -> Self::Output;

    fn left_contraction(self, other: T) -> (r: Self::Output)
        requires
            self.wf(),
            other.wf(),
        ensures
            r == self.left_contraction_spec(other),
            r.wf(),
    ;
}

/// Geometric product grade filtered by `t == r - s`.
pub trait RightContraction<T: Wf>: Wf {
    type Output: Wf;

    spec fn right_contraction_spec(self, other: T) -> Self::Output;

    fn right_contraction(self, other: T) -> (r: Self::Output)
        requires
            self.wf(),
            other.wf(),
        ensures
            r == self.right_contraction_spec(other),
            r.wf(),
    ;
}

/// Geometric product grade filtered by `t == 0`.
pub trait ScalarProduct<T>: Sized {
    type Output;

    fn scalar_product(self, other: T) -> Self::Output;
}

/// The sandwich product `self * other * self.reversal()`.
pub trait Transformation<T: Wf>: Wf {
    type Output: Wf;

    spec fn transformation_spec(self, other: T) -> Self::Output;

    fn transformation(self, other: T) -> (r: Self::Output)
        requires
            self.wf(),
            other.wf(),
        ensures
            r == self.transformation_spec(other),
            r.wf(),
    ;
}

/// Square of the magnitude (the ideal part excluded).
pub trait SquaredMagnitude: Wf {
    spec fn squared_magnitude_spec(self) -> Scalar;

    fn squared_magnitude(self) -> (r: Scalar)
        requires
            self.wf(),
        ensures
            r == self.squared_magnitude_spec(),
            r.wf(),
    ;
}

/// Length as a scalar (the Euclidean norm, the ideal part excluded).
pub trait Magnitude: Wf {
    spec fn magnitude_spec(self) -> Scalar;

    fn magnitude(self) -> (r: Scalar)
        requires
            self.wf(),
        ensures
            r == self.magnitude_spec(),
            r.wf(),
    ;
}

/// Direction without magnitude (the sign).
pub trait Signum: Sized {
    type Output;

    fn signum(self) -> Self::Output;
}

/// Raises a number to the scalar power of minus one.
pub trait Inverse: Wf {
    type Output: Wf;

    spec fn inverse_spec(self) -> Self::Output;

    fn inverse(self) -> (r: Self::Output)
        requires
            self.wf(),
        ensures
            r == self.inverse_spec(),
            r.wf(),
    ;
}

/// The natural logarithm.
pub trait Ln: Wf {
    type Output: Wf;

    spec fn ln_spec(self) -> Self::Output;

    fn ln(self) -> (r: Self::Output)
        requires
            self.wf(),
        ensures
            r == self.ln_spec(),
            r.wf(),
    ;
}

/// The exponential function.
pub trait Exp: Wf {
    type Output: Wf;

    spec fn exp_spec(self) -> Self::Output;

    fn exp(self) -> (r: Self::Output)
        requires
            self.wf(),
        ensures
            r == self.exp_spec(),
            r.wf(),
    ;
}

/// Raises a number to an integer scalar power.
pub trait Powi: Sized {
    type Output;

    fn powi(self, exponent: isize) -> Self::Output;
}

/// Raises a number to a fixed-point scalar power.
pub trait Powf: Wf {
    type Output: Wf;

    spec fn powf_spec(self, exponent: Fx) -> Self::Output;

    fn powf(self, exponent: Fx) -> (r: Self::Output)
        requires
            self.wf(),
            exponent.wf(),
        ensures
            r == self.powf_spec(exponent),
            r.wf(),
    ;

    /// The square root: the power one half.
    fn sqrt(self) -> (r: Self::Output)
        requires
            self.wf(),
        ensures
            r == self.powf_spec(Fx { raw: 32768 }),
            r.wf(),
    {
        self.powf(Fx { raw: 32768 })
    }
}

/// Extracts the scalar part of a group element.
pub trait ScalarPart: Wf + Copy {
    spec fn scalar_part_spec(self) -> Fx;

    spec fn neg_spec(self) -> Self;

    /// Negation flips the sign of the scalar part and keeps well-formedness.
    proof fn lemma_neg_scalar_part(self)
        requires
            self.wf(),
        ensures
            self.neg_spec().scalar_part_spec().raw as int == -(self.scalar_part_spec().raw as int),
            self.neg_spec().wf(),
    ;

    fn scalar_part(self) -> (r: Fx)
        requires
            self.wf(),
        ensures
            r == self.scalar_part_spec(),
    ;

    fn negated(self) -> (r: Self)
        requires
            self.wf(),
        ensures
            r == self.neg_spec(),
            r.wf(),
    ;

    /// Constrains the motion to traverse the shortest arc: of the two
    /// double-cover representatives, picks the one with non-negative scalar.
    fn constrain(self) -> (r: Self)
        requires
            self.wf(),
        ensures
            r == (if self.scalar_part_spec().raw >= 0 { self } else { self.neg_spec() }),
            r.wf(),
    {
        if self.scalar_part().raw >= 0 {
            self
        } else {
            self.negated()
        }
    }
}

/// The shortest-arc representative: `g` itself when its scalar part is
/// non-negative, else `-g`.
pub open spec fn constrained<M: ScalarPart>(g: M) -> M {
    if g.scalar_part_spec().raw >= 0 {
        g
    } else {
        g.neg_spec()
    }
}

/// Dot product of two component triples.
pub open spec fn fdot3(ax: Fx, ay: Fx, az: Fx, bx: Fx, by: Fx, bz: Fx) -> Fx {
    fadd(fadd(fmul(ax, bx), fmul(ay, by)), fmul(az, bz))
}

/// One cross-product component from the two complementary pairs.
pub open spec fn fcrs(ay: Fx, az: Fx, by: Fx, bz: Fx) -> Fx {
    fsub(fmul(ay, bz), fmul(az, by))
}

/// Executable dot product of two component triples.
pub(crate) fn dot3(ax: Fx, ay: Fx, az: Fx, bx: Fx, by: Fx, bz: Fx) -> (r: Fx)
    requires
        ax.wf(),
        ay.wf(),
        az.wf(),
        bx.wf(),
        by.wf(),
        bz.wf(),
    ensures
        r == fdot3(ax, ay, az, bx, by, bz),
        r.wf(),
{
    ax.times(bx).plus(ay.times(by)).plus(az.times(bz))
}

/// Executable cross-product component.
pub(crate) fn crs(ay: Fx, az: Fx, by: Fx, bz: Fx) -> (r: Fx)
    requires
        ay.wf(),
        az.wf(),
        by.wf(),
        bz.wf(),
    ensures
        r == fcrs(ay, az, by, bz),
        r.wf(),
{
    ay.times(bz).minus(az.times(by))
}

impl Zero for Point {
    open spec fn zero_spec() -> Point {
        Point { x: Fx { raw: 0 }, y: Fx { raw: 0 }, z: Fx { raw: 0 }, w: Fx { raw: 0 } }
    }

    fn zero() -> (r: Point) {
        Point { x: Fx { raw: 0 }, y: Fx { raw: 0 }, z: Fx { raw: 0 }, w: Fx { raw: 0 } }
    }
}

impl Zero for Branch {
    open spec fn zero_spec() -> Branch {
        Branch { x: Fx { raw: 0 }, y: Fx { raw: 0 }, z: Fx { raw: 0 } }
    }

    fn zero() -> (r: Branch) {
        Branch { x: Fx { raw: 0 }, y: Fx { raw: 0 }, z: Fx { raw: 0 } }
    }
}

impl One for Rotor {
    open spec fn one_spec() -> Rotor {
        Rotor { s: fone(), bx: Fx { raw: 0 }, by: Fx { raw: 0 }, bz: Fx { raw: 0 } }
    }

    fn one() -> (r: Rotor) {
        Rotor { s: Fx { raw: SCALE }, bx: Fx { raw: 0 }, by: Fx { raw: 0 }, bz: Fx { raw: 0 } }
    }
}

impl One for Translator {
    open spec fn one_spec() -> Translator {
        Translator { s: fone(), ix: Fx { raw: 0 }, iy: Fx { raw: 0 }, iz: Fx { raw: 0 } }
    }

    fn one() -> (r: Translator) {
        Translator { s: Fx { raw: SCALE }, ix: Fx { raw: 0 }, iy: Fx { raw: 0 }, iz: Fx { raw: 0 } }
    }
}

impl One for Motor {
    open spec fn one_spec() -> Motor {
        Motor {
            s: fone(),
            bx: Fx { raw: 0 },
            by: Fx { raw: 0 },
            bz: Fx { raw: 0 },
            ps: Fx { raw: 0 },
            ix: Fx { raw: 0 },
            iy: Fx { raw: 0 },
            iz: Fx { raw: 0 },
        }
    }

    fn one() -> (r: Motor) {
        Motor {
            s: Fx { raw: SCALE },
            bx: Fx { raw: 0 },
            by: Fx { raw: 0 },
            bz: Fx { raw: 0 },
            ps: Fx { raw: 0 },
            ix: Fx { raw: 0 },
            iy: Fx { raw: 0 },
            iz: Fx { raw: 0 },
        }
    }
}

impl Dual for Dir {
    type Output = Flat;

    open spec fn dual_spec(self) -> Flat {
        Flat { x: self.x, y: self.y, z: self.z }
    }

    fn dual(self) -> (r: Flat) {
        Flat { x: self.x, y: self.y, z: self.z }
    }
}

impl Dual for Point {
    type Output = Plane;

    open spec fn dual_spec(self) -> Plane {
        Plane { x: self.x, y: self.y, z: self.z, d: self.w }
    }

    fn dual(self) -> (r: Plane) {
        Plane { x: self.x, y: self.y, z: self.z, d: self.w }
    }
}

impl Dual for Line {
    type Output = Line;

    open spec fn dual_spec(self) -> Line {
        Line { dx: self.mx, dy: self.my, dz: self.mz, mx: self.dx, my: self.dy, mz: self.dz }
    }

    fn dual(self) -> (r: Line) {
        Line { dx: self.mx, dy: self.my, dz: self.mz, mx: self.dx, my: self.dy, mz: self.dz }
    }
}

impl Reversal for Rotor {
    type Output = Rotor;

    open spec fn reversal_spec(self) -> Rotor {
        Rotor { s: self.s, bx: fneg(self.bx), by: fneg(self.by), bz: fneg(self.bz) }
    }

    fn reversal(self) -> (r: Rotor) {
        Rotor { s: self.s, bx: self.bx.negate(), by: self.by.negate(), bz: self.bz.negate() }
    }
}

impl Reversal for Translator {
    type Output = Translator;

    open spec fn reversal_spec(self) -> Translator {
        Translator { s: self.s, ix: fneg(self.ix), iy: fneg(self.iy), iz: fneg(self.iz) }
    }

    fn reversal(self) -> (r: Translator) {
        Translator { s: self.s, ix: self.ix.negate(), iy: self.iy.negate(), iz: self.iz.negate() }
    }
}

impl Reversal for Motor {
    type Output = Motor;

    open spec fn reversal_spec(self) -> Motor {
        Motor {
            s: self.s,
            bx: fneg(self.bx),
            by: fneg(self.by),
            bz: fneg(self.bz),
            ps: self.ps,
            ix: fneg(self.ix),
            iy: fneg(self.iy),
            iz: fneg(self.iz),
        }
    }

    fn reversal(self) -> (r: Motor) {
        Motor {
            s: self.s,
            bx: self.bx.negate(),
            by: self.by.negate(),
            bz: self.bz.negate(),
            ps: self.ps,
            ix: self.ix.negate(),
            iy: self.iy.negate(),
            iz: self.iz.negate(),
        }
    }
}

impl SquaredMagnitude for Scalar {
    open spec fn squared_magnitude_spec(self) -> Scalar {
        Scalar { v: fmul(self.v, self.v) }
    }

    fn squared_magnitude(self) -> (r: Scalar) {
        Scalar { v: self.v.times(self.v) }
    }
}

impl SquaredMagnitude for Point {
    open spec fn squared_magnitude_spec(self) -> Scalar {
        Scalar { v: fmul(self.w, self.w) }
    }

    fn squared_magnitude(self) -> (r: Scalar) {
        Scalar { v: self.w.times(self.w) }
    }
}

impl SquaredMagnitude for Plane {
    open spec fn squared_magnitude_spec(self) -> Scalar {
        Scalar { v: fdot3(self.x, self.y, self.z, self.x, self.y, self.z) }
    }

    fn squared_magnitude(self) -> (r: Scalar) {
        Scalar { v: dot3(self.x, self.y, self.z, self.x, self.y, self.z) }
    }
}

impl SquaredMagnitude for Flat {
    open spec fn squared_magnitude_spec(self) -> Scalar {
        Scalar { v: fdot3(self.x, self.y, self.z, self.x, self.y, self.z) }
    }

    fn squared_magnitude(self) -> (r: Scalar) {
        Scalar { v: dot3(self.x, self.y, self.z, self.x, self.y, self.z) }
    }
}

impl SquaredMagnitude for Branch {
    open spec fn squared_magnitude_spec(self) -> Scalar {
        Scalar { v: fdot3(self.x, self.y, self.z, self.x, self.y, self.z) }
    }

    fn squared_magnitude(self) -> (r: Scalar) {
        Scalar { v: dot3(self.x, self.y, self.z, self.x, self.y, self.z) }
    }
}

impl SquaredMagnitude for Line {
    open spec fn squared_magnitude_spec(self) -> Scalar {
        Scalar { v: fdot3(self.dx, self.dy, self.dz, self.dx, self.dy, self.dz) }
    }

    fn squared_magnitude(self) -> (r: Scalar) {
        Scalar { v: dot3(self.dx, self.dy, self.dz, self.dx, self.dy, self.dz) }
    }
}

impl SquaredMagnitude for Rotor {
    open spec fn squared_magnitude_spec(self) -> Scalar {
        Scalar { v: fadd(fmul(self.s, self.s), fdot3(self.bx, self.by, self.bz, self.bx, self.by, self.bz)) }
    }

    fn squared_magnitude(self) -> (r: Scalar) {
        Scalar { v: self.s.times(self.s).plus(dot3(self.bx, self.by, self.bz, self.bx, self.by, self.bz)) }
    }
}

impl SquaredMagnitude for Motor {
    open spec fn squared_magnitude_spec(self) -> Scalar {
        Scalar { v: fadd(fmul(self.s, self.s), fdot3(self.bx, self.by, self.bz, self.bx, self.by, self.bz)) }
    }

    fn squared_magnitude(self) -> (r: Scalar) {
        Scalar { v: self.s.times(self.s).plus(dot3(self.bx, self.by, self.bz, self.bx, self.by, self.bz)) }
    }
}

impl SquaredMagnitude for Translator {
    open spec fn squared_magnitude_spec(self) -> Scalar {
        Scalar { v: fmul(self.s, self.s) }
    }

    fn squared_magnitude(self) -> (r: Scalar) {
        Scalar { v: self.s.times(self.s) }
    }
}

impl Magnitude for Scalar {
    open spec fn magnitude_spec(self) -> Scalar {
        Scalar { v: fabs(self.v) }
    }

    fn magnitude(self) -> (r: Scalar) {
        Scalar { v: self.v.abs_val() }
    }
}

impl Magnitude for Point {
    open spec fn magnitude_spec(self) -> Scalar {
        Scalar { v: fabs(self.w) }
    }

    fn magnitude(self) -> (r: Scalar) {
        Scalar { v: self.w.abs_val() }
    }
}

impl Magnitude for Translator {
    open spec fn magnitude_spec(self) -> Scalar {
        Scalar { v: fabs(self.s) }
    }

    fn magnitude(self) -> (r: Scalar) {
        Scalar { v: self.s.abs_val() }
    }
}

impl Magnitude for Plane {
    open spec fn magnitude_spec(self) -> Scalar {
        Scalar { v: fsqrt(self.squared_magnitude_spec().v) }
    }

    fn magnitude(self) -> (r: Scalar) {
        Scalar { v: self.squared_magnitude().v.sqrt_floor() }
    }
}

impl Magnitude for Flat {
    open spec fn magnitude_spec(self) -> Scalar {
        Scalar { v: fsqrt(self.squared_magnitude_spec().v) }
    }

    fn magnitude(self) -> (r: Scalar) {
        Scalar { v: self.squared_magnitude().v.sqrt_floor() }
    }
}

impl Magnitude for Branch {
    open spec fn magnitude_spec(self) -> Scalar {
        Scalar { v: fsqrt(self.squared_magnitude_spec().v) }
    }

    fn magnitude(self) -> (r: Scalar) {
        Scalar { v: self.squared_magnitude().v.sqrt_floor() }
    }
}

impl Magnitude for Line {
    open spec fn magnitude_spec(self) -> Scalar {
        Scalar { v: fsqrt(self.squared_magnitude_spec().v) }
    }

    fn magnitude(self) -> (r: Scalar) {
        Scalar { v: self.squared_magnitude().v.sqrt_floor() }
    }
}

impl Magnitude for Rotor {
    open spec fn magnitude_spec(self) -> Scalar {
        Scalar { v: fsqrt(self.squared_magnitude_spec().v) }
    }

    fn magnitude(self) -> (r: Scalar) {
        Scalar { v: self.squared_magnitude().v.sqrt_floor() }
    }
}

impl Magnitude for Motor {
    open spec fn magnitude_spec(self) -> Scalar {
        Scalar { v: fsqrt(self.squared_magnitude_spec().v) }
    }

    fn magnitude(self) -> (r: Scalar) {
        Scalar { v: self.squared_magnitude().v.sqrt_floor() }
    }
}

impl Inverse for Scalar {
    type Output = Scalar;

    open spec fn inverse_spec(self) -> Scalar {
        Scalar { v: fdiv(fone(), self.v) }
    }

    fn inverse(self) -> (r: Scalar) {
        Scalar { v: Fx { raw: SCALE }.div_by(self.v) }
    }
}

impl Inverse for Plane {
    type Output = Plane;

    open spec fn inverse_spec(self) -> Plane {
        let q = fdot3(self.x, self.y, self.z, self.x, self.y, self.z);
        Plane { x: fdiv(self.x, q), y: fdiv(self.y, q), z: fdiv(self.z, q), d: fdiv(self.d, q) }
    }

    fn inverse(self) -> (r: Plane) {
        let q = dot3(self.x, self.y, self.z, self.x, self.y, self.z);
        Plane { x: self.x.div_by(q), y: self.y.div_by(q), z: self.z.div_by(q), d: self.d.div_by(q) }
    }
}

impl Inverse for Point {
    type Output = Point;

    open spec fn inverse_spec(self) -> Point {
        let q = fmul(self.w, self.w);
        Point {
            x: fdiv(fneg(self.x), q),
            y: fdiv(fneg(self.y), q),
            z: fdiv(fneg(self.z), q),
            w: fdiv(fneg(self.w), q),
        }
    }

    fn inverse(self) -> (r: Point) {
        let q = self.w.times(self.w);
        Point {
            x: self.x.negate().div_by(q),
            y: self.y.negate().div_by(q),
            z: self.z.negate().div_by(q),
            w: self.w.negate().div_by(q),
        }
    }
}

impl GeometricProduct<Scalar> for Scalar {
    type Output = Scalar;

    open spec fn geometric_product_spec(self, other: Scalar) -> Scalar {
        Scalar { v: fmul(self.v, other.v) }
    }

    fn geometric_product(self, other: Scalar) -> (r: Scalar) {
        Scalar { v: self.v.times(other.v) }
    }
}

impl GeometricProduct<Line> for Scalar {
    type Output = Line;

    open spec fn geometric_product_spec(self, other: Line) -> Line {
        Line {
            dx: fmul(self.v, other.dx),
            dy: fmul(self.v, other.dy),
            dz: fmul(self.v, other.dz),
            mx: fmul(self.v, other.mx),
            my: fmul(self.v, other.my),
            mz: fmul(self.v, other.mz),
        }
    }

    fn geometric_product(self, other: Line) -> (r: Line) {
        Line {
            dx: self.v.times(other.dx),
            dy: self.v.times(other.dy),
            dz: self.v.times(other.dz),
            mx: self.v.times(other.mx),
            my: self.v.times(other.my),
            mz: self.v.times(other.mz),
        }
    }
}

impl GeometricProduct<IdealLine> for Scalar {
    type Output = IdealLine;

    open spec fn geometric_product_spec(self, other: IdealLine) -> IdealLine {
        IdealLine { x: fmul(self.v, other.x), y: fmul(self.v, other.y), z: fmul(self.v, other.z) }
    }

    fn geometric_product(self, other: IdealLine) -> (r: IdealLine) {
        IdealLine { x: self.v.times(other.x), y: self.v.times(other.y), z: self.v.times(other.z) }
    }
}

impl GeometricProduct<Branch> for Scalar {
    type Output = Branch;

    open spec fn geometric_product_spec(self, other: Branch) -> Branch {
        Branch { x: fmul(self.v, other.x), y: fmul(self.v, other.y), z: fmul(self.v, other.z) }
    }

    fn geometric_product(self, other: Branch) -> (r: Branch) {
        Branch { x: self.v.times(other.x), y: self.v.times(other.y), z: self.v.times(other.z) }
    }
}

impl GeometricProduct<Scalar> for Point {
    type Output = Point;

    open spec fn geometric_product_spec(self, other: Scalar) -> Point {
        Point {
            x: fmul(self.x, other.v),
            y: fmul(self.y, other.v),
            z: fmul(self.z, other.v),
            w: fmul(self.w, other.v),
        }
    }

    fn geometric_product(self, other: Scalar) -> (r: Point) {
        Point {
            x: self.x.times(other.v),
            y: self.y.times(other.v),
            z: self.z.times(other.v),
            w: self.w.times(other.v),
        }
    }
}

impl GeometricProduct<Scalar> for Plane {
    type Output = Plane;

    open spec fn geometric_product_spec(self, other: Scalar) -> Plane {
        Plane {
            x: fmul(self.x, other.v),
            y: fmul(self.y, other.v),
            z: fmul(self.z, other.v),
            d: fmul(self.d, other.v),
        }
    }

    fn geometric_product(self, other: Scalar) -> (r: Plane) {
        Plane {
            x: self.x.times(other.v),
            y: self.y.times(other.v),
            z: self.z.times(other.v),
            d: self.d.times(other.v),
        }
    }
}

impl GeometricProduct<Rotor> for Rotor {
    type Output = Rotor;

    open spec fn geometric_product_spec(self, other: Rotor) -> Rotor {
        Rotor {
            s: fsub(
                fmul(self.s, other.s),
                fdot3(self.bx, self.by, self.bz, other.bx, other.by, other.bz),
            ),
            bx: fsub(
                fadd(fmul(self.s, other.bx), fmul(other.s, self.bx)),
                fcrs(self.by, self.bz, other.by, other.bz),
            ),
            by: fsub(
                fadd(fmul(self.s, other.by), fmul(other.s, self.by)),
                fcrs(self.bz, self.bx, other.bz, other.bx),
            ),
            bz: fsub(
                fadd(fmul(self.s, other.bz), fmul(other.s, self.bz)),
                fcrs(self.bx, self.by, other.bx, other.by),
            ),
        }
    }

    fn geometric_product(self, other: Rotor) -> (r: Rotor) {
        Rotor {
            s: self.s.times(other.s).minus(
                dot3(self.bx, self.by, self.bz, other.bx, other.by, other.bz),
            ),
            bx: self.s.times(other.bx).plus(other.s.times(self.bx)).minus(
                crs(self.by, self.bz, other.by, other.bz),
            ),
            by: self.s.times(other.by).plus(other.s.times(self.by)).minus(
                crs(self.bz, self.bx, other.bz, other.bx),
            ),
            bz: self.s.times(other.bz).plus(other.s.times(self.bz)).minus(
                crs(self.bx, self.by, other.bx, other.by),
            ),
        }
    }
}

impl GeometricProduct<Translator> for Translator {
    type Output = Translator;

    open spec fn geometric_product_spec(self, other: Translator) -> Translator {
        Translator {
            s: fmul(self.s, other.s),
            ix: fadd(fmul(self.s, other.ix), fmul(other.s, self.ix)),
            iy: fadd(fmul(self.s, other.iy), fmul(other.s, self.iy)),
            iz: fadd(fmul(self.s, other.iz), fmul(other.s, self.iz)),
        }
    }

    fn geometric_product(self, other: Translator) -> (r: Translator) {
        Translator {
            s: self.s.times(other.s),
            ix: self.s.times(other.ix).plus(other.s.times(self.ix)),
            iy: self.s.times(other.iy).plus(other.s.times(self.iy)),
            iz: self.s.times(other.iz).plus(other.s.times(self.iz)),
        }
    }
}

impl GeometricProduct<Motor> for Motor {
    type Output = Motor;

    open spec fn geometric_product_spec(self, other: Motor) -> Motor {
        Motor {
            s: fsub(
                fmul(self.s, other.s),
                fdot3(self.bx, self.by, self.bz, other.bx, other.by, other.bz),
            ),
            bx: fsub(
                fadd(fmul(self.s, other.bx), fmul(other.s, self.bx)),
                fcrs(self.by, self.bz, other.by, other.bz),
            ),
            by: fsub(
                fadd(fmul(self.s, other.by), fmul(other.s, self.by)),
                fcrs(self.bz, self.bx, other.bz, other.bx),
            ),
            bz: fsub(
                fadd(fmul(self.s, other.bz), fmul(other.s, self.bz)),
                fcrs(self.bx, self.by, other.bx, other.by),
            ),
            ps: fadd(
                fadd(fmul(self.s, other.ps), fmul(other.s, self.ps)),
                fadd(
                    fdot3(self.bx, self.by, self.bz, other.ix, other.iy, other.iz),
                    fdot3(self.ix, self.iy, self.iz, other.bx, other.by, other.bz),
                ),
            ),
            ix: fsub(
                fsub(
                    fsub(
                        fadd(fmul(self.s, other.ix), fmul(other.s, self.ix)),
                        fcrs(self.by, self.bz, other.iy, other.iz),
                    ),
                    fcrs(self.iy, self.iz, other.by, other.bz),
                ),
                fadd(fmul(other.ps, self.bx), fmul(self.ps, other.bx)),
            ),
            iy: fsub(
                fsub(
                    fsub(
                        fadd(fmul(self.s, other.iy), fmul(other.s, self.iy)),
                        fcrs(self.bz, self.bx, other.iz, other.ix),
                    ),
                    fcrs(self.iz, self.ix, other.bz, other.bx),
                ),
                fadd(fmul(other.ps, self.by), fmul(self.ps, other.by)),
            ),
            iz: fsub(
                fsub(
                    fsub(
                        fadd(fmul(self.s, other.iz), fmul(other.s, self.iz)),
                        fcrs(self.bx, self.by, other.ix, other.iy),
                    ),
                    fcrs(self.ix, self.iy, other.bx, other.by),
                ),
                fadd(fmul(other.ps, self.bz), fmul(self.ps, other.bz)),
            ),
        }
    }

    fn geometric_product(self, other: Motor) -> (r: Motor) {
        Motor {
            s: self.s.times(other.s).minus(
                dot3(self.bx, self.by, self.bz, other.bx, other.by, other.bz),
            ),
            bx: self.s.times(other.bx).plus(other.s.times(self.bx)).minus(
                crs(self.by, self.bz, other.by, other.bz),
            ),
            by: self.s.times(other.by).plus(other.s.times(self.by)).minus(
                crs(self.bz, self.bx, other.bz, other.bx),
            ),
            bz: self.s.times(other.bz).plus(other.s.times(self.bz)).minus(
                crs(self.bx, self.by, other.bx, other.by),
            ),
            ps: self.s.times(other.ps).plus(other.s.times(self.ps)).plus(
                dot3(self.bx, self.by, self.bz, other.ix, other.iy, other.iz).plus(
                    dot3(self.ix, self.iy, self.iz, other.bx, other.by, other.bz),
                ),
            ),
            ix: self.s.times(other.ix).plus(other.s.times(self.ix)).minus(
                crs(self.by, self.bz, other.iy, other.iz),
            ).minus(crs(self.iy, self.iz, other.by, other.bz)).minus(
                other.ps.times(self.bx).plus(self.ps.times(other.bx)),
            ),
            iy: self.s.times(other.iy).plus(other.s.times(self.iy)).minus(
                crs(self.bz, self.bx, other.iz, other.ix),
            ).minus(crs(self.iz, self.ix, other.bz, other.bx)).minus(
                other.ps.times(self.by).plus(self.ps.times(other.by)),
            ),
            iz: self.s.times(other.iz).plus(other.s.times(self.iz)).minus(
                crs(self.bx, self.by, other.ix, other.iy),
            ).minus(crs(self.ix, self.iy, other.bx, other.by)).minus(
                other.ps.times(self.bz).plus(self.ps.times(other.bz)),
            ),
        }
    }
}

impl GeometricProduct<Point> for Point {
    type Output = Motor;

    open spec fn geometric_product_spec(self, other: Point) -> Motor {
        Motor {
            s: fneg(fmul(self.w, other.w)),
            bx: Fx { raw: 0 },
            by: Fx { raw: 0 },
            bz: Fx { raw: 0 },
            ps: Fx { raw: 0 },
            ix: fsub(fmul(self.x, other.w), fmul(other.x, self.w)),
            iy: fsub(fmul(self.y, other.w), fmul(other.y, self.w)),
            iz: fsub(fmul(self.z, other.w), fmul(other.z, self.w)),
        }
    }

    fn geometric_product(self, other: Point) -> (r: Motor) {
        Motor {
            s: self.w.times(other.w).negate(),
            bx: Fx { raw: 0 },
            by: Fx { raw: 0 },
            bz: Fx { raw: 0 },
            ps: Fx { raw: 0 },
            ix: self.x.times(other.w).minus(other.x.times(self.w)),
            iy: self.y.times(other.w).minus(other.y.times(self.w)),
            iz: self.z.times(other.w).minus(other.z.times(self.w)),
        }
    }
}

impl GeometricProduct<Plane> for Plane {
    type Output = Motor;

    open spec fn geometric_product_spec(self, other: Plane) -> Motor {
        Motor {
            s: fdot3(self.x, self.y, self.z, other.x, other.y, other.z),
            bx: fcrs(self.y, self.z, other.y, other.z),
            by: fcrs(self.z, self.x, other.z, other.x),
            bz: fcrs(self.x, self.y, other.x, other.y),
            ps: Fx { raw: 0 },
            ix: fsub(fmul(self.d, other.x), fmul(other.d, self.x)),
            iy: fsub(fmul(self.d, other.y), fmul(other.d, self.y)),
            iz: fsub(fmul(self.d, other.z), fmul(other.d, self.z)),
        }
    }

    fn geometric_product(self, other: Plane) -> (r: Motor) {
        Motor {
            s: dot3(self.x, self.y, self.z, other.x, other.y, other.z),
            bx: crs(self.y, self.z, other.y, other.z),
            by: crs(self.z, self.x, other.z, other.x),
            bz: crs(self.x, self.y, other.x, other.y),
            ps: Fx { raw: 0 },
            ix: self.d.times(other.x).minus(other.d.times(self.x)),
            iy: self.d.times(other.y).minus(other.d.times(self.y)),
            iz: self.d.times(other.z).minus(other.d.times(self.z)),
        }
    }
}

impl RegressiveProduct<Point> for Point {
    type Output = Line;

    open spec fn regressive_product_spec(self, other: Point) -> Line {
        Line {
            dx: fsub(fmul(self.w, other.x), fmul(other.w, self.x)),
            dy: fsub(fmul(self.w, other.y), fmul(other.w, self.y)),
            dz: fsub(fmul(self.w, other.z), fmul(other.w, self.z)),
            mx: fcrs(self.y, self.z, other.y, other.z),
            my: fcrs(self.z, self.x, other.z, other.x),
            mz: fcrs(self.x, self.y, other.x, other.y),
        }
    }

    fn regressive_product(self, other: Point) -> (r: Line) {
        Line {
            dx: self.w.times(other.x).minus(other.w.times(self.x)),
            dy: self.w.times(other.y).minus(other.w.times(self.y)),
            dz: self.w.times(other.z).minus(other.w.times(self.z)),
            mx: crs(self.y, self.z, other.y, other.z),
            my: crs(self.z, self.x, other.z, other.x),
            mz: crs(self.x, self.y, other.x, other.y),
        }
    }
}

impl RegressiveProduct<Plane> for Point {
    type Output = Scalar;

    open spec fn regressive_product_spec(self, other: Plane) -> Scalar {
        Scalar {
            v: fadd(
                fdot3(self.x, self.y, self.z, other.x, other.y, other.z),
                fmul(self.w, other.d),
            ),
        }
    }

    fn regressive_product(self, other: Plane) -> (r: Scalar) {
        Scalar {
            v: dot3(self.x, self.y, self.z, other.x, other.y, other.z).plus(
                self.w.times(other.d),
            ),
        }
    }
}

impl RightContraction<Plane> for Point {
    type Output = Line;

    open spec fn right_contraction_spec(self, other: Plane) -> Line {
        Line {
            dx: fmul(self.w, other.x),
            dy: fmul(self.w, other.y),
            dz: fmul(self.w, other.z),
            mx: fcrs(self.y, self.z, other.y, other.z),
            my: fcrs(self.z, self.x, other.z, other.x),
            mz: fcrs(self.x, self.y, other.x, other.y),
        }
    }

    fn right_contraction(self, other: Plane) -> (r: Line) {
        Line {
            dx: self.w.times(other.x),
            dy: self.w.times(other.y),
            dz: self.w.times(other.z),
            mx: crs(self.y, self.z, other.y, other.z),
            my: crs(self.z, self.x, other.z, other.x),
            mz: crs(self.x, self.y, other.x, other.y),
        }
    }
}

impl OuterProduct<Plane> for Line {
    type Output = Point;

    open spec fn outer_product_spec(self, other: Plane) -> Point {
        Point {
            x: fsub(fsub(fmul(self.mz, other.y), fmul(self.my, other.z)), fmul(self.dx, other.d)),
            y: fsub(fsub(fmul(self.mx, other.z), fmul(self.mz, other.x)), fmul(self.dy, other.d)),
            z: fsub(fsub(fmul(self.my, other.x), fmul(self.mx, other.y)), fmul(self.dz, other.d)),
            w: fdot3(self.dx, self.dy, self.dz, other.x, other.y, other.z),
        }
    }

    fn outer_product(self, other: Plane) -> (r: Point) {
        Point {
            x: self.mz.times(other.y).minus(self.my.times(other.z)).minus(self.dx.times(other.d)),
            y: self.mx.times(other.z).minus(self.mz.times(other.x)).minus(self.dy.times(other.d)),
            z: self.my.times(other.x).minus(self.mx.times(other.y)).minus(self.dz.times(other.d)),
            w: dot3(self.dx, self.dy, self.dz, other.x, other.y, other.z),
        }
    }
}

impl LeftContraction<Point> for Plane {
    type Output = Line;

    open spec fn left_contraction_spec(self, other: Point) -> Line {
        Line {
            dx: fmul(other.w, self.x),
            dy: fmul(other.w, self.y),
            dz: fmul(other.w, self.z),
            mx: fneg(fcrs(self.y, self.z, other.y, other.z)),
            my: fneg(fcrs(self.z, self.x, other.z, other.x)),
            mz: fneg(fcrs(self.x, self.y, other.x, other.y)),
        }
    }

    fn left_contraction(self, other: Point) -> (r: Line) {
        Line {
            dx: other.w.times(self.x),
            dy: other.w.times(self.y),
            dz: other.w.times(self.z),
            mx: crs(self.y, self.z, other.y, other.z).negate(),
            my: crs(self.z, self.x, other.z, other.x).negate(),
            mz: crs(self.x, self.y, other.x, other.y).negate(),
        }
    }
}

impl LeftContraction<Point> for Line {
    type Output = Plane;

    open spec fn left_contraction_spec(self, other: Point) -> Plane {
        Plane {
            x: fneg(fmul(other.w, self.dx)),
            y: fneg(fmul(other.w, self.dy)),
            z: fneg(fmul(other.w, self.dz)),
            d: fdot3(self.dx, self.dy, self.dz, other.x, other.y, other.z),
        }
    }

    fn left_contraction(self, other: Point) -> (r: Plane) {
        Plane {
            x: other.w.times(self.dx).negate(),
            y: other.w.times(self.dy).negate(),
            z: other.w.times(self.dz).negate(),
            d: dot3(self.dx, self.dy, self.dz, other.x, other.y, other.z),
        }
    }
}

impl Transformation<Point> for Rotor {
    type Output = Point;

    open spec fn transformation_spec(self, other: Point) -> Point {
        let q = fsub(fmul(self.s, self.s), fdot3(self.bx, self.by, self.bz, self.bx, self.by, self.bz));
        let h = fadd(fmul(self.s, self.s), fdot3(self.bx, self.by, self.bz, self.bx, self.by, self.bz));
        let d = fdot3(self.bx, self.by, self.bz, other.x, other.y, other.z);
        Point {
            x: fsub(
                fadd(fmul(q, other.x), fdbl(fmul(d, self.bx))),
                fdbl(fmul(self.s, fcrs(self.by, self.bz, other.y, other.z))),
            ),
            y: fsub(
                fadd(fmul(q, other.y), fdbl(fmul(d, self.by))),
                fdbl(fmul(self.s, fcrs(self.bz, self.bx, other.z, other.x))),
            ),
            z: fsub(
                fadd(fmul(q, other.z), fdbl(fmul(d, self.bz))),
                fdbl(fmul(self.s, fcrs(self.bx, self.by, other.x, other.y))),
            ),
            w: fmul(h, other.w),
        }
    }

    fn transformation(self, other: Point) -> (r: Point) {
        let q = self.s.times(self.s).minus(
            dot3(self.bx, self.by, self.bz, self.bx, self.by, self.bz),
        );
        let h = self.s.times(self.s).plus(
            dot3(self.bx, self.by, self.bz, self.bx, self.by, self.bz),
        );
        let d = dot3(self.bx, self.by, self.bz, other.x, other.y, other.z);
        Point {
            x: q.times(other.x).plus(d.times(self.bx).dbl()).minus(
                self.s.times(crs(self.by, self.bz, other.y, other.z)).dbl(),
            ),
            y: q.times(other.y).plus(d.times(self.by).dbl()).minus(
                self.s.times(crs(self.bz, self.bx, other.z, other.x)).dbl(),
            ),
            z: q.times(other.z).plus(d.times(self.bz).dbl()).minus(
                self.s.times(crs(self.bx, self.by, other.x, other.y)).dbl(),
            ),
            w: h.times(other.w),
        }
    }
}

impl Transformation<Point> for Translator {
    type Output = Point;

    open spec fn transformation_spec(self, other: Point) -> Point {
        let q = fmul(self.s, self.s);
        let sw = fmul(self.s, other.w);
        Point {
            x: fsub(fmul(q, other.x), fdbl(fmul(sw, self.ix))),
            y: fsub(fmul(q, other.y), fdbl(fmul(sw, self.iy))),
            z: fsub(fmul(q, other.z), fdbl(fmul(sw, self.iz))),
            w: fmul(q, other.w),
        }
    }

    fn transformation(self, other: Point) -> (r: Point) {
        let q = self.s.times(self.s);
        let sw = self.s.times(other.w);
        Point {
            x: q.times(other.x).minus(sw.times(self.ix).dbl()),
            y: q.times(other.y).minus(sw.times(self.iy).dbl()),
            z: q.times(other.z).minus(sw.times(self.iz).dbl()),
            w: q.times(other.w),
        }
    }
}

impl Transformation<Point> for Motor {
    type Output = Point;

    open spec fn transformation_spec(self, other: Point) -> Point {
        let q = fsub(fmul(self.s, self.s), fdot3(self.bx, self.by, self.bz, self.bx, self.by, self.bz));
        let h = fadd(fmul(self.s, self.s), fdot3(self.bx, self.by, self.bz, self.bx, self.by, self.bz));
        let d = fdot3(self.bx, self.by, self.bz, other.x, other.y, other.z);
        Point {
            x: fadd(
                fsub(
                    fadd(fmul(q, other.x), fdbl(fmul(d, self.bx))),
                    fdbl(fmul(self.s, fcrs(self.by, self.bz, other.y, other.z))),
                ),
                fmul(
                    other.w,
                    fsub(
                        fdbl(fcrs(self.by, self.bz, self.iy, self.iz)),
                        fadd(fdbl(fmul(self.s, self.ix)), fdbl(fmul(self.ps, self.bx))),
                    ),
                ),
            ),
            y: fadd(
                fsub(
                    fadd(fmul(q, other.y), fdbl(fmul(d, self.by))),
                    fdbl(fmul(self.s, fcrs(self.bz, self.bx, other.z, other.x))),
                ),
                fmul(
                    other.w,
                    fsub(
                        fdbl(fcrs(self.bz, self.bx, self.iz, self.ix)),
                        fadd(fdbl(fmul(self.s, self.iy)), fdbl(fmul(self.ps, self.by))),
                    ),
                ),
            ),
            z: fadd(
                fsub(
                    fadd(fmul(q, other.z), fdbl(fmul(d, self.bz))),
                    fdbl(fmul(self.s, fcrs(self.bx, self.by, other.x, other.y))),
                ),
                fmul(
                    other.w,
                    fsub(
                        fdbl(fcrs(self.bx, self.by, self.ix, self.iy)),
                        fadd(fdbl(fmul(self.s, self.iz)), fdbl(fmul(self.ps, self.bz))),
                    ),
                ),
            ),
            w: fmul(h, other.w),
        }
    }

    fn transformation(self, other: Point) -> (r: Point) {
        let q = self.s.times(self.s).minus(
            dot3(self.bx, self.by, self.bz, self.bx, self.by, self.bz),
        );
        let h = self.s.times(self.s).plus(
            dot3(self.bx, self.by, self.bz, self.bx, self.by, self.bz),
        );
        let d = dot3(self.bx, self.by, self.bz, other.x, other.y, other.z);
        Point {
            x: q.times(other.x).plus(d.times(self.bx).dbl()).minus(
                self.s.times(crs(self.by, self.bz, other.y, other.z)).dbl(),
            ).plus(
                other.w.times(
                    crs(self.by, self.bz, self.iy, self.iz).dbl().minus(
                        self.s.times(self.ix).dbl().plus(self.ps.times(self.bx).dbl()),
                    ),
                ),
            ),
            y: q.times(other.y).plus(d.times(self.by).dbl()).minus(
                self.s.times(crs(self.bz, self.bx, other.z, other.x)).dbl(),
            ).plus(
                other.w.times(
                    crs(self.bz, self.bx, self.iz, self.ix).dbl().minus(
                        self.s.times(self.iy).dbl().plus(self.ps.times(self.by).dbl()),
                    ),
                ),
            ),
            z: q.times(other.z).plus(d.times(self.bz).dbl()).minus(
                self.s.times(crs(self.bx, self.by, other.x, other.y)).dbl(),
            ).plus(
                other.w.times(
                    crs(self.bx, self.by, self.ix, self.iy).dbl().minus(
                        self.s.times(self.iz).dbl().plus(self.ps.times(self.bz).dbl()),
                    ),
                ),
            ),
            w: h.times(other.w),
        }
    }
}

impl Transformation<Plane> for Motor {
    type Output = Plane;

    open spec fn transformation_spec(self, other: Plane) -> Plane {
        let q = fsub(fmul(self.s, self.s), fdot3(self.bx, self.by, self.bz, self.bx, self.by, self.bz));
        let h = fadd(fmul(self.s, self.s), fdot3(self.bx, self.by, self.bz, self.bx, self.by, self.bz));
        let d = fdot3(self.bx, self.by, self.bz, other.x, other.y, other.z);
        Plane {
            x: fsub(
                fadd(fmul(q, other.x), fdbl(fmul(d, self.bx))),
                fdbl(fmul(self.s, fcrs(self.by, self.bz, other.y, other.z))),
            ),
            y: fsub(
                fadd(fmul(q, other.y), fdbl(fmul(d, self.by))),
                fdbl(fmul(self.s, fcrs(self.bz, self.bx, other.z, other.x))),
            ),
            z: fsub(
                fadd(fmul(q, other.z), fdbl(fmul(d, self.bz))),
                fdbl(fmul(self.s, fcrs(self.bx, self.by, other.x, other.y))),
            ),
            d: fadd(
                fadd(
                    fmul(h, other.d),
                    fdbl(fmul(self.s, fdot3(other.x, other.y, other.z, self.ix, self.iy, self.iz))),
                ),
                fdbl(fmul(self.ps, fdot3(other.x, other.y, other.z, self.bx, self.by, self.bz))),
            ),
        }
    }

    fn transformation(self, other: Plane) -> (r: Plane) {
        let q = self.s.times(self.s).minus(
            dot3(self.bx, self.by, self.bz, self.bx, self.by, self.bz),
        );
        let h = self.s.times(self.s).plus(
            dot3(self.bx, self.by, self.bz, self.bx, self.by, self.bz),
        );
        let d = dot3(self.bx, self.by, self.bz, other.x, other.y, other.z);
        Plane {
            x: q.times(other.x).plus(d.times(self.bx).dbl()).minus(
                self.s.times(crs(self.by, self.bz, other.y, other.z)).dbl(),
            ),
            y: q.times(other.y).plus(d.times(self.by).dbl()).minus(
                self.s.times(crs(self.bz, self.bx, other.z, other.x)).dbl(),
            ),
            z: q.times(other.z).plus(d.times(self.bz).dbl()).minus(
                self.s.times(crs(self.bx, self.by, other.x, other.y)).dbl(),
            ),
            d: h.times(other.d).plus(
                self.s.times(dot3(other.x, other.y, other.z, self.ix, self.iy, self.iz)).dbl(),
            ).plus(
                self.ps.times(dot3(other.x, other.y, other.z, self.bx, self.by, self.bz)).dbl(),
            ),
        }
    }
}

impl ScalarPart for Rotor {
    open spec fn scalar_part_spec(self) -> Fx {
        self.s
    }

    open spec fn neg_spec(self) -> Rotor {
        Rotor { s: fneg(self.s), bx: fneg(self.bx), by: fneg(self.by), bz: fneg(self.bz) }
    }

    proof fn lemma_neg_scalar_part(self) {
    }

    fn scalar_part(self) -> (r: Fx) {
        self.s
    }

    fn negated(self) -> (r: Rotor) {
        Rotor { s: self.s.negate(), bx: self.bx.negate(), by: self.by.negate(), bz: self.bz.negate() }
    }
}

impl ScalarPart for Translator {
    open spec fn scalar_part_spec(self) -> Fx {
        self.s
    }

    open spec fn neg_spec(self) -> Translator {
        Translator { s: fneg(self.s), ix: fneg(self.ix), iy: fneg(self.iy), iz: fneg(self.iz) }
    }

    proof fn lemma_neg_scalar_part(self) {
    }

    fn scalar_part(self) -> (r: Fx) {
        self.s
    }

    fn negated(self) -> (r: Translator) {
        Translator { s: self.s.negate(), ix: self.ix.negate(), iy: self.iy.negate(), iz: self.iz.negate() }
    }
}

impl ScalarPart for Motor {
    open spec fn scalar_part_spec(self) -> Fx {
        self.s
    }

    open spec fn neg_spec(self) -> Motor {
        Motor {
            s: fneg(self.s),
            bx: fneg(self.bx),
            by: fneg(self.by),
            bz: fneg(self.bz),
            ps: fneg(self.ps),
            ix: fneg(self.ix),
            iy: fneg(self.iy),
            iz: fneg(self.iz),
        }
    }

    proof fn lemma_neg_scalar_part(self) {
    }

    fn scalar_part(self) -> (r: Fx) {
        self.s
    }

    fn negated(self) -> (r: Motor) {
        Motor {
            s: self.s.negate(),
            bx: self.bx.negate(),
            by: self.by.negate(),
            bz: self.bz.negate(),
            ps: self.ps.negate(),
            ix: self.ix.negate(),
            iy: self.iy.negate(),
            iz: self.iz.negate(),
        }
    }
}

} // verus!
