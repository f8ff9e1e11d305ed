//! The graded multivector value types: points, planes, lines, and the
//! rigid-motion group elements (rotors, translators, motors), all immutable
//! copyable values over fixed-point scalars.

use vstd::prelude::*;
use crate::fx::{fcos, fdivi, fmul, fneg, fone, fsin, Fx, SCALE};
use crate::ops::{Dual, Magnitude, Transformation, Wf};

verus! {

/// A grade-0 element.
#[derive(Clone, Copy, PartialEq, Eq, Structural, Debug)]
pub struct Scalar {
    pub v: Fx,
}

/// A homogeneous weighted point `(x, y, z, w)`; `w = 0` means a direction.
#[derive(Clone, Copy, PartialEq, Eq, Structural, Debug)]
pub struct Point {
    pub x: Fx,
    pub y: Fx,
    pub z: Fx,
    pub w: Fx,
}

/// The coordinate origin with a weight (canonically one).
#[derive(Clone, Copy, PartialEq, Eq, Structural, Debug)]
pub struct Origin {
    pub w: Fx,
}

/// A direction (an ideal point).
#[derive(Clone, Copy, PartialEq, Eq, Structural, Debug)]
pub struct Dir {
    pub x: Fx,
    pub y: Fx,
    pub z: Fx,
}

/// An oriented plane with normal `(x, y, z)`; `d` is the negated signed offset.
#[derive(Clone, Copy, PartialEq, Eq, Structural, Debug)]
pub struct Plane {
    pub x: Fx,
    pub y: Fx,
    pub z: Fx,
    pub d: Fx,
}

/// An ideal plane (a plane direction).
#[derive(Clone, Copy, PartialEq, Eq, Structural, Debug)]
pub struct Flat {
    pub x: Fx,
    pub y: Fx,
    pub z: Fx,
}

/// A rotation-axis bivector (pure rotation generator); its magnitude is the
/// half rotation angle.
#[derive(Clone, Copy, PartialEq, Eq, Structural, Debug)]
pub struct Branch {
    pub x: Fx,
    pub y: Fx,
    pub z: Fx,
}

/// A translation bivector at infinity (abelian pure translation generator).
#[derive(Clone, Copy, PartialEq, Eq, Structural, Debug)]
pub struct IdealLine {
    pub x: Fx,
    pub y: Fx,
    pub z: Fx,
}

/// A general screw-motion generator: a direction bivector `(dx, dy, dz)` and
/// a moment bivector `(mx, my, mz)`.
#[derive(Clone, Copy, PartialEq, Eq, Structural, Debug)]
pub struct Line {
    pub dx: Fx,
    pub dy: Fx,
    pub dz: Fx,
    pub mx: Fx,
    pub my: Fx,
    pub mz: Fx,
}

/// A pure-rotation group element (double cover of the rotations): scalar `s`
/// and rotation bivector `(bx, by, bz)`.
#[derive(Clone, Copy, PartialEq, Eq, Structural, Debug)]
pub struct Rotor {
    pub s: Fx,
    pub bx: Fx,
    pub by: Fx,
    pub bz: Fx,
}

/// A pure-translation group element: scalar `s` (canonically one) and ideal
/// bivector `(ix, iy, iz)`.
#[derive(Clone, Copy, PartialEq, Eq, Structural, Debug)]
pub struct Translator {
    pub s: Fx,
    pub ix: Fx,
    pub iy: Fx,
    pub iz: Fx,
}

/// A general rigid-motion group element (double cover of the rigid motions):
/// scalar `s`, rotation bivector `(bx, by, bz)`, pseudoscalar `ps`, and
/// ideal bivector `(ix, iy, iz)`.
#[derive(Clone, Copy, PartialEq, Eq, Structural, Debug)]
pub struct Motor {
    pub s: Fx,
    pub bx: Fx,
    pub by: Fx,
    pub bz: Fx,
    pub ps: Fx,
    pub ix: Fx,
    pub iy: Fx,
    pub iz: Fx,
}

impl Wf for Scalar {
    open spec fn wf(self) -> bool {
        self.v.wf()
    }
}

impl Wf for Point {
    open spec fn wf(self) -> bool {
        self.x.wf() && self.y.wf() && self.z.wf() && self.w.wf()
    }
}

impl Wf for Origin {
    open spec fn wf(self) -> bool {
        self.w.wf()
    }
}

impl Wf for Dir {
    open spec fn wf(self) -> bool {
        self.x.wf() && self.y.wf() && self.z.wf()
    }
}

impl Wf for Plane {
    open spec fn wf(self) -> bool {
        self.x.wf() && self.y.wf() && self.z.wf() && self.d.wf()
    }
}

impl Wf for Flat {
    open spec fn wf(self) -> bool {
        self.x.wf() && self.y.wf() && self.z.wf()
    }
}

impl Wf for Branch {
    open spec fn wf(self) -> bool {
        self.x.wf() && self.y.wf() && self.z.wf()
    }
}

impl Wf for IdealLine {
    open spec fn wf(self) -> bool {
        self.x.wf() && self.y.wf() && self.z.wf()
    }
}

impl Wf for Line {
    open spec fn wf(self) -> bool {
        self.dx.wf() && self.dy.wf() && self.dz.wf() && self.mx.wf() && self.my.wf()
            && self.mz.wf()
    }
}

impl Wf for Rotor {
    open spec fn wf(self) -> bool {
        self.s.wf() && self.bx.wf() && self.by.wf() && self.bz.wf()
    }
}

impl Wf for Translator {
    open spec fn wf(self) -> bool {
        self.s.wf() && self.ix.wf() && self.iy.wf() && self.iz.wf()
    }
}

impl Wf for Motor {
    open spec fn wf(self) -> bool {
        self.s.wf() && self.bx.wf() && self.by.wf() && self.bz.wf() && self.ps.wf()
            && self.ix.wf() && self.iy.wf() && self.iz.wf()
    }
}

impl Scalar {
    /// A scalar holding the given value.
    pub fn new(x: Fx) -> (r: Scalar)
        ensures
            r == (Scalar { v: x }),
    {
        Scalar { v: x }
    }
}

impl Point {
    /// The finite point at the given coordinates (weight one).
    pub fn at(x: Fx, y: Fx, z: Fx) -> (r: Point)
        ensures
            r == (Point { x, y, z, w: fone() }),
    {
        Point { x, y, z, w: Fx { raw: SCALE } }
    }

    /// A homogeneous point from raw components.
    pub fn new(x: Fx, y: Fx, z: Fx, w: Fx) -> (r: Point)
        ensures
            r == (Point { x, y, z, w }),
    {
        Point { x, y, z, w }
    }

    /// The canonical origin.
    pub fn origin() -> (r: Point)
        ensures
            r == (Point { x: Fx { raw: 0 }, y: Fx { raw: 0 }, z: Fx { raw: 0 }, w: fone() }),
    {
        Point { x: Fx { raw: 0 }, y: Fx { raw: 0 }, z: Fx { raw: 0 }, w: Fx { raw: SCALE } }
    }

    /// The direction of this point: the point scaled to unit weight, with
    /// the weight dropped.
    pub fn dir(self) -> (r: Dir)
        requires
            self.wf(),
        ensures
            r == (Dir {
                x: crate::fx::fdiv(self.x, self.magnitude_spec().v),
                y: crate::fx::fdiv(self.y, self.magnitude_spec().v),
                z: crate::fx::fdiv(self.z, self.magnitude_spec().v),
            }),
            r.wf(),
    {
        let m = self.magnitude();
        Dir { x: self.x.div_by(m.v), y: self.y.div_by(m.v), z: self.z.div_by(m.v) }
    }
}

impl Origin {
    /// The origin with canonical weight one.
    pub fn new() -> (r: Origin)
        ensures
            r == (Origin { w: fone() }),
    {
        Origin { w: Fx { raw: SCALE } }
    }
}

impl Dir {
    /// A direction from components.
    pub fn new(x: Fx, y: Fx, z: Fx) -> (r: Dir)
        ensures
            r == (Dir { x, y, z }),
    {
        Dir { x, y, z }
    }

    /// The finite point one unit of weight along this direction.
    pub fn point(self) -> (r: Point)
        ensures
            r == (Point { x: self.x, y: self.y, z: self.z, w: fone() }),
    {
        Point { x: self.x, y: self.y, z: self.z, w: Fx { raw: SCALE } }
    }

    /// Euclidean length, taken of the dual (the ideal part carries the data).
    pub fn length(self) -> (r: Scalar)
        requires
            self.wf(),
        ensures
            r == self.dual_spec().magnitude_spec(),
            r.wf(),
    {
        self.dual().magnitude()
    }

    /// This direction scaled to unit Euclidean length.
    pub fn normalize(self) -> (r: Dir)
        requires
            self.wf(),
        ensures
            r == (Dir {
                x: crate::fx::fdiv(self.x, self.dual_spec().magnitude_spec().v),
                y: crate::fx::fdiv(self.y, self.dual_spec().magnitude_spec().v),
                z: crate::fx::fdiv(self.z, self.dual_spec().magnitude_spec().v),
            }),
            r.wf(),
    {
        let l = self.length();
        Dir { x: self.x.div_by(l.v), y: self.y.div_by(l.v), z: self.z.div_by(l.v) }
    }
}

impl Branch {
    /// A rotation generator from components.
    pub fn new(x: Fx, y: Fx, z: Fx) -> (r: Branch)
        ensures
            r == (Branch { x, y, z }),
    {
        Branch { x, y, z }
    }
}

impl Plane {
    /// The plane with the given normal and signed offset `distance`
    /// (stored negated, as the homogeneous component).
    pub fn new(x: Fx, y: Fx, z: Fx, distance: Fx) -> (r: Plane)
        requires
            distance.wf(),
        ensures
            r == (Plane { x, y, z, d: fneg(distance) }),
    {
        Plane { x, y, z, d: distance.negate() }
    }
}

impl Flat {
    /// An ideal plane from components.
    pub fn new(x: Fx, y: Fx, z: Fx) -> (r: Flat)
        ensures
            r == (Flat { x, y, z }),
    {
        Flat { x, y, z }
    }
}

impl Translator {
    /// The translator carrying a translation by `(x, y, z)`: scalar one and
    /// ideal bivector of the negated half displacement.
    pub fn new(x: Fx, y: Fx, z: Fx) -> (r: Translator)
        requires
            x.wf(),
            y.wf(),
            z.wf(),
        ensures
            r == (Translator {
                s: fone(),
                ix: fneg(fdivi(x, 2)),
                iy: fneg(fdivi(y, 2)),
                iz: fneg(fdivi(z, 2)),
            }),
            r.wf(),
    {
        Translator {
            s: Fx { raw: SCALE },
            ix: x.div_int(2).negate(),
            iy: y.div_int(2).negate(),
            iz: z.div_int(2).negate(),
        }
    }

    /// The rows of the homogeneous transform of this translator: the images
    /// of the four basis points under the sandwich operator.
    pub fn matrix(&self) -> (m: [Point; 4])
        requires
            self.wf(),
        ensures
            m[0] == self.transformation_spec(basis_point(0)),
            m[1] == self.transformation_spec(basis_point(1)),
            m[2] == self.transformation_spec(basis_point(2)),
            m[3] == self.transformation_spec(basis_point(3)),
    {
        let r0 = self.transformation(bp(0));
        let r1 = self.transformation(bp(1));
        let r2 = self.transformation(bp(2));
        let r3 = self.transformation(bp(3));
        [r0, r1, r2, r3]
    }
}

impl Rotor {
    /// A rotor from bivector components `x, y, z` and scalar `w`.
    pub fn new(x: Fx, y: Fx, z: Fx, w: Fx) -> (r: Rotor)
        ensures
            r == (Rotor { s: w, bx: x, by: y, bz: z }),
    {
        Rotor { s: w, bx: x, by: y, bz: z }
    }

    /// The rotor turning by `angle` about `axis`: cosine of the half angle
    /// as scalar, sine of the half angle scaling the axis.
    pub fn from_angle_axis(angle: Fx, axis: Dir) -> (r: Rotor)
        requires
            angle.wf(),
            axis.wf(),
        ensures
            r == (Rotor {
                s: fcos(fdivi(angle, 2)),
                bx: fmul(fsin(fdivi(angle, 2)), axis.x),
                by: fmul(fsin(fdivi(angle, 2)), axis.y),
                bz: fmul(fsin(fdivi(angle, 2)), axis.z),
            }),
            r.wf(),
    {
        let half = angle.div_int(2);
        let sine = half.sine();
        Rotor {
            s: half.cosine(),
            bx: sine.times(axis.x),
            by: sine.times(axis.y),
            bz: sine.times(axis.z),
        }
    }

    /// The rows of the homogeneous transform of this rotor: the images of
    /// the four basis points under the sandwich operator.
    pub fn matrix(&self) -> (m: [Point; 4])
        requires
            self.wf(),
        ensures
            m[0] == self.transformation_spec(basis_point(0)),
            m[1] == self.transformation_spec(basis_point(1)),
            m[2] == self.transformation_spec(basis_point(2)),
            m[3] == self.transformation_spec(basis_point(3)),
    {
        let r0 = self.transformation(bp(0));
        let r1 = self.transformation(bp(1));
        let r2 = self.transformation(bp(2));
        let r3 = self.transformation(bp(3));
        [r0, r1, r2, r3]
    }
}

impl Motor {
    /// The rows of the homogeneous transform of this motor: the images of
    /// the four basis points under the sandwich operator.
    pub fn matrix(&self) -> (m: [Point; 4])
        requires
            self.wf(),
        ensures
            m[0] == self.transformation_spec(basis_point(0)),
            m[1] == self.transformation_spec(basis_point(1)),
            m[2] == self.transformation_spec(basis_point(2)),
            m[3] == self.transformation_spec(basis_point(3)),
    {
        let r0 = self.transformation(bp(0));
        let r1 = self.transformation(bp(1));
        let r2 = self.transformation(bp(2));
        let r3 = self.transformation(bp(3));
        [r0, r1, r2, r3]
    }
}

/// The `i`-th standard basis point (unit `x`, `y`, `z`, or weight).
pub open spec fn basis_point(i: int) -> Point {
    Point {
        x: if i == 0 { fone() } else { Fx { raw: 0 } },
        y: if i == 1 { fone() } else { Fx { raw: 0 } },
        z: if i == 2 { fone() } else { Fx { raw: 0 } },
        w: if i == 3 { fone() } else { Fx { raw: 0 } },
    }
}

/// Builds the `i`-th standard basis point.
fn bp(i: usize) -> (r: Point)
    requires
        i < 4,
    ensures
        r == basis_point(i as int),
        r.wf(),
{
    Point {
        x: if i == 0 { Fx { raw: SCALE } } else { Fx { raw: 0 } },
        y: if i == 1 { Fx { raw: SCALE } } else { Fx { raw: 0 } },
        z: if i == 2 { Fx { raw: SCALE } } else { Fx { raw: 0 } },
        w: if i == 3 { Fx { raw: SCALE } } else { Fx { raw: 0 } },
    }
}

} // verus!
