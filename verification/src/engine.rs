//! The exponential / logarithm / power engine: closed-form conversion
//! between motion generators (bivectors) and finite group elements, for each
//! of the three algebra/group pairs and the degenerate scalar pair.
//!
//! Singular configurations (a vanishing direction bivector, an identity
//! rotation) are resolved by explicit guarded branches, never by errors.

use vstd::prelude::*;
use crate::fx::{
    facos, fadd, fcos, fdiv, fexp, fln, fln_pos, fmul, fone, fsin, fsqrt, fsub, lemma_ln_shape_unique,
    ln_shape, Fx,
};
use crate::ops::{dot3, fdot3, Exp, GeometricProduct, Ln, Magnitude, One, Powf, ScalarPart, Zero};
use crate::types::{Branch, IdealLine, Line, Motor, Rotor, Scalar, Translator};

verus! {

impl Exp for Line {
    type Output = Motor;

    /// The motor of a screw generator. With a vanishing direction bivector
    /// the line is purely ideal and embeds linearly (no trigonometry, which
    /// would divide by the vanishing rotation magnitude); otherwise the
    /// half-angle is the direction's norm, the scalar its cosine, and the
    /// bivector parts are scaled by the normalized sine with a moment
    /// correction along the axis.
    open spec fn exp_spec(self) -> Motor {
        let det = fdot3(self.dx, self.dy, self.dz, self.dx, self.dy, self.dz);
        if det.raw <= 0 {
            Motor {
                s: fone(),
                bx: Fx { raw: 0 },
                by: Fx { raw: 0 },
                bz: Fx { raw: 0 },
                ps: Fx { raw: 0 },
                ix: self.mx,
                iy: self.my,
                iz: self.mz,
            }
        } else {
            let a = fsqrt(det);
            let c = fcos(a);
            let s = fdiv(fsin(a), a);
            let m = fdot3(self.dx, self.dy, self.dz, self.mx, self.my, self.mz);
            let t = fmul(fdiv(m, det), fsub(c, s));
            Motor {
                s: c,
                bx: fmul(s, self.dx),
                by: fmul(s, self.dy),
                bz: fmul(s, self.dz),
                ps: fmul(s, m),
                ix: fadd(fmul(s, self.mx), fmul(t, self.dx)),
                iy: fadd(fmul(s, self.my), fmul(t, self.dy)),
                iz: fadd(fmul(s, self.mz), fmul(t, self.dz)),
            }
        }
    }

    fn exp(self) -> (r: Motor) {
        let det = dot3(self.dx, self.dy, self.dz, self.dx, self.dy, self.dz);
        if det.raw <= 0 {
            Motor {
                s: Fx { raw: crate::fx::SCALE },
                bx: Fx { raw: 0 },
                by: Fx { raw: 0 },
                bz: Fx { raw: 0 },
                ps: Fx { raw: 0 },
                ix: self.mx,
                iy: self.my,
                iz: self.mz,
            }
        } else {
            let a = det.sqrt_floor();
            let c = a.cosine();
            let s = a.sine().div_by(a);
            let m = dot3(self.dx, self.dy, self.dz, self.mx, self.my, self.mz);
            let t = m.div_by(det).times(c.minus(s));
            Motor {
                s: c,
                bx: s.times(self.dx),
                by: s.times(self.dy),
                bz: s.times(self.dz),
                ps: s.times(m),
                ix: s.times(self.mx).plus(t.times(self.dx)),
                iy: s.times(self.my).plus(t.times(self.dy)),
                iz: s.times(self.mz).plus(t.times(self.dz)),
            }
        }
    }
}

impl Ln for Motor {
    type Output = Line;

    /// The screw generator of a motor. A motor without rotation (scalar at
    /// or beyond one) is a pure translation: the ideal bivector is the
    /// moment directly. Otherwise the half angle is recovered by the
    /// arccosine, with a pseudoscalar correction feeding the moment.
    open spec fn ln_spec(self) -> Line {
        let det = fsub(fone(), fmul(self.s, self.s));
        if det.raw <= 0 {
            Line {
                dx: Fx { raw: 0 },
                dy: Fx { raw: 0 },
                dz: Fx { raw: 0 },
                mx: self.ix,
                my: self.iy,
                mz: self.iz,
            }
        } else {
            let a = fdiv(fone(), det);
            let b = fmul(facos(self.s), fsqrt(a));
            let c = fmul(fmul(a, self.ps), fsub(fone(), fmul(self.s, b)));
            Line {
                dx: fmul(b, self.bx),
                dy: fmul(b, self.by),
                dz: fmul(b, self.bz),
                mx: fadd(fmul(b, self.ix), fmul(c, self.bx)),
                my: fadd(fmul(b, self.iy), fmul(c, self.by)),
                mz: fadd(fmul(b, self.iz), fmul(c, self.bz)),
            }
        }
    }

    fn ln(self) -> (r: Line) {
        let det = Fx { raw: crate::fx::SCALE }.minus(self.s.times(self.s));
        if det.raw <= 0 {
            Line {
                dx: Fx { raw: 0 },
                dy: Fx { raw: 0 },
                dz: Fx { raw: 0 },
                mx: self.ix,
                my: self.iy,
                mz: self.iz,
            }
        } else {
            let a = Fx { raw: crate::fx::SCALE }.div_by(det);
            let b = self.s.arccos().times(a.sqrt_floor());
            let c = a.times(self.ps).times(Fx { raw: crate::fx::SCALE }.minus(self.s.times(b)));
            Line {
                dx: b.times(self.bx),
                dy: b.times(self.by),
                dz: b.times(self.bz),
                mx: b.times(self.ix).plus(c.times(self.bx)),
                my: b.times(self.iy).plus(c.times(self.by)),
                mz: b.times(self.iz).plus(c.times(self.bz)),
            }
        }
    }
}

impl Powf for Motor {
    type Output = Motor;

    /// The fractional power walks the one-parameter screw subgroup: scale
    /// the logarithm, then exponentiate.
    open spec fn powf_spec(self, exponent: Fx) -> Motor {
        (Scalar { v: exponent }).geometric_product_spec(self.ln_spec()).exp_spec()
    }

    fn powf(self, exponent: Fx) -> (r: Motor) {
        Scalar::new(exponent).geometric_product(self.ln()).exp()
    }
}

impl Exp for IdealLine {
    type Output = Translator;

    /// Ideal bivectors square to zero, so the exponential is the direct
    /// linear embedding with unit scalar.
    open spec fn exp_spec(self) -> Translator {
        Translator { s: fone(), ix: self.x, iy: self.y, iz: self.z }
    }

    fn exp(self) -> (r: Translator) {
        Translator { s: Fx { raw: crate::fx::SCALE }, ix: self.x, iy: self.y, iz: self.z }
    }
}

impl Ln for Translator {
    type Output = IdealLine;

    /// The translation generator: the ideal bivector divided by the scalar.
    open spec fn ln_spec(self) -> IdealLine {
        IdealLine {
            x: fdiv(self.ix, self.s),
            y: fdiv(self.iy, self.s),
            z: fdiv(self.iz, self.s),
        }
    }

    fn ln(self) -> (r: IdealLine) {
        IdealLine {
            x: self.ix.div_by(self.s),
            y: self.iy.div_by(self.s),
            z: self.iz.div_by(self.s),
        }
    }
}

impl Powf for Translator {
    type Output = Translator;

    /// The fractional power along the translation subgroup.
    open spec fn powf_spec(self, exponent: Fx) -> Translator {
        (Scalar { v: exponent }).geometric_product_spec(self.ln_spec()).exp_spec()
    }

    fn powf(self, exponent: Fx) -> (r: Translator) {
        Scalar::new(exponent).geometric_product(self.ln()).exp()
    }
}

impl Exp for Branch {
    type Output = Rotor;

    /// The rotor of a rotation generator: the generator's norm is the half
    /// angle. A vanishing norm yields the identity rotor directly (avoiding
    /// a zero-by-zero division), else the bivector is scaled by the
    /// normalized sine.
    open spec fn exp_spec(self) -> Rotor {
        let n = self.magnitude_spec().v;
        if n.raw == 0 {
            Rotor::one_spec()
        } else {
            let im = fdiv(fsin(n), n);
            Rotor { s: fcos(n), bx: fmul(im, self.x), by: fmul(im, self.y), bz: fmul(im, self.z) }
        }
    }

    fn exp(self) -> (r: Rotor) {
        let n = self.magnitude().v;
        if n.raw == 0 {
            Rotor::one()
        } else {
            let im = n.sine().div_by(n);
            Rotor {
                s: n.cosine(),
                bx: im.times(self.x),
                by: im.times(self.y),
                bz: im.times(self.z),
            }
        }
    }
}

impl Ln for Rotor {
    type Output = Branch;

    /// The rotation generator of a rotor. A rotor of vanishing norm has no
    /// axis and maps to the zero generator; otherwise the angle comes from
    /// the arccosine of the normalized scalar.
    open spec fn ln_spec(self) -> Branch {
        let n = self.magnitude_spec().v;
        if n.raw == 0 {
            Branch::zero_spec()
        } else {
            let angle = facos(fdiv(self.s, n));
            let scl = fdiv(fdiv(angle, fsin(angle)), n);
            Branch { x: fmul(scl, self.bx), y: fmul(scl, self.by), z: fmul(scl, self.bz) }
        }
    }

    fn ln(self) -> (r: Branch) {
        let n = self.magnitude().v;
        if n.raw == 0 {
            Branch::zero()
        } else {
            let angle = self.s.div_by(n).arccos();
            let scl = angle.div_by(angle.sine()).div_by(n);
            Branch { x: scl.times(self.bx), y: scl.times(self.by), z: scl.times(self.bz) }
        }
    }
}

impl ScalarPart for Scalar {
    open spec fn scalar_part_spec(self) -> Fx {
        self.v
    }

    open spec fn neg_spec(self) -> Scalar {
        Scalar { v: crate::fx::fneg(self.v) }
    }

    proof fn lemma_neg_scalar_part(self) {
    }

    fn scalar_part(self) -> (r: Fx) {
        self.v
    }

    fn negated(self) -> (r: Scalar) {
        Scalar { v: self.v.negate() }
    }
}

impl Powf for Rotor {
    type Output = Rotor;

    /// A rotor whose bivector part vanishes exactly is a bare scalar with
    /// no logarithm: its scalar is exponentiated directly. Any other rotor
    /// goes through the scaled logarithm.
    open spec fn powf_spec(self, exponent: Fx) -> Rotor {
        if self.bx.raw == 0 && self.by.raw == 0 && self.bz.raw == 0 {
            Rotor {
                s: fexp(fmul(exponent, fln(self.s))),
                bx: Fx { raw: 0 },
                by: Fx { raw: 0 },
                bz: Fx { raw: 0 },
            }
        } else {
            (Scalar { v: exponent }).geometric_product_spec(self.ln_spec()).exp_spec()
        }
    }

    fn powf(self, exponent: Fx) -> (r: Rotor) {
        if self.bx.raw == 0 && self.by.raw == 0 && self.bz.raw == 0 {
            let p = Scalar::new(self.s).powf(exponent);
            Rotor { s: p.v, bx: Fx { raw: 0 }, by: Fx { raw: 0 }, bz: Fx { raw: 0 } }
        } else {
            Scalar::new(exponent).geometric_product(self.ln()).exp()
        }
    }
}

impl Exp for Scalar {
    type Output = Scalar;

    /// The ordinary scl exponential (the degenerate zero-dimensional pair).
    open spec fn exp_spec(self) -> Scalar {
        Scalar { v: fexp(self.v) }
    }

    fn exp(self) -> (r: Scalar) {
        Scalar { v: self.v.exponential() }
    }
}

impl Ln for Scalar {
    type Output = Scalar;

    /// The ordinary scl logarithm.
    open spec fn ln_spec(self) -> Scalar {
        Scalar { v: fln(self.v) }
    }

    fn ln(self) -> (r: Scalar) {
        let t = self.v.logarithm();
        proof {
            if self.v.raw > 0 {
                let k = choose|k: nat|
                    ln_shape(self.v.raw as int, k) && t == fln_pos(self.v.raw as int, k);
                assert(ln_shape(self.v.raw as int, k) && t == fln_pos(self.v.raw as int, k));
                let k0 = choose|k: nat| ln_shape(self.v.raw as int, k);
                assert(ln_shape(self.v.raw as int, k0));
                lemma_ln_shape_unique(self.v.raw as int, k, k0);
                assert(fln(self.v) == fln_pos(self.v.raw as int, k0));
                assert(t == fln(self.v));
            } else {
                assert(t == fln(self.v));
            }
            assert(Scalar { v: t } == self.ln_spec());
        }
        Scalar { v: t }
    }
}

impl Powf for Scalar {
    type Output = Scalar;

    /// The scl power through the exponential of the scaled logarithm.
    open spec fn powf_spec(self, exponent: Fx) -> Scalar {
        Scalar { v: fexp(fmul(exponent, fln(self.v))) }
    }

    fn powf(self, exponent: Fx) -> (r: Scalar) {
        let l = self.ln();
        let r = Scalar { v: exponent.times(l.v).exponential() };
        proof {
            assert(l.v == fln(self.v));
            assert(r == self.powf_spec(exponent));
        }
        r
    }
}

} // verus!
