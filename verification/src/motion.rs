//! Motion derivation: distance, ideal magnitude, projections, shortest-arc
//! motion and screw interpolation, composed generically from the operator
//! contracts and the exponential engine.

use vstd::prelude::*;
use crate::fx::{fdiv, fmul, Fx};
use crate::ops::{
    constrained, Dual, GeometricProduct, Inverse, LeftContraction, Magnitude, OuterProduct, Powf,
    RegressiveProduct, Reversal, RightContraction, ScalarPart, Wf,
};
use crate::types::Scalar;

verus! {

/// Distance between two geometric objects: the magnitude of their join,
/// normalized by both magnitudes. One grade-generic formula covers
/// point-point, point-plane and the other pairings.
pub fn distance<A, B, L>(a: A, b: B) -> (r: Scalar) where
    A: RegressiveProduct<B, Output = L> + Magnitude + Copy,
    B: Magnitude + Copy,
    L: Magnitude,

    requires
        a.wf(),
        b.wf(),
    ensures
        r == (Scalar {
            v: fdiv(
                a.regressive_product_spec(b).magnitude_spec().v,
                fmul(a.magnitude_spec().v, b.magnitude_spec().v),
            ),
        }),
        r.wf(),
{
    let n = a.regressive_product(b).magnitude();
    let d = a.magnitude().v.times(b.magnitude().v);
    Scalar { v: n.v.div_by(d) }
}

/// Length of the ideal part as a scalar (the ideal norm), taken where the
/// Euclidean magnitude is degenerate.
pub fn ideal_magnitude<T, L>(v: T) -> (r: Scalar) where T: Dual<Output = L>, L: Magnitude,
    requires
        v.wf(),
    ensures
        r == v.dual_spec().magnitude_spec(),
        r.wf(),
{
    v.dual().magnitude()
}

/// Projects `a` into `b`: the contraction onto the inverse, joined back.
pub fn project<A, B, I, C>(a: A, b: B) -> (r: C) where
    B: Inverse<Output = B> + Copy,
    A: RightContraction<B, Output = I>,
    I: OuterProduct<B, Output = C>,
    C: Wf,

    requires
        a.wf(),
        b.wf(),
    ensures
        r == a.right_contraction_spec(b.inverse_spec()).outer_product_spec(b),
        r.wf(),
{
    a.right_contraction(b.inverse()).outer_product(b)
}

/// Antiprojects `a` onto `b`: the dual projection by two left contractions.
pub fn anti_project<A, B, I, C>(a: A, b: B) -> (r: C) where
    B: Inverse<Output = B> + Copy,
    A: LeftContraction<B, Output = I>,
    I: LeftContraction<B, Output = C>,
    C: Wf,

    requires
        a.wf(),
        b.wf(),
    ensures
        r == a.left_contraction_spec(b.inverse_spec()).left_contraction_spec(b),
        r.wf(),
{
    a.left_contraction(b.inverse()).left_contraction(b)
}

/// The shortest-arc motion carrying normalized `a` onto normalized `b`: the
/// square root of the constrained product of the normalized operands.
pub fn motion<A, B, M>(a: A, b: B) -> (r: M) where
    A: Magnitude + GeometricProduct<Scalar, Output = A> + Copy,
    B: Magnitude + GeometricProduct<Scalar, Output = B> + GeometricProduct<A, Output = M> + Copy,
    M: ScalarPart + Powf<Output = M>,

    requires
        a.wf(),
        b.wf(),
    ensures
        r == constrained(
            b.geometric_product_spec(b.magnitude_spec().inverse_spec()).geometric_product_spec(
                a.geometric_product_spec(a.magnitude_spec().inverse_spec()),
            ),
        ).powf_spec(Fx { raw: 32768 }),
        r.wf(),
{
    let an = a.geometric_product(a.magnitude().inverse());
    let bn = b.geometric_product(b.magnitude().inverse());
    bn.geometric_product(an).constrain().sqrt()
}

/// Screw interpolation from `a` to `b`: the shortest-arc motion from `a` to
/// `b` raised to the fractional power, applied to `a`. An interpolant
/// outside the unit interval extrapolates.
pub fn interpolate<A, B, M>(a: A, b: B, interpolant: Fx) -> (r: M) where
    A: Reversal<Output = A> + Copy,
    B: GeometricProduct<A, Output = M>,
    M: ScalarPart + Powf<Output = M> + GeometricProduct<A, Output = M>,

    requires
        a.wf(),
        b.wf(),
        interpolant.wf(),
    ensures
        r == constrained(b.geometric_product_spec(a.reversal_spec())).powf_spec(
            interpolant,
        ).geometric_product_spec(a),
        r.wf(),
{
    b.geometric_product(a.reversal()).constrain().powf(interpolant).geometric_product(a)
}

} // verus!
