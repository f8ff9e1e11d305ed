//! The algebraic laws of the engine, proved once and for all inputs:
//! shortest-arc selection, the exponential of the zero generator, zeroth
//! powers, interpolation at the start parameter, and the exact translator
//! round trip.

use vstd::prelude::*;
use crate::fx::{fone, lemma_fdiv_one, lemma_fmul_one, lemma_fmul_zero, Fx};
use crate::ops::{constrained, Exp, GeometricProduct, Ln, Magnitude, One, Powf, Reversal, ScalarPart, Wf, Zero};
use crate::types::{Branch, IdealLine, Motor, Rotor, Scalar, Translator};

verus! {

/// Shortest arc: a group element with negative scalar part is replaced by
/// its negation.
pub proof fn law_constrain_negates<M: ScalarPart>(g: M)
    requires
        g.scalar_part_spec().raw < 0,
    ensures
        constrained(g) == g.neg_spec(),
{
}

/// Shortest arc: the constrained representative never has a negative
/// scalar part.
pub proof fn law_constrain_nonneg<M: ScalarPart>(g: M)
    requires
        g.wf(),
    ensures
        constrained(g).scalar_part_spec().raw >= 0,
{
    if g.scalar_part_spec().raw < 0 {
        g.lemma_neg_scalar_part();
    }
}

/// The exponential of the zero rotation generator is the identity rotor.
pub proof fn law_exp_zero_branch()
    ensures
        Branch::zero_spec().exp_spec() == Rotor::one_spec(),
{
    lemma_fmul_zero(Fx { raw: 0 });
    assert(Branch::zero_spec().magnitude_spec().v == (Fx { raw: 0 }));
}

/// The zeroth power of any motor is the identity motor: the scaled
/// logarithm vanishes and the exponential of the vanished screw is the
/// identity, whichever branches are taken.
pub proof fn law_power_zero_motor(m: Motor)
    ensures
        m.powf_spec(Fx { raw: 0 }) == Motor::one_spec(),
{
    let l = m.ln_spec();
    lemma_fmul_zero(l.dx);
    lemma_fmul_zero(l.dy);
    lemma_fmul_zero(l.dz);
    lemma_fmul_zero(l.mx);
    lemma_fmul_zero(l.my);
    lemma_fmul_zero(l.mz);
    let z = (Scalar { v: Fx { raw: 0 } }).geometric_product_spec(l);
    lemma_fmul_zero(Fx { raw: 0 });
    assert(z.exp_spec() == Motor::one_spec());
}

/// The identity motor is a left unit of the motor product on well-formed
/// motors.
pub proof fn lemma_motor_one_left_unit(a: Motor)
    requires
        a.wf(),
    ensures
        Motor::one_spec().geometric_product_spec(a) == a,
{
    lemma_fmul_one(a.s);
    lemma_fmul_one(a.bx);
    lemma_fmul_one(a.by);
    lemma_fmul_one(a.bz);
    lemma_fmul_one(a.ps);
    lemma_fmul_one(a.ix);
    lemma_fmul_one(a.iy);
    lemma_fmul_one(a.iz);
    lemma_fmul_zero(a.s);
    lemma_fmul_zero(a.bx);
    lemma_fmul_zero(a.by);
    lemma_fmul_zero(a.bz);
    lemma_fmul_zero(a.ps);
    lemma_fmul_zero(a.ix);
    lemma_fmul_zero(a.iy);
    lemma_fmul_zero(a.iz);
}

/// Interpolation at parameter zero returns the start motor exactly.
pub proof fn law_interpolate_zero_motor(a: Motor, b: Motor)
    requires
        a.wf(),
        b.wf(),
    ensures
        constrained(b.geometric_product_spec(a.reversal_spec())).powf_spec(
            Fx { raw: 0 },
        ).geometric_product_spec(a) == a,
{
    let c = constrained(b.geometric_product_spec(a.reversal_spec()));
    law_power_zero_motor(c);
    lemma_motor_one_left_unit(a);
}

/// The zeroth power of any translator is the identity translator.
pub proof fn law_power_zero_translator(t: Translator)
    ensures
        t.powf_spec(Fx { raw: 0 }) == Translator::one_spec(),
{
    let l = t.ln_spec();
    lemma_fmul_zero(l.x);
    lemma_fmul_zero(l.y);
    lemma_fmul_zero(l.z);
}

/// The zeroth power of any rotor is the identity rotor, through either
/// branch: a bare scalar exponentiates to one, any other rotor's scaled
/// logarithm vanishes.
pub proof fn law_power_zero_rotor(r: Rotor)
    ensures
        r.powf_spec(Fx { raw: 0 }) == Rotor::one_spec(),
{
    if r.bx.raw == 0 && r.by.raw == 0 && r.bz.raw == 0 {
        lemma_fmul_zero(crate::fx::fln(r.s));
        crate::fx::lemma_fexp_zero();
    } else {
        let l = r.ln_spec();
        lemma_fmul_zero(l.x);
        lemma_fmul_zero(l.y);
        lemma_fmul_zero(l.z);
        let z = (Scalar { v: Fx { raw: 0 } }).geometric_product_spec(l);
        lemma_fmul_zero(Fx { raw: 0 });
        assert(z.magnitude_spec().v == (Fx { raw: 0 }));
    }
}

/// The identity rotor is a left unit of the rotor product on well-formed
/// rotors.
pub proof fn lemma_rotor_one_left_unit(a: Rotor)
    requires
        a.wf(),
    ensures
        Rotor::one_spec().geometric_product_spec(a) == a,
{
    lemma_fmul_one(a.s);
    lemma_fmul_one(a.bx);
    lemma_fmul_one(a.by);
    lemma_fmul_one(a.bz);
    lemma_fmul_zero(a.s);
    lemma_fmul_zero(a.bx);
    lemma_fmul_zero(a.by);
    lemma_fmul_zero(a.bz);
}

/// Interpolation at parameter zero returns the start rotor exactly.
pub proof fn law_interpolate_zero_rotor(a: Rotor, b: Rotor)
    requires
        a.wf(),
        b.wf(),
    ensures
        constrained(b.geometric_product_spec(a.reversal_spec())).powf_spec(
            Fx { raw: 0 },
        ).geometric_product_spec(a) == a,
{
    let c = constrained(b.geometric_product_spec(a.reversal_spec()));
    law_power_zero_rotor(c);
    lemma_rotor_one_left_unit(a);
}

/// The translator pair round-trips exactly: the logarithm of the
/// exponential of any translation generator is that generator.
pub proof fn law_translator_round_trip(l: IdealLine)
    requires
        l.wf(),
    ensures
        l.exp_spec().ln_spec() == l,
{
    lemma_fdiv_one(l.x);
    lemma_fdiv_one(l.y);
    lemma_fdiv_one(l.z);
}

/// A canonical translator (unit scalar) is the exponential of its own
/// logarithm, exactly.
pub proof fn law_translator_group_round_trip(t: Translator)
    requires
        t.wf(),
        t.s == fone(),
    ensures
        t.ln_spec().exp_spec() == t,
{
    lemma_fdiv_one(t.ix);
    lemma_fdiv_one(t.iy);
    lemma_fdiv_one(t.iz);
}

} // verus!
