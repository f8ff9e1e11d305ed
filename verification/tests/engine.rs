use geometric_algebra::fx::{Fx, PI_RAW, SCALE};
use geometric_algebra::ops::{Exp, Ln, One, Powf, ScalarPart, Zero};
use geometric_algebra::types::{Branch, Dir, IdealLine, Line, Motor, Rotor, Scalar, Translator};

fn fx(v: i32) -> Fx {
    Fx::from_int(v)
}

fn raw(v: i64) -> Fx {
    Fx::from_raw(v)
}

fn close(a: Fx, b: Fx, tol: i64) -> bool {
    (a.raw - b.raw).abs() <= tol
}

#[test]
fn exp_zero_branch_is_identity_rotor() {
    let r = Branch::new(raw(0), raw(0), raw(0)).exp();
    assert_eq!(r, Rotor::one());
    assert_eq!(r.s.raw, SCALE);
    assert_eq!(r.bx.raw, 0);
    assert_eq!(r.by.raw, 0);
    assert_eq!(r.bz.raw, 0);
}

#[test]
fn branch_exp_ln_round_trip() {
    let b = Branch::new(raw(32768), raw(16384), raw(8192));
    let r = b.exp();
    let back = r.ln();
    assert!(close(back.x, b.x, 400));
    assert!(close(back.y, b.y, 400));
    assert!(close(back.z, b.z, 400));
}

#[test]
fn line_exp_ln_round_trip() {
    // A screw generator with positive squared direction norm.
    let l = Line {
        dx: raw(32768),
        dy: raw(0),
        dz: raw(0),
        mx: raw(16384),
        my: raw(8192),
        mz: raw(0),
    };
    let m = l.exp();
    let back = m.ln();
    assert!(close(back.dx, l.dx, 700));
    assert!(close(back.dy, l.dy, 700));
    assert!(close(back.dz, l.dz, 700));
    assert!(close(back.mx, l.mx, 700));
    assert!(close(back.my, l.my, 700));
    assert!(close(back.mz, l.mz, 700));
}

#[test]
fn motor_exp_ln_round_trip() {
    // A motor with squared scalar below one round-trips through its screw.
    let l = Line {
        dx: raw(20000),
        dy: raw(30000),
        dz: raw(0),
        mx: raw(5000),
        my: raw(0),
        mz: raw(10000),
    };
    let m = l.exp();
    let again = m.ln().exp();
    assert!(close(again.s, m.s, 700));
    assert!(close(again.bx, m.bx, 700));
    assert!(close(again.by, m.by, 700));
    assert!(close(again.bz, m.bz, 700));
    assert!(close(again.ps, m.ps, 700));
    assert!(close(again.ix, m.ix, 700));
    assert!(close(again.iy, m.iy, 700));
    assert!(close(again.iz, m.iz, 700));
}

#[test]
fn translator_round_trip_is_exact() {
    let l = IdealLine { x: raw(12345), y: raw(-54321), z: raw(777) };
    let t = l.exp();
    assert_eq!(t.ln(), l);
    assert_eq!(t.ln().exp(), t);
}

#[test]
fn translator_powf_scales_translation() {
    let t = Translator::new(fx(4), raw(0), raw(0));
    let h = t.powf(raw(32768));
    // Half of the translation by 4: ideal part -1 instead of -2.
    assert_eq!(h.s.raw, SCALE);
    assert_eq!(h.ix.raw, -SCALE);
    assert_eq!(h.iy.raw, 0);
    assert_eq!(h.iz.raw, 0);
}

#[test]
fn constrain_negates_negative_scalar() {
    let g = Rotor::new(raw(100), raw(200), raw(300), fx(-1));
    let c = g.constrain();
    assert_eq!(c.s.raw, SCALE);
    assert_eq!(c.bx.raw, -100);
    assert_eq!(c.by.raw, -200);
    assert_eq!(c.bz.raw, -300);
    assert!(c.scalar_part().raw >= 0);
    // A non-negative scalar part is kept as it stands.
    let k = Motor::one().constrain();
    assert_eq!(k, Motor::one());
}

#[test]
fn motor_power_zero_is_identity() {
    let l = Line {
        dx: raw(20000),
        dy: raw(0),
        dz: raw(10000),
        mx: raw(4000),
        my: raw(2000),
        mz: raw(0),
    };
    let m = l.exp();
    assert_eq!(m.powf(raw(0)), Motor::one());
}

#[test]
fn motor_power_one_is_close_to_motor() {
    let l = Line {
        dx: raw(20000),
        dy: raw(30000),
        dz: raw(0),
        mx: raw(5000),
        my: raw(0),
        mz: raw(10000),
    };
    let m = l.exp();
    let p = m.powf(fx(1));
    assert!(close(p.s, m.s, 700));
    assert!(close(p.bx, m.bx, 700));
    assert!(close(p.by, m.by, 700));
    assert!(close(p.bz, m.bz, 700));
    assert!(close(p.ps, m.ps, 700));
    assert!(close(p.ix, m.ix, 700));
    assert!(close(p.iy, m.iy, 700));
    assert!(close(p.iz, m.iz, 700));
}

#[test]
fn rotor_double_cover_power() {
    // A half turn about the z axis, squared through powf, returns to the
    // identity's shortest-arc representative.
    let r = Rotor::from_angle_axis(raw(PI_RAW), Dir::new(raw(0), raw(0), raw(SCALE)));
    let q = r.powf(fx(2));
    let c = q.constrain();
    assert!(close(c.s, raw(SCALE), 2000));
    assert!(close(c.bx, raw(0), 2000));
    assert!(close(c.by, raw(0), 2000));
    assert!(close(c.bz, raw(0), 2000));
}

#[test]
fn rotor_from_angle_axis_quarter_turn() {
    // cos and sin of a quarter of a turn's half angle: both near sqrt(2)/2.
    let r = Rotor::from_angle_axis(raw(PI_RAW / 2), Dir::new(raw(0), raw(0), raw(SCALE)));
    let root_half: i64 = 46341;
    assert!(close(r.s, raw(root_half), 300));
    assert!(close(r.bz, raw(root_half), 300));
    assert_eq!(r.bx.raw, 0);
    assert_eq!(r.by.raw, 0);
}

#[test]
fn scalar_pair_exp_ln_powf() {
    // ln 2 lands exactly on the kernel's ln-2 constant.
    let two = Scalar::new(fx(2));
    assert_eq!(two.ln().v.raw, 45426);
    // e within a tight tolerance.
    let e = Scalar::new(fx(1)).exp();
    assert!(close(e.v, raw(178145), 500));
    // 4 ^ 0.5 is close to 2.
    let s = Scalar::new(fx(4)).powf(raw(32768));
    assert!(close(s.v, fx(2), 800));
}

#[test]
fn rotor_powf_of_bare_scalar_exponentiates_scalar() {
    // No rotation axis: the power acts on the scalar alone.
    let r = Rotor::new(raw(0), raw(0), raw(0), fx(1)).powf(fx(3));
    assert_eq!(r, Rotor::one());
}

#[test]
fn ln_of_identity_rotor_is_zero_branch() {
    assert_eq!(Rotor::one().ln(), Branch::zero());
}

#[test]
fn zero_factories() {
    let p = geometric_algebra::types::Point::origin();
    assert_eq!(p.w.raw, SCALE);
    assert_eq!(Branch::zero(), Branch::new(raw(0), raw(0), raw(0)));
    assert_eq!(Translator::one().s.raw, SCALE);
}
