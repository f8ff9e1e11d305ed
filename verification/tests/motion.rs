use geometric_algebra::fx::{Fx, PI_RAW, SCALE};
use geometric_algebra::motion::{anti_project, distance, ideal_magnitude, interpolate, motion, project};
use geometric_algebra::ops::{Dual, Exp, Magnitude, Transformation};
use geometric_algebra::types::{Dir, Line, Motor, Plane, Point, Rotor, Translator};

fn fx(v: i32) -> Fx {
    Fx::from_int(v)
}

fn raw(v: i64) -> Fx {
    Fx::from_raw(v)
}

fn close(a: Fx, b: Fx, tol: i64) -> bool {
    (a.raw - b.raw).abs() <= tol
}

#[test]
fn distance_between_unit_points() {
    let d = distance(Point::at(fx(0), fx(0), fx(0)), Point::at(fx(1), fx(0), fx(0)));
    assert_eq!(d.v.raw, SCALE);
}

#[test]
fn distance_origin_to_plane() {
    let d = distance(Point::origin(), Plane::new(fx(1), fx(0), fx(0), fx(5)));
    assert_eq!(d.v.raw, 5 * SCALE);
}

#[test]
fn distance_diagonal_points() {
    // 3-4-5 triangle: the join's direction norm is exactly five.
    let d = distance(Point::at(fx(0), fx(0), fx(0)), Point::at(fx(3), fx(4), fx(0)));
    assert_eq!(d.v.raw, 5 * SCALE);
}

#[test]
fn ideal_magnitude_of_point() {
    let m = ideal_magnitude(Point::at(fx(3), fx(4), fx(0)));
    assert_eq!(m.v.raw, 5 * SCALE);
}

#[test]
fn project_point_onto_plane() {
    let p = project(Point::at(fx(1), fx(2), fx(2)), Plane::new(fx(1), fx(0), fx(0), fx(0)));
    assert_eq!(p.x.raw, 0);
    assert_eq!(p.y.raw, 2 * SCALE);
    assert_eq!(p.z.raw, 2 * SCALE);
    assert_eq!(p.w.raw, SCALE);
}

#[test]
fn anti_project_plane_onto_point() {
    // The plane through the origin parallel to the given offset plane.
    let q: Plane = anti_project(Plane::new(fx(1), fx(0), fx(0), fx(5)), Point::origin());
    assert_eq!(q.x.raw, SCALE);
    assert_eq!(q.y.raw, 0);
    assert_eq!(q.z.raw, 0);
    assert_eq!(q.d.raw, 0);
}

#[test]
fn motion_between_points_translates_exactly() {
    let a = Point::at(fx(0), fx(0), fx(0));
    let b = Point::at(fx(2), fx(0), fx(0));
    let m: Motor = motion(a, b);
    let moved = m.transformation(a);
    assert_eq!(moved, b);
}

#[test]
fn motion_between_planes_rotates() {
    let a = Plane::new(fx(1), fx(0), fx(0), fx(0));
    let b = Plane::new(fx(0), fx(1), fx(0), fx(0));
    let m: Motor = motion(a, b);
    let moved = m.transformation(a);
    assert!(close(moved.x, b.x, 2000));
    assert!(close(moved.y, b.y, 2000));
    assert!(close(moved.z, b.z, 2000));
    assert!(close(moved.d, b.d, 2000));
}

#[test]
fn interpolate_at_zero_is_start() {
    let a = Line { dx: raw(20000), dy: raw(0), dz: raw(0), mx: raw(3000), my: raw(0), mz: raw(0) }
        .exp();
    let b = Line { dx: raw(0), dy: raw(25000), dz: raw(0), mx: raw(0), my: raw(0), mz: raw(5000) }
        .exp();
    let r: Motor = interpolate(a, b, raw(0));
    assert_eq!(r, a);
}

#[test]
fn interpolate_at_one_is_close_to_end() {
    let a = Rotor::from_angle_axis(raw(40000), Dir::new(raw(0), raw(0), raw(SCALE)));
    let b = Rotor::from_angle_axis(raw(90000), Dir::new(raw(0), raw(0), raw(SCALE)));
    let r: Rotor = interpolate(a, b, fx(1));
    assert!(close(r.s, b.s, 2000));
    assert!(close(r.bx, b.bx, 2000));
    assert!(close(r.by, b.by, 2000));
    assert!(close(r.bz, b.bz, 2000));
}

#[test]
fn interpolate_halfway_between_rotors() {
    let a = Rotor::from_angle_axis(raw(0), Dir::new(raw(0), raw(0), raw(SCALE)));
    let b = Rotor::from_angle_axis(raw(80000), Dir::new(raw(0), raw(0), raw(SCALE)));
    let mid: Rotor = interpolate(a, b, raw(32768));
    let expect = Rotor::from_angle_axis(raw(40000), Dir::new(raw(0), raw(0), raw(SCALE)));
    assert!(close(mid.s, expect.s, 2000));
    assert!(close(mid.bz, expect.bz, 2000));
}

#[test]
fn translator_matrix_carries_translation() {
    let t = Translator::new(fx(2), fx(0), fx(0));
    let m = t.matrix();
    // The weight row maps to the translated origin.
    assert_eq!(m[3].x.raw, 2 * SCALE);
    assert_eq!(m[3].y.raw, 0);
    assert_eq!(m[3].z.raw, 0);
    assert_eq!(m[3].w.raw, SCALE);
    // Direction rows are untouched by a translation.
    assert_eq!(m[0].x.raw, SCALE);
    assert_eq!(m[0].w.raw, 0);
}

#[test]
fn rotor_matrix_half_turn() {
    let r = Rotor::from_angle_axis(raw(PI_RAW), Dir::new(raw(0), raw(0), raw(SCALE)));
    let m = r.matrix();
    // A half turn about z negates the x and y rows.
    assert!(close(m[0].x, raw(-SCALE), 1200));
    assert!(close(m[0].y, raw(0), 1200));
    assert!(close(m[1].y, raw(-SCALE), 1200));
    assert!(close(m[2].z, raw(SCALE), 1200));
    assert!(close(m[3].w, raw(SCALE), 1200));
}

#[test]
fn motor_matrix_of_pure_translation_motor() {
    let a = Point::at(fx(0), fx(0), fx(0));
    let b = Point::at(fx(0), fx(4), fx(0));
    let m: Motor = motion(a, b);
    let rows = m.matrix();
    assert_eq!(rows[3].y.raw, 4 * SCALE);
    assert_eq!(rows[3].w.raw, SCALE);
}

#[test]
fn dir_length_and_normalize() {
    let d = Dir::new(fx(3), fx(4), fx(0));
    assert_eq!(d.length().v.raw, 5 * SCALE);
    let n = d.normalize();
    assert_eq!(n.x.raw, 39321);
    assert_eq!(n.y.raw, 52428);
    assert_eq!(n.z.raw, 0);
}

#[test]
fn point_dir_drops_weight() {
    let p = Point::new(fx(3), fx(0), fx(0), fx(1));
    let d = p.dir();
    assert_eq!(d.x.raw, 3 * SCALE);
    assert_eq!(d.y.raw, 0);
    let q = Dir::new(fx(1), fx(2), fx(3)).point();
    assert_eq!(q.w.raw, SCALE);
}

#[test]
fn dual_of_line_swaps_parts() {
    let l = Line { dx: fx(1), dy: fx(2), dz: fx(3), mx: fx(4), my: fx(5), mz: fx(6) };
    let d = l.dual();
    assert_eq!(d.dx, l.mx);
    assert_eq!(d.mx, l.dx);
    // The ideal norm of the line is its moment's norm.
    let im = ideal_magnitude(Line {
        dx: fx(0),
        dy: fx(0),
        dz: fx(0),
        mx: fx(3),
        my: fx(4),
        mz: fx(0),
    });
    assert_eq!(im.v.raw, 5 * SCALE);
}

#[test]
fn distance_to_ideal_point_saturates() {
    // A direction has zero weight, so the normalizing magnitude vanishes
    // and the total division saturates to the representable bound.
    let d = distance(Point::new(fx(1), fx(0), fx(0), fx(0)), Point::at(fx(0), fx(0), fx(0)));
    assert_eq!(d.v.raw, 0x7fff_ffff_ffff);
}

#[test]
fn magnitude_excludes_ideal_part() {
    let p = Plane::new(fx(0), fx(3), fx(4), fx(100));
    assert_eq!(p.magnitude().v.raw, 5 * SCALE);
    let pt = Point::at(fx(9), fx(9), fx(9));
    assert_eq!(pt.magnitude().v.raw, SCALE);
}
