//! 3D projective geometric algebra over saturating fixed-point scalars.
//!
//! Points, planes, lines and rigid motions (rotors, translators, motors) are
//! graded multivector value types. The core is the exponential / logarithm /
//! power engine that converts between motion generators (bivectors) and
//! finite group elements, plus motion derivation (distance, projection,
//! shortest-arc motion, screw interpolation) built on top of it.
//!
//! Every scalar is a binary fixed-point number ([`fx::Fx`]); each arithmetic
//! operation is total (it saturates instead of overflowing) and carries an
//! exact integer-level contract, so every geometric formula in this crate is
//! pinned down to the bit.

pub mod fx;
pub mod types;
pub mod ops;
pub mod engine;
pub mod motion;
pub mod laws;
