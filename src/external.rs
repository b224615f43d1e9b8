//! Types of the graphics and math crates that the builders carry through.
use vstd::prelude::*;

verus! {

/// An RGBA color of the graphics crate; its channels are floats, so the
/// library never reads them.
#[verifier::external_type_specification]
#[verifier::external_body]
pub struct ExColor(notan_graphics::color::Color);

/// A GPU blend mode of the graphics crate.
#[verifier::external_type_specification]
#[verifier::external_body]
pub struct ExBlendMode(notan_graphics::pipeline::BlendMode);

/// A 3x3 transform matrix of the math crate.
#[verifier::external_type_specification]
#[verifier::external_body]
pub struct ExMat3(notan_math::Mat3);

} // verus!
