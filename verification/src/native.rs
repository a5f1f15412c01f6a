//! The fixed driver constants that sampler settings translate to, read from
//! the `gl` bindings. Each function returns one constant of the driver API;
//! its contract pins the value that the Khronos registry assigns to that
//! constant, which the generated bindings reproduce.

use vstd::prelude::*;

verus! {

/// Relies on gl::REPEAT, the constant GL_REPEAT (0x2901).
#[verifier::external_body]
pub(crate) fn gl_repeat() -> (e: u32)
    ensures
        e == 0x2901u32,
{
    gl::REPEAT
}

/// Relies on gl::MIRRORED_REPEAT, the constant GL_MIRRORED_REPEAT (0x8370).
#[verifier::external_body]
pub(crate) fn gl_mirrored_repeat() -> (e: u32)
    ensures
        e == 0x8370u32,
{
    gl::MIRRORED_REPEAT
}

/// Relies on gl::CLAMP_TO_EDGE, the constant GL_CLAMP_TO_EDGE (0x812F).
#[verifier::external_body]
pub(crate) fn gl_clamp_to_edge() -> (e: u32)
    ensures
        e == 0x812Fu32,
{
    gl::CLAMP_TO_EDGE
}

/// Relies on gl::MIRROR_CLAMP_TO_EDGE, the constant GL_MIRROR_CLAMP_TO_EDGE
/// (0x8743).
#[verifier::external_body]
pub(crate) fn gl_mirror_clamp_to_edge() -> (e: u32)
    ensures
        e == 0x8743u32,
{
    gl::MIRROR_CLAMP_TO_EDGE
}

/// Relies on gl::CLAMP_TO_BORDER, the constant GL_CLAMP_TO_BORDER (0x812D).
#[verifier::external_body]
pub(crate) fn gl_clamp_to_border() -> (e: u32)
    ensures
        e == 0x812Du32,
{
    gl::CLAMP_TO_BORDER
}

/// Relies on gl::NEAREST, the constant GL_NEAREST (0x2600).
#[verifier::external_body]
pub(crate) fn gl_nearest() -> (e: u32)
    ensures
        e == 0x2600u32,
{
    gl::NEAREST
}

/// Relies on gl::LINEAR, the constant GL_LINEAR (0x2601).
#[verifier::external_body]
pub(crate) fn gl_linear() -> (e: u32)
    ensures
        e == 0x2601u32,
{
    gl::LINEAR
}

/// Relies on gl::NEAREST_MIPMAP_NEAREST, the constant
/// GL_NEAREST_MIPMAP_NEAREST (0x2700).
#[verifier::external_body]
pub(crate) fn gl_nearest_mipmap_nearest() -> (e: u32)
    ensures
        e == 0x2700u32,
{
    gl::NEAREST_MIPMAP_NEAREST
}

/// Relies on gl::LINEAR_MIPMAP_NEAREST, the constant GL_LINEAR_MIPMAP_NEAREST
/// (0x2701).
#[verifier::external_body]
pub(crate) fn gl_linear_mipmap_nearest() -> (e: u32)
    ensures
        e == 0x2701u32,
{
    gl::LINEAR_MIPMAP_NEAREST
}

/// Relies on gl::NEAREST_MIPMAP_LINEAR, the constant GL_NEAREST_MIPMAP_LINEAR
/// (0x2702).
#[verifier::external_body]
pub(crate) fn gl_nearest_mipmap_linear() -> (e: u32)
    ensures
        e == 0x2702u32,
{
    gl::NEAREST_MIPMAP_LINEAR
}

/// Relies on gl::LINEAR_MIPMAP_LINEAR, the constant GL_LINEAR_MIPMAP_LINEAR
/// (0x2703).
#[verifier::external_body]
pub(crate) fn gl_linear_mipmap_linear() -> (e: u32)
    ensures
        e == 0x2703u32,
{
    gl::LINEAR_MIPMAP_LINEAR
}

} // verus!
