//! Verified building blocks of an N64 hardware test suite: instruction encoders for the VR4300
//! and the RSP, register bitfields, colors, fonts, images and vector helpers.

pub mod assembler;
pub mod bits;
pub mod cop0;
pub mod emux;
pub mod isviewer;
pub mod graphics;
pub mod math;
pub mod mi;
pub mod pi;
pub mod rdp;
pub mod register;
pub mod rsp;
pub mod sc64;

use vstd::prelude::*;

verus! {

} // verus!
