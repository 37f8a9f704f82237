pub mod color;
pub mod font;
pub mod framebuffer_console;
pub mod framebuffer_images;
pub mod image;
pub mod vi;

use vstd::prelude::*;

verus! {

/// A width and a height.
#[derive(Copy, Clone, Debug, PartialEq, Eq, Structural)]
pub struct Extent2D {
    pub width: u32,
    pub height: u32,
}

/// A position.
#[derive(Copy, Clone, Debug, PartialEq, Eq, Structural)]
pub struct Offset2D {
    pub x: u32,
    pub y: u32,
}

} // verus!
