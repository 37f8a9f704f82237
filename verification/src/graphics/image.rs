//! An image: a row-major array of pixels, `width` pixels to a row, of which the rightmost
//! `padding_right` are not shown.

use vstd::prelude::*;

use crate::graphics::color::Color;

verus! {

pub struct Image<T: Copy + Color> {
    width: u32,
    height: u32,
    padding_right: u32,
    pixels: Vec<T>,
}

impl<T: Copy + Color> Image<T> {
    /// Pixels per row, the padding included.
    pub closed spec fn spec_width(&self) -> u32 {
        self.width
    }

    /// Number of rows.
    pub closed spec fn spec_height(&self) -> u32 {
        self.height
    }

    /// Pixels at the right of each row that are not shown.
    pub closed spec fn spec_padding_right(&self) -> u32 {
        self.padding_right
    }

    /// The pixels, row after row.
    pub closed spec fn pixels(&self) -> Seq<T> {
        self.pixels@
    }

    /// Whether `width * height` pixels are there and every index of them fits in 32 bits.
    pub open spec fn pixels_fit(&self) -> bool {
        &&& self.spec_width() * self.spec_height() <= self.pixels().len()
        &&& self.spec_width() * self.spec_height() <= 0x1_0000_0000
    }

    /// `after` has the size of `before`.
    pub open spec fn same_shape(before: Self, after: Self) -> bool {
        &&& after.spec_width() == before.spec_width()
        &&& after.spec_height() == before.spec_height()
        &&& after.spec_padding_right() == before.spec_padding_right()
        &&& after.pixels().len() == before.pixels().len()
    }

    /// An image of the given size over the given pixels.
    pub fn new(width: u32, height: u32, padding_right: u32, pixels: Vec<T>) -> (r: Self)
        ensures
            r.spec_width() == width,
            r.spec_height() == height,
            r.spec_padding_right() == padding_right,
            r.pixels() == pixels@,
    {
        Self { width, height, padding_right, pixels }
    }

    /// Sets every pixel of the `width` by `height` rectangle to `color`.
    pub fn clear_with_color(&mut self, color: T)
        requires
            old(self).pixels_fit(),
        ensures
            Self::same_shape(*old(self), *final(self)),
            forall|k: int| 0 <= k < old(self).spec_width() * old(self).spec_height() ==> #[trigger] final(self).pixels()[k] == color,
            forall|k: int| old(self).spec_width() * old(self).spec_height() <= k < old(self).pixels().len() ==> #[trigger] final(self).pixels()[k] == old(self).pixels()[k],
    {
        let ghost w = self.width as int;
        let ghost h = self.height as int;
        let mut y: u32 = 0;
        while y < self.height
            invariant
                Self::same_shape(*old(self), *self),
                w == self.width,
                h == self.height,
                0 <= y <= h,
                w * h <= self.pixels().len(),
                w * h <= 0x1_0000_0000,
                forall|k: int| 0 <= k < y * w ==> #[trigger] self.pixels()[k] == color,
                forall|k: int| y * w <= k < self.pixels().len() ==> #[trigger] self.pixels()[k] == old(self).pixels()[k],
            decreases h - y,
        {
            let mut x: u32 = 0;
            while x < self.width
                invariant
                    Self::same_shape(*old(self), *self),
                    w == self.width,
                    h == self.height,
                    0 <= y < h,
                    0 <= x <= w,
                    w * h <= self.pixels().len(),
                    w * h <= 0x1_0000_0000,
                    forall|k: int| 0 <= k < y * w + x ==> #[trigger] self.pixels()[k] == color,
                    forall|k: int| y * w + x <= k < self.pixels().len() ==> #[trigger] self.pixels()[k] == old(self).pixels()[k],
                decreases w - x,
            {
                assert(y * w + x < w * h) by (nonlinear_arith)
                    requires
                        0 <= y < h,
                        0 <= x < w;
                self.set_pixel(x, y, color);
                x = x + 1;
            }
            assert((y + 1) * w == y * w + w) by (nonlinear_arith);
            y = y + 1;
        }
        assert(y * w == w * h) by (nonlinear_arith)
            requires
                y == h;
    }

    /// Sets the pixel at column `x` of row `y`.
    pub fn set_pixel(&mut self, x: u32, y: u32, color: T)
        requires
            y * old(self).spec_width() + x <= u32::MAX,
            y * old(self).spec_width() + x < old(self).pixels().len(),
        ensures
            Self::same_shape(*old(self), *final(self)),
            final(self).pixels() == old(self).pixels().update(y * old(self).spec_width() + x, color),
    {
        let i = (y * self.width + x) as usize;
        self.pixels.set(i, color);
    }

    /// The width that is shown.
    pub fn padded_width(&self) -> (r: u32)
        requires
            self.spec_padding_right() <= self.spec_width(),
        ensures
            r == self.spec_width() - self.spec_padding_right(),
    {
        self.width - self.padding_right
    }

    /// The number of rows.
    pub fn height(&self) -> (r: u32)
        ensures
            r == self.spec_height(),
    {
        self.height
    }

    /// The pixels, row after row, to be changed in place.
    pub fn pixels_mut(&mut self) -> (r: &mut Vec<T>)
        ensures
            r@ == old(self).pixels(),
            final(self).spec_width() == old(self).spec_width(),
            final(self).spec_height() == old(self).spec_height(),
            final(self).spec_padding_right() == old(self).spec_padding_right(),
            final(self).pixels() == final(r)@,
    {
        &mut self.pixels
    }
}

} // verus!
