//! A proportional bitmap font, decoded from a compact binary form:
//!
//! - byte 0: baseline, bytes 1 and 2: bytes per bitmap row (little-endian), byte 3: height,
//! - bytes 4 and 5: offset of the x offset table, bytes 6 and 7: offset of the bitmap,
//! - the x offset table: a 16 bit little-endian start column per character from `' '` on, the
//!   width of a character being the distance to the next start column,
//! - the bitmap: `height` rows of `bytes per row` bytes, most significant bit leftmost.

use vstd::prelude::*;

use crate::graphics::color::Color;
use crate::graphics::image::Image;

verus! {

use vstd::arithmetic::div_mod::{lemma_fundamental_div_mod, lemma_fundamental_div_mod_converse};
use vstd::slice::slice_subrange;

pub const FIRST_CHAR_IN_FONT: u8 = 32;

/// A little-endian 16 bit number.
pub open spec fn le16(lo: u8, hi: u8) -> u16 {
    (lo as u16) | ((hi as u16) << 8u16)
}

/// The baseline that a font's data declares.
pub open spec fn data_baseline(data: Seq<u8>) -> u16 {
    data[0] as u16
}

/// The bytes per bitmap row that a font's data declares.
pub open spec fn data_bytes_per_row(data: Seq<u8>) -> u16 {
    le16(data[1], data[2])
}

/// The height that a font's data declares.
pub open spec fn data_height(data: Seq<u8>) -> u16 {
    data[3] as u16
}

/// Where a font's x offset table starts.
pub open spec fn data_x_offsets_start(data: Seq<u8>) -> int {
    le16(data[4], data[5]) as int
}

/// Where a font's bitmap starts.
pub open spec fn data_bitstream_start(data: Seq<u8>) -> int {
    le16(data[6], data[7]) as int
}

/// Whether a font's data passes the checks: the baseline lies within the characters, the x offset
/// table holds at least two entries, and the bitmap is not empty.
pub open spec fn data_is_sane(data: Seq<u8>) -> bool {
    &&& data_baseline(data) < data_height(data)
    &&& data_bitstream_start(data) >= data_x_offsets_start(data) + 4
    &&& data.len() > data_bitstream_start(data)
}

#[derive(Debug)]
pub struct Font<'a> {
    pub height: u16,
    pub baseline: u16,
    bitstream: &'a [u8],
    x_offsets: &'a [u8],
    bytes_per_row: u16,
    max_char: u8,
}

impl<'a> Font<'a> {
    /// The height of the characters in pixels.
    pub closed spec fn spec_height(&self) -> u16 {
        self.height
    }

    /// The row of the baseline, counted from the top of the characters.
    pub closed spec fn spec_baseline(&self) -> u16 {
        self.baseline
    }

    /// The bitmap.
    pub closed spec fn spec_bitstream(&self) -> Seq<u8> {
        self.bitstream@
    }

    /// The x offset table.
    pub closed spec fn spec_x_offsets(&self) -> Seq<u8> {
        self.x_offsets@
    }

    /// Bytes per bitmap row.
    pub closed spec fn spec_bytes_per_row(&self) -> u16 {
        self.bytes_per_row
    }

    /// The last character that the font has.
    pub closed spec fn spec_max_char(&self) -> u8 {
        self.max_char
    }

    /// Whether this font is what `data` decodes to.
    pub open spec fn decoded_from(&self, data: Seq<u8>) -> bool {
        &&& self.spec_height() == data_height(data)
        &&& self.spec_baseline() == data_baseline(data)
        &&& self.spec_bytes_per_row() == data_bytes_per_row(data)
        &&& self.spec_x_offsets() == data.subrange(data_x_offsets_start(data), data_bitstream_start(data))
        &&& self.spec_bitstream() == data.subrange(data_bitstream_start(data), data.len() as int)
        &&& self.spec_max_char() == ((data_bitstream_start(data) - data_x_offsets_start(data)) / 2 + 30) as u8
    }

    /// Decodes and checks font data. `None` when the checks fail (see [`data_is_sane`]).
    pub fn from_data(data: &'a [u8]) -> (r: Option<Font<'a>>)
        requires
            data@.len() >= 8,
        ensures
            r is Some <==> data_is_sane(data@),
            r matches Some(font) ==> font.decoded_from(data@),
    {
        let baseline = data[0] as u16;
        let bytes_per_row = data[1] as u16 | (data[2] as u16) << 8u16;
        let height = data[3] as u16;
        let o_x_offsets = (data[4] as u16 | (data[5] as u16) << 8u16) as usize;
        let o_bitstream = (data[6] as u16 | (data[7] as u16) << 8u16) as usize;

        if baseline >= height || o_bitstream < o_x_offsets + 4 || data.len() <= o_bitstream {
            return None;
        }
        let x_offsets = slice_subrange(data, o_x_offsets, o_bitstream);
        let bitstream = slice_subrange(data, o_bitstream, data.len());
        let max_char = (x_offsets.len() / 2 + FIRST_CHAR_IN_FONT as usize - 2) as u8;
        let font = Font { height, baseline, bitstream, x_offsets, bytes_per_row, max_char };
        Some(font)
    }

    /// Where the x offset table entry of `c` starts: twice the distance of its low 16 bits from
    /// `' '`, computed in 16 bits.
    pub open spec fn x_offset_index(c: char) -> int {
        (((((c as u32) as u16) - 32) as u16) << 1u16) as int
    }

    /// Whether the x offset table holds the entries of `c` and of the character after it.
    pub open spec fn has_offsets(&self, c: char) -> bool {
        0 <= Self::x_offset_index(c) && Self::x_offset_index(c) + 3 < self.spec_x_offsets().len()
    }

    /// The x offset table's start column of `c`.
    pub open spec fn table_x0(&self, c: char) -> u16 {
        le16(self.spec_x_offsets()[Self::x_offset_index(c)], self.spec_x_offsets()[Self::x_offset_index(c) + 1])
    }

    /// The x offset table's start column of the character after `c`.
    pub open spec fn table_x1(&self, c: char) -> u16 {
        le16(self.spec_x_offsets()[Self::x_offset_index(c) + 2], self.spec_x_offsets()[Self::x_offset_index(c) + 3])
    }

    /// Whether `c` has a glyph of its own: its offset entries exist and do not decrease.
    pub open spec fn has_glyph(&self, c: char) -> bool {
        self.has_offsets(c) && self.table_x0(c) <= self.table_x1(c)
    }

    /// The start column of `c` in the bitmap (0 when the table lacks it).
    pub open spec fn glyph_x0(&self, c: char) -> u16 {
        if self.has_offsets(c) { self.table_x0(c) } else { 0 }
    }

    /// The width of `c` in pixels: the distance to the next start column, and 0 when the table
    /// lacks the entries or the next start column lies before this one.
    pub open spec fn glyph_width(&self, c: char) -> int {
        if self.has_glyph(c) { self.table_x1(c) - self.table_x0(c) } else { 0 }
    }

    /// Whether `c` (taken by its low byte, as a cast to `u8` does) is in the font.
    pub open spec fn spec_is_printable(&self, c: char) -> bool {
        ((c as u32) as u8) >= FIRST_CHAR_IN_FONT && ((c as u32) as u8) <= self.spec_max_char()
    }

    /// Whether the bitmap pixel at column `x0 + x` of row `y` is set (a pixel outside the bitmap
    /// is not).
    pub open spec fn glyph_bit(&self, x0: int, x: int, y: int) -> bool {
        let xx = x0 + x;
        let index = y * self.spec_bytes_per_row() + xx / 8;
        &&& 0 <= index < self.spec_bitstream().len()
        &&& ((self.spec_bitstream()[index] << ((xx % 8) as u16)) & 0x80u8) != 0u8
    }

    /// The image row of the glyph's top row when the character is drawn at row `cy` (it may lie
    /// above the image).
    pub open spec fn top_row(&self, cy: int) -> int {
        cy - self.spec_height() + self.spec_baseline()
    }

    /// Whether drawing `c` at (`cx`, `cy`) paints pixel `k` of an image `image_width` pixels wide
    /// and `image_height` rows high: a set bit of the glyph that lands on a row of the image.
    pub open spec fn paints(&self, image_width: int, image_height: int, cx: int, cy: int, c: char, k: int) -> bool {
        let y = k / image_width - self.top_row(cy);
        let x = k % image_width - cx;
        &&& k / image_width < image_height
        &&& 0 <= y < self.spec_height()
        &&& 0 <= x < self.glyph_width(c)
        &&& self.glyph_bit(self.glyph_x0(c) as int, x, y)
    }

    /// Whether `paints` holds and the painted pixel comes before column `xe` of row `ye` of the
    /// glyph.
    pub open spec fn paints_before(&self, image_width: int, image_height: int, cx: int, cy: int, c: char, k: int, ye: int, xe: int) -> bool {
        let y = k / image_width - self.top_row(cy);
        let x = k % image_width - cx;
        &&& self.paints(image_width, image_height, cx, cy, c, k)
        &&& (y < ye || (y == ye && x < xe))
    }

    fn x_offset_width(&self, c: char) -> (r: (u16, u16))
        requires
            self.spec_is_printable(c),
        ensures
            r.0 == self.glyph_x0(c),
            r.1 == self.glyph_width(c),
    {
        let cu = c as u32;
        assert((cu as u16) >= 32) by (bit_vector)
            requires
                (cu as u8) >= 32u8;
        let co = (((cu as u16) - (FIRST_CHAR_IN_FONT as u16)) << 1u16) as usize;
        if co + 3 < self.x_offsets.len() {
            let x0 = self.x_offsets[co] as u16 | (self.x_offsets[co + 1] as u16) << 8u16;
            let x1 = self.x_offsets[co + 2] as u16 | (self.x_offsets[co + 3] as u16) << 8u16;
            if x0 <= x1 {
                (x0, x1 - x0)
            } else {
                (x0, 0)
            }
        } else {
            (0, 0)
        }
    }

    fn is_printable(&self, c: char) -> (r: bool)
        ensures
            r == self.spec_is_printable(c),
    {
        let c = (c as u32) as u8;
        c >= FIRST_CHAR_IN_FONT && c <= self.max_char
    }

    /// Draws `c` with its top row at row `cy - height + baseline` of the image and its left edge
    /// at column `cx`: every set bitmap pixel of the glyph that lands on a row of the image
    /// becomes `color`. Returns the width of the glyph, 0 when the font lacks `c`, and `None`
    /// when the glyph would stick out on the right. The glyph is drawn only when `cy + height` is
    /// above the image's bottom. A character is looked up in the x offset table by its low 16
    /// bits; a glyph whose entries lie past the table's end, or whose next start column lies
    /// before its own, is empty. Only the image has to be valid: its padding
    /// within its width, and its `width * height` pixels present and indexable in 32 bits.
    pub fn draw_char<TColor: Copy + Color>(&self, image: &mut Image<TColor>, cx: u16, cy: u16, color: TColor, c: char) -> (r: Option<u16>)
        requires
            old(image).spec_padding_right() <= old(image).spec_width(),
            old(image).pixels_fit(),
        ensures
            !self.spec_is_printable(c) ==> r == Some(0u16) && *final(image) == *old(image),
            self.spec_is_printable(c) && cx + self.glyph_width(c) > old(image).spec_width() - old(image).spec_padding_right()
                ==> r is None && *final(image) == *old(image),
            self.spec_is_printable(c) && cx + self.glyph_width(c) <= old(image).spec_width() - old(image).spec_padding_right() ==> {
                &&& r == Some(self.glyph_width(c) as u16)
                &&& Image::same_shape(*old(image), *final(image))
                &&& cy + self.spec_height() >= old(image).spec_height() ==> *final(image) == *old(image)
                &&& cy + self.spec_height() < old(image).spec_height() ==> forall|k: int| 0 <= k < old(image).pixels().len() ==>
                    #[trigger] final(image).pixels()[k] == if self.paints(
                        old(image).spec_width() as int,
                        old(image).spec_height() as int,
                        cx as int,
                        cy as int,
                        c,
                        k,
                    ) {
                        color
                    } else {
                        old(image).pixels()[k]
                    }
            },
    {
        if self.is_printable(c) {
            let (x0, width) = self.x_offset_width(c);
            if (cx as u32) + (width as u32) > image.padded_width() {
                return None;
            }
            let ih = image.height();
            if (cy as u32) + (self.height as u32) < ih {
                let ghost before = *image;
                let ghost iw = image.spec_width() as int;
                let mut y: u16 = 0;
                while y < self.height
                    invariant
                        self.spec_is_printable(c),
                        before.pixels_fit(),
                        before.spec_padding_right() <= iw,
                        cx + width <= iw - before.spec_padding_right(),
                        ih == before.spec_height(),
                        x0 == self.glyph_x0(c),
                        width == self.glyph_width(c),
                        iw == before.spec_width(),
                        Image::same_shape(before, *image),
                        0 <= y <= self.spec_height(),
                        forall|k: int| 0 <= k < before.pixels().len() ==> #[trigger] image.pixels()[k]
                            == if self.paints_before(iw, ih as int, cx as int, cy as int, c, k, y as int, 0) { color } else { before.pixels()[k] },
                    decreases self.spec_height() - y,
                {
                    let top = (cy as u32) + (self.baseline as u32) + (y as u32);
                    if top >= self.height as u32 && top - (self.height as u32) < ih {
                        let yy = top - (self.height as u32);
                        assert((y as u64) * (self.bytes_per_row as u64) < 0x1_0000_0000) by (nonlinear_arith)
                            requires
                                y <= 0xFFFF,
                                self.bytes_per_row <= 0xFFFF;
                        let yo = (y as u64) * (self.bytes_per_row as u64);
                        let mut x: u16 = 0;
                        while x < width
                            invariant
                                self.spec_is_printable(c),
                                before.pixels_fit(),
                                before.spec_padding_right() <= iw,
                                cx + width <= iw - before.spec_padding_right(),
                                ih == before.spec_height(),
                                x0 == self.glyph_x0(c),
                                width == self.glyph_width(c),
                                iw == before.spec_width(),
                                Image::same_shape(before, *image),
                                0 <= y < self.spec_height(),
                                yo == y * self.spec_bytes_per_row(),
                                yo < 0x1_0000_0000,
                                yy == self.top_row(cy as int) + y,
                                0 <= yy < ih,
                                0 <= x <= width,
                                forall|k: int| 0 <= k < before.pixels().len() ==> #[trigger] image.pixels()[k]
                                    == if self.paints_before(iw, ih as int, cx as int, cy as int, c, k, y as int, x as int) { color } else { before.pixels()[k] },
                            decreases width - x,
                        {
                            let ghost cur = *image;
                            let xx = (x0 as u64) + (x as u64);
                            let index = yo + xx / 8;
                            let ghost i = yy as int * iw + (cx + x) as int;
                            proof {
                                lemma_fundamental_div_mod_converse(i, iw, yy as int, (cx + x) as int);
                                assert(yy * iw + (cx + x) < iw * ih) by (nonlinear_arith)
                                    requires
                                        0 <= yy < ih,
                                        0 <= cx + x < iw;
                            }
                            if index < self.bitstream.len() as u64 {
                                let byte = self.bitstream[index as usize];
                                let shift = (xx % 8) as u16;
                                if (byte << shift) & 0x80 != 0 {
                                    proof {
                                        assert(self.glyph_bit(self.glyph_x0(c) as int, x as int, y as int));
                                    }
                                    image.set_pixel((cx as u32) + (x as u32), yy, color);
                                }
                            }
                            proof {
                                assert forall|k: int| 0 <= k < before.pixels().len() implies #[trigger] image.pixels()[k]
                                    == if self.paints_before(iw, ih as int, cx as int, cy as int, c, k, y as int, x + 1) { color } else { before.pixels()[k] } by {
                                    if k != i {
                                        assert(image.pixels()[k] == cur.pixels()[k]);
                                        if k / iw - self.top_row(cy as int) == y && k % iw - cx == x {
                                            lemma_fundamental_div_mod(k, iw);
                                            assert(k == iw * (k / iw) + k % iw);
                                            assert(iw * (k / iw) == (k / iw) * iw) by (nonlinear_arith);
                                            assert(false);
                                        }
                                    }
                                }
                            }
                            x = x + 1;
                        }
                    } else {
                        proof {
                            assert forall|k: int| 0 <= k < before.pixels().len() implies #[trigger] image.pixels()[k]
                                == if self.paints_before(iw, ih as int, cx as int, cy as int, c, k, y + 1, 0) { color } else { before.pixels()[k] } by {
                                if self.paints(iw, ih as int, cx as int, cy as int, c, k) && k / iw - self.top_row(cy as int) == y {
                                    assert(iw > 0);
                                    lemma_fundamental_div_mod(k, iw);
                                    assert(k / iw >= 0) by (nonlinear_arith)
                                        requires
                                            k >= 0,
                                            iw > 0;
                                    assert(false);
                                }
                            }
                        }
                    }
                    y = y + 1;
                }
            }
            Some(width)
        } else {
            Some(0)
        }
    }
}

/// A font that passed the checks of `from_data` has its baseline within its characters, and the
/// x offset entries of every character that it reports as printable, as long as the character is
/// below 256 (a wider character is looked up by its low 16 bits and may lie past the table).
pub proof fn lemma_decoded_font_has_offsets(font: Font, data: Seq<u8>, c: char)
    requires
        data.len() >= 8,
        data_is_sane(data),
        font.decoded_from(data),
        font.spec_is_printable(c),
        (c as u32) <= 0xFF,
    ensures
        font.spec_baseline() < font.spec_height(),
        font.has_offsets(c),
{
    let len = font.spec_x_offsets().len() as int;
    let cu = c as u32;
    let b = cu as u8;
    let co16: u16 = ((((cu as u16) - 32) as u16) << 1u16);
    assert(b as u32 == cu && cu >= 32 && co16 as u32 == 2 * (cu - 32)) by (bit_vector)
        requires
            cu <= 0xFF,
            b == cu as u8,
            b >= 32u8,
            co16 == ((((cu as u16) - 32) as u16) << 1u16);
    assert(len >= 4);
    let m = len / 2 + 30;
    if m <= 255 {
        assert(b <= m);
    } else {
        assert(b <= 255);
    }
}

} // verus!
