//! Row-major RGB byte buffer for the rendered image.
//!
//! A pixel's three channel bytes live at consecutive positions; row `0` of
//! the buffer holds the top of the image, while the `y` coordinate of `set`
//! and `get` counts from the bottom, so writers address the image the way the
//! camera does.

use vstd::prelude::*;

use crate::export::header_bytes;
use crate::export::push_decimal;

verus! {

/// One pixel: a red, green and blue channel byte.
#[derive(Debug, Clone, Copy, PartialEq, Eq, Structural)]
pub struct RGB {
    pub r: u8,
    pub g: u8,
    pub b: u8,
}

/// Builds a pixel from its three channel bytes.
pub fn rgb(r: u8, g: u8, b: u8) -> (c: RGB)
    ensures
        c == (RGB { r, g, b }),
{
    RGB { r, g, b }
}

/// An image of `width * height` pixels, stored as `3 * width * height`
/// interleaved R, G, B bytes in row-major order.
pub struct PPM {
    width: u32,
    height: u32,
    buffer: Vec<u8>,
}

impl PPM {
    /// The image width in pixels.
    pub closed spec fn spec_width(&self) -> u32 {
        self.width
    }

    /// The image height in pixels.
    pub closed spec fn spec_height(&self) -> u32 {
        self.height
    }

    /// The raw channel bytes, top row first.
    pub closed spec fn bytes(&self) -> Seq<u8> {
        self.buffer@
    }

    /// The buffer holds exactly three bytes per pixel, and the byte count
    /// stays small enough for 32-bit offset arithmetic.
    pub open spec fn wf(&self) -> bool {
        &&& self.bytes().len() == 3 * self.spec_width() * self.spec_height()
        &&& 3 * self.spec_width() * self.spec_height() <= u32::MAX
    }

    /// Position of pixel `(x, y)`'s first channel byte: `y` counts rows from
    /// the bottom of the image, the buffer stores the top row first.
    pub open spec fn spec_offset(&self, x: u32, y: u32) -> int {
        3 * ((self.spec_height() - 1 - y) * self.spec_width() + x)
    }

    /// Allocates an all-black (all-zero) image.
    pub fn new(width: u32, height: u32) -> (ppm: PPM)
        requires
            3 * width * height <= u32::MAX,
        ensures
            ppm.wf(),
            ppm.spec_width() == width,
            ppm.spec_height() == height,
            ppm.bytes() == Seq::new((3 * width * height) as nat, |i: int| 0u8),
    {
        proof {
            assert(width * height <= 3 * width * height && width * height * 3 == 3 * width
                * height) by (nonlinear_arith);
        }
        let size: u32 = width * height * 3;
        let mut buffer: Vec<u8> = Vec::new();
        let mut i: u32 = 0;
        while i < size
            invariant
                i <= size,
                buffer@ == Seq::new(i as nat, |j: int| 0u8),
            decreases size - i,
        {
            buffer.push(0u8);
            assert(buffer@ =~= Seq::new((i + 1) as nat, |j: int| 0u8));
            i = i + 1;
        }
        assert(Seq::new(size as nat, |i: int| 0u8) =~= Seq::new(
            (3 * width * height) as nat,
            |i: int| 0u8,
        ));
        PPM { width, height, buffer }
    }

    /// Number of bytes in the buffer.
    pub fn len(&self) -> (n: usize)
        ensures
            n == self.bytes().len(),
    {
        self.buffer.len()
    }

    /// Buffer index of pixel `(x, y)`'s first channel byte.
    pub fn offset(&self, x: u32, y: u32) -> (off: usize)
        requires
            self.wf(),
            x < self.spec_width(),
            y < self.spec_height(),
        ensures
            off == self.spec_offset(x, y),
            off + 3 <= self.bytes().len(),
    {
        let real_y = self.height - y - 1;
        proof {
            let w: int = self.spec_width() as int;
            let h: int = self.spec_height() as int;
            let ry: int = real_y as int;
            let xx: int = x as int;
            assert((ry * w + xx) * 3 + 3 <= 3 * w * h) by (nonlinear_arith)
                requires
                    0 <= ry,
                    ry + 1 <= h,
                    0 <= xx,
                    xx + 1 <= w,
            ;
        }
        let offset = (real_y * self.width + x) * 3;
        offset as usize
    }

    /// Writes pixel `(x, y)`, leaving every other byte as it was.
    pub fn set(&mut self, x: u32, y: u32, color: RGB)
        requires
            old(self).wf(),
            x < old(self).spec_width(),
            y < old(self).spec_height(),
        ensures
            final(self).wf(),
            final(self).spec_width() == old(self).spec_width(),
            final(self).spec_height() == old(self).spec_height(),
            final(self).bytes() == old(self).bytes().update(
                old(self).spec_offset(x, y),
                color.r,
            ).update(old(self).spec_offset(x, y) + 1, color.g).update(
                old(self).spec_offset(x, y) + 2,
                color.b,
            ),
    {
        let offset = self.offset(x, y);
        self.buffer.set(offset, color.r);
        self.buffer.set(offset + 1, color.g);
        self.buffer.set(offset + 2, color.b);
    }

    /// Reads pixel `(x, y)` back from its three channel bytes.
    pub fn get(&self, x: u32, y: u32) -> (color: RGB)
        requires
            self.wf(),
            x < self.spec_width(),
            y < self.spec_height(),
        ensures
            color.r == self.bytes()[self.spec_offset(x, y)],
            color.g == self.bytes()[self.spec_offset(x, y) + 1],
            color.b == self.bytes()[self.spec_offset(x, y) + 2],
    {
        let offset = self.offset(x, y);
        let r = self.buffer[offset];
        let g = self.buffer[offset + 1];
        let b = self.buffer[offset + 2];
        rgb(r, g, b)
    }

    /// The bytes of the image's on-disk form: the ASCII header
    /// `P6 {width} {height} 255\n` followed by the raw buffer. Writing
    /// exactly these bytes to a file is all that saving the image does.
    pub fn file_bytes(&self) -> (out: Vec<u8>)
        ensures
            out@ == header_bytes(self.spec_width(), self.spec_height()) + self.bytes(),
    {
        let mut out: Vec<u8> = Vec::new();
        out.push(80u8);
        out.push(54u8);
        out.push(32u8);
        push_decimal(self.width, &mut out);
        out.push(32u8);
        push_decimal(self.height, &mut out);
        out.push(32u8);
        out.push(50u8);
        out.push(53u8);
        out.push(53u8);
        out.push(10u8);
        assert(out@ =~= header_bytes(self.spec_width(), self.spec_height()));
        let ghost header = out@;
        let mut i: usize = 0;
        while i < self.buffer.len()
            invariant
                i <= self.buffer.len(),
                out@ == header + self.buffer@.subrange(0, i as int),
            decreases self.buffer.len() - i,
        {
            out.push(self.buffer[i]);
            assert(out@ =~= header + self.buffer@.subrange(0, i + 1));
            i = i + 1;
        }
        assert(self.buffer@.subrange(0, self.buffer@.len() as int) =~= self.buffer@);
        out
    }
}

} // verus!
