//! Bitmaps as the session holds them: interleaved RGBA bytes, row by row.

use vstd::prelude::*;

verus! {

/// The largest number of pixels a bitmap may hold. The clustering engine
/// sums each color channel of a region in 32 bits, so 255 times the pixel
/// count has to fit there.
pub const MAX_PIXELS: usize = 16_843_009;

/// A decoded bitmap: four bytes per pixel, rows from top to bottom.
pub struct RawImageData {
    pub data: Vec<u8>,
    pub width: usize,
    pub height: usize,
}

/// What a bitmap is, as mathematics.
pub struct ImageView {
    pub data: Seq<u8>,
    pub width: nat,
    pub height: nat,
}

/// A short description of a bitmap, for diagnostics.
#[derive(Debug)]
pub struct DebugImageData {
    pub data_len: usize,
    pub first_val: bool,
    pub width: usize,
    pub height: usize,
}

impl ImageView {
    /// Both sides are positive, the pixel count is within `MAX_PIXELS`, and
    /// the buffer holds exactly four bytes for each pixel.
    pub open spec fn valid(self) -> bool {
        &&& self.width > 0
        &&& self.height > 0
        &&& self.width * self.height <= MAX_PIXELS
        &&& self.data.len() == self.width * self.height * 4
    }
}

impl View for RawImageData {
    type V = ImageView;

    open spec fn view(&self) -> ImageView {
        ImageView { data: self.data@, width: self.width as nat, height: self.height as nat }
    }
}

impl RawImageData {
    /// Tells whether the bitmap is one that a session can trace.
    pub fn is_valid(&self) -> (ok: bool)
        ensures
            ok == self@.valid(),
    {
        if self.width == 0 || self.height == 0 {
            return false;
        }
        if self.width > MAX_PIXELS || self.height > MAX_PIXELS {
            assert(self.width * self.height > MAX_PIXELS) by (nonlinear_arith)
                requires
                    self.width > 0,
                    self.height > 0,
                    self.width > MAX_PIXELS || self.height > MAX_PIXELS,
            ;
            return false;
        }
        assert(self.width * self.height <= MAX_PIXELS * MAX_PIXELS) by (nonlinear_arith)
            requires
                self.width <= MAX_PIXELS,
                self.height <= MAX_PIXELS,
        ;
        let pixels: u64 = (self.width as u64) * (self.height as u64);
        if pixels > MAX_PIXELS as u64 {
            return false;
        }
        self.data.len() as u64 == pixels * 4
    }

    /// Describes the bitmap: the length of its buffer, its sides, and whether
    /// it has a pixel in its top left corner, with all its four bytes.
    pub fn describe(&self) -> (info: DebugImageData)
        ensures
            info.data_len == self.data@.len(),
            info.width == self.width,
            info.height == self.height,
            info.first_val == (self.width > 0 && self.height > 0 && self.data@.len() >= 4),
    {
        DebugImageData {
            data_len: self.data.len(),
            first_val: self.width > 0 && self.height > 0 && self.data.len() >= 4,
            width: self.width,
            height: self.height,
        }
    }
}

} // verus!
