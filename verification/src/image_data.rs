//! The decoded bitmap: width, height, and an RGBA8 pixel buffer whose length
//! is exactly `4 * width * height`.

use vstd::prelude::*;

verus! {

/// The mathematical value of a decoded image: its dimensions and the byte
/// sequence of its RGBA8 samples, row by row.
pub struct ImageView {
    pub width: nat,
    pub height: nat,
    pub pixels: Seq<u8>,
}

impl ImageView {
    /// A well-formed image has positive dimensions and exactly four samples
    /// (red, green, blue, alpha) per pixel.
    pub open spec fn wf(self) -> bool {
        &&& self.width > 0
        &&& self.height > 0
        &&& self.pixels.len() == 4 * self.width * self.height
    }
}

/// An uncompressed RGBA8 bitmap with known dimensions. Immutable once
/// constructed; the pixel buffer is never partially populated.
pub struct DecodedImage {
    width: u32,
    height: u32,
    pixels: Vec<u8>,
}

impl View for DecodedImage {
    type V = ImageView;

    closed spec fn view(&self) -> ImageView {
        ImageView {
            width: self.width as nat,
            height: self.height as nat,
            pixels: self.pixels@,
        }
    }
}

impl DecodedImage {
    /// Well-formedness of the executable value, stated over its view.
    pub open spec fn wf(&self) -> bool {
        self@.wf()
    }

    /// Builds an image from dimensions and a pixel buffer that are already
    /// consistent with one another.
    pub fn new(width: u32, height: u32, pixels: Vec<u8>) -> (img: Self)
        requires
            width > 0,
            height > 0,
            pixels@.len() == 4 * width * height,
        ensures
            img@ == (ImageView { width: width as nat, height: height as nat, pixels: pixels@ }),
            img.wf(),
    {
        DecodedImage { width, height, pixels }
    }

    pub fn width(&self) -> (w: u32)
        ensures
            w as nat == self@.width,
    {
        self.width
    }

    pub fn height(&self) -> (h: u32)
        ensures
            h as nat == self@.height,
    {
        self.height
    }

    pub fn pixels(&self) -> (px: &Vec<u8>)
        ensures
            px@ == self@.pixels,
    {
        &self.pixels
    }

    /// An independent copy with the same dimensions and the same samples.
    pub fn duplicate(&self) -> (copy: Self)
        ensures
            copy@ == self@,
    {
        let pixels = self.pixels.clone();
        DecodedImage { width: self.width, height: self.height, pixels }
    }
}

} // verus!
