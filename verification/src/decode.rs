//! Decoding: sniff the encoding of a byte sequence and decode it to an RGBA8
//! bitmap. Decoding is a pure function of the input bytes; it may fail.

use vstd::prelude::*;

use crate::errors::DecodeError;
use crate::image_data::DecodedImage;
use crate::image_data::ImageView;

verus! {

/// What the image decoder yields on a byte sequence: nothing when the format
/// cannot be sniffed or the payload is rejected, otherwise the width, height
/// and RGBA8 samples of the decoded bitmap. Decoding an in-memory buffer
/// depends on its bytes alone.
pub uninterp spec fn decoded_rgba_of(bytes: Seq<u8>) -> Option<(u32, u32, Seq<u8>)>;

/// Relies on `image::load_from_memory` and `DynamicImage::to_rgba8`: the
/// format is guessed from the bytes and the payload decoded to an RGBA8
/// buffer of exactly four samples per pixel; both steps read only the input.
#[verifier::external_body]
fn decode_rgba8(bytes: &Vec<u8>) -> (r: Result<(u32, u32, Vec<u8>), DecodeError>)
    ensures
        match r {
            Ok((w, h, px)) => decoded_rgba_of(bytes@) == Some((w, h, px@)) && px@.len() == 4 * w
                * h,
            Err(e) => decoded_rgba_of(bytes@) is None && e == DecodeError::Unrecognized,
        },
{
    match image::load_from_memory(bytes.as_slice()) {
        Ok(dynamic) => {
            let rgba = dynamic.to_rgba8();
            let (w, h) = (rgba.width(), rgba.height());
            Ok((w, h, rgba.into_raw()))
        },
        Err(_) => Err(DecodeError::Unrecognized),
    }
}

/// What `decode` returns on a byte sequence: the decoded bitmap, or the error
/// that names why the bytes were rejected.
pub open spec fn spec_decode(bytes: Seq<u8>) -> Result<ImageView, DecodeError> {
    match decoded_rgba_of(bytes) {
        Option::None => Err(DecodeError::Unrecognized),
        Option::Some((w, h, px)) => if w == 0 || h == 0 {
            Err(DecodeError::EmptyImage)
        } else {
            Ok(ImageView { width: w as nat, height: h as nat, pixels: px })
        },
    }
}

/// Decodes a byte sequence to an RGBA8 bitmap. On success the bitmap is well
/// formed: positive dimensions and a pixel buffer of exactly
/// `4 * width * height` samples.
pub fn decode(bytes: &Vec<u8>) -> (r: Result<DecodedImage, DecodeError>)
    ensures
        match r {
            Ok(img) => spec_decode(bytes@) == Ok::<ImageView, DecodeError>(img@) && img.wf(),
            Err(e) => spec_decode(bytes@) == Err::<ImageView, DecodeError>(e),
        },
{
    match decode_rgba8(bytes) {
        Ok((w, h, px)) => {
            if w == 0 || h == 0 {
                Err(DecodeError::EmptyImage)
            } else {
                Ok(DecodedImage::new(w, h, px))
            }
        },
        Err(e) => Err(e),
    }
}

} // verus!
