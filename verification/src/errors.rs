//! Failure taxonomy of the pipeline: decoding failures are fatal to the
//! initial load; write failures only abort the one save request that hit them.

use vstd::prelude::*;

verus! {

/// Why a byte sequence could not become a `DecodedImage`.
#[derive(Clone, Copy, Debug, PartialEq, Eq, Structural)]
pub enum DecodeError {
    /// The format could not be sniffed, or the decoder rejected the payload.
    Unrecognized,
    /// The payload decoded to an image with a zero dimension, which the
    /// pipeline cannot display or save.
    EmptyImage,
}

/// Why a save request could not produce encoded bytes. A failed write never
/// touches the shared image state.
#[derive(Debug)]
pub enum WriteError {
    /// The target path carries no extension that names a supported encoder.
    UnsupportedExtension,
    /// The encoder rejected the bitmap; the payload is its report.
    EncodingFailed(String),
}

impl WriteError {
    /// A short description for the log line a failed save emits.
    pub fn describe(&self) -> (msg: String)
        ensures
            self matches WriteError::EncodingFailed(m) ==> msg@ == m@,
            self matches WriteError::UnsupportedExtension ==> msg@
                == "no encoder for the path's extension"@,
    {
        match self {
            WriteError::UnsupportedExtension => "no encoder for the path's extension".to_owned(),
            WriteError::EncodingFailed(m) => m.clone(),
        }
    }
}

} // verus!
