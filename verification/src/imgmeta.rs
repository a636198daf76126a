//! What the library reads out of encoded image bytes: the pixel dimensions
//! their header declares, and whether they decode as a complete PNG image.
//! Both are functions of the bytes alone; the decoders of outside crates
//! compute them behind trusted wrappers.

use vstd::prelude::*;

verus! {

/// Pixel dimensions of an encoded image, as its header declares them.
#[derive(Clone, Copy, Debug, PartialEq, Eq, Structural)]
pub struct Dims {
    pub width: usize,
    pub height: usize,
}

/// The pixel dimensions that the encoded bytes declare, or nothing where the
/// bytes are not a readable image header.
pub uninterp spec fn header_dims(bytes: Seq<u8>) -> Option<(usize, usize)>;

/// Whether the bytes decode as a complete, well-formed PNG image: the
/// header parses and the whole pixel frame comes out of the decoder.
pub uninterp spec fn decodes_as_png(bytes: Seq<u8>) -> bool;

/// Relies on imagesize::blob_size: reads the image header in `bytes` and
/// returns the pixel dimensions it declares; an error becomes `None`.
#[verifier::external_body]
pub(crate) fn blob_dimensions(bytes: &Vec<u8>) -> (r: Option<Dims>)
    ensures
        match r {
            Some(d) => header_dims(bytes@) == Some((d.width, d.height)),
            None => header_dims(bytes@) is None,
        },
{
    match imagesize::blob_size(bytes) {
        Ok(s) => Some(Dims { width: s.width, height: s.height }),
        Err(_) => None,
    }
}

/// Relies on png's Decoder (read_info, then next_frame): decodes the bytes
/// as a PNG image, returning whether the decoder accepted the whole frame.
/// Malformed input — an indexed image missing its palette included — comes
/// back as an error, never a fault.
#[verifier::external_body]
pub(crate) fn validate_png(bytes: &Vec<u8>) -> (r: bool)
    ensures
        r == decodes_as_png(bytes@),
{
    let mut decoder = png::Decoder::new(bytes.as_slice());
    decoder.set_transformations(png::Transformations::EXPAND);
    match decoder.read_info() {
        Ok(mut reader) => {
            let mut buf = vec![0u8; reader.output_buffer_size()];
            reader.next_frame(&mut buf).is_ok()
        },
        Err(_) => false,
    }
}

} // verus!
