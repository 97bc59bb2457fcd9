//! The PNG encoder, as far as this crate relies on it.

use vstd::prelude::*;

verus! {

/// `png::EncodingError`, carried through as an opaque value.
#[verifier::external_type_specification]
#[verifier::external_body]
pub struct ExEncodingError(png::EncodingError);

/// Number of bytes that `width` one-bit pixels occupy when packed eight to a
/// byte.
pub open spec fn packed_row_bytes(width: int) -> int {
    (width + 7) / 8
}

/// Whether the encoder accepts a buffer of `len` bytes as the rows of a
/// one-bit image of the given size.
pub open spec fn encodable(width: u32, height: u32, len: nat) -> bool {
    &&& width > 0
    &&& height > 0
    &&& len == packed_row_bytes(width as int) * height
}

/// The file that `png::Encoder`, set to grayscale at one bit per pixel and
/// otherwise left as it comes, writes for an image of the given size whose
/// packed rows are `rows`: signature, header, compressed data and closing
/// chunk. The encoder reads no clock, no environment and no random source, so
/// the file depends on these three values alone.
pub uninterp spec fn gray1_png(width: u32, height: u32, rows: Seq<u8>) -> Seq<u8>;

/// Runs `png::Encoder` with color type grayscale and bit depth one over
/// `rows`: `Encoder::new`, `set_color`, `set_depth`, `write_header`, then
/// `Writer::write_image_data`, all into a fresh vector.
///
/// The header is refused for a zero width or a zero height. The image data is
/// refused unless `rows` holds exactly `height` rows of
/// `packed_row_bytes(width)` bytes. Writing into a vector cannot fail, so
/// these are the only errors. On success the vector holds the whole file,
/// closing chunk included. The encoder multiplies the row length by the
/// height in `usize`, hence the bound asked of the caller.
#[verifier::external_body]
pub(crate) fn encode_gray1(width: u32, height: u32, rows: &[u8]) -> (file: Result<Vec<u8>, png::EncodingError>)
    requires
        packed_row_bytes(width as int) * height <= usize::MAX,
    ensures
        file is Ok <==> encodable(width, height, rows@.len()),
        file matches Ok(bytes) ==> bytes@ == gray1_png(width, height, rows@),
{
    let mut output = Vec::new();
    {
        let mut encoder = png::Encoder::new(&mut output, width, height);
        encoder.set_color(png::ColorType::Grayscale);
        encoder.set_depth(png::BitDepth::One);
        let mut writer = encoder.write_header()?;
        writer.write_image_data(rows)?;
    }
    Ok(output)
}

} // verus!
