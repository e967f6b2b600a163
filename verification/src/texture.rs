use image::GenericImageView;
use vstd::prelude::*;

use crate::surface::rgba_copy_layout;

verus! {

/// Decodes an encoded image with `image::load_from_memory` (which guesses the format from
/// the bytes, consulting any format hooks registered in the process, and decodes them)
/// and converts it to RGBA, 8 bits a channel, with `to_rgba8`. The decoded image is not
/// stated: it may depend on hooks registered elsewhere. What holds of every outcome is
/// stated: `to_rgba8` builds a full buffer, 4 bytes for each of the `width * height`
/// pixels.
#[verifier::external_body]
fn decode_rgba8(encoded: &[u8]) -> (image: Option<(u32, u32, Vec<u8>)>)
    ensures
        image matches Some(i) ==> i.2@.len() >= 4 * i.0 * i.1,
{
    match image::load_from_memory(encoded) {
        Ok(decoded) => {
            let (width, height) = decoded.dimensions();
            Some((width, height, decoded.to_rgba8().into_raw()))
        },
        Err(_) => None,
    }
}

/// A decoded texture, ready to be written to the GPU: its size, its RGBA pixels, and
/// the layout of those pixels in the upload.
pub struct TextureUpload {
    pub width: u32,
    pub height: u32,
    pub pixels: Vec<u8>,
    pub bytes_per_row: u32,
    pub rows_per_image: u32,
}

/// Prepares decoded RGBA pixels, 8 bits a channel, of an image `width` by `height`
/// pixels for upload. `None` when the image is too wide for its row length in bytes to fit
/// a `u32`.
pub fn upload_from_rgba8(width: u32, height: u32, pixels: Vec<u8>) -> (upload: Option<
    TextureUpload,
>)
    ensures
        match upload {
            Some(u) => u.width == width && u.height == height && u.pixels@ == pixels@
                && u.bytes_per_row == 4 * width && u.rows_per_image == height,
            None => 4 * width > u32::MAX,
        },
{
    if width > u32::MAX / 4 {
        return None;
    }
    let (bytes_per_row, rows_per_image) = rgba_copy_layout(width, height);
    Some(TextureUpload { width, height, pixels, bytes_per_row, rows_per_image })
}

/// Decodes the encoded image `encoded` into a texture upload: the bytes are handed to the
/// image decoder as given, and its result to `upload_from_rgba8`. `None` when the image
/// does not decode, or is too wide for its row length in bytes to fit a `u32`. An upload
/// always holds a full row of pixels for every row it announces.
pub fn texture_upload(encoded: &[u8]) -> (upload: Option<TextureUpload>)
    ensures
        upload matches Some(u) ==> {
            &&& u.bytes_per_row == 4 * u.width
            &&& u.rows_per_image == u.height
            &&& u.pixels@.len() >= u.bytes_per_row * u.rows_per_image
        },
{
    match decode_rgba8(encoded) {
        None => None,
        Some((width, height, pixels)) => {
            let upload = upload_from_rgba8(width, height, pixels);
            proof {
                if upload is Some {
                    assert(4 * width * height == (4 * width) * height) by (nonlinear_arith);
                }
            }
            upload
        },
    }
}

} // verus!
