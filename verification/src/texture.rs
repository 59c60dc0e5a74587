//! Decoding an encoded image into the flat RGBA bytes a texture upload
//! consumes, and the geometry of that upload.
//!
//! The decoding itself is done by the `image` crate; the GPU calls that
//! create the texture and copy the bytes happen outside this crate and are
//! handed the numbers computed here.

use vstd::prelude::*;

verus! {

/// What decoding a given byte string yields: `None` when the bytes are not a
/// decodable image, otherwise the pixel width, the pixel height, and the
/// RGBA bytes, row by row. The decoder is deterministic, so both the outcome
/// and the pixels are a function of the bytes alone.
pub uninterp spec fn decoded_rgba(bytes: Seq<u8>) -> Option<(nat, nat, Seq<u8>)>;

/// Why an image could not be decoded.
#[derive(Clone, Copy, Debug, PartialEq, Eq, Structural)]
pub enum TextureError {
    DecodeFailed,
}

/// Relies on image::load_from_memory to decode the bytes (guessing the
/// format from their leading magic) and on DynamicImage::to_rgba8 /
/// ImageBuffer::into_raw to flatten the result into one RGBA byte per
/// channel, four channels per pixel, rows in order: the buffer those
/// functions build holds exactly width * height * 4 bytes, and whether the
/// decode succeeds depends on the bytes alone.
#[verifier::external_body]
fn decode_rgba_bytes(bytes: &[u8]) -> (r: Result<(u32, u32, Vec<u8>), TextureError>)
    ensures
        (r is Ok) == (decoded_rgba(bytes@) is Some),
        r matches Ok(t) ==> (decoded_rgba(bytes@) matches Some(d) && {
            &&& t.0 as nat == d.0
            &&& t.1 as nat == d.1
            &&& t.2@ == d.2
            &&& t.2@.len() == 4 * (t.0 as nat) * (t.1 as nat)
        }),
        r matches Err(e) ==> e == TextureError::DecodeFailed,
{
    match image::load_from_memory(bytes) {
        Ok(img) => {
            let buf = img.to_rgba8();
            let width = buf.width();
            let height = buf.height();
            Ok((width, height, buf.into_raw()))
        },
        Err(_) => Err(TextureError::DecodeFailed),
    }
}

/// A decoded image: its pixel size and its flat RGBA bytes.
#[derive(Clone, Debug)]
pub struct DecodedImage {
    pub width: u32,
    pub height: u32,
    pub rgba: Vec<u8>,
}

impl DecodedImage {
    /// Four bytes per pixel, rows in order.
    pub open spec fn wf(self) -> bool {
        self.rgba@.len() == 4 * self.width * self.height
    }

    /// Decodes an encoded image. Succeeds exactly when the bytes decode, and
    /// then holds the decoder's width, height and RGBA bytes, with four
    /// bytes for every pixel; otherwise reports the decode failure.
    pub fn from_bytes(bytes: &[u8]) -> (r: Result<DecodedImage, TextureError>)
        ensures
            (r is Ok) == (decoded_rgba(bytes@) is Some),
            r matches Ok(img) ==> (decoded_rgba(bytes@) matches Some(d) && {
                &&& img.wf()
                &&& img.width as nat == d.0
                &&& img.height as nat == d.1
                &&& img.rgba@ == d.2
            }),
            r matches Err(e) ==> e == TextureError::DecodeFailed,
    {
        let (width, height, rgba) = match decode_rgba_bytes(bytes) {
            Ok(t) => t,
            Err(e) => {
                return Err(e);
            },
        };
        Ok(DecodedImage { width, height, rgba })
    }

    /// How many bytes one row of the upload occupies: four per pixel of
    /// width.
    pub fn bytes_per_row(&self) -> (r: u64)
        ensures
            r == 4 * self.width,
    {
        4 * (self.width as u64)
    }

    /// How many rows the upload copies: one per pixel of height.
    pub fn rows_per_image(&self) -> (r: u32)
        ensures
            r == self.height,
    {
        self.height
    }
}

} // verus!

