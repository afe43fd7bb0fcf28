use vstd::prelude::*;

verus! {

#[verifier::external_type_specification]
#[verifier::external_body]
pub struct ExImageError(image::ImageError);

/// What `image` makes of encoded bytes: the pixels as RGBA bytes, row by row,
/// with the width and height, or nothing where the bytes do not decode.
pub uninterp spec fn decoded_rgba8(bytes: Seq<u8>) -> Option<(Seq<u8>, u32, u32)>;

/// The eight bytes that open every PNG stream.
pub open spec fn png_signature() -> Seq<u8> {
    seq![0x89u8, 0x50u8, 0x4eu8, 0x47u8, 0x0du8, 0x0au8, 0x1au8, 0x0au8]
}

/// The unsigned big-endian number held by the four bytes of `b` from `at`.
pub open spec fn be_u32_at(b: Seq<u8>, at: int) -> int {
    b[at] * 0x1000000 + b[at + 1] * 0x10000 + b[at + 2] * 0x100 + b[at + 3]
}

/// The width and height that a PNG stream declares in its header chunk, which
/// follows the signature: the chunk's length takes bytes 8 to 12, its type
/// "IHDR" bytes 12 to 16, then come the width and the height, four bytes each.
/// Nothing for bytes that do not open this way.
pub open spec fn png_declared_size(b: Seq<u8>) -> Option<(int, int)> {
    if b.len() >= 24 && b.subrange(0, 8) == png_signature() && b.subrange(12, 16) == seq![
        0x49u8,
        0x48u8,
        0x44u8,
        0x52u8,
    ] {
        Some((be_u32_at(b, 16), be_u32_at(b, 20)))
    } else {
        None
    }
}

/// Decodes an encoded image with `image::load_from_memory`, then takes its
/// size with `GenericImageView::dimensions` and its pixels with
/// `DynamicImage::into_rgba8`. The contract claims that the outcome is a
/// function of the bytes (`decoded_rgba8`), that an error comes exactly where
/// that function gives nothing, and that the pixels take four bytes each (the
/// decoders fill a buffer of exactly width times height pixels, and the RGBA
/// conversion allocates one of that size). For a PNG stream it also claims
/// that the size is the one its header chunk declares: `image` recognises PNG
/// by its signature, and its PNG decoder reports the width and height that the
/// `png` crate reads from that chunk, which the image buffer then takes. Which
/// error comes, the size of images in other formats, and what the pixels are,
/// is not stated.
#[verifier::external_body]
fn decode_rgba8(bytes: &[u8]) -> (r: Result<(Vec<u8>, u32, u32), image::ImageError>)
    ensures
        match r {
            Ok((rgba, width, height)) => decoded_rgba8(bytes@) == Some((rgba@, width, height))
                && rgba@.len() == 4 * width * height && (png_declared_size(bytes@) matches Some(
                (w, h),
            ) ==> width == w && height == h),
            Err(_) => decoded_rgba8(bytes@) is None,
        },
{
    let image = image::load_from_memory(bytes)?;
    let (width, height) = image::GenericImageView::dimensions(&image);
    Ok((image.into_rgba8().into_raw(), width, height))
}

/// An application icon: RGBA bytes, row by row, and its size in pixels.
pub struct IconData {
    pub rgba: Vec<u8>,
    pub width: u32,
    pub height: u32,
}

/// Why an icon could not be made.
#[derive(Debug)]
pub enum IconError {
    /// The bytes are not an image that can be decoded; the decoder's error.
    Decode(image::ImageError),
}

/// The icon made from the outcome of decoding: the pixels and size where
/// decoding succeeded, otherwise the decoder's error, passed on unchanged.
pub fn icon_from_decoded(decoded: Result<(Vec<u8>, u32, u32), image::ImageError>) -> (r: Result<
    IconData,
    IconError,
>)
    ensures
        match decoded {
            Ok((rgba, width, height)) => r matches Ok(icon) && icon.rgba@ == rgba@ && icon.width
                == width && icon.height == height,
            Err(e) => r matches Err(IconError::Decode(f)) && f == e,
        },
{
    match decoded {
        Ok((rgba, width, height)) => Ok(IconData { rgba, width, height }),
        Err(e) => Err(IconError::Decode(e)),
    }
}

/// The icon held by the encoded image `icon`: its RGBA bytes, four per pixel,
/// and its size, or the decoder's error where the bytes do not decode.
pub fn load_icon(icon: &[u8]) -> (r: Result<IconData, IconError>)
    ensures
        match decoded_rgba8(icon@) {
            Some((rgba, width, height)) => r matches Ok(data) && data.rgba@ == rgba
                && data.width == width && data.height == height && data.rgba@.len() == 4
                * data.width * data.height,
            None => r is Err,
        },
        r matches Ok(data) ==> data.rgba@.len() == 4 * data.width * data.height,
        r matches Ok(data) ==> (png_declared_size(icon@) matches Some((w, h)) ==> data.width == w
            && data.height == h),
{
    let decoded = decode_rgba8(icon);
    icon_from_decoded(decoded)
}

} // verus!
