//! Decoded texture images and the layout in which they are uploaded.

use image::{load_from_memory_with_format, ImageFormat};
use vstd::prelude::*;
use crate::texture::{ImageEncoding, TextureEntry, TextureError};

verus! {

/// The error of the image decoder. Nothing is read from it.
#[verifier::external_type_specification]
#[verifier::external_body]
pub struct ExImageError(image::ImageError);

/// Bytes in one pixel once an image is normalised to four 8-bit channels.
pub const BYTES_PER_PIXEL: u32 = 4;

/// How the pixels of an image are laid out when they are handed to the
/// device: row after row, four bytes a pixel.
#[derive(Clone, Copy, Debug, PartialEq, Eq, Structural)]
pub struct PixelLayout {
    /// Bytes in one row of pixels.
    pub bytes_per_row: u32,
    /// Rows in the image.
    pub rows_per_image: u32,
    /// Bytes in the whole image.
    pub len: u64,
}

/// The layout of an image of `width` by `height` pixels. `None` for an image
/// so wide that the bytes of a row cannot be counted in 32 bits.
pub fn pixel_layout(width: u32, height: u32) -> (layout: Option<PixelLayout>)
    ensures
        4 * width <= u32::MAX ==> layout == Some(
            PixelLayout {
                bytes_per_row: (4 * width) as u32,
                rows_per_image: height,
                len: (4 * width * height) as u64,
            },
        ),
        4 * width > u32::MAX ==> layout is None,
{
    if width > u32::MAX / BYTES_PER_PIXEL {
        return None;
    }
    let bytes_per_row: u32 = width * BYTES_PER_PIXEL;
    assert(bytes_per_row * height <= u32::MAX * u32::MAX) by (nonlinear_arith)
        requires
            bytes_per_row <= u32::MAX,
            height <= u32::MAX,
    ;
    let len: u64 = bytes_per_row as u64 * height as u64;
    Some(PixelLayout { bytes_per_row, rows_per_image: height, len })
}

/// The layout of an image of `width` by `height` pixels, where a row can
/// be counted.
pub open spec fn layout_of(width: u32, height: u32) -> PixelLayout
    recommends
        4 * width <= u32::MAX,
{
    PixelLayout {
        bytes_per_row: (4 * width) as u32,
        rows_per_image: height,
        len: (4 * width * height) as u64,
    }
}

/// An image as four 8-bit channels a pixel: red, green, blue, alpha, the
/// pixels of a row from left to right and the rows from top to bottom.
#[derive(Clone, Debug, PartialEq, Eq)]
pub struct Pixels {
    pub width: u32,
    pub height: u32,
    pub rgba: Vec<u8>,
}

/// What an image holds.
pub struct PixelsView {
    pub width: u32,
    pub height: u32,
    pub rgba: Seq<u8>,
}

impl View for Pixels {
    type V = PixelsView;

    open spec fn view(&self) -> PixelsView {
        PixelsView { width: self.width, height: self.height, rgba: self.rgba@ }
    }
}

/// The image of a texture, ready for upload.
#[derive(Clone, Debug, PartialEq, Eq)]
pub struct TextureImage {
    pub pixels: Pixels,
    pub layout: PixelLayout,
}

/// Decodes `bytes` as an image in `encoding` and normalises it to four
/// 8-bit channels.
///
/// Trusted: `image::load_from_memory_with_format` followed by
/// `DynamicImage::to_rgba8`. Nothing is claimed of which bytes decode or of
/// the pixels that come out: a decoder may round differently from one
/// processor to the next. What holds of every image that comes out is its
/// size: the buffer that `to_rgba8` returns holds exactly four bytes for
/// each of its `width * height` pixels.
#[verifier::external_body]
fn decode_rgba(bytes: &Vec<u8>, encoding: ImageEncoding) -> (r: Result<Pixels, image::ImageError>)
    ensures
        r matches Ok(pixels) ==> pixels@.rgba.len() == 4 * pixels@.width * pixels@.height,
{
    let format = match encoding {
        ImageEncoding::Png => ImageFormat::Png, ImageEncoding::Jpeg => ImageFormat::Jpeg,
        ImageEncoding::Gif => ImageFormat::Gif, ImageEncoding::WebP => ImageFormat::WebP,
        ImageEncoding::Pnm => ImageFormat::Pnm, ImageEncoding::Tiff => ImageFormat::Tiff,
        ImageEncoding::Tga => ImageFormat::Tga, ImageEncoding::Dds => ImageFormat::Dds,
        ImageEncoding::Bmp => ImageFormat::Bmp, ImageEncoding::Ico => ImageFormat::Ico,
        ImageEncoding::Hdr => ImageFormat::Hdr, ImageEncoding::OpenExr => ImageFormat::OpenExr,
        ImageEncoding::Farbfeld => ImageFormat::Farbfeld, ImageEncoding::Avif => ImageFormat::Avif,
        ImageEncoding::Qoi => ImageFormat::Qoi,
    };
    let image = load_from_memory_with_format(bytes, format)?.to_rgba8();
    Ok(Pixels { width: image.width(), height: image.height(), rgba: image.into_raw() })
}

/// `outcome` is what becomes of the texture `name` once decoding gave
/// `decoded`: the failure `InvalidImage` where there is no image, the
/// failure `OversizedImage` where a row of it cannot be counted in 32 bits,
/// and else the image with its layout. Either failure names the texture.
pub open spec fn is_texture_image(
    name: Seq<char>,
    decoded: Option<PixelsView>,
    outcome: Result<TextureImage, TextureError>,
) -> bool {
    match decoded {
        None => outcome matches Err(TextureError::InvalidImage { name: n }) && n@ == name,
        Some(pixels) => if 4 * pixels.width <= u32::MAX {
            outcome matches Ok(image) && image.pixels@ == pixels && image.layout == layout_of(
                pixels.width,
                pixels.height,
            )
        } else {
            outcome matches Err(TextureError::OversizedImage { name: n }) && n@ == name
        },
    }
}

/// Makes the image of the texture `name` from what decoding gave.
pub fn texture_image(name: &String, decoded: Option<Pixels>) -> (outcome: Result<
    TextureImage,
    TextureError,
>)
    ensures
        is_texture_image(
            name@,
            match decoded {
                Some(pixels) => Some(pixels@),
                None => None,
            },
            outcome,
        ),
{
    match decoded {
        None => Err(TextureError::InvalidImage { name: name.clone() }),
        Some(pixels) => match pixel_layout(pixels.width, pixels.height) {
            Some(layout) => Ok(TextureImage { pixels, layout }),
            None => Err(TextureError::OversizedImage { name: name.clone() }),
        },
    }
}

impl TextureEntry {
    /// Decodes the contents of this texture's file.
    ///
    /// `bytes` are read in the encoding of the texture and normalised to
    /// four 8-bit channels. Whether they decode, and to which pixels, is the
    /// decoder's to say; whatever it says, the outcome is the one that
    /// `texture_image` makes of it. An image comes back with the layout in
    /// which its pixels are uploaded, and holds exactly the bytes that the
    /// layout counts. A failure is `InvalidImage` or `OversizedImage` and
    /// names this texture.
    pub fn decode(&self, bytes: &Vec<u8>) -> (outcome: Result<TextureImage, TextureError>)
        ensures
            exists|decoded: Option<PixelsView>| is_texture_image(self.name@, decoded, outcome),
            match outcome {
                Ok(image) => {
                    &&& 4 * image.pixels.width <= u32::MAX
                    &&& image.layout == layout_of(image.pixels.width, image.pixels.height)
                    &&& image.pixels@.rgba.len() == image.layout.len
                },
                Err(TextureError::InvalidImage { name }) => name@ == self.name@,
                Err(TextureError::OversizedImage { name }) => name@ == self.name@,
                Err(TextureError::TextureNotFound { .. }) => false,
            },
    {
        match decode_rgba(bytes, self.encoding) {
            Ok(pixels) => {
                assert(4 * pixels.width <= u32::MAX ==> 4 * pixels.width * pixels.height
                    <= u32::MAX * u32::MAX) by (nonlinear_arith);
                let ghost decoded = Some(pixels@);
                let outcome = texture_image(&self.name, Some(pixels));
                assert(is_texture_image(self.name@, decoded, outcome));
                outcome
            },
            Err(_) => {
                let outcome = texture_image(&self.name, None);
                assert(is_texture_image(self.name@, None::<PixelsView>, outcome));
                outcome
            },
        }
    }
}

} // verus!
