//! The texture: a file of encoded pixels, decoded and brought to red, green,
//! blue and alpha.

use crate::png::{in_profile, keeps_to_profile};
use crate::upload::BYTES_PER_PIXEL;
use image::{ImageBgr8, ImageBgra8, ImageLuma8, ImageLumaA8, ImageRgb8, ImageRgba8};
use vstd::prelude::*;

verus! {

/// The error type of the `image` crate. Nothing is read from it.
#[verifier::external_type_specification]
#[verifier::external_body]
pub struct ExImageError(image::ImageError);

/// How the bytes of a decoded image are laid out: which channels a pixel
/// has, in their order, one byte each.
#[derive(Clone, Copy, Debug, PartialEq, Eq, Structural)]
pub enum PixelFormat {
    /// Gray.
    Luma,
    /// Gray, alpha.
    LumaA,
    /// Red, green, blue.
    Rgb,
    /// Red, green, blue, alpha.
    Rgba,
    /// Blue, green, red.
    Bgr,
    /// Blue, green, red, alpha.
    Bgra,
}

/// What decoding a PNG file gives: the layout, width, height and bytes of
/// the image, or `None` where the decoder turns the file down.
pub uninterp spec fn png_image(encoded: Seq<u8>) -> Option<(PixelFormat, u32, u32, Seq<u8>)>;

/// Decodes a PNG file held in memory with `image::load`, and hands back the
/// layout, the dimensions and the raw bytes of the image that it made.
///
/// Not proved: that the answer depends on the bytes of the file alone, and
/// that the decoder answers every file of the profile. The profile leaves
/// out the files on which the decoder's source shows that it stops: rows
/// shorter than a pixel, indexed color without a palette, a header or a
/// transparency chunk that changes the row layout after decoding began,
/// interlacing, and sizes whose byte counts overflow. Nothing is claimed of
/// what the bytes are, nor of how many there are.
#[verifier::external_body]
fn load_png(encoded: &[u8]) -> (decoded: Result<(PixelFormat, u32, u32, Vec<u8>), image::ImageError>)
    requires
        in_profile(encoded@),
    ensures
        match decoded {
            Ok((format, width, height, bytes)) => png_image(encoded@) == Some(
                (format, width, height, bytes@),
            ),
            Err(_) => png_image(encoded@) is None,
        },
{
    Ok(match image::load(std::io::Cursor::new(encoded), image::PNG)? {
        ImageLuma8(b) => (PixelFormat::Luma, b.width(), b.height(), b.into_raw()),
        ImageLumaA8(b) => (PixelFormat::LumaA, b.width(), b.height(), b.into_raw()),
        ImageRgb8(b) => (PixelFormat::Rgb, b.width(), b.height(), b.into_raw()),
        ImageRgba8(b) => (PixelFormat::Rgba, b.width(), b.height(), b.into_raw()),
        ImageBgr8(b) => (PixelFormat::Bgr, b.width(), b.height(), b.into_raw()),
        ImageBgra8(b) => (PixelFormat::Bgra, b.width(), b.height(), b.into_raw()),
    })
}

/// Why there is no texture.
#[derive(Clone, Copy, Debug, PartialEq, Eq, Structural)]
pub enum TextureError {
    /// The file could not be decoded.
    Decode,
    /// There are not four bytes for each pixel.
    SizeMismatch,
}

/// Decoded pixels: rows from top to bottom, in each row the pixels from
/// left to right, for each pixel a byte of red, green, blue and alpha.
#[derive(Debug, PartialEq, Eq)]
pub struct Texture {
    width: u32,
    height: u32,
    pixels: Vec<u8>,
}

/// A texture as the contracts speak of it.
pub struct TextureModel {
    pub width: u32,
    pub height: u32,
    pub pixels: Seq<u8>,
}

impl View for Texture {
    type V = TextureModel;

    closed spec fn view(&self) -> TextureModel {
        TextureModel { width: self.width, height: self.height, pixels: self.pixels@ }
    }
}

impl TextureModel {
    /// There are four bytes for each pixel.
    pub open spec fn wf(self) -> bool {
        self.pixels.len() == self.width * self.height * BYTES_PER_PIXEL
    }
}

/// The texture that is made of decoded pixels, or the reason why there is
/// none.
pub open spec fn texture_of(width: u32, height: u32, pixels: Seq<u8>) -> Result<
    TextureModel,
    TextureError,
> {
    if pixels.len() == width * height * BYTES_PER_PIXEL {
        Ok(TextureModel { width, height, pixels })
    } else {
        Err(TextureError::SizeMismatch)
    }
}

impl PixelFormat {
    /// Bytes of a pixel.
    pub open spec fn spec_channels(self) -> int {
        match self {
            PixelFormat::Luma => 1,
            PixelFormat::LumaA => 2,
            PixelFormat::Rgb | PixelFormat::Bgr => 3,
            PixelFormat::Rgba | PixelFormat::Bgra => 4,
        }
    }

    /// Bytes of a pixel.
    pub fn channels(&self) -> (channels: u64)
        ensures
            channels == self.spec_channels(),
    {
        match self {
            PixelFormat::Luma => 1,
            PixelFormat::LumaA => 2,
            PixelFormat::Rgb | PixelFormat::Bgr => 3,
            PixelFormat::Rgba | PixelFormat::Bgra => 4,
        }
    }
}

/// Byte `i` of an image in red, green, blue and alpha, made of image bytes
/// in another layout: gray stands for all three colors, blue and red change
/// places where blue comes first, and where there is no alpha the pixel is
/// opaque.
pub open spec fn rgba_byte(format: PixelFormat, bytes: Seq<u8>, i: int) -> u8 {
    let base = (i / 4) * format.spec_channels();
    let channel = i % 4;
    match format {
        PixelFormat::Luma => if channel < 3 {
            bytes[base]
        } else {
            255
        },
        PixelFormat::LumaA => if channel < 3 {
            bytes[base]
        } else {
            bytes[base + 1]
        },
        PixelFormat::Rgb => if channel < 3 {
            bytes[base + channel]
        } else {
            255
        },
        PixelFormat::Rgba => bytes[base + channel],
        PixelFormat::Bgr => if channel < 3 {
            bytes[base + 2 - channel]
        } else {
            255
        },
        PixelFormat::Bgra => if channel < 3 {
            bytes[base + 2 - channel]
        } else {
            bytes[base + 3]
        },
    }
}

/// The first `pixels` pixels of an image, in red, green, blue and alpha.
pub open spec fn rgba_of(format: PixelFormat, bytes: Seq<u8>, pixels: int) -> Seq<u8> {
    Seq::new((pixels * 4) as nat, |i: int| rgba_byte(format, bytes, i))
}

/// The texture that is made of a decoded image, or the reason why there is
/// none: the image must have as many bytes as its layout and size ask for,
/// and the texture must be addressable.
pub open spec fn texture_of_image(
    format: PixelFormat,
    width: u32,
    height: u32,
    bytes: Seq<u8>,
) -> Result<TextureModel, TextureError> {
    if bytes.len() == width * height * format.spec_channels() && width * height
        * BYTES_PER_PIXEL <= usize::MAX {
        Ok(TextureModel { width, height, pixels: rgba_of(format, bytes, width * height) })
    } else {
        Err(TextureError::SizeMismatch)
    }
}

/// What decoding gives, as a texture.
pub open spec fn texture_of_decoding(
    decoding: Option<(PixelFormat, u32, u32, Seq<u8>)>,
) -> Result<TextureModel, TextureError> {
    match decoding {
        Some((format, width, height, bytes)) => texture_of_image(format, width, height, bytes),
        None => Err(TextureError::Decode),
    }
}

/// A texture and its view say the same.
pub open spec fn same_texture(
    made: Result<Texture, TextureError>,
    model: Result<TextureModel, TextureError>,
) -> bool {
    match (made, model) {
        (Ok(texture), Ok(m)) => texture@ == m,
        (Err(e), Err(f)) => e == f,
        _ => false,
    }
}

impl Texture {
    /// There are four bytes for each pixel.
    #[verifier::type_invariant]
    spec fn well_formed(self) -> bool {
        self.pixels@.len() == self.width * self.height * BYTES_PER_PIXEL
    }

    /// A texture of `width` by `height` pixels. The pixels must be four bytes
    /// each, no more and no less.
    pub fn new(width: u32, height: u32, pixels: Vec<u8>) -> (texture: Result<Texture, TextureError>)
        ensures
            same_texture(texture, texture_of(width, height, pixels@)),
            texture matches Ok(t) ==> t@.wf(),
    {
        proof {
            assert(width * height <= 0xFFFF_FFFF * 0xFFFF_FFFF) by (nonlinear_arith)
                requires
                    width <= 0xFFFF_FFFF,
                    height <= 0xFFFF_FFFF,
            ;
        }
        let expected = width as u64 * height as u64;
        let given = pixels.len() as u64;
        if expected <= u64::MAX / BYTES_PER_PIXEL && given == expected * BYTES_PER_PIXEL {
            Ok(Texture { width, height, pixels })
        } else {
            Err(TextureError::SizeMismatch)
        }
    }

    /// Width in pixels.
    pub fn width(&self) -> (width: u32)
        ensures
            width == self@.width,
    {
        self.width
    }

    /// Height in pixels.
    pub fn height(&self) -> (height: u32)
        ensures
            height == self@.height,
    {
        self.height
    }

    /// The bytes of the pixels, four for each pixel.
    pub fn pixels(&self) -> (pixels: &Vec<u8>)
        ensures
            pixels@ == self@.pixels,
            self@.wf(),
    {
        proof {
            use_type_invariant(self);
        }
        &self.pixels
    }
}

/// What a file gives: the texture that is made of what the decoder makes of
/// it where the file keeps to the profile, and no texture where it does not.
pub open spec fn texture_of_file(encoded: Seq<u8>) -> Result<TextureModel, TextureError> {
    if in_profile(encoded) {
        texture_of_decoding(png_image(encoded))
    } else {
        Err(TextureError::Decode)
    }
}

/// Makes a texture of a decoded image: every pixel is brought to red, green,
/// blue and alpha.
pub fn texture_from_image(format: PixelFormat, width: u32, height: u32, bytes: &Vec<u8>) -> (texture:
    Result<Texture, TextureError>)
    ensures
        same_texture(texture, texture_of_image(format, width, height, bytes@)),
        texture matches Ok(t) ==> t@.wf(),
{
    proof {
        assert(width * height <= 0xFFFF_FFFF * 0xFFFF_FFFF) by (nonlinear_arith)
            requires
                width <= 0xFFFF_FFFF,
                height <= 0xFFFF_FFFF,
        ;
    }
    let count = width as u64 * height as u64;
    let channels = format.channels();
    let given = bytes.len() as u64;
    if count > (usize::MAX as u64) / BYTES_PER_PIXEL || given != count * channels {
        return Err(TextureError::SizeMismatch);
    }
    let count = count as usize;
    let channels = channels as usize;
    let mut pixels: Vec<u8> = Vec::new();
    let mut p: usize = 0;
    while p < count
        invariant
            p <= count,
            count == width * height,
            count * 4 <= usize::MAX,
            channels == format.spec_channels(),
            bytes@.len() == count * channels,
            pixels@ == rgba_of(format, bytes@, p as int),
        decreases count - p,
    {
        proof {
            assert(p * channels + channels <= count * channels) by (nonlinear_arith)
                requires
                    p < count,
                    channels >= 1,
            ;
        }
        let base = p * channels;
        let ghost before = pixels@;
        match format {
            PixelFormat::Luma => {
                pixels.push(bytes[base]);
                pixels.push(bytes[base]);
                pixels.push(bytes[base]);
                pixels.push(255);
            },
            PixelFormat::LumaA => {
                pixels.push(bytes[base]);
                pixels.push(bytes[base]);
                pixels.push(bytes[base]);
                pixels.push(bytes[base + 1]);
            },
            PixelFormat::Rgb => {
                pixels.push(bytes[base]);
                pixels.push(bytes[base + 1]);
                pixels.push(bytes[base + 2]);
                pixels.push(255);
            },
            PixelFormat::Rgba => {
                pixels.push(bytes[base]);
                pixels.push(bytes[base + 1]);
                pixels.push(bytes[base + 2]);
                pixels.push(bytes[base + 3]);
            },
            PixelFormat::Bgr => {
                pixels.push(bytes[base + 2]);
                pixels.push(bytes[base + 1]);
                pixels.push(bytes[base]);
                pixels.push(255);
            },
            PixelFormat::Bgra => {
                pixels.push(bytes[base + 2]);
                pixels.push(bytes[base + 1]);
                pixels.push(bytes[base]);
                pixels.push(bytes[base + 3]);
            },
        }
        proof {
            assert(pixels@.len() == 4 * p + 4);
            assert forall|i: int| 0 <= i < 4 * p + 4 implies pixels@[i] == rgba_byte(
                format,
                bytes@,
                i,
            ) by {
                if i < 4 * p {
                    assert(pixels@[i] == before[i]);
                } else {
                    assert(i / 4 == p && i % 4 == i - 4 * p);
                }
            }
            assert(pixels@ =~= rgba_of(format, bytes@, p + 1));
        }
        p += 1;
    }
    Texture::new(width, height, pixels)
}

/// Decodes a PNG file to the texture it holds. A file that does not keep to
/// the profile of [`crate::png`] is not handed to the decoder and counts as
/// not decodable.
pub fn decode_texture(encoded: &Vec<u8>) -> (texture: Result<Texture, TextureError>)
    ensures
        same_texture(texture, texture_of_file(encoded@)),
        texture matches Ok(t) ==> t@.wf(),
{
    if !keeps_to_profile(encoded.as_slice()) {
        return Err(TextureError::Decode);
    }
    match load_png(encoded.as_slice()) {
        Ok((format, width, height, bytes)) => texture_from_image(format, width, height, &bytes),
        Err(_) => Err(TextureError::Decode),
    }
}

} // verus!
