//! The bitmap of a rendered screen and its encodings, through the `image`
//! crate. A picture is held as PNG bytes, together with the shape that the
//! PNG decoder reads from them.
use vstd::prelude::*;

use ::image::ColorType;

use crate::render::Error;

verus! {

/// What `image::load_from_memory_with_format` reads from PNG bytes: the
/// width, height, channel count and bits per channel of the decoded image;
/// `None` where decoding fails, or gives a colour type other than the eight
/// integer ones.
pub uninterp spec fn png_decoded(bytes: Seq<u8>) -> Option<(u32, u32, u8, u8)>;

/// The width and height that `image::load_from_memory_with_format` reads
/// from QOI bytes; `None` where decoding fails. Decoding fails, among other
/// cases, where the pixels take more than `DECODE_MAX_BYTES`.
pub uninterp spec fn qoi_decoded(bytes: Seq<u8>) -> Option<(u32, u32)>;

/// The shape of the single-channel 8-bit picture of the same size as the
/// one that PNG bytes hold.
pub open spec fn gray_shape(png: Seq<u8>) -> Option<(u32, u32, u8, u8)> {
    match png_decoded(png) {
        Some(s) => Some((s.0, s.1, 1u8, 8u8)),
        None => None,
    }
}

/// The width and height of the picture that PNG bytes hold.
pub open spec fn png_size(png: Seq<u8>) -> Option<(u32, u32)> {
    match png_decoded(png) {
        Some(s) => Some((s.0, s.1)),
        None => None,
    }
}

/// Whether PNG bytes hold a picture of at most `QOI_PIXELS_MAX` pixels.
pub open spec fn fits_qoi(png: Seq<u8>) -> bool {
    match png_decoded(png) {
        Some(s) => s.0 as int * s.1 as int <= QOI_PIXELS_MAX,
        None => false,
    }
}

/// Whether the RGB picture of the size that PNG bytes hold stays within the
/// memory that the decoder reserves at most.
pub open spec fn rgb_decodable(png: Seq<u8>) -> bool {
    match png_decoded(png) {
        Some(s) => s.0 as int * s.1 as int * 3 <= DECODE_MAX_BYTES,
        None => false,
    }
}

/// The memory that the decoder of `image::load_from_memory_with_format` may
/// reserve for pixels, by its default limits.
pub const DECODE_MAX_BYTES: u64 = 536_870_912;

/// The most pixels that a QOI image holds.
pub const QOI_PIXELS_MAX: u64 = 400_000_000;

/// Relies on `image::load_from_memory_with_format` with the PNG format, and
/// reads the shape of the result. The PNG decoder refuses a zero width or
/// height, and gives 8 or 16 bits per channel in one to four channels.
#[verifier::external_body]
fn png_shape(bytes: &[u8]) -> (r: Option<(u32, u32, u8, u8)>)
    ensures
        r == png_decoded(bytes@),
        r matches Some(s) ==> s.0 > 0 && s.1 > 0 && 1 <= s.2 <= 4 && (s.3 == 8 || s.3 == 16),
{
    let img = ::image::load_from_memory_with_format(bytes, ::image::ImageFormat::Png).ok()?;
    let (channels, bits) = match img.color() {
        ColorType::L8 => (1, 8),
        ColorType::La8 => (2, 8),
        ColorType::Rgb8 => (3, 8),
        ColorType::Rgba8 => (4, 8),
        ColorType::L16 => (1, 16),
        ColorType::La16 => (2, 16),
        ColorType::Rgb16 => (3, 16),
        ColorType::Rgba16 => (4, 16),
        _ => return None,
    };
    Some((img.width(), img.height(), channels, bits))
}

/// Relies on `image::DynamicImage::to_luma8` applied to the picture that the
/// PNG decoder reads from `png`, written back by `image::DynamicImage::write_to`
/// as PNG: one 8-bit channel of the same width and height, which the PNG
/// encoder always takes.
#[verifier::external_body]
fn grayscale_png(png: &[u8]) -> (r: Option<Vec<u8>>)
    ensures
        r is None <==> png_decoded(png@) is None,
        r matches Some(out) ==> png_decoded(out@) == gray_shape(png@),
{
    let img = ::image::load_from_memory_with_format(png, ::image::ImageFormat::Png).ok()?;
    let gray = ::image::DynamicImage::ImageLuma8(img.to_luma8());
    let mut out = std::io::Cursor::new(Vec::new());
    gray.write_to(&mut out, ::image::ImageFormat::Png).ok()?;
    Some(out.into_inner())
}

/// Relies on `image::DynamicImage::to_rgb8` applied to the picture that the
/// PNG decoder reads from `png`, written by `image::ImageBuffer::write_to` as
/// QOI: the QOI encoder takes RGB of one up to `QOI_PIXELS_MAX` pixels and
/// writes width and height into its header, which the decoder reads back
/// where the RGB pixels fit in `DECODE_MAX_BYTES`.
#[verifier::external_body]
fn qoi_of_png(png: &[u8]) -> (r: Option<Vec<u8>>)
    ensures
        png_decoded(png@) is None ==> r is None,
        r matches Some(out) ==> (rgb_decodable(png@) ==> qoi_decoded(out@) == png_size(png@)),
        fits_qoi(png@) ==> r is Some,
{
    let img = ::image::load_from_memory_with_format(png, ::image::ImageFormat::Png).ok()?;
    let mut out = std::io::Cursor::new(Vec::new());
    img.to_rgb8().write_to(&mut out, ::image::ImageFormat::Qoi).ok()?;
    Some(out.into_inner())
}

/// A decoded screen capture.
pub struct RenderedImage {
    png: Vec<u8>,
    width: u32,
    height: u32,
    channels: u8,
    bits: u8,
}

impl RenderedImage {
    #[verifier::type_invariant]
    spec fn shape_of_bytes(&self) -> bool {
        &&& png_decoded(self.png@) == Some((self.width, self.height, self.channels, self.bits))
        &&& self.width > 0 && self.height > 0
        &&& 1 <= self.channels <= 4
        &&& self.bits == 8 || self.bits == 16
    }

    /// Width and height, in pixels.
    pub closed spec fn dims(&self) -> (u32, u32) {
        (self.width, self.height)
    }

    /// Channels per pixel.
    pub closed spec fn channel_count(&self) -> u8 {
        self.channels
    }

    /// Bits per channel.
    pub closed spec fn channel_bits(&self) -> u8 {
        self.bits
    }

    /// The PNG bytes that hold the picture.
    pub closed spec fn png_bytes(&self) -> Seq<u8> {
        self.png@
    }

    /// Decodes a PNG capture; bytes that the PNG decoder refuses are an image
    /// failure.
    pub fn from_png(bytes: Vec<u8>) -> (r: Result<RenderedImage, Error>)
        ensures
            png_decoded(bytes@) is None ==> r matches Err(Error::Image),
            png_decoded(bytes@) matches Some(s) ==> r matches Ok(img) && img.dims() == (s.0, s.1)
                && img.channel_count() == s.2 && img.channel_bits() == s.3 && img.png_bytes()
                == bytes@,
    {
        match png_shape(bytes.as_slice()) {
            Some((width, height, channels, bits)) => Ok(
                RenderedImage { png: bytes, width, height, channels, bits },
            ),
            None => Err(Error::Image),
        }
    }

    /// The picture as single-channel 8-bit brightness, of the same size.
    pub fn into_grayscaled(self) -> (r: RenderedImage)
        ensures
            r.dims() == self.dims(),
            r.channel_count() == 1,
            r.channel_bits() == 8,
    {
        proof {
            use_type_invariant(&self);
        }
        match grayscale_png(self.png.as_slice()) {
            Some(png) => RenderedImage {
                png,
                width: self.width,
                height: self.height,
                channels: 1,
                bits: 8,
            },
            None => {
                assert(false);
                self
            },
        }
    }

    /// The PNG encoding of the picture: the bytes that hold it, unchanged, so
    /// nothing is lost; they decode to the same width and height.
    pub fn write_as_png(&self) -> (r: Result<Vec<u8>, Error>)
        ensures
            r matches Ok(bytes) && bytes@ == self.png_bytes(),
            r matches Ok(bytes) && png_decoded(bytes@) matches Some(s) && (s.0, s.1) == self.dims(),
    {
        proof {
            use_type_invariant(self);
        }
        let mut out: Vec<u8> = Vec::new();
        let mut i: usize = 0;
        while i < self.png.len()
            invariant
                i <= self.png@.len(),
                out@ == self.png@.subrange(0, i as int),
            decreases self.png@.len() - i,
        {
            out.push(self.png[i]);
            i = i + 1;
            assert(out@ =~= self.png@.subrange(0, i as int));
        }
        assert(out@ =~= self.png@);
        Ok(out)
    }

    /// The QOI encoding of the picture, in RGB; it succeeds for up to
    /// `QOI_PIXELS_MAX` pixels, and decodes to the same width and height
    /// where the RGB pixels fit in `DECODE_MAX_BYTES`.
    pub fn write_as_qoi(&self) -> (r: Result<Vec<u8>, Error>)
        ensures
            r matches Ok(bytes) ==> (self.dims().0 as int * self.dims().1 as int * 3
                <= DECODE_MAX_BYTES ==> qoi_decoded(bytes@) == Some(self.dims())),
            r matches Err(e) ==> e is Image,
            self.dims().0 as int * self.dims().1 as int <= QOI_PIXELS_MAX ==> r is Ok,
    {
        proof {
            use_type_invariant(self);
        }
        match qoi_of_png(self.png.as_slice()) {
            Some(bytes) => Ok(bytes),
            None => Err(Error::Image),
        }
    }

    /// The size of the decoded pixel data, in bytes.
    pub fn byte_size(&self) -> (r: u128)
        ensures
            r == self.dims().0 as int * self.dims().1 as int * self.channel_count() as int * (
            self.channel_bits() as int / 8),
            r > 0,
    {
        proof {
            use_type_invariant(self);
        }
        let depth: u128 = if self.bits == 16 {
            2
        } else {
            1
        };
        assert(depth == self.bits as int / 8);
        let channels = self.channels as u128;
        let per_pixel: u128 = channels * depth;
        assert(0 < per_pixel <= 8) by (nonlinear_arith)
            requires
                1 <= channels <= 4,
                1 <= depth <= 2,
                per_pixel == channels * depth,
        ;
        let w = self.width as u128;
        let h = self.height as u128;
        assert(w * h <= 0xFFFF_FFFF * 0xFFFF_FFFFu128) by (nonlinear_arith)
            requires
                w <= 0xFFFF_FFFF,
                h <= 0xFFFF_FFFF,
        ;
        assert(w * h * per_pixel <= 0xFFFF_FFFF * 0xFFFF_FFFFu128 * 8) by (nonlinear_arith)
            requires
                w * h <= 0xFFFF_FFFF * 0xFFFF_FFFFu128,
                per_pixel <= 8,
        ;
        assert(w * h * per_pixel > 0) by (nonlinear_arith)
            requires
                w > 0,
                h > 0,
                per_pixel > 0,
        ;
        assert(w * h * per_pixel == w * h * (channels * depth)) by (nonlinear_arith)
            requires
                per_pixel == channels * depth,
        ;
        assert(w * h * (channels * depth) == w * h * channels * depth) by (nonlinear_arith);
        w * h * per_pixel
    }

    /// The width and height, in pixels.
    pub fn dimensions(&self) -> (r: (u32, u32))
        ensures
            r == self.dims(),
            r.0 > 0 && r.1 > 0,
    {
        proof {
            use_type_invariant(self);
        }
        (self.width, self.height)
    }
}

} // verus!
