//! Decoded images, ready to be uploaded to the GPU.
use vstd::prelude::*;

verus! {

/// `image::load_from_memory`, then `DynamicImage::into_rgba8`,
/// `ImageBuffer::dimensions` and `ImageBuffer::into_raw`: decodes an encoded
/// image into 8-bit RGBA pixels, row by row, or reports that it cannot.
/// Claimed: a decoded RGBA8 buffer holds at least four bytes for each of its
/// `width * height` pixels (the invariant that `ImageBuffer::from_raw`
/// checks). Left unsaid: which bytes decode, and to what. Before its own
/// format guess, `load_from_memory` consults process-wide format-detection and
/// decoding hooks that any code may register, so the outcome does not depend
/// on the bytes alone. Nor is the buffer claimed to be exactly `4 * width *
/// height` bytes long: a registered decoder may report a larger size, which
/// `from_raw` accepts.
#[verifier::external_body]
fn decode_rgba8(bytes: &[u8]) -> (decoded: Option<(Vec<u8>, u32, u32)>)
    ensures
        decoded matches Some((pixels, width, height)) ==> pixels@.len() >= 4 * width * height,
{
    match image::load_from_memory(bytes) {
        Ok(img) => {
            let rgba = img.into_rgba8();
            let (width, height) = rgba.dimensions();
            Some((rgba.into_raw(), width, height))
        },
        Err(_) => None,
    }
}

/// The PNG file that the `image` crate writes for `width * height` RGBA8
/// pixels, or `None` where its encoder reports an error.
pub uninterp spec fn png_encoding(pixels: Seq<u8>, width: u32, height: u32) -> Option<Seq<u8>>;

/// `image::write_buffer_with_format` with `ExtendedColorType::Rgba8` and
/// `ImageFormat::Png`, into an in-memory buffer: encodes RGBA8 pixels as a PNG
/// file. Claimed: the outcome is fixed by the pixels and the size (the PNG
/// encoder with its default compression writes to memory, with no hooks, time
/// or randomness involved). The pixel buffer must hold exactly four bytes per
/// pixel, else the encoder panics.
#[verifier::external_body]
fn encode_png_rgba8(pixels: &[u8], width: u32, height: u32) -> (png: Option<Vec<u8>>)
    requires
        pixels@.len() == 4 * width * height,
    ensures
        png is None <==> png_encoding(pixels@, width, height) is None,
        png matches Some(bytes) ==> png_encoding(pixels@, width, height) == Some(bytes@),
{
    let mut png: Vec<u8> = Vec::new();
    let written = image::write_buffer_with_format(
        &mut std::io::Cursor::new(&mut png),
        pixels,
        width,
        height,
        image::ExtendedColorType::Rgba8,
        image::ImageFormat::Png,
    );
    match written {
        Ok(()) => Some(png),
        Err(_) => None,
    }
}

/// Image bytes in RGBA8, row by row, with the image's size in pixels.
#[derive(Clone, Debug)]
pub struct Texture {
    pub image: Vec<u8>,
    pub width: u32,
    pub height: u32,
}

impl Texture {
    /// Whether the byte buffer covers every pixel.
    pub open spec fn covers_pixels(&self) -> bool {
        self.image@.len() >= 4 * self.width * self.height
    }

    /// A texture from raw RGBA8 bytes and a size.
    pub fn new(stream: Vec<u8>, width: u32, height: u32) -> (texture: Self)
        ensures
            texture.image@ == stream@,
            texture.width == width,
            texture.height == height,
    {
        Self { image: stream, width, height }
    }

    /// The pixels of the image: its first `4 * width * height` bytes.
    pub open spec fn pixels(&self) -> Seq<u8> {
        self.image@.subrange(0, 4 * self.width * self.height)
    }

    /// Encodes the texture's pixels as a PNG file; `None` where the encoder
    /// reports an error. Bytes past the last pixel are left out.
    pub fn to_png(&self) -> (png: Option<Vec<u8>>)
        requires
            self.covers_pixels(),
        ensures
            png is None <==> png_encoding(self.pixels(), self.width, self.height) is None,
            png matches Some(bytes) ==> png_encoding(self.pixels(), self.width, self.height)
                == Some(bytes@),
    {
        let len: usize = self.image.len();
        let width: u64 = self.width as u64;
        let height: u64 = self.height as u64;
        proof {
            assert(4 * (width * height) == 4 * self.width * self.height) by (nonlinear_arith)
                requires
                    width == self.width,
                    height == self.height,
            ;
        }
        let count: u64 = 4 * (width * height);
        let mut pixels: Vec<u8> = Vec::new();
        let mut i: usize = 0;
        while (i as u64) < count
            invariant
                count == 4 * self.width * self.height,
                count <= self.image@.len(),
                self.image@.len() == len,
                i <= count,
                pixels@ == self.image@.subrange(0, i as int),
            decreases count - i,
        {
            pixels.push(self.image[i]);
            i = i + 1;
            assert(pixels@ =~= self.image@.subrange(0, i as int));
        }
        encode_png_rgba8(pixels.as_slice(), self.width, self.height)
    }

    /// Decodes an encoded image (PNG and the other formats the build
    /// supports); `None` where the decoder reports an error. Whatever it
    /// decodes covers every pixel.
    pub fn decode(bytes: &[u8]) -> (texture: Option<Self>)
        ensures
            texture matches Some(t) ==> t.covers_pixels(),
    {
        match decode_rgba8(bytes) {
            Some((image, width, height)) => Some(Self { image, width, height }),
            None => None,
        }
    }

    /// A texture from the bytes of an encoded image: `None` for no bytes, and
    /// `None` where the bytes do not decode. Whatever it decodes covers every
    /// pixel.
    pub fn from_slice(bytes: &[u8]) -> (texture: Option<Self>)
        ensures
            bytes@.len() == 0 ==> texture is None,
            texture matches Some(t) ==> t.covers_pixels(),
    {
        if bytes.len() == 0 {
            return None;
        }
        Self::decode(bytes)
    }
}

} // verus!
