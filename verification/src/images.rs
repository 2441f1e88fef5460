//! Pixel buffers and their conversion into the form a device takes.

use crate::deck::StreamDeck;
use crate::error::Error;
use crate::info::{ColourOrder, ImageMode, Kind};
use image::codecs::jpeg::JpegEncoder;
use image::error::ImageError;
use image::ColorType;
use vstd::prelude::*;

verus! {

/// A colour, by its red, green and blue parts.
#[derive(Debug, Clone, Copy, PartialEq, Eq, Structural)]
pub struct Colour {
    pub r: u8,
    pub g: u8,
    pub b: u8,
}

/// How a picture is prepared before it is brought into a device's form.
#[derive(Debug, Clone, Copy, PartialEq, Eq, Structural)]
pub struct ImageOptions {
    /// Colour shown through the transparent parts of the picture.
    pub background: Option<Colour>,
    /// Whether the picture's colours are inverted.
    pub invert: bool,
}

/// A channel of a colour: red for 0, green for 1, blue otherwise.
pub open spec fn colour_channel(colour: Colour, c: int) -> u8 {
    if c == 0 {
        colour.r
    } else if c == 1 {
        colour.g
    } else {
        colour.b
    }
}

/// What shows where a value of the given opacity lies over a background
/// value: the two mixed in proportion to the opacity, rounded down.
pub open spec fn blended(value: u8, alpha: u8, background: u8) -> u8 {
    ((value * alpha + background * (255 - alpha)) / 255) as u8
}

/// The red, green and blue of pixels given with their opacity, laid over a
/// background colour if there is one. Without one the opacity is dropped.
/// Bytes after the last whole pixel are dropped too.
pub open spec fn flattened(rgba: Seq<u8>, background: Option<Colour>) -> Seq<u8> {
    Seq::new(
        (rgba.len() / 4 * 3) as nat,
        |i: int|
            match background {
                Some(colour) => blended(
                    rgba[i / 3 * 4 + i % 3],
                    rgba[i / 3 * 4 + 3],
                    colour_channel(colour, i % 3),
                ),
                None => rgba[i / 3 * 4 + i % 3],
            },
    )
}

/// Mixes a value of the given opacity with a background value.
fn blend(value: u8, alpha: u8, background: u8) -> (mixed: u8)
    ensures
        mixed == blended(value, alpha, background),
{
    assert(value * alpha + background * (255 - alpha) <= 255 * 255) by (nonlinear_arith)
        requires
            value <= 255,
            background <= 255,
            alpha <= 255,
    ;
    assert(0 <= value * alpha && 0 <= background * (255 - alpha)) by (nonlinear_arith)
        requires
            alpha <= 255,
    ;
    let over: u32 = value as u32 * alpha as u32;
    let under: u32 = background as u32 * (255 - alpha) as u32;
    ((over + under) / 255) as u8
}

/// Takes pixels given as red, green, blue and opacity to red, green and
/// blue: laid over the background colour if there is one, and with the
/// opacity dropped if there is none.
pub fn flatten(rgba: &[u8], background: Option<Colour>) -> (rgb: Vec<u8>)
    ensures
        rgb@ == flattened(rgba@, background),
{
    let len: usize = rgba.len();
    let pixels: usize = len / 4;
    let mut rgb: Vec<u8> = Vec::new();
    let mut p: usize = 0;
    while p < pixels
        invariant
            p <= pixels,
            len == rgba@.len(),
            pixels == len / 4,
            rgb@.len() == 3 * p,
            forall|i: int| 0 <= i < 3 * p ==> rgb@[i] == flattened(rgba@, background)[i],
        decreases pixels - p,
    {
        let at: usize = 4 * p;
        let alpha: u8 = rgba[at + 3];
        match background {
            Some(colour) => {
                rgb.push(blend(rgba[at], alpha, colour.r));
                rgb.push(blend(rgba[at + 1], alpha, colour.g));
                rgb.push(blend(rgba[at + 2], alpha, colour.b));
            },
            None => {
                rgb.push(rgba[at]);
                rgb.push(rgba[at + 1]);
                rgb.push(rgba[at + 2]);
            },
        }
        p += 1;
    }
    assert(rgb@ =~= flattened(rgba@, background));
    rgb
}

/// An image in the exact bytes one model expects on the wire: encoded as
/// the model wants it, channels in the model's order.
#[derive(Debug, Clone, PartialEq, Eq)]
pub struct DeviceImage {
    data: Vec<u8>,
}

impl View for DeviceImage {
    type V = Seq<u8>;

    closed spec fn view(&self) -> Seq<u8> {
        self.data@
    }
}

impl DeviceImage {
    /// Takes bytes that are already in a device's form.
    pub fn from_bytes(data: Vec<u8>) -> (image: Self)
        ensures
            image@ == data@,
    {
        DeviceImage { data }
    }

    /// The image's bytes.
    pub fn data(&self) -> (data: &Vec<u8>)
        ensures
            data@ == self@,
    {
        &self.data
    }
}

impl vstd::std_specs::convert::FromSpecImpl<Vec<u8>> for DeviceImage {
    open spec fn obeys_from_spec() -> bool {
        true
    }

    closed spec fn from_spec(data: Vec<u8>) -> Self {
        DeviceImage { data }
    }
}

/// An image converted from a vector holds that vector's bytes.
pub proof fn lemma_from_keeps_bytes(data: Vec<u8>)
    ensures
        <DeviceImage as vstd::std_specs::convert::FromSpec<Vec<u8>>>::from_spec(data)@ == data@,
{
}

impl From<Vec<u8>> for DeviceImage {
    fn from(data: Vec<u8>) -> (image: Self) {
        DeviceImage { data }
    }
}

/// The pixels with the first and the last channel of every pixel
/// exchanged. Bytes after the last whole pixel stay as they are.
pub open spec fn channels_swapped(pixels: Seq<u8>) -> Seq<u8> {
    Seq::new(
        pixels.len(),
        |i: int|
            if i - i % 3 + 3 > pixels.len() {
                pixels[i]
            } else if i % 3 == 0 {
                pixels[i + 2]
            } else if i % 3 == 2 {
                pixels[i - 2]
            } else {
                pixels[i]
            },
    )
}

/// Exchanging the outer channels twice gives the pixels back: a buffer
/// taken from red-green-blue to blue-green-red order and on to
/// red-green-blue order is the buffer it was.
pub proof fn lemma_swap_twice(pixels: Seq<u8>)
    ensures
        channels_swapped(channels_swapped(pixels)) == pixels,
{
    assert(channels_swapped(channels_swapped(pixels)) =~= pixels);
}

/// Exchanges the first and the last channel of every pixel, which takes
/// pixels from red-green-blue order to blue-green-red order and back.
pub fn rgb_to_bgr(data: &mut Vec<u8>)
    ensures
        final(data)@ == channels_swapped(old(data)@),
{
    let len: usize = data.len();
    let mut i: usize = 0;
    while len - i >= 3
        invariant
            i <= len,
            i % 3 == 0,
            len == old(data)@.len(),
            data@.len() == len,
            forall|j: int| 0 <= j < i ==> data@[j] == channels_swapped(old(data)@)[j],
            forall|j: int| i <= j < len ==> data@[j] == old(data)@[j],
        decreases len - i,
    {
        let first: u8 = data[i];
        let last: u8 = data[i + 2];
        data.set(i, last);
        data.set(i + 2, first);
        i += 3;
    }
    assert(data@ =~= channels_swapped(old(data)@));
}

/// A buffer of `len` bytes in which every pixel has the given colour, in
/// the given channel order.
pub open spec fn solid_pixels(order: ColourOrder, colour: Colour, len: int) -> Seq<u8> {
    Seq::new(
        if len >= 0 {
            len as nat
        } else {
            0
        },
        |i: int|
            if i % 3 == 1 {
                colour.g
            } else if (i % 3 == 0) == (order == ColourOrder::RGB) {
                colour.r
            } else {
                colour.b
            },
    )
}

/// A solid image in blue-green-red order is the solid image in
/// red-green-blue order with its outer channels exchanged.
pub proof fn lemma_solid_swapped(colour: Colour, len: int)
    requires
        len >= 0,
        len % 3 == 0,
    ensures
        solid_pixels(ColourOrder::BGR, colour, len) == channels_swapped(
            solid_pixels(ColourOrder::RGB, colour, len),
        ),
{
    assert(solid_pixels(ColourOrder::BGR, colour, len) =~= channels_swapped(
        solid_pixels(ColourOrder::RGB, colour, len),
    ));
}

/// Builds a buffer of `len` bytes in which every pixel has the given
/// colour, in the given channel order.
pub fn solid_image(order: ColourOrder, colour: &Colour, len: usize) -> (image: Vec<u8>)
    ensures
        image@ == solid_pixels(order, *colour, len as int),
{
    let mut image: Vec<u8> = Vec::new();
    let mut i: usize = 0;
    while i < len
        invariant
            i <= len,
            image@.len() == i,
            forall|j: int| 0 <= j < i ==> image@[j] == solid_pixels(order, *colour, len as int)[j],
        decreases len - i,
    {
        let channel: usize = i % 3;
        let value: u8 = if channel == 1 {
            colour.g
        } else if channel == 0 {
            match order {
                ColourOrder::BGR => colour.b,
                ColourOrder::RGB => colour.r,
            }
        } else {
            match order {
                ColourOrder::BGR => colour.r,
                ColourOrder::RGB => colour.b,
            }
        };
        image.push(value);
        i += 1;
    }
    assert(image@ =~= solid_pixels(order, *colour, len as int));
    image
}

/// Quality at which images are compressed for the models that take JPEG.
pub const JPEG_QUALITY: u8 = 100;

/// The JPEG file that the `image` crate's encoder writes for red-green-blue
/// pixels of the given width and height at the given quality.
pub uninterp spec fn jpeg_encoding(pixels: Seq<u8>, width: int, height: int, quality: int) -> Seq<u8>;

/// Calls `image::codecs::jpeg::JpegEncoder::encode` on an encoder made by
/// `JpegEncoder::new_with_quality` that writes to a fresh vector.
///
/// Believed of it: when it succeeds, the bytes written are a function of
/// the pixels, the dimensions and the quality alone; and it succeeds
/// whenever width and height each fit into 16 bits, since the frame header
/// holds them so and writing to a vector does not fail. The encoder panics
/// if the buffer's length is not three times the number of pixels, which
/// the precondition rules out.
#[verifier::external_body]
fn encode_jpeg(image: &Vec<u8>, width: u32, height: u32, quality: u8) -> (res: Result<
    Vec<u8>,
    ImageError,
>)
    requires
        image@.len() == width * height * 3,
    ensures
        res matches Ok(bytes) ==> bytes@ == jpeg_encoding(
            image@,
            width as int,
            height as int,
            quality as int,
        ),
        width <= 0xffff && height <= 0xffff ==> res is Ok,
{
    let mut buf = Vec::new();
    let mut encoder = JpegEncoder::new_with_quality(&mut buf, quality);
    encoder.encode(image, width, height, ColorType::Rgb8)?;
    Ok(buf)
}

/// The bytes a model expects on the wire for pixels that are already in
/// the model's size, orientation and channel order.
pub open spec fn device_bytes(kind: Kind, pixels: Seq<u8>) -> Seq<u8> {
    match kind.image_mode() {
        ImageMode::Bmp => pixels,
        ImageMode::Jpeg => jpeg_encoding(
            pixels,
            kind.image_size().0 as int,
            kind.image_size().1 as int,
            JPEG_QUALITY as int,
        ),
    }
}

impl DeviceImage {
    /// Makes a device image of what an encoder returned: the bytes it
    /// wrote, or the error it gave.
    pub fn from_encoding(outcome: Result<Vec<u8>, ImageError>) -> (res: Result<Self, Error>)
        ensures
            match outcome {
                Ok(bytes) => res matches Ok(image) && image@ == bytes@,
                Err(refusal) => res matches Err(e) && e == Error::Image(refusal),
            },
    {
        match outcome {
            Ok(bytes) => Ok(DeviceImage { data: bytes }),
            Err(e) => Err(Error::Image(e)),
        }
    }
}

impl StreamDeck {
    /// Encodes pixels for the device. The pixels must already have the
    /// device's size, orientation and channel order.
    ///
    /// Fails, with `InvalidImageSize`, exactly when the buffer does not
    /// have the length of the device's images. A model that takes bitmaps
    /// gets the pixels as they are. A model that takes JPEG gets what the
    /// encoder makes of them.
    pub fn convert_image(&self, image: Vec<u8>) -> (res: Result<DeviceImage, Error>)
        ensures
            match res {
                Ok(converted) => image@.len() == self@.image_size_bytes() && converted@
                    == device_bytes(self@, image@),
                Err(e) => image@.len() != self@.image_size_bytes() && e is InvalidImageSize,
            },
    {
        let kind = self.kind();
        if image.len() != kind.image_size_bytes() {
            return Err(Error::InvalidImageSize);
        }
        match kind.image_mode() {
            ImageMode::Bmp => Ok(DeviceImage { data: image }),
            ImageMode::Jpeg => {
                let (width, height) = kind.image_size();
                DeviceImage::from_encoding(
                    encode_jpeg(&image, width as u32, height as u32, JPEG_QUALITY),
                )
            },
        }
    }
}

} // verus!
