//! Decoded images and the turning and mirroring that brings them into a
//! device's orientation.

use crate::info::{Mirroring, Rotation};
use image::RgbImage;
use vstd::prelude::*;

verus! {

/// Channel `c` of the pixel in column `x` and row `y` of an image that is
/// `width` pixels wide: pixels lie row by row, three bytes each.
pub open spec fn sample(pixels: Seq<u8>, width: int, x: int, y: int, c: int) -> u8 {
    pixels[(y * width + x) * 3 + c]
}

/// The image turned a quarter turn clockwise. The result is `height` pixels
/// wide and `width` pixels high.
pub open spec fn rotated90(pixels: Seq<u8>, width: int, height: int) -> Seq<u8> {
    Seq::new(
        pixels.len(),
        |i: int| sample(pixels, width, (i / 3) / height, height - 1 - (i / 3) % height, i % 3),
    )
}

/// The image turned a half turn.
pub open spec fn rotated180(pixels: Seq<u8>, width: int, height: int) -> Seq<u8> {
    Seq::new(
        pixels.len(),
        |i: int|
            sample(
                pixels,
                width,
                width - 1 - (i / 3) % width,
                height - 1 - (i / 3) / width,
                i % 3,
            ),
    )
}

/// The image turned three quarter turns clockwise. The result is `height`
/// pixels wide and `width` pixels high.
pub open spec fn rotated270(pixels: Seq<u8>, width: int, height: int) -> Seq<u8> {
    Seq::new(
        pixels.len(),
        |i: int| sample(pixels, width, width - 1 - (i / 3) / height, (i / 3) % height, i % 3),
    )
}

/// The image with its columns in reverse order.
pub open spec fn flipped_horizontal(pixels: Seq<u8>, width: int, height: int) -> Seq<u8> {
    Seq::new(
        pixels.len(),
        |i: int| sample(pixels, width, width - 1 - (i / 3) % width, (i / 3) / width, i % 3),
    )
}

/// The image with its rows in reverse order.
pub open spec fn flipped_vertical(pixels: Seq<u8>, width: int, height: int) -> Seq<u8> {
    Seq::new(
        pixels.len(),
        |i: int| sample(pixels, width, (i / 3) % width, height - 1 - (i / 3) / width, i % 3),
    )
}

/// Calls `image::imageops::rotate90` on the pixels as an `RgbImage`.
///
/// Believed of it: the pixel in column `x` and row `y` of the source is
/// the pixel in column `height - 1 - y` and row `x` of the result, which is
/// `height` pixels wide.
#[verifier::external_body]
fn rotate90(pixels: Vec<u8>, width: u32, height: u32) -> (out: Vec<u8>)
    requires
        pixels@.len() == width * height * 3,
    ensures
        out@ == rotated90(pixels@, width as int, height as int),
{
    let image = RgbImage::from_raw(width, height, pixels).unwrap();
    image::imageops::rotate90(&image).into_raw()
}

/// Calls `image::imageops::rotate180` on the pixels as an `RgbImage`.
///
/// Believed of it: the pixel in column `x` and row `y` of the source is
/// the pixel in column `width - 1 - x` and row `height - 1 - y` of the
/// result.
#[verifier::external_body]
fn rotate180(pixels: Vec<u8>, width: u32, height: u32) -> (out: Vec<u8>)
    requires
        pixels@.len() == width * height * 3,
    ensures
        out@ == rotated180(pixels@, width as int, height as int),
{
    let image = RgbImage::from_raw(width, height, pixels).unwrap();
    image::imageops::rotate180(&image).into_raw()
}

/// Calls `image::imageops::rotate270` on the pixels as an `RgbImage`.
///
/// Believed of it: the pixel in column `x` and row `y` of the source is
/// the pixel in column `y` and row `width - 1 - x` of the result, which is
/// `height` pixels wide.
#[verifier::external_body]
fn rotate270(pixels: Vec<u8>, width: u32, height: u32) -> (out: Vec<u8>)
    requires
        pixels@.len() == width * height * 3,
    ensures
        out@ == rotated270(pixels@, width as int, height as int),
{
    let image = RgbImage::from_raw(width, height, pixels).unwrap();
    image::imageops::rotate270(&image).into_raw()
}

/// Calls `image::imageops::flip_horizontal` on the pixels as an `RgbImage`.
///
/// Believed of it: the pixel in column `x` and row `y` of the source is
/// the pixel in column `width - 1 - x` and row `y` of the result.
#[verifier::external_body]
fn flip_horizontal(pixels: Vec<u8>, width: u32, height: u32) -> (out: Vec<u8>)
    requires
        pixels@.len() == width * height * 3,
    ensures
        out@ == flipped_horizontal(pixels@, width as int, height as int),
{
    let image = RgbImage::from_raw(width, height, pixels).unwrap();
    image::imageops::flip_horizontal(&image).into_raw()
}

/// Calls `image::imageops::flip_vertical` on the pixels as an `RgbImage`.
///
/// Believed of it: the pixel in column `x` and row `y` of the source is
/// the pixel in column `x` and row `height - 1 - y` of the result.
#[verifier::external_body]
fn flip_vertical(pixels: Vec<u8>, width: u32, height: u32) -> (out: Vec<u8>)
    requires
        pixels@.len() == width * height * 3,
    ensures
        out@ == flipped_vertical(pixels@, width as int, height as int),
{
    let image = RgbImage::from_raw(width, height, pixels).unwrap();
    image::imageops::flip_vertical(&image).into_raw()
}

/// Width of an image after a rotation.
pub open spec fn rotated_width(rotation: Rotation, width: int, height: int) -> int {
    match rotation {
        Rotation::Rot0 | Rotation::Rot180 => width,
        Rotation::Rot90 | Rotation::Rot270 => height,
    }
}

/// Height of an image after a rotation.
pub open spec fn rotated_height(rotation: Rotation, width: int, height: int) -> int {
    match rotation {
        Rotation::Rot0 | Rotation::Rot180 => height,
        Rotation::Rot90 | Rotation::Rot270 => width,
    }
}

/// The image after a rotation.
pub open spec fn rotated(rotation: Rotation, pixels: Seq<u8>, width: int, height: int) -> Seq<u8> {
    match rotation {
        Rotation::Rot0 => pixels,
        Rotation::Rot90 => rotated90(pixels, width, height),
        Rotation::Rot180 => rotated180(pixels, width, height),
        Rotation::Rot270 => rotated270(pixels, width, height),
    }
}

/// The image after a mirroring.
pub open spec fn mirrored(mirroring: Mirroring, pixels: Seq<u8>, width: int, height: int) -> Seq<
    u8,
> {
    match mirroring {
        Mirroring::Off => pixels,
        Mirroring::X => flipped_horizontal(pixels, width, height),
        Mirroring::Y => flipped_vertical(pixels, width, height),
        Mirroring::Both => flipped_vertical(
            flipped_horizontal(pixels, width, height),
            width,
            height,
        ),
    }
}

/// The image after a rotation and then a mirroring.
pub open spec fn transformed(
    rotation: Rotation,
    mirroring: Mirroring,
    pixels: Seq<u8>,
    width: int,
    height: int,
) -> Seq<u8> {
    mirrored(
        mirroring,
        rotated(rotation, pixels, width, height),
        rotated_width(rotation, width, height),
        rotated_height(rotation, width, height),
    )
}

/// A decoded image: red, green and blue of every pixel, row by row.
#[derive(Debug, PartialEq, Eq)]
pub struct PixelBuffer {
    width: u32,
    height: u32,
    data: Vec<u8>,
}

impl View for PixelBuffer {
    type V = Seq<u8>;

    closed spec fn view(&self) -> Seq<u8> {
        self.data@
    }
}

impl PixelBuffer {
    #[verifier::type_invariant]
    spec fn well_formed(&self) -> bool {
        self.data@.len() == self.width * self.height * 3
    }

    pub closed spec fn spec_width(&self) -> u32 {
        self.width
    }

    pub closed spec fn spec_height(&self) -> u32 {
        self.height
    }

    /// An image of the given width and height from its bytes, or nothing if
    /// the bytes are not three for every pixel.
    pub fn new(width: u32, height: u32, data: Vec<u8>) -> (res: Option<Self>)
        ensures
            match res {
                Some(image) => data@.len() == width * height * 3 && image.spec_width() == width
                    && image.spec_height() == height && image@ == data@,
                None => data@.len() != width * height * 3,
            },
    {
        assert(width * height <= 0xffff_ffff * 0xffff_ffff) by (nonlinear_arith)
            requires
                width <= 0xffff_ffff,
                height <= 0xffff_ffff,
        ;
        let expected: u128 = width as u128 * height as u128 * 3;
        if data.len() as u128 == expected {
            Some(PixelBuffer { width, height, data })
        } else {
            None
        }
    }

    /// Width in pixels.
    #[verifier::when_used_as_spec(spec_width)]
    pub fn width(&self) -> (width: u32)
        ensures
            width == self.spec_width(),
    {
        self.width
    }

    /// Height in pixels.
    #[verifier::when_used_as_spec(spec_height)]
    pub fn height(&self) -> (height: u32)
        ensures
            height == self.spec_height(),
    {
        self.height
    }

    /// The image's bytes.
    pub fn data(&self) -> (data: &Vec<u8>)
        ensures
            data@ == self@,
            data@.len() == self.width() * self.height() * 3,
    {
        proof {
            use_type_invariant(self);
        }
        &self.data
    }

    /// Gives up the image for its bytes.
    pub fn into_vec(self) -> (data: Vec<u8>)
        ensures
            data@ == self@,
            data@.len() == self.width() * self.height() * 3,
    {
        proof {
            use_type_invariant(&self);
        }
        self.data
    }
}

/// Turns and then mirrors an image.
pub fn apply_transform(image: PixelBuffer, rotation: Rotation, mirroring: Mirroring) -> (out:
    PixelBuffer)
    ensures
        out.width() == rotated_width(rotation, image.width() as int, image.height() as int),
        out.height() == rotated_height(rotation, image.width() as int, image.height() as int),
        out@ == transformed(
            rotation,
            mirroring,
            image@,
            image.width() as int,
            image.height() as int,
        ),
{
    let width: u32 = image.width();
    let height: u32 = image.height();
    let pixels = image.into_vec();
    assert(height * width * 3 == width * height * 3) by (nonlinear_arith);
    let (turned, turned_width, turned_height) = match rotation {
        Rotation::Rot0 => (pixels, width, height),
        Rotation::Rot90 => (rotate90(pixels, width, height), height, width),
        Rotation::Rot180 => (rotate180(pixels, width, height), width, height),
        Rotation::Rot270 => (rotate270(pixels, width, height), height, width),
    };
    let data = match mirroring {
        Mirroring::Off => turned,
        Mirroring::X => flip_horizontal(turned, turned_width, turned_height),
        Mirroring::Y => flip_vertical(turned, turned_width, turned_height),
        Mirroring::Both => flip_vertical(
            flip_horizontal(turned, turned_width, turned_height),
            turned_width,
            turned_height,
        ),
    };
    PixelBuffer { width: turned_width, height: turned_height, data }
}

} // verus!
