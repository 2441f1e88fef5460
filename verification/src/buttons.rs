//! Showing a colour or a picture on a key: from pixels to the reports to
//! send.

use crate::deck::StreamDeck;
use crate::error::Error;
use crate::images::{
    channels_swapped, device_bytes, rgb_to_bgr, solid_image, solid_pixels, Colour, DeviceImage,
};
use crate::info::{ColourOrder, ImageMode, Kind};
use crate::keys::native_key_index;
use crate::report::{frameable, image_reports};
use crate::transform::{apply_transform, transformed, PixelBuffer};
use vstd::prelude::*;

verus! {

/// The pixels an upright image becomes on the way to a device: turned and
/// mirrored into the model's orientation first, then put into the model's
/// channel order.
pub open spec fn wire_pixels(kind: Kind, pixels: Seq<u8>, width: int, height: int) -> Seq<u8> {
    let oriented = transformed(
        kind.image_rotation(),
        kind.image_mirror(),
        pixels,
        width,
        height,
    );
    match kind.image_colour_order() {
        ColourOrder::BGR => channels_swapped(oriented),
        ColourOrder::RGB => oriented,
    }
}

/// Whether `pixels` can be shown on key `key`: they have the length of the
/// model's images, the device has the key, and their encoding can be
/// framed.
pub open spec fn can_show_pixels(kind: Kind, key: u8, pixels: Seq<u8>) -> bool {
    &&& pixels.len() == kind.image_size_bytes()
    &&& key < kind.keys()
    &&& frameable(kind, device_bytes(kind, pixels).len() as int)
}

/// Whether `reports` are the reports that show `pixels` on the key that
/// callers number `key`: the pixels can be shown there, and the reports
/// frame the pixels' encoding.
pub open spec fn shows_pixels(kind: Kind, key: u8, pixels: Seq<u8>, reports: Seq<Seq<u8>>) -> bool {
    &&& can_show_pixels(kind, key, pixels)
    &&& reports == image_reports(
        kind,
        native_key_index(kind, key as int) as u8,
        device_bytes(kind, pixels),
    )
}

/// Whether `error` explains why `pixels` cannot be shown on key `key`.
///
/// A buffer of the wrong length is refused before anything else. After
/// that the key is looked up; then the encoding must be one that can be
/// framed.
pub open spec fn refuses_pixels(kind: Kind, key: u8, pixels: Seq<u8>, error: Error) -> bool {
    if pixels.len() != kind.image_size_bytes() {
        error is InvalidImageSize
    } else if key >= kind.keys() {
        error is InvalidKeyIndex
    } else {
        error is InvalidImageSize && !frameable(kind, device_bytes(kind, pixels).len() as int)
    }
}

/// On the models that take bitmaps, pixels of the right length can be
/// shown on every key the device has.
pub proof fn lemma_bitmaps_are_shown(kind: Kind, key: u8, pixels: Seq<u8>)
    requires
        kind.image_mode() == ImageMode::Bmp,
        pixels.len() == kind.image_size_bytes(),
        key < kind.keys(),
    ensures
        can_show_pixels(kind, key, pixels),
{
}

impl StreamDeck {
    /// Encodes pixels that are in the device's form and frames them for one
    /// key.
    fn show_pixels(&self, key: u8, pixels: Vec<u8>) -> (res: Result<Vec<Vec<u8>>, Error>)
        ensures
            match res {
                Ok(reports) => shows_pixels(self@, key, pixels@, reports.deep_view()),
                Err(e) => refuses_pixels(self@, key, pixels@, e),
            },
            can_show_pixels(self@, key, pixels@) <==> res is Ok,
    {
        match self.convert_image(pixels) {
            Ok(image) => self.write_button_image(key, &image),
            Err(e) => Err(e),
        }
    }

    /// The reports that fill a key with one colour.
    ///
    /// Succeeds exactly when the device has the key and the colour's
    /// encoding can be framed, as every bitmap can.
    pub fn set_button_rgb(&self, key: u8, colour: &Colour) -> (res: Result<Vec<Vec<u8>>, Error>)
        ensures
            match res {
                Ok(reports) => shows_pixels(
                    self@,
                    key,
                    solid_pixels(
                        self@.image_colour_order(),
                        *colour,
                        self@.image_size_bytes() as int,
                    ),
                    reports.deep_view(),
                ),
                Err(e) => refuses_pixels(
                    self@,
                    key,
                    solid_pixels(
                        self@.image_colour_order(),
                        *colour,
                        self@.image_size_bytes() as int,
                    ),
                    e,
                ),
            },
            key < self@.keys() && frameable(
                self@,
                device_bytes(
                    self@,
                    solid_pixels(
                        self@.image_colour_order(),
                        *colour,
                        self@.image_size_bytes() as int,
                    ),
                ).len() as int,
            ) ==> res is Ok,
            self@.image_mode() == ImageMode::Bmp && key < self@.keys() ==> res is Ok,
    {
        let kind = self.kind();
        let pixels = solid_image(kind.image_colour_order(), colour, kind.image_size_bytes());
        self.show_pixels(key, pixels)
    }

    /// Brings an upright picture into the device's form: turns and mirrors
    /// it as the model needs it, puts it into the model's channel order, and
    /// encodes it.
    ///
    /// Fails, with `InvalidImageSize`, exactly when the picture does not
    /// have as many pixels as the model's images.
    pub fn load_image(&self, image: PixelBuffer) -> (res: Result<DeviceImage, Error>)
        ensures
            match res {
                Ok(converted) => image@.len() == self@.image_size_bytes() && converted@
                    == device_bytes(
                    self@,
                    wire_pixels(self@, image@, image.width() as int, image.height() as int),
                ),
                Err(e) => image@.len() != self@.image_size_bytes() && e is InvalidImageSize,
            },
    {
        let kind = self.kind();
        let oriented = apply_transform(image, kind.image_rotation(), kind.image_mirror());
        let mut data = oriented.into_vec();
        match kind.image_colour_order() {
            ColourOrder::BGR => {
                rgb_to_bgr(&mut data);
            },
            ColourOrder::RGB => {},
        }
        self.convert_image(data)
    }

    /// The reports that show an upright picture on a key: the picture is
    /// brought into the device's form and framed.
    ///
    /// Succeeds exactly when the picture has as many pixels as the model's
    /// images, the device has the key, and the picture's encoding can be
    /// framed, as every bitmap can.
    pub fn set_button_image(&self, key: u8, image: PixelBuffer) -> (res: Result<
        Vec<Vec<u8>>,
        Error,
    >)
        ensures
            match res {
                Ok(reports) => shows_pixels(
                    self@,
                    key,
                    wire_pixels(self@, image@, image.width() as int, image.height() as int),
                    reports.deep_view(),
                ),
                Err(e) => refuses_pixels(
                    self@,
                    key,
                    wire_pixels(self@, image@, image.width() as int, image.height() as int),
                    e,
                ),
            },
            image@.len() == self@.image_size_bytes() && key < self@.keys() && frameable(
                self@,
                device_bytes(
                    self@,
                    wire_pixels(self@, image@, image.width() as int, image.height() as int),
                ).len() as int,
            ) ==> res is Ok,
            self@.image_mode() == ImageMode::Bmp && key < self@.keys() && image@.len()
                == self@.image_size_bytes() ==> res is Ok,
    {
        match self.load_image(image) {
            Ok(converted) => self.write_button_image(key, &converted),
            Err(e) => Err(e),
        }
    }
}

} // verus!
