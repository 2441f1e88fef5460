//! Per-model constants of the supported devices.
//!
//! Every other module looks its framing sizes, geometry and key layout up
//! here; supporting another model means extending these tables only.

use vstd::prelude::*;

verus! {

/// The supported device models.
#[derive(Debug, Clone, Copy, PartialEq, Eq, Structural)]
pub enum Kind {
    Original,
    OriginalV2,
    Mini,
    Xl,
    Mk2,
    Plus,
}

/// Order in which a device numbers the keys of one row.
#[derive(Debug, Clone, Copy, PartialEq, Eq, Structural)]
pub enum KeyDirection {
    LeftToRight,
    RightToLeft,
}

/// Order of the three colour channels within one pixel on the wire.
#[derive(Debug, Clone, Copy, PartialEq, Eq, Structural)]
pub enum ColourOrder {
    RGB,
    BGR,
}

/// Clockwise rotation a device needs applied to an upright image.
#[derive(Debug, Clone, Copy, PartialEq, Eq, Structural)]
pub enum Rotation {
    /// No turn.
    Rot0,
    /// A quarter turn.
    Rot90,
    /// A half turn.
    Rot180,
    /// Three quarter turns.
    Rot270,
}

/// Mirroring a device needs applied to an upright image.
#[derive(Debug, Clone, Copy, PartialEq, Eq, Structural)]
pub enum Mirroring {
    /// The image stays as it is.
    Off,
    /// The columns change places: left becomes right.
    X,
    /// The rows change places: top becomes bottom.
    Y,
    /// Columns and rows both change places.
    Both,
}

/// Pixel encoding a device expects on the wire.
#[derive(Debug, Clone, Copy, PartialEq, Eq, Structural)]
pub enum ImageMode {
    Bmp,
    Jpeg,
}

/// The bitmap file header that precedes the pixels of a 72x72 image.
pub open spec fn original_image_base() -> Seq<u8> {
    seq![
        0x42u8, 0x4d, 0xf6, 0x3c, 0x00, 0x00, 0x00, 0x00, 0x00, 0x00, 0x36, 0x00, 0x00, 0x00,
        0x28, 0x00, 0x00, 0x00, 0x48, 0x00, 0x00, 0x00, 0x48, 0x00, 0x00, 0x00, 0x01, 0x00,
        0x18, 0x00, 0x00, 0x00, 0x00, 0x00, 0xc0, 0x3c, 0x00, 0x00, 0xc4, 0x0e, 0x00, 0x00,
        0xc4, 0x0e, 0x00, 0x00, 0x00, 0x00, 0x00, 0x00, 0x00, 0x00, 0x00, 0x00,
    ]
}

/// The bitmap file header that precedes the pixels of an 80x80 image.
pub open spec fn mini_image_base() -> Seq<u8> {
    seq![
        0x42u8, 0x4d, 0xf6, 0x3c, 0x00, 0x00, 0x00, 0x00, 0x00, 0x00, 0x36, 0x00, 0x00, 0x00,
        0x28, 0x00, 0x00, 0x00, 0x50, 0x00, 0x00, 0x00, 0x50, 0x00, 0x00, 0x00, 0x01, 0x00,
        0x18, 0x00, 0x00, 0x00, 0x00, 0x00, 0xc0, 0x3c, 0x00, 0x00, 0xc4, 0x0e, 0x00, 0x00,
        0xc4, 0x0e, 0x00, 0x00, 0x00, 0x00, 0x00, 0x00, 0x00, 0x00, 0x00, 0x00,
    ]
}

impl Kind {
    pub open spec fn spec_keys(&self) -> u8 {
        match self {
            Kind::Original | Kind::OriginalV2 | Kind::Mk2 => 15,
            Kind::Mini => 6,
            Kind::Xl => 32,
            Kind::Plus => 8,
        }
    }

    /// Number of keys on the device.
    #[verifier::when_used_as_spec(spec_keys)]
    pub fn keys(&self) -> (n: u8)
        ensures
            n == self.spec_keys(),
    {
        match self {
            Kind::Original | Kind::OriginalV2 | Kind::Mk2 => 15,
            Kind::Mini => 6,
            Kind::Xl => 32,
            Kind::Plus => 8,
        }
    }

    pub open spec fn spec_key_columns(&self) -> u8 {
        match self {
            Kind::Mini => 3,
            Kind::Original | Kind::OriginalV2 | Kind::Mk2 => 5,
            Kind::Xl => 8,
            Kind::Plus => 4,
        }
    }

    /// Number of keys in one row.
    #[verifier::when_used_as_spec(spec_key_columns)]
    pub fn key_columns(&self) -> (n: u8)
        ensures
            n == self.spec_key_columns(),
    {
        match self {
            Kind::Mini => 3,
            Kind::Original | Kind::OriginalV2 | Kind::Mk2 => 5,
            Kind::Xl => 8,
            Kind::Plus => 4,
        }
    }

    pub open spec fn spec_key_rows(&self) -> u8 {
        (self.spec_keys() / self.spec_key_columns()) as u8
    }

    /// Number of key rows: the key count divided by the row length.
    #[verifier::when_used_as_spec(spec_key_rows)]
    pub fn key_rows(&self) -> (n: u8)
        ensures
            n == self.spec_key_rows(),
            n * self.spec_key_columns() == self.spec_keys(),
    {
        self.keys() / self.key_columns()
    }

    pub open spec fn spec_key_data_offset(&self) -> usize {
        match self {
            Kind::Original | Kind::Mini => 0,
            Kind::OriginalV2 | Kind::Xl | Kind::Mk2 | Kind::Plus => 3,
        }
    }

    /// Offset of the key states within an input report, not counting the
    /// report's first byte.
    #[verifier::when_used_as_spec(spec_key_data_offset)]
    pub fn key_data_offset(&self) -> (n: usize)
        ensures
            n == self.spec_key_data_offset(),
    {
        match self {
            Kind::Original | Kind::Mini => 0,
            Kind::OriginalV2 | Kind::Xl | Kind::Mk2 | Kind::Plus => 3,
        }
    }

    pub open spec fn spec_key_direction(&self) -> KeyDirection {
        match self {
            Kind::Original => KeyDirection::RightToLeft,
            _ => KeyDirection::LeftToRight,
        }
    }

    /// Direction in which the device numbers the keys of a row.
    #[verifier::when_used_as_spec(spec_key_direction)]
    pub fn key_direction(&self) -> (d: KeyDirection)
        ensures
            d == self.spec_key_direction(),
    {
        match self {
            Kind::Original => KeyDirection::RightToLeft,
            _ => KeyDirection::LeftToRight,
        }
    }

    pub open spec fn spec_image_mode(&self) -> ImageMode {
        match self {
            Kind::Original | Kind::Mini => ImageMode::Bmp,
            Kind::OriginalV2 | Kind::Xl | Kind::Mk2 | Kind::Plus => ImageMode::Jpeg,
        }
    }

    /// Pixel encoding of key images on the wire.
    #[verifier::when_used_as_spec(spec_image_mode)]
    pub fn image_mode(&self) -> (m: ImageMode)
        ensures
            m == self.spec_image_mode(),
    {
        match self {
            Kind::Original | Kind::Mini => ImageMode::Bmp,
            Kind::OriginalV2 | Kind::Xl | Kind::Mk2 | Kind::Plus => ImageMode::Jpeg,
        }
    }

    pub open spec fn spec_image_size(&self) -> (usize, usize) {
        match self {
            Kind::Original | Kind::OriginalV2 | Kind::Mk2 => (72, 72),
            Kind::Mini => (80, 80),
            Kind::Xl => (96, 96),
            Kind::Plus => (120, 120),
        }
    }

    /// Width and height of a key image, in pixels.
    #[verifier::when_used_as_spec(spec_image_size)]
    pub fn image_size(&self) -> (size: (usize, usize))
        ensures
            size == self.spec_image_size(),
    {
        match self {
            Kind::Original | Kind::OriginalV2 | Kind::Mk2 => (72, 72),
            Kind::Mini => (80, 80),
            Kind::Xl => (96, 96),
            Kind::Plus => (120, 120),
        }
    }

    pub open spec fn spec_image_size_bytes(&self) -> usize {
        (self.spec_image_size().0 * self.spec_image_size().1 * 3) as usize
    }

    /// Length of an uncompressed key image: three bytes for each pixel.
    #[verifier::when_used_as_spec(spec_image_size_bytes)]
    pub fn image_size_bytes(&self) -> (n: usize)
        ensures
            n == self.spec_image_size_bytes(),
            n == self.spec_image_size().0 * self.spec_image_size().1 * 3,
    {
        let (w, h) = self.image_size();
        w * h * 3
    }

    pub open spec fn spec_image_rotation(&self) -> Rotation {
        match self {
            Kind::Mini => Rotation::Rot270,
            _ => Rotation::Rot0,
        }
    }

    /// Rotation applied to an upright image before it is sent.
    #[verifier::when_used_as_spec(spec_image_rotation)]
    pub fn image_rotation(&self) -> (r: Rotation)
        ensures
            r == self.spec_image_rotation(),
    {
        match self {
            Kind::Mini => Rotation::Rot270,
            _ => Rotation::Rot0,
        }
    }

    pub open spec fn spec_image_mirror(&self) -> Mirroring {
        match self {
            Kind::Mini | Kind::Plus => Mirroring::Off,
            Kind::Original => Mirroring::Y,
            Kind::OriginalV2 | Kind::Xl | Kind::Mk2 => Mirroring::Both,
        }
    }

    /// Mirroring applied, after the rotation, to an upright image before it
    /// is sent.
    #[verifier::when_used_as_spec(spec_image_mirror)]
    pub fn image_mirror(&self) -> (m: Mirroring)
        ensures
            m == self.spec_image_mirror(),
    {
        match self {
            Kind::Mini | Kind::Plus => Mirroring::Off,
            Kind::Original => Mirroring::Y,
            Kind::OriginalV2 | Kind::Xl | Kind::Mk2 => Mirroring::Both,
        }
    }

    pub open spec fn spec_image_colour_order(&self) -> ColourOrder {
        match self {
            Kind::Original | Kind::Mini => ColourOrder::BGR,
            Kind::OriginalV2 | Kind::Xl | Kind::Mk2 | Kind::Plus => ColourOrder::RGB,
        }
    }

    /// Channel order of key images on the wire.
    #[verifier::when_used_as_spec(spec_image_colour_order)]
    pub fn image_colour_order(&self) -> (o: ColourOrder)
        ensures
            o == self.spec_image_colour_order(),
    {
        match self {
            Kind::Original | Kind::Mini => ColourOrder::BGR,
            Kind::OriginalV2 | Kind::Xl | Kind::Mk2 | Kind::Plus => ColourOrder::RGB,
        }
    }

    pub open spec fn spec_image_report_len(&self) -> usize {
        match self {
            Kind::Original => 8191,
            _ => 1024,
        }
    }

    /// Length of every output report that carries image data.
    #[verifier::when_used_as_spec(spec_image_report_len)]
    pub fn image_report_len(&self) -> (n: usize)
        ensures
            n == self.spec_image_report_len(),
    {
        match self {
            Kind::Original => 8191,
            _ => 1024,
        }
    }

    pub open spec fn spec_image_report_header_len(&self) -> usize {
        match self {
            Kind::Original | Kind::Mini => 16,
            Kind::OriginalV2 | Kind::Xl | Kind::Mk2 | Kind::Plus => 8,
        }
    }

    /// Length of the header at the start of an image report.
    #[verifier::when_used_as_spec(spec_image_report_header_len)]
    pub fn image_report_header_len(&self) -> (n: usize)
        ensures
            n == self.spec_image_report_header_len(),
    {
        match self {
            Kind::Original | Kind::Mini => 16,
            Kind::OriginalV2 | Kind::Xl | Kind::Mk2 | Kind::Plus => 8,
        }
    }

    /// The fixed bytes sent once, in front of the pixels, with every image.
    pub open spec fn spec_image_base(&self) -> Seq<u8> {
        match self {
            Kind::Original => original_image_base(),
            Kind::Mini => mini_image_base(),
            Kind::OriginalV2 | Kind::Xl | Kind::Mk2 | Kind::Plus => Seq::empty(),
        }
    }

    /// The fixed bytes sent once, in front of the pixels, with every image:
    /// a bitmap file header on the models that take bitmaps, nothing on the
    /// others.
    pub fn image_base(&self) -> (base: Vec<u8>)
        ensures
            base@ == self.spec_image_base(),
    {
        match self {
            Kind::Original => {
                let base = vec![
                    0x42u8, 0x4d, 0xf6, 0x3c, 0x00, 0x00, 0x00, 0x00, 0x00, 0x00, 0x36, 0x00,
                    0x00, 0x00, 0x28, 0x00, 0x00, 0x00, 0x48, 0x00, 0x00, 0x00, 0x48, 0x00,
                    0x00, 0x00, 0x01, 0x00, 0x18, 0x00, 0x00, 0x00, 0x00, 0x00, 0xc0, 0x3c,
                    0x00, 0x00, 0xc4, 0x0e, 0x00, 0x00, 0xc4, 0x0e, 0x00, 0x00, 0x00, 0x00,
                    0x00, 0x00, 0x00, 0x00, 0x00, 0x00,
                ];
                assert(base@ =~= original_image_base());
                base
            },
            Kind::Mini => {
                let base = vec![
                    0x42u8, 0x4d, 0xf6, 0x3c, 0x00, 0x00, 0x00, 0x00, 0x00, 0x00, 0x36, 0x00,
                    0x00, 0x00, 0x28, 0x00, 0x00, 0x00, 0x50, 0x00, 0x00, 0x00, 0x50, 0x00,
                    0x00, 0x00, 0x01, 0x00, 0x18, 0x00, 0x00, 0x00, 0x00, 0x00, 0xc0, 0x3c,
                    0x00, 0x00, 0xc4, 0x0e, 0x00, 0x00, 0xc4, 0x0e, 0x00, 0x00, 0x00, 0x00,
                    0x00, 0x00, 0x00, 0x00, 0x00, 0x00,
                ];
                assert(base@ =~= mini_image_base());
                base
            },
            Kind::OriginalV2 | Kind::Xl | Kind::Mk2 | Kind::Plus => Vec::new(),
        }
    }

    pub open spec fn spec_is_v2(&self) -> bool {
        match self {
            Kind::OriginalV2 | Kind::Xl | Kind::Mk2 | Kind::Plus => true,
            Kind::Original | Kind::Mini => false,
        }
    }

    /// Whether the device speaks the second generation of the protocol,
    /// which changes the layout of feature reports and of image headers.
    #[verifier::when_used_as_spec(spec_is_v2)]
    pub fn is_v2(&self) -> (b: bool)
        ensures
            b == self.spec_is_v2(),
    {
        match self {
            Kind::OriginalV2 | Kind::Xl | Kind::Mk2 | Kind::Plus => true,
            Kind::Original | Kind::Mini => false,
        }
    }

    /// In every image report the header and the fixed leading bytes fit
    /// together, and on the models that split images freely they leave room
    /// for at least one byte of image data.
    pub proof fn lemma_report_has_room(self)
        ensures
            self.image_report_header_len() + self.spec_image_base().len()
                <= self.image_report_len(),
            self != Kind::Original ==> self.image_report_header_len()
                + self.spec_image_base().len() < self.image_report_len(),
            self.spec_image_base().len() == 0 || self.spec_image_base().len() == 54,
    {
    }

    /// On every model the keys fill whole rows.
    pub proof fn lemma_keys_fill_rows(self)
        ensures
            self.key_columns() > 0,
            self.keys() % self.key_columns() == 0,
            self.key_rows() * self.key_columns() == self.keys(),
    {
        match self {
            Kind::Original | Kind::OriginalV2 | Kind::Mk2 => {
                assert(15int % 5 == 0 && 15int / 5 == 3);
            },
            Kind::Mini => {
                assert(6int % 3 == 0 && 6int / 3 == 2);
            },
            Kind::Xl => {
                assert(32int % 8 == 0 && 32int / 8 == 4);
            },
            Kind::Plus => {
                assert(8int % 4 == 0 && 8int / 4 == 2);
            },
        }
    }
}

} // verus!
