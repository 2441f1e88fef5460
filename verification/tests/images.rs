use image::{Rgb, RgbImage};
use streamdeck::images::{flatten, rgb_to_bgr, solid_image};
use streamdeck::transform::apply_transform;
use streamdeck::{
    Colour, ColourOrder, DeviceImage, Error, ImageOptions, Kind, Mirroring, PixelBuffer, Rotation,
    StreamDeck,
};

/// A picture two pixels wide and three high whose pixel number `n`, counted
/// row by row, has the channels `n`, `10 + n` and `20 + n`.
fn numbered() -> PixelBuffer {
    let mut data = Vec::new();
    for n in 0..6u8 {
        data.extend_from_slice(&[n, 10 + n, 20 + n]);
    }
    PixelBuffer::new(2, 3, data).unwrap()
}

/// The pixel numbers of a picture made from `numbered`.
fn numbers(image: &PixelBuffer) -> Vec<u8> {
    let data = image.data();
    for pixel in data.chunks(3) {
        assert_eq!(pixel[1], 10 + pixel[0]);
        assert_eq!(pixel[2], 20 + pixel[0]);
    }
    data.chunks(3).map(|pixel| pixel[0]).collect()
}

/// A picture with a different value in every byte, as far as bytes go.
fn gradient(width: u32, height: u32) -> PixelBuffer {
    let len = (width * height * 3) as usize;
    let data = (0..len).map(|i| ((i * 7 + i / 256) % 256) as u8).collect();
    PixelBuffer::new(width, height, data).unwrap()
}

fn joined_payloads(kind: Kind, reports: &[Vec<u8>], len: usize) -> Vec<u8> {
    let header = kind.image_report_header_len();
    let base = kind.image_base().len();
    let mut joined = Vec::new();
    for (i, report) in reports.iter().enumerate() {
        let start = if i == 0 { header + base } else { header };
        let take = (len - joined.len()).min(report.len() - start);
        joined.extend_from_slice(&report[start..start + take]);
    }
    joined
}

#[test]
fn swapping_channels_twice_changes_nothing() {
    let original: Vec<u8> = (0..=255u8).chain(0..44u8).collect();
    assert_eq!(original.len() % 3, 0);
    let mut data = original.clone();
    rgb_to_bgr(&mut data);
    assert_ne!(data, original);
    rgb_to_bgr(&mut data);
    assert_eq!(data, original);
}

#[test]
fn swapping_channels_exchanges_red_and_blue() {
    let mut data = vec![1, 2, 3, 4, 5, 6];
    rgb_to_bgr(&mut data);
    assert_eq!(data, vec![3, 2, 1, 6, 5, 4]);
}

#[test]
fn swapping_channels_leaves_a_broken_pixel_alone() {
    let mut data = vec![1, 2, 3, 4, 5];
    rgb_to_bgr(&mut data);
    assert_eq!(data, vec![3, 2, 1, 4, 5]);
    let mut data = vec![1, 2];
    rgb_to_bgr(&mut data);
    assert_eq!(data, vec![1, 2]);
    let mut data: Vec<u8> = Vec::new();
    rgb_to_bgr(&mut data);
    assert!(data.is_empty());
}

#[test]
fn solid_image_repeats_the_colour() {
    let colour = Colour { r: 1, g: 2, b: 3 };
    assert_eq!(solid_image(ColourOrder::RGB, &colour, 6), vec![1, 2, 3, 1, 2, 3]);
    assert_eq!(solid_image(ColourOrder::BGR, &colour, 6), vec![3, 2, 1, 3, 2, 1]);
    assert_eq!(solid_image(ColourOrder::BGR, &colour, 4), vec![3, 2, 1, 3]);
    assert!(solid_image(ColourOrder::RGB, &colour, 0).is_empty());
}

#[test]
fn solid_image_in_device_order_is_the_swapped_solid_image() {
    let colour = Colour { r: 200, g: 100, b: 50 };
    let mut rgb = solid_image(ColourOrder::RGB, &colour, 300);
    rgb_to_bgr(&mut rgb);
    assert_eq!(rgb, solid_image(ColourOrder::BGR, &colour, 300));
}

#[test]
fn pixel_buffer_needs_three_bytes_a_pixel() {
    assert!(PixelBuffer::new(2, 3, vec![0; 18]).is_some());
    assert!(PixelBuffer::new(2, 3, vec![0; 17]).is_none());
    assert!(PixelBuffer::new(2, 3, vec![0; 19]).is_none());
    assert!(PixelBuffer::new(0, 3, Vec::new()).is_some());
    assert!(PixelBuffer::new(0, 0, vec![0]).is_none());
    assert!(PixelBuffer::new(u32::MAX, u32::MAX, vec![0; 3]).is_none());
    let image = PixelBuffer::new(2, 3, (0..18).collect()).unwrap();
    assert_eq!((image.width(), image.height()), (2, 3));
    assert_eq!(image.data(), &(0..18).collect::<Vec<u8>>());
    assert_eq!(image.into_vec(), (0..18).collect::<Vec<u8>>());
}

#[test]
fn quarter_turn() {
    let out = apply_transform(numbered(), Rotation::Rot90, Mirroring::Off);
    assert_eq!((out.width(), out.height()), (3, 2));
    assert_eq!(numbers(&out), vec![4, 2, 0, 5, 3, 1]);
}

#[test]
fn half_turn() {
    let out = apply_transform(numbered(), Rotation::Rot180, Mirroring::Off);
    assert_eq!((out.width(), out.height()), (2, 3));
    assert_eq!(numbers(&out), vec![5, 4, 3, 2, 1, 0]);
}

#[test]
fn three_quarter_turn() {
    let out = apply_transform(numbered(), Rotation::Rot270, Mirroring::Off);
    assert_eq!((out.width(), out.height()), (3, 2));
    assert_eq!(numbers(&out), vec![1, 3, 5, 0, 2, 4]);
}

#[test]
fn mirrors() {
    let out = apply_transform(numbered(), Rotation::Rot0, Mirroring::X);
    assert_eq!(numbers(&out), vec![1, 0, 3, 2, 5, 4]);
    let out = apply_transform(numbered(), Rotation::Rot0, Mirroring::Y);
    assert_eq!(numbers(&out), vec![4, 5, 2, 3, 0, 1]);
    let out = apply_transform(numbered(), Rotation::Rot0, Mirroring::Both);
    assert_eq!(numbers(&out), vec![5, 4, 3, 2, 1, 0]);
    let out = apply_transform(numbered(), Rotation::Rot0, Mirroring::Off);
    assert_eq!(numbers(&out), vec![0, 1, 2, 3, 4, 5]);
    assert_eq!((out.width(), out.height()), (2, 3));
}

#[test]
fn turn_comes_before_mirror() {
    let out = apply_transform(numbered(), Rotation::Rot90, Mirroring::X);
    assert_eq!((out.width(), out.height()), (3, 2));
    assert_eq!(numbers(&out), vec![0, 2, 4, 1, 3, 5]);
    let out = apply_transform(numbered(), Rotation::Rot270, Mirroring::Y);
    assert_eq!(numbers(&out), vec![0, 2, 4, 1, 3, 5]);
}

#[test]
fn four_quarter_turns_give_the_picture_back() {
    let mut image = gradient(5, 3);
    let original = image.data().clone();
    for _ in 0..4 {
        image = apply_transform(image, Rotation::Rot90, Mirroring::Off);
    }
    assert_eq!(image.data(), &original);
}

#[test]
fn bitmap_conversion_keeps_the_pixels() {
    for kind in [Kind::Original, Kind::Mini] {
        let deck = StreamDeck::new(kind);
        let pixels: Vec<u8> = (0..kind.image_size_bytes()).map(|i| (i % 256) as u8).collect();
        let image = deck.convert_image(pixels.clone()).unwrap();
        assert_eq!(image.data(), &pixels);
    }
}

#[test]
fn conversion_checks_the_length() {
    for kind in [Kind::Original, Kind::OriginalV2, Kind::Mini, Kind::Xl, Kind::Mk2, Kind::Plus] {
        let deck = StreamDeck::new(kind);
        let size = kind.image_size_bytes();
        for len in [0, 3, size - 1, size + 1, size + 3] {
            assert!(matches!(deck.convert_image(vec![0; len]), Err(Error::InvalidImageSize)));
        }
        assert!(deck.convert_image(vec![0; size]).is_ok());
    }
}

#[test]
fn jpeg_conversion_encodes_the_pixels() {
    for kind in [Kind::OriginalV2, Kind::Xl, Kind::Mk2, Kind::Plus] {
        let deck = StreamDeck::new(kind);
        let (width, height) = kind.image_size();
        let colour = Colour { r: 250, g: 10, b: 20 };
        let pixels = solid_image(ColourOrder::RGB, &colour, kind.image_size_bytes());
        let converted = deck.convert_image(pixels.clone()).unwrap();
        let bytes = converted.data();
        assert_ne!(bytes, &pixels);
        assert_eq!(&bytes[..2], &[0xff, 0xd8]);
        assert_eq!(&bytes[bytes.len() - 2..], &[0xff, 0xd9]);
        let decoded = image::load_from_memory(bytes).unwrap().into_rgb8();
        assert_eq!(decoded.dimensions(), (width as u32, height as u32));
        let Rgb([r, g, b]) = *decoded.get_pixel(width as u32 / 2, height as u32 / 2);
        assert!(r > 240 && g < 25 && b < 35);
    }
}

#[test]
fn jpeg_conversion_is_repeatable() {
    let deck = StreamDeck::new(Kind::Mk2);
    let pixels = gradient(72, 72).into_vec();
    let first = deck.convert_image(pixels.clone()).unwrap();
    let second = deck.convert_image(pixels).unwrap();
    assert_eq!(first.data(), second.data());
}

#[test]
fn solid_colour_on_a_bitmap_key() {
    let deck = StreamDeck::new(Kind::Mini);
    let colour = Colour { r: 1, g: 2, b: 3 };
    let reports = deck.set_button_rgb(5, &colour).unwrap();
    assert_eq!(reports.len(), 20);
    let expected = solid_image(ColourOrder::BGR, &colour, 19200);
    assert_eq!(&expected[..6], &[3, 2, 1, 3, 2, 1]);
    assert_eq!(joined_payloads(Kind::Mini, &reports, 19200), expected);
    let framed = deck.write_button_image(5, &DeviceImage::from_bytes(expected)).unwrap();
    assert_eq!(reports, framed);
}

#[test]
fn solid_colour_on_the_first_model() {
    let deck = StreamDeck::new(Kind::Original);
    let colour = Colour { r: 0xaa, g: 0xbb, b: 0xcc };
    let reports = deck.set_button_rgb(14, &colour).unwrap();
    assert_eq!(reports.len(), 2);
    assert_eq!(&reports[0][..6], &[0x02, 0x01, 1, 0, 0, 11]);
    assert_eq!(&reports[0][70..76], &[0xcc, 0xbb, 0xaa, 0xcc, 0xbb, 0xaa]);
    assert_eq!(&reports[1][16..22], &[0xcc, 0xbb, 0xaa, 0xcc, 0xbb, 0xaa]);
}

#[test]
fn solid_colour_on_a_jpeg_key() {
    let deck = StreamDeck::new(Kind::Xl);
    let colour = Colour { r: 10, g: 200, b: 30 };
    let reports = deck.set_button_rgb(31, &colour).unwrap();
    let pixels = solid_image(ColourOrder::RGB, &colour, Kind::Xl.image_size_bytes());
    let converted = deck.convert_image(pixels).unwrap();
    assert_eq!(reports, deck.write_button_image(31, &converted).unwrap());
    assert_eq!(joined_payloads(Kind::Xl, &reports, converted.data().len()), *converted.data());
    let decoded = image::load_from_memory(converted.data()).unwrap().into_rgb8();
    let Rgb([r, g, b]) = *decoded.get_pixel(3, 3);
    assert!(r < 25 && g > 185 && b < 45);
}

#[test]
fn solid_colour_on_a_missing_key() {
    for kind in [Kind::Original, Kind::OriginalV2, Kind::Mini, Kind::Xl, Kind::Mk2, Kind::Plus] {
        let deck = StreamDeck::new(kind);
        let colour = Colour { r: 1, g: 2, b: 3 };
        assert!(matches!(deck.set_button_rgb(kind.keys(), &colour), Err(Error::InvalidKeyIndex)));
    }
}

#[test]
fn picture_on_a_rotating_bitmap_model() {
    let deck = StreamDeck::new(Kind::Mini);
    let picture = gradient(80, 80);
    let raw = RgbImage::from_raw(80, 80, picture.data().clone()).unwrap();
    let mut expected = image::imageops::rotate270(&raw).into_raw();
    for pixel in expected.chunks_mut(3) {
        pixel.swap(0, 2);
    }
    let loaded = deck.load_image(gradient(80, 80)).unwrap();
    assert_eq!(loaded.data(), &expected);
    let reports = deck.set_button_image(0, picture).unwrap();
    assert_eq!(joined_payloads(Kind::Mini, &reports, 19200), expected);
}

#[test]
fn picture_on_the_first_model() {
    let deck = StreamDeck::new(Kind::Original);
    let picture = gradient(72, 72);
    let raw = RgbImage::from_raw(72, 72, picture.data().clone()).unwrap();
    let mut expected = image::imageops::flip_vertical(&raw).into_raw();
    for pixel in expected.chunks_mut(3) {
        pixel.swap(0, 2);
    }
    let reports = deck.set_button_image(3, picture).unwrap();
    assert_eq!(reports.len(), 2);
    assert_eq!(reports[0][5], 2);
    assert_eq!(&reports[0][70..7819], &expected[..7749]);
    assert_eq!(&reports[1][16..7819], &expected[7749..]);
}

#[test]
fn picture_on_a_jpeg_model() {
    let deck = StreamDeck::new(Kind::Mk2);
    let mut raw = RgbImage::from_pixel(72, 72, Rgb([0, 0, 0]));
    for y in 0..36 {
        for x in 0..36 {
            raw.put_pixel(x, y, Rgb([255, 255, 255]));
        }
    }
    let picture = PixelBuffer::new(72, 72, raw.into_raw()).unwrap();
    let loaded = deck.load_image(picture).unwrap();
    let decoded = image::load_from_memory(loaded.data()).unwrap().into_rgb8();
    // Mirrored both ways, the bright quarter lies bottom right.
    assert!(decoded.get_pixel(60, 60)[0] > 230);
    assert!(decoded.get_pixel(10, 10)[0] < 25);
    assert!(decoded.get_pixel(60, 10)[0] < 25);
    assert!(decoded.get_pixel(10, 60)[0] < 25);
}

#[test]
fn picture_of_the_wrong_size_is_refused() {
    for kind in [Kind::Original, Kind::OriginalV2, Kind::Mini, Kind::Xl, Kind::Mk2, Kind::Plus] {
        let deck = StreamDeck::new(kind);
        assert!(matches!(deck.load_image(gradient(10, 10)), Err(Error::InvalidImageSize)));
        assert!(matches!(
            deck.set_button_image(0, gradient(10, 10)),
            Err(Error::InvalidImageSize)
        ));
        // The length is looked at before the key.
        assert!(matches!(
            deck.set_button_image(200, gradient(10, 10)),
            Err(Error::InvalidImageSize)
        ));
    }
}

#[test]
fn picture_on_a_missing_key() {
    let deck = StreamDeck::new(Kind::Mini);
    assert!(matches!(deck.set_button_image(6, gradient(80, 80)), Err(Error::InvalidKeyIndex)));
    let deck = StreamDeck::new(Kind::Plus);
    assert!(matches!(deck.set_button_image(8, gradient(120, 120)), Err(Error::InvalidKeyIndex)));
}

#[test]
fn flattening_without_background_drops_the_opacity() {
    let rgba = [1, 2, 3, 0, 4, 5, 6, 128, 7, 8, 9, 255];
    assert_eq!(flatten(&rgba, None), vec![1, 2, 3, 4, 5, 6, 7, 8, 9]);
}

#[test]
fn flattening_mixes_with_the_background() {
    let background = Colour { r: 255, g: 0, b: 100 };
    // Clear, opaque, and a pixel of opacity 51: a fifth.
    let rgba = [9, 9, 9, 0, 10, 20, 30, 255, 0, 255, 200, 51];
    assert_eq!(
        flatten(&rgba, Some(background)),
        vec![255, 0, 100, 10, 20, 30, 204, 51, 120]
    );
}

#[test]
fn flattening_drops_a_broken_pixel() {
    assert_eq!(flatten(&[1, 2, 3, 255, 4, 5, 6], None), vec![1, 2, 3]);
    assert!(flatten(&[1, 2, 3], None).is_empty());
    assert!(flatten(&[], Some(Colour { r: 1, g: 2, b: 3 })).is_empty());
}

#[test]
fn image_options_hold_what_they_are_given() {
    let options = ImageOptions { background: Some(Colour { r: 1, g: 2, b: 3 }), invert: true };
    assert_eq!(options.background, Some(Colour { r: 1, g: 2, b: 3 }));
    assert!(options.invert);
}

#[test]
fn encoder_error_is_passed_on() {
    let refusal = image::error::ImageError::IoError(std::io::Error::other("refused"));
    let text = format!("{}", refusal);
    match DeviceImage::from_encoding(Err(refusal)) {
        Err(Error::Image(e)) => assert_eq!(format!("{}", e), text),
        _ => panic!("the encoder's error must come back"),
    }
    let e = Error::Image(image::error::ImageError::IoError(std::io::Error::other("refused")));
    assert_eq!(e.message(), text);
    let image = DeviceImage::from_encoding(Ok(vec![1, 2, 3])).unwrap();
    assert_eq!(image.data(), &vec![1, 2, 3]);
}

/// The picture that has, in column `x` and row `y`, the pixel of `source`
/// that `from` names for that place.
fn rearranged(
    source: &PixelBuffer,
    width: u32,
    height: u32,
    from: impl Fn(u32, u32) -> (u32, u32),
) -> Vec<u8> {
    let data = source.data();
    let mut out = Vec::new();
    for y in 0..height {
        for x in 0..width {
            let (sx, sy) = from(x, y);
            let at = ((sy * source.width() + sx) * 3) as usize;
            out.extend_from_slice(&data[at..at + 3]);
        }
    }
    out
}

#[test]
fn turns_move_every_pixel_to_its_place() {
    let (w, h) = (5u32, 3u32);
    let source = gradient(w, h);
    let out = apply_transform(gradient(w, h), Rotation::Rot90, Mirroring::Off);
    assert_eq!(out.data(), &rearranged(&source, h, w, |x, y| (y, h - 1 - x)));
    let out = apply_transform(gradient(w, h), Rotation::Rot180, Mirroring::Off);
    assert_eq!(out.data(), &rearranged(&source, w, h, |x, y| (w - 1 - x, h - 1 - y)));
    let out = apply_transform(gradient(w, h), Rotation::Rot270, Mirroring::Off);
    assert_eq!(out.data(), &rearranged(&source, h, w, |x, y| (w - 1 - y, x)));
}

#[test]
fn mirrors_move_every_pixel_to_its_place() {
    let (w, h) = (5u32, 3u32);
    let source = gradient(w, h);
    let out = apply_transform(gradient(w, h), Rotation::Rot0, Mirroring::X);
    assert_eq!(out.data(), &rearranged(&source, w, h, |x, y| (w - 1 - x, y)));
    let out = apply_transform(gradient(w, h), Rotation::Rot0, Mirroring::Y);
    assert_eq!(out.data(), &rearranged(&source, w, h, |x, y| (x, h - 1 - y)));
    let out = apply_transform(gradient(w, h), Rotation::Rot0, Mirroring::Both);
    assert_eq!(out.data(), &rearranged(&source, w, h, |x, y| (w - 1 - x, h - 1 - y)));
}

#[test]
fn empty_picture_stays_empty() {
    for rotation in [Rotation::Rot0, Rotation::Rot90, Rotation::Rot180, Rotation::Rot270] {
        for mirroring in [Mirroring::Off, Mirroring::X, Mirroring::Y, Mirroring::Both] {
            let empty = PixelBuffer::new(0, 4, Vec::new()).unwrap();
            let out = apply_transform(empty, rotation, mirroring);
            assert!(out.data().is_empty());
            assert_eq!(out.width() * out.height(), 0);
        }
    }
}

#[test]
fn every_model_shows_a_solid_colour_on_every_key() {
    for kind in [Kind::Original, Kind::OriginalV2, Kind::Mini, Kind::Xl, Kind::Mk2, Kind::Plus] {
        let deck = StreamDeck::new(kind);
        let colour = Colour { r: 12, g: 34, b: 56 };
        for key in 0..kind.keys() {
            let reports = deck.set_button_rgb(key, &colour).unwrap();
            assert!(!reports.is_empty());
            for report in &reports {
                assert_eq!(report.len(), kind.image_report_len());
            }
        }
    }
}

#[test]
fn every_model_converts_a_picture_of_its_size() {
    for kind in [Kind::Original, Kind::OriginalV2, Kind::Mini, Kind::Xl, Kind::Mk2, Kind::Plus] {
        let deck = StreamDeck::new(kind);
        let (width, height) = kind.image_size();
        assert!(deck.load_image(gradient(width as u32, height as u32)).is_ok());
        assert!(deck.set_button_image(0, gradient(width as u32, height as u32)).is_ok());
        assert!(deck.convert_image(gradient(width as u32, height as u32).into_vec()).is_ok());
    }
}
