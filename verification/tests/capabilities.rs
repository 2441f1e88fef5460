use streamdeck::pids;
use streamdeck::{ColourOrder, Error, ImageMode, KeyDirection, Kind, Mirroring, Rotation, StreamDeck};

const ALL: [Kind; 6] =
    [Kind::Original, Kind::OriginalV2, Kind::Mini, Kind::Xl, Kind::Mk2, Kind::Plus];

#[test]
fn header_and_base_fit_in_every_report() {
    for kind in ALL {
        assert!(
            kind.image_report_header_len() + kind.image_base().len() <= kind.image_report_len()
        );
    }
}

#[test]
fn key_layout_of_every_model() {
    assert_eq!((Kind::Original.keys(), Kind::Original.key_columns()), (15, 5));
    assert_eq!((Kind::OriginalV2.keys(), Kind::OriginalV2.key_columns()), (15, 5));
    assert_eq!((Kind::Mk2.keys(), Kind::Mk2.key_columns()), (15, 5));
    assert_eq!((Kind::Mini.keys(), Kind::Mini.key_columns()), (6, 3));
    assert_eq!((Kind::Xl.keys(), Kind::Xl.key_columns()), (32, 8));
    assert_eq!((Kind::Plus.keys(), Kind::Plus.key_columns()), (8, 4));
    for kind in ALL {
        assert_eq!(kind.key_rows() * kind.key_columns(), kind.keys());
    }
    assert_eq!(Kind::Xl.key_rows(), 4);
}

#[test]
fn only_the_first_model_counts_from_the_right() {
    for kind in ALL {
        let expected = if kind == Kind::Original {
            KeyDirection::RightToLeft
        } else {
            KeyDirection::LeftToRight
        };
        assert_eq!(kind.key_direction(), expected);
    }
}

#[test]
fn image_geometry_of_every_model() {
    assert_eq!(Kind::Original.image_size(), (72, 72));
    assert_eq!(Kind::OriginalV2.image_size(), (72, 72));
    assert_eq!(Kind::Mk2.image_size(), (72, 72));
    assert_eq!(Kind::Mini.image_size(), (80, 80));
    assert_eq!(Kind::Xl.image_size(), (96, 96));
    assert_eq!(Kind::Plus.image_size(), (120, 120));
    assert_eq!(Kind::Original.image_size_bytes(), 15552);
    assert_eq!(Kind::Mini.image_size_bytes(), 19200);
    assert_eq!(Kind::Xl.image_size_bytes(), 27648);
    assert_eq!(Kind::Plus.image_size_bytes(), 43200);
    assert_eq!(Kind::Mini.image_rotation(), Rotation::Rot270);
    assert_eq!(Kind::Original.image_rotation(), Rotation::Rot0);
    assert_eq!(Kind::Original.image_mirror(), Mirroring::Y);
    assert_eq!(Kind::Mini.image_mirror(), Mirroring::Off);
    assert_eq!(Kind::Xl.image_mirror(), Mirroring::Both);
    assert_eq!(Kind::Plus.image_mirror(), Mirroring::Off);
}

#[test]
fn bitmap_models_take_blue_first() {
    for kind in [Kind::Original, Kind::Mini] {
        assert_eq!(kind.image_mode(), ImageMode::Bmp);
        assert_eq!(kind.image_colour_order(), ColourOrder::BGR);
        assert!(!kind.is_v2());
        assert_eq!(kind.image_report_header_len(), 16);
        assert_eq!(kind.image_base().len(), 54);
        assert_eq!(kind.key_data_offset(), 0);
    }
    for kind in [Kind::OriginalV2, Kind::Xl, Kind::Mk2, Kind::Plus] {
        assert_eq!(kind.image_mode(), ImageMode::Jpeg);
        assert_eq!(kind.image_colour_order(), ColourOrder::RGB);
        assert!(kind.is_v2());
        assert_eq!(kind.image_report_header_len(), 8);
        assert!(kind.image_base().is_empty());
        assert_eq!(kind.key_data_offset(), 3);
    }
}

#[test]
fn report_lengths() {
    assert_eq!(Kind::Original.image_report_len(), 8191);
    for kind in [Kind::OriginalV2, Kind::Mini, Kind::Xl, Kind::Mk2, Kind::Plus] {
        assert_eq!(kind.image_report_len(), 1024);
    }
}

#[test]
fn image_base_is_a_bitmap_header() {
    let base = Kind::Original.image_base();
    assert_eq!(&base[0..2], &[0x42, 0x4d]);
    assert_eq!(base[10], 54);
    assert_eq!(base[18], 72);
    assert_eq!(base[22], 72);
    assert_eq!(base[28], 24);
    let mini = Kind::Mini.image_base();
    assert_eq!(&mini[0..2], &[0x42, 0x4d]);
    assert_eq!(mini[18], 80);
    assert_eq!(mini[22], 80);
}

#[test]
fn product_identifiers_name_their_models() {
    assert_eq!(Kind::from_pid(pids::ORIGINAL).unwrap(), Kind::Original);
    assert_eq!(Kind::from_pid(pids::ORIGINAL_V2).unwrap(), Kind::OriginalV2);
    assert_eq!(Kind::from_pid(pids::MINI).unwrap(), Kind::Mini);
    assert_eq!(Kind::from_pid(pids::XL).unwrap(), Kind::Xl);
    assert_eq!(Kind::from_pid(pids::MK2).unwrap(), Kind::Mk2);
    assert_eq!(Kind::from_pid(pids::PLUS).unwrap(), Kind::Plus);
    assert_eq!(Kind::from_pid(0x0060).unwrap(), Kind::Original);
    assert_eq!(Kind::from_pid(0x0084).unwrap(), Kind::Plus);
}

#[test]
fn unknown_product_identifier_is_refused() {
    assert!(matches!(Kind::from_pid(0x0000), Err(Error::UnrecognisedPID)));
    assert!(matches!(Kind::from_pid(0x0061), Err(Error::UnrecognisedPID)));
    assert!(matches!(Kind::from_pid(0xffff), Err(Error::UnrecognisedPID)));
}

#[test]
fn deck_reports_its_model() {
    for kind in ALL {
        let deck = StreamDeck::new(kind);
        assert_eq!(deck.kind(), kind);
        assert_eq!(deck.image_size(), kind.image_size());
    }
}

#[test]
fn errors_describe_themselves() {
    assert_eq!(Error::InvalidImageSize.message(), "invalid image size");
    assert_eq!(Error::InvalidKeyIndex.message(), "invalid key index");
    assert_eq!(Error::UnrecognisedPID.message(), "unrecognised pid");
    assert_eq!(Error::NoData.message(), "no data");
}
