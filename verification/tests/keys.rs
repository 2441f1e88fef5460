use streamdeck::{Error, Kind, StreamDeck};

#[test]
fn left_to_right_models_keep_the_index() {
    for kind in [Kind::OriginalV2, Kind::Mini, Kind::Xl, Kind::Mk2, Kind::Plus] {
        let deck = StreamDeck::new(kind);
        for key in 0..kind.keys() {
            assert_eq!(deck.translate_key_index(key).unwrap(), key);
        }
    }
}

#[test]
fn first_model_reverses_each_row() {
    let deck = StreamDeck::new(Kind::Original);
    let expected: [u8; 15] = [5, 4, 3, 2, 1, 10, 9, 8, 7, 6, 15, 14, 13, 12, 11];
    for key in 0..15u8 {
        assert_eq!(deck.translate_key_index(key).unwrap(), expected[key as usize]);
    }
}

#[test]
fn translation_is_one_to_one() {
    for kind in [Kind::Original, Kind::OriginalV2, Kind::Mini, Kind::Xl, Kind::Mk2, Kind::Plus] {
        let deck = StreamDeck::new(kind);
        let mut seen = vec![false; 256];
        for key in 0..kind.keys() {
            let native = deck.translate_key_index(key).unwrap() as usize;
            assert!(!seen[native]);
            seen[native] = true;
        }
        assert_eq!(seen.iter().filter(|s| **s).count(), kind.keys() as usize);
    }
}

#[test]
fn reversing_twice_gives_the_key_back() {
    // On the first model the device's numbers are one too high for a second
    // translation: taken down by one, they translate back to the key.
    let deck = StreamDeck::new(Kind::Original);
    for key in 0..15u8 {
        let native = deck.translate_key_index(key).unwrap();
        let back = deck.translate_key_index(native - 1).unwrap();
        assert_eq!(back - 1, key);
    }
}

#[test]
fn key_count_is_out_of_range() {
    for kind in [Kind::Original, Kind::OriginalV2, Kind::Mini, Kind::Xl, Kind::Mk2, Kind::Plus] {
        let deck = StreamDeck::new(kind);
        assert!(matches!(deck.translate_key_index(kind.keys()), Err(Error::InvalidKeyIndex)));
        assert!(matches!(deck.translate_key_index(255), Err(Error::InvalidKeyIndex)));
        assert!(deck.translate_key_index(kind.keys() - 1).is_ok());
    }
}
