use streamdeck::{u16_parse_hex, Colour, Filter, TextPosition};

#[test]
fn hex_identifiers() {
    assert_eq!(u16_parse_hex("0fd9"), Some(0x0fd9));
    assert_eq!(u16_parse_hex("0063"), Some(0x0063));
    assert_eq!(u16_parse_hex("0"), Some(0));
    assert_eq!(u16_parse_hex("ffff"), Some(0xffff));
    assert_eq!(u16_parse_hex("FFFF"), Some(0xffff));
    assert_eq!(u16_parse_hex("aBcD"), Some(0xabcd));
    assert_eq!(u16_parse_hex("7"), Some(7));
}

#[test]
fn hex_with_sign_and_leading_zeros() {
    assert_eq!(u16_parse_hex("+1f"), Some(0x1f));
    assert_eq!(u16_parse_hex("0000000000001f"), Some(0x1f));
    assert_eq!(u16_parse_hex("+0000ffff"), Some(0xffff));
}

#[test]
fn hex_that_is_no_number() {
    for text in ["", "+", "-", "-1", "++1", "0x10", "g", "12g4", " 12", "12 ", "1_0", "é", "+-1"] {
        assert_eq!(u16_parse_hex(text), None);
    }
}

#[test]
fn hex_that_does_not_fit() {
    assert_eq!(u16_parse_hex("10000"), None);
    assert_eq!(u16_parse_hex("fffff"), None);
    assert_eq!(u16_parse_hex("123456789abcdef0123456789"), None);
    assert_eq!(u16_parse_hex("1000g"), None);
}

#[test]
fn hex_agrees_with_the_standard_parser() {
    let alphabet = ['0', '9', 'a', 'F', 'g', '+', '-', ' '];
    let mut texts = vec![String::new()];
    for _ in 0..5 {
        let mut longer = Vec::new();
        for text in &texts {
            for c in alphabet {
                let mut t = text.clone();
                t.push(c);
                longer.push(t);
            }
        }
        for text in &longer {
            assert_eq!(u16_parse_hex(text), u16::from_str_radix(text, 16).ok());
        }
        texts = longer;
    }
}

#[test]
fn filter_holds_what_it_is_given() {
    let filter = Filter { vid: 0x0fd9, pid: 0x0063, serial: Some("AL12".to_string()) };
    assert_eq!(filter.vid, 0x0fd9);
    assert_eq!(filter.pid, 0x0063);
    assert_eq!(filter.serial.as_deref(), Some("AL12"));
    assert_eq!(filter.clone(), filter);
}

#[test]
fn text_position_holds_its_corner() {
    let TextPosition::Absolute { x, y } = TextPosition::Absolute { x: -3, y: 40 };
    assert_eq!((x, y), (-3, 40));
}

#[test]
fn colours_in_hex() {
    assert_eq!(Colour::from_hex("FFFFFF"), Some(Colour { r: 255, g: 255, b: 255 }));
    assert_eq!(Colour::from_hex("000000"), Some(Colour { r: 0, g: 0, b: 0 }));
    assert_eq!(Colour::from_hex("ff8000"), Some(Colour { r: 255, g: 128, b: 0 }));
    assert_eq!(Colour::from_hex("1a2B3c"), Some(Colour { r: 0x1a, g: 0x2b, b: 0x3c }));
}

#[test]
fn colours_that_are_none() {
    for text in ["", "fff", "fffff", "fffffff", "ff80000", "gg0000", "+f8000", "ff 000", "#ff800", "ééé"]
    {
        assert_eq!(Colour::from_hex(text), None);
    }
}

#[test]
fn colours_from_text() {
    assert_eq!("FFFFFF".parse::<Colour>(), Ok(Colour { r: 255, g: 255, b: 255 }));
    assert_eq!("000000".parse::<Colour>(), Ok(Colour { r: 0, g: 0, b: 0 }));
    assert_eq!("0a141e".parse::<Colour>(), Ok(Colour { r: 10, g: 20, b: 30 }));
    assert!("".parse::<Colour>().is_err());
    assert!("ff80".parse::<Colour>().is_err());
    assert!("ff80zz".parse::<Colour>().is_err());
    assert!("ff8000ff".parse::<Colour>().is_err());
    for text in ["123456", "abcdef", "ABCDEF", "12345", "xyzxyz", "+12345"] {
        assert_eq!(text.parse::<Colour>().ok(), Colour::from_hex(text));
    }
}
