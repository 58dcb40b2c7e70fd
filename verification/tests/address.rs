use plm::{Address, Error};
use std::str::FromStr;

#[test]
fn address_parse() {
    assert_eq!(
        Address([0x11, 0x22, 0x33]),
        Address::from_str("11.22.33").unwrap()
    );
}

#[test]
fn address_parse_no_dots() {
    assert_eq!(Err(Error::InvalidAddress), Address::from_str("112233"));
}

#[test]
fn address_parse_through_the_trait() {
    let parsed: Result<Address, Error> = "2b.a1.11".parse();
    assert_eq!(parsed, Ok(Address([0x2b, 0xa1, 0x11])));
    assert_eq!(<Address as FromStr>::from_str("zz.00.00"), Err(Error::InvalidAddress));
}

#[test]
fn address_parse_takes_either_case() {
    assert_eq!(Address::from_str("aB.Cd.eF"), Ok(Address([0xab, 0xcd, 0xef])));
    assert_eq!(Address::from_str("00.00.00"), Ok(Address([0, 0, 0])));
    assert_eq!(Address::from_str("ff.FF.09"), Ok(Address([0xff, 0xff, 0x09])));
}

#[test]
fn address_parse_refuses_other_shapes() {
    let bad = [
        "",
        "11",
        "1.2.3",
        "11.22",
        "11.22.3",
        "11.22.333",
        "11.22.33.44",
        "11:22:33",
        "11.22.3g",
        "+1.22.33",
        " 11.22.33",
        "11.22.33 ",
        "11.22.33\n",
        "1122.33.",
        "\u{e9}1.22.33",
    ];
    for text in bad.iter() {
        assert_eq!(Address::from_str(text), Err(Error::InvalidAddress), "{:?}", text);
    }
}

#[test]
fn address_format_is_lower_case_hex() {
    assert_eq!(Address([0x11, 0x22, 0x33]).to_string(), "11.22.33");
    assert_eq!(Address([0x2b, 0xa1, 0x0f]).to_string(), "2b.a1.0f");
    assert_eq!(Address([0, 0, 0]).to_string(), "00.00.00");
    assert_eq!(Address([0xff, 0xfe, 0xa0]).to_string(), "ff.fe.a0");
}

#[test]
fn address_round_trip() {
    let mut seen = 0u32;
    for a in (0u16..=255).step_by(5) {
        for b in [0u8, 1, 9, 10, 15, 16, 0x7f, 0x80, 0xa5, 0xff] {
            for c in [0u8, 0x0a, 0x99, 0xf0, 0xff] {
                let address = Address([a as u8, b, c]);
                assert_eq!(Address::from_str(&address.to_string()), Ok(address));
                seen += 1;
            }
        }
    }
    assert_eq!(seen, 52 * 10 * 5);
}

#[test]
fn address_conversions() {
    let address = Address::from([1u8, 2, 3]);
    assert_eq!(address, Address([1, 2, 3]));
    let bytes: [u8; 3] = address.into();
    assert_eq!(bytes, [1, 2, 3]);
    assert_eq!(Address::from_slice(&[9u8, 8, 7][..]), Address([9, 8, 7]));
    assert_eq!(Address::default(), Address([0, 0, 0]));
    assert_ne!(Address([1, 2, 3]), Address([1, 2, 4]));
    assert_ne!(Address([1, 2, 3]), Address([0, 2, 3]));
}
