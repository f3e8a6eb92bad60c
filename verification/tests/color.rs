use nft_metadata::rgb8_fromhex_opt::{deserialize, serialize};
use nft_metadata::DecodeError;
use rgb::RGB8;

#[test]
fn from_json() {
    let s = r#"{ "color": "f2f2f2" }"#;
    let target: serde_json::Value = serde_json::from_str(s).unwrap();
    let color = deserialize(target["color"].as_str()).unwrap();
    assert_eq!(
        color,
        Some(RGB8 {
            r: 242,
            g: 242,
            b: 242
        })
    );
}

#[test]
fn to_json() {
    let color = Some(RGB8 {
        r: 242,
        g: 242,
        b: 242,
    });
    let mut target = serde_json::Map::new();
    if let Some(text) = serialize(&color) {
        target.insert("color".to_string(), serde_json::Value::String(text));
    }
    let s = serde_json::to_string(&serde_json::Value::Object(target)).unwrap();
    assert_eq!(s, r#"{"color":"f2f2f2"}"#)
}

#[test]
fn from_notcolor_json() {
    let s = r#"{ "color": "f2f2f2f2" }"#;
    let target: serde_json::Value = serde_json::from_str(s).unwrap();
    let color = deserialize(target["color"].as_str());
    assert!(color.is_err());
}

#[test]
fn color_too_long_holds_the_raw_text() {
    assert_eq!(
        deserialize(Some("f2f2f2f2")),
        Err(DecodeError::ColorFormat { raw: "f2f2f2f2".to_string() })
    );
}

#[test]
fn color_absent_is_no_color() {
    assert_eq!(deserialize(None), Ok(None));
    assert_eq!(serialize(&None), None);
}

#[test]
fn color_absent_key_in_json_is_no_color_and_is_omitted() {
    let target: serde_json::Value = serde_json::from_str("{}").unwrap();
    let color = deserialize(target["color"].as_str()).unwrap();
    assert_eq!(color, None);
    let mut written = serde_json::Map::new();
    if let Some(text) = serialize(&color) {
        written.insert("color".to_string(), serde_json::Value::String(text));
    }
    assert_eq!(serde_json::to_string(&serde_json::Value::Object(written)).unwrap(), "{}");
}

#[test]
fn color_digits_of_either_case() {
    let wanted = Ok(Some(RGB8 { r: 0xab, g: 0xcd, b: 0xef }));
    assert_eq!(deserialize(Some("abcdef")), wanted);
    assert_eq!(deserialize(Some("ABCDEF")), wanted);
    assert_eq!(deserialize(Some("aBcDeF")), wanted);
}

#[test]
fn color_channels_in_order() {
    assert_eq!(deserialize(Some("010203")), Ok(Some(RGB8 { r: 1, g: 2, b: 3 })));
    assert_eq!(deserialize(Some("ff0080")), Ok(Some(RGB8 { r: 255, g: 0, b: 128 })));
    assert_eq!(deserialize(Some("000000")), Ok(Some(RGB8 { r: 0, g: 0, b: 0 })));
    assert_eq!(deserialize(Some("ffffff")), Ok(Some(RGB8 { r: 255, g: 255, b: 255 })));
}

#[test]
fn color_is_written_lower_case_and_zero_padded() {
    assert_eq!(serialize(&Some(RGB8 { r: 0, g: 10, b: 255 })), Some("000aff".to_string()));
    assert_eq!(serialize(&Some(RGB8 { r: 0xAB, g: 0xCD, b: 0xEF })), Some("abcdef".to_string()));
    assert_eq!(serialize(&Some(RGB8 { r: 1, g: 2, b: 3 })), Some("010203".to_string()));
    assert_eq!(serialize(&Some(RGB8 { r: 0, g: 0, b: 0 })), Some("000000".to_string()));
}

#[test]
fn color_malformed_texts() {
    let texts = [
        "", "f", "f2", "f2f2", "f2f2f", "fff", "f2f2f2f", "#f2f2f2", "#f2f2f", "0xf2f2", "g2f2f2",
        "f2f2fg", "f2 f2f", " f2f2f2", "f2f2f2 ", "f2-f2-", "\u{e9}2f2f2", "\u{ff11}2f2f2", "f2f2f\u{e9}",
        "+2f2f2", "f2f2f2f2", "f2f2f2f2f2f2",
    ];
    for text in texts.iter() {
        assert_eq!(
            deserialize(Some(text)),
            Err(DecodeError::ColorFormat { raw: text.to_string() }),
            "{:?}",
            text
        );
    }
}

#[test]
fn color_round_trip_on_many_values() {
    let mut n: u32 = 0;
    while n < 0x0100_0000 {
        let color = Some(RGB8 { r: (n >> 16) as u8, g: (n >> 8) as u8, b: n as u8 });
        let text = serialize(&color).unwrap();
        assert_eq!(text.len(), 6);
        assert_eq!(text, format!("{:06x}", n));
        assert_eq!(deserialize(Some(text.as_str())), Ok(color));
        assert_eq!(deserialize(Some(text.to_uppercase().as_str())), Ok(color));
        n += 65_537 + 4_099;
    }
}
