use nft_metadata::error::{AttributeField, Expected, Field, Location};
use nft_metadata::link::is_canonical_link;
use nft_metadata::value::Shape;
use nft_metadata::{AttributeEntry, DecodeError, DisplayType, Metadata, Number, Value};
use rgb::RGB8;
use url::Url;

const PLANETPASS_ITEM: &str = r#"
    {
        "image": "https://assets.wanderers.ai/file/planetpass/vid/0/0.mp4",
        "description": "Visit this planet and get a free Rocketeer NFT from Alucard.eth!",
        "name": "Rocketeer X",
        "attributes": [
          {
            "trait_type": "Core",
            "value": "Vortex"
          },
          {
            "trait_type": "Satellite",
            "value": "Protoplanets"
          },
          {
            "trait_type": "Feature",
            "value": "Icy"
          },
          {
            "trait_type": "Ship",
            "value": "Docking"
          },
          {
            "trait_type": "Space",
            "value": "Green Sun"
          },
          {
            "trait_type": "Terrain",
            "value": "Layers"
          },
          {
            "trait_type": "Faction",
            "value": "Coalition for Uncorrupted Biology"
          },
          {
            "trait_type": "Atmosphere",
            "value": "Alpen Glow"
          }
        ]
      }
    "#;

fn document_value(j: &serde_json::Value) -> Value {
    match j {
        serde_json::Value::Null => Value::Null,
        serde_json::Value::Bool(b) => Value::Bool(*b),
        serde_json::Value::Number(n) => Value::Number(match (n.as_u64(), n.as_i64()) {
            (Some(u), _) => Number::Integer(u as i128),
            (None, Some(i)) => Number::Integer(i as i128),
            (None, None) => Number::Real(n.as_f64().unwrap().to_bits()),
        }),
        serde_json::Value::String(s) => Value::String(s.clone()),
        serde_json::Value::Array(a) => Value::Array(a.iter().map(document_value).collect()),
        serde_json::Value::Object(o) => {
            Value::Object(o.iter().map(|(k, v)| (k.clone(), document_value(v))).collect())
        }
    }
}

fn document_json(v: &Value) -> serde_json::Value {
    match v {
        Value::Null => serde_json::Value::Null,
        Value::Bool(b) => serde_json::Value::Bool(*b),
        Value::Number(Number::Integer(i)) => {
            if *i >= 0 {
                serde_json::Value::Number(serde_json::Number::from(*i as u64))
            } else {
                serde_json::Value::Number(serde_json::Number::from(*i as i64))
            }
        }
        Value::Number(Number::Real(bits)) => {
            serde_json::Value::Number(serde_json::Number::from_f64(f64::from_bits(*bits)).unwrap())
        }
        Value::String(s) => serde_json::Value::String(s.clone()),
        Value::Array(a) => serde_json::Value::Array(a.iter().map(document_json).collect()),
        Value::Object(o) => serde_json::Value::Object(
            o.iter().map(|(k, v)| (k.clone(), document_json(v))).collect(),
        ),
    }
}

fn document(text: &str) -> Value {
    document_value(&serde_json::from_str::<serde_json::Value>(text).unwrap())
}

fn decode(text: &str) -> Result<Metadata, DecodeError> {
    Metadata::decode(&document(text))
}

fn string(s: &str) -> Value {
    Value::String(s.to_string())
}

fn pair(k: &str, v: Value) -> (String, Value) {
    (k.to_string(), v)
}

fn at_member(field: Field, expected: Expected, found: Shape) -> DecodeError {
    DecodeError::Structure { at: Location::Member(field), expected, found }
}

fn minimal() -> Metadata {
    Metadata {
        image: Url::parse("https://example.net/a.png").unwrap(),
        external_url: None,
        description: "d".to_string(),
        name: "n".to_string(),
        attributes: vec![],
        background_color: None,
        animation_url: None,
        youtube_url: None,
    }
}

fn full() -> Metadata {
    Metadata {
        image: Url::parse("ipfs://QmHash/1.png").unwrap(),
        external_url: Some(Url::parse("https://example.net/token/1?x=y#z").unwrap()),
        description: "A \"quoted\" description\nwith two lines".to_string(),
        name: "Token #1".to_string(),
        attributes: vec![
            AttributeEntry::String { trait_type: "Core".to_string(), value: "Vortex".to_string() },
            AttributeEntry::Number {
                trait_type: "Level".to_string(),
                value: 5,
                display_type: Some(DisplayType::Number),
            },
            AttributeEntry::Number {
                trait_type: "Born".to_string(),
                value: 1_546_360_800,
                display_type: Some(DisplayType::Date),
            },
            AttributeEntry::Number { trait_type: "Plain".to_string(), value: 0, display_type: None },
        ],
        background_color: Some(RGB8 { r: 242, g: 242, b: 242 }),
        animation_url: Some(Url::parse("https://example.net/a.mp4").unwrap()),
        youtube_url: Some(Url::parse("https://www.youtube.com/watch?v=abc").unwrap()),
    }
}

#[test]
pub fn planetpass() {
    let metadata = decode(PLANETPASS_ITEM);
    assert!(metadata.is_ok());
}

#[test]
fn planetpass_keeps_length_and_order() {
    let metadata = decode(PLANETPASS_ITEM).unwrap();
    assert_eq!(
        metadata.image.as_str(),
        "https://assets.wanderers.ai/file/planetpass/vid/0/0.mp4"
    );
    assert_eq!(
        metadata.description,
        "Visit this planet and get a free Rocketeer NFT from Alucard.eth!"
    );
    assert_eq!(metadata.name, "Rocketeer X");
    assert_eq!(metadata.external_url, None);
    assert_eq!(metadata.background_color, None);
    assert_eq!(metadata.animation_url, None);
    assert_eq!(metadata.youtube_url, None);
    let wanted = [
        ("Core", "Vortex"),
        ("Satellite", "Protoplanets"),
        ("Feature", "Icy"),
        ("Ship", "Docking"),
        ("Space", "Green Sun"),
        ("Terrain", "Layers"),
        ("Faction", "Coalition for Uncorrupted Biology"),
        ("Atmosphere", "Alpen Glow"),
    ];
    assert_eq!(metadata.attributes.len(), 8);
    for (entry, (trait_type, value)) in metadata.attributes.iter().zip(wanted.iter()) {
        assert_eq!(
            *entry,
            AttributeEntry::String { trait_type: trait_type.to_string(), value: value.to_string() }
        );
    }
}

#[test]
fn missing_attributes_decode_as_empty() {
    let metadata =
        decode(r#"{"image":"https://example.net/a.png","description":"d","name":"n"}"#).unwrap();
    assert_eq!(metadata.attributes, vec![]);
    assert_eq!(metadata, minimal());
    let written = decode(
        r#"{"image":"https://example.net/a.png","description":"d","name":"n","attributes":[]}"#,
    );
    assert_eq!(written, Ok(minimal()));
}

#[test]
fn unknown_keys_are_ignored() {
    let metadata = decode(
        r#"{"image":"https://example.net/a.png","seller_fee_basis_points":250,
            "description":"d","name":"n","compiler":{"name":"x"},"Image":3,"":null}"#,
    );
    assert_eq!(metadata, Ok(minimal()));
}

#[test]
fn every_member_is_read() {
    let metadata = decode(
        r#"{
            "youtube_url": "https://www.youtube.com/watch?v=abc",
            "animation_url": "https://example.net/a.mp4",
            "background_color": "F2f2F2",
            "attributes": [
                {"trait_type": "Core", "value": "Vortex"},
                {"display_type": "number", "trait_type": "Level", "value": 5},
                {"display_type": "date", "trait_type": "Born", "value": 1546360800},
                {"trait_type": "Plain", "value": 0}
            ],
            "name": "Token #1",
            "description": "A \"quoted\" description\nwith two lines",
            "external_url": "https://example.net/token/1?x=y#z",
            "image": "ipfs://QmHash/1.png"
        }"#,
    );
    assert_eq!(metadata, Ok(full()));
}

#[test]
fn links_are_held_as_they_are_printed() {
    let metadata = decode(
        r#"{"image":"HTTPS://Example.NET:443/a/../b c.png","description":"d","name":"n",
            "external_url":"https://example.net"}"#,
    )
    .unwrap();
    assert_eq!(metadata.image.as_str(), "https://example.net/b%20c.png");
    assert_eq!(metadata.external_url.unwrap().as_str(), "https://example.net/");
}

#[test]
fn required_members_must_be_there() {
    assert_eq!(
        decode(r#"{"description":"d","name":"n"}"#),
        Err(at_member(Field::Image, Expected::Link, Shape::Absent))
    );
    assert_eq!(
        decode(r#"{"image":"https://example.net/a.png","name":"n"}"#),
        Err(at_member(Field::Description, Expected::String, Shape::Absent))
    );
    assert_eq!(
        decode(r#"{"image":"https://example.net/a.png","description":"d"}"#),
        Err(at_member(Field::Name, Expected::String, Shape::Absent))
    );
    assert_eq!(decode("{}"), Err(at_member(Field::Image, Expected::Link, Shape::Absent)));
}

#[test]
fn document_must_be_an_object() {
    let cases = [
        ("null", Shape::Null),
        ("true", Shape::Bool),
        ("12", Shape::Number),
        ("1.5", Shape::Number),
        ("\"image\"", Shape::String),
        ("[]", Shape::Array),
        (r#"["https://example.net/a.png", null, "d", "n"]"#, Shape::Array),
    ];
    for (t, found) in cases.iter() {
        assert_eq!(
            decode(t),
            Err(DecodeError::Structure {
                at: Location::Document,
                expected: Expected::Object,
                found: *found,
            }),
            "{}",
            t
        );
    }
}

#[test]
fn members_must_be_of_their_kind() {
    let cases = [
        (r#"{"image":5,"description":"d","name":"n"}"#, Field::Image, Expected::Link, Shape::Number),
        (
            r#"{"image":null,"description":"d","name":"n"}"#,
            Field::Image,
            Expected::Link,
            Shape::Null,
        ),
        (
            r#"{"image":"https://e.net/","description":["d"],"name":"n"}"#,
            Field::Description,
            Expected::String,
            Shape::Array,
        ),
        (
            r#"{"image":"https://e.net/","description":"d","name":{"n":1}}"#,
            Field::Name,
            Expected::String,
            Shape::Object,
        ),
        (
            r#"{"image":"https://e.net/","description":"d","name":false}"#,
            Field::Name,
            Expected::String,
            Shape::Bool,
        ),
        (
            r#"{"image":"https://e.net/","description":"d","name":"n","attributes":{}}"#,
            Field::Attributes,
            Expected::Array,
            Shape::Object,
        ),
        (
            r#"{"image":"https://e.net/","description":"d","name":"n","attributes":null}"#,
            Field::Attributes,
            Expected::Array,
            Shape::Null,
        ),
        (
            r#"{"image":"https://e.net/","description":"d","name":"n","background_color":15921906}"#,
            Field::BackgroundColor,
            Expected::String,
            Shape::Number,
        ),
        (
            r#"{"image":"https://e.net/","description":"d","name":"n","background_color":null}"#,
            Field::BackgroundColor,
            Expected::String,
            Shape::Null,
        ),
        (
            r#"{"image":"https://e.net/","description":"d","name":"n","external_url":null}"#,
            Field::ExternalUrl,
            Expected::Link,
            Shape::Null,
        ),
        (
            r#"{"image":"https://e.net/","description":"d","name":"n","animation_url":7}"#,
            Field::AnimationUrl,
            Expected::Link,
            Shape::Number,
        ),
        (
            r#"{"image":"https://e.net/","description":"d","name":"n","youtube_url":[]}"#,
            Field::YoutubeUrl,
            Expected::Link,
            Shape::Array,
        ),
    ];
    for (t, field, expected, found) in cases.iter() {
        assert_eq!(decode(t), Err(at_member(*field, *expected, *found)), "{}", t);
    }
}

#[test]
fn links_must_be_absolute_urls() {
    let cases = [
        (r#"{"image":"a.png","description":"d","name":"n"}"#, Field::Image),
        (r#"{"image":"","description":"d","name":"n"}"#, Field::Image),
        (r#"{"image":"//example.net/a.png","description":"d","name":"n"}"#, Field::Image),
        (r#"{"image":"https://","description":"d","name":"n"}"#, Field::Image),
        (
            r#"{"image":"https://e.net/","description":"d","name":"n","external_url":"/token/1"}"#,
            Field::ExternalUrl,
        ),
        (
            r#"{"image":"https://e.net/","description":"d","name":"n","animation_url":"http://e.net:99999/"}"#,
            Field::AnimationUrl,
        ),
        (
            r#"{"image":"https://e.net/","description":"d","name":"n","youtube_url":"watch?v=abc"}"#,
            Field::YoutubeUrl,
        ),
    ];
    for (t, field) in cases.iter() {
        assert_eq!(decode(t), Err(at_member(*field, Expected::Link, Shape::String)), "{}", t);
    }
}

#[test]
fn background_color_is_six_digits() {
    let metadata = decode(
        r#"{"image":"https://example.net/a.png","description":"d","name":"n","background_color":"f2f2f2"}"#,
    )
    .unwrap();
    assert_eq!(metadata.background_color, Some(RGB8 { r: 242, g: 242, b: 242 }));
    for raw in ["f2f2f2f2", "fff", "#f2f2f2", "", "red"].iter() {
        let t = format!(
            r#"{{"image":"https://example.net/a.png","description":"d","name":"n","background_color":"{}"}}"#,
            raw
        );
        assert_eq!(decode(&t), Err(DecodeError::ColorFormat { raw: raw.to_string() }), "{}", raw);
    }
}

#[test]
fn first_item_that_fails_is_reported() {
    let t = r#"{"image":"https://e.net/","description":"d","name":"n","attributes":[
        {"trait_type":"a","value":"b"},
        {"trait_type":"a","value":1},
        {"trait_type":"a","value":true},
        {"trait_type":"a","value":-1},
        {"value":"b"}
    ]}"#;
    assert_eq!(
        decode(t),
        Err(DecodeError::UnrecognizedAttributeShape {
            index: 2,
            raw: document(r#"{"trait_type":"a","value":true}"#),
        })
    );
    let t = r#"{"image":"https://e.net/","description":"d","name":"n","attributes":[
        {"trait_type":"a","value":"b"},
        {"trait_type":"a","value":1,"display_type":"percent"},
        {"trait_type":"a","value":-1}
    ]}"#;
    assert_eq!(
        decode(t),
        Err(DecodeError::UnknownEnumToken { index: 1, token: "percent".to_string() })
    );
    let t = r#"{"image":"https://e.net/","description":"d","name":"n","attributes":[
        {"trait_type":"a","value":-1}, 7
    ]}"#;
    assert_eq!(
        decode(t),
        Err(DecodeError::Structure {
            at: Location::Attribute(0, AttributeField::Value),
            expected: Expected::Unsigned,
            found: Shape::Number,
        })
    );
    let t = r#"{"image":"https://e.net/","description":"d","name":"n","attributes":[
        {"trait_type":"a","value":1}, {"trait_type":"a","value":2}, {"trait_type":7,"value":"x"}
    ]}"#;
    assert_eq!(
        decode(t),
        Err(DecodeError::Structure {
            at: Location::Attribute(2, AttributeField::TraitType),
            expected: Expected::String,
            found: Shape::Number,
        })
    );
}

#[test]
fn members_are_read_in_their_order() {
    let all_wrong = r#"{"image":"x","external_url":"y","description":1,"name":2,
        "attributes":3,"background_color":"zz","animation_url":"v","youtube_url":"w"}"#;
    assert_eq!(decode(all_wrong), Err(at_member(Field::Image, Expected::Link, Shape::String)));
    let t = r#"{"image":"https://e.net/","external_url":"y","description":1,"name":2,
        "attributes":3,"background_color":"zz","animation_url":"v","youtube_url":"w"}"#;
    assert_eq!(decode(t), Err(at_member(Field::ExternalUrl, Expected::Link, Shape::String)));
    let t = r#"{"image":"https://e.net/","description":1,"name":2,
        "attributes":3,"background_color":"zz","animation_url":"v","youtube_url":"w"}"#;
    assert_eq!(decode(t), Err(at_member(Field::Description, Expected::String, Shape::Number)));
    let t = r#"{"image":"https://e.net/","description":"d","name":2,
        "attributes":3,"background_color":"zz","animation_url":"v","youtube_url":"w"}"#;
    assert_eq!(decode(t), Err(at_member(Field::Name, Expected::String, Shape::Number)));
    let t = r#"{"image":"https://e.net/","description":"d","name":"n",
        "attributes":3,"background_color":"zz","animation_url":"v","youtube_url":"w"}"#;
    assert_eq!(decode(t), Err(at_member(Field::Attributes, Expected::Array, Shape::Number)));
    let t = r#"{"image":"https://e.net/","description":"d","name":"n",
        "attributes":[],"background_color":"zz","animation_url":"v","youtube_url":"w"}"#;
    assert_eq!(decode(t), Err(DecodeError::ColorFormat { raw: "zz".to_string() }));
    let t = r#"{"image":"https://e.net/","description":"d","name":"n",
        "attributes":[],"background_color":"000000","animation_url":"v","youtube_url":"w"}"#;
    assert_eq!(decode(t), Err(at_member(Field::AnimationUrl, Expected::Link, Shape::String)));
    let t = r#"{"image":"https://e.net/","description":"d","name":"n",
        "attributes":[],"background_color":"000000","youtube_url":"w"}"#;
    assert_eq!(decode(t), Err(at_member(Field::YoutubeUrl, Expected::Link, Shape::String)));
}

#[test]
fn repeated_members_are_rejected() {
    let base = vec![
        pair("image", string("https://e.net/")),
        pair("description", string("d")),
        pair("name", string("n")),
    ];
    assert!(Metadata::decode(&Value::Object(base.clone())).is_ok());
    let cases = [
        ("image", string("https://e.net/"), Field::Image, Expected::Link),
        ("description", string("d"), Field::Description, Expected::String),
        ("name", string("n"), Field::Name, Expected::String),
    ];
    for (key, value, field, expected) in cases.iter() {
        let mut members = base.clone();
        members.push(pair(key, value.clone()));
        assert_eq!(
            Metadata::decode(&Value::Object(members)),
            Err(at_member(*field, *expected, Shape::Repeated))
        );
    }
    let optional = [
        ("external_url", string("https://e.net/"), Field::ExternalUrl, Expected::Link),
        ("attributes", Value::Array(vec![]), Field::Attributes, Expected::Array),
        ("background_color", string("000000"), Field::BackgroundColor, Expected::String),
        ("animation_url", string("https://e.net/"), Field::AnimationUrl, Expected::Link),
        ("youtube_url", string("https://e.net/"), Field::YoutubeUrl, Expected::Link),
    ];
    for (key, value, field, expected) in optional.iter() {
        let mut members = base.clone();
        members.push(pair(key, value.clone()));
        assert!(Metadata::decode(&Value::Object(members.clone())).is_ok());
        members.insert(0, pair(key, value.clone()));
        assert_eq!(
            Metadata::decode(&Value::Object(members)),
            Err(at_member(*field, *expected, Shape::Repeated))
        );
    }
    let mut members = base.clone();
    members.push(pair("unknown", Value::Null));
    members.push(pair("unknown", Value::Null));
    assert!(Metadata::decode(&Value::Object(members)).is_ok());
}

#[test]
fn minimal_record_is_written_with_four_members() {
    assert_eq!(
        minimal().encode(),
        Value::Object(vec![
            pair("image", string("https://example.net/a.png")),
            pair("description", string("d")),
            pair("name", string("n")),
            pair("attributes", Value::Array(vec![])),
        ])
    );
    assert_eq!(
        serde_json::to_string(&document_json(&minimal().encode())).unwrap(),
        r#"{"attributes":[],"description":"d","image":"https://example.net/a.png","name":"n"}"#
    );
}

#[test]
fn full_record_is_written_member_by_member() {
    assert_eq!(
        full().encode(),
        Value::Object(vec![
            pair("image", string("ipfs://QmHash/1.png")),
            pair("external_url", string("https://example.net/token/1?x=y#z")),
            pair("description", string("A \"quoted\" description\nwith two lines")),
            pair("name", string("Token #1")),
            pair(
                "attributes",
                Value::Array(vec![
                    Value::Object(vec![
                        pair("trait_type", string("Core")),
                        pair("value", string("Vortex")),
                    ]),
                    Value::Object(vec![
                        pair("trait_type", string("Level")),
                        pair("value", Value::Number(Number::Integer(5))),
                        pair("display_type", string("number")),
                    ]),
                    Value::Object(vec![
                        pair("trait_type", string("Born")),
                        pair("value", Value::Number(Number::Integer(1_546_360_800))),
                        pair("display_type", string("date")),
                    ]),
                    Value::Object(vec![
                        pair("trait_type", string("Plain")),
                        pair("value", Value::Number(Number::Integer(0))),
                    ]),
                ])
            ),
            pair("background_color", string("f2f2f2")),
            pair("animation_url", string("https://example.net/a.mp4")),
            pair("youtube_url", string("https://www.youtube.com/watch?v=abc")),
        ])
    );
}

#[test]
fn absent_members_are_never_written_as_null() {
    fn holds_null(v: &Value) -> bool {
        match v {
            Value::Null => true,
            Value::Array(items) => items.iter().any(holds_null),
            Value::Object(members) => members.iter().any(|(_, v)| holds_null(v)),
            _ => false,
        }
    }
    assert!(!holds_null(&minimal().encode()));
    assert!(!holds_null(&full().encode()));
    let mut partly = full();
    partly.external_url = None;
    partly.background_color = None;
    let written = partly.encode();
    assert!(!holds_null(&written));
    match written {
        Value::Object(members) => {
            let keys: Vec<&str> = members.iter().map(|(k, _)| k.as_str()).collect();
            assert_eq!(
                keys,
                vec!["image", "description", "name", "attributes", "animation_url", "youtube_url"]
            );
        }
        _ => panic!("not an object"),
    }
}

#[test]
fn records_survive_a_round_trip() {
    let mut records = vec![minimal(), full()];
    let mut one = minimal();
    one.background_color = Some(RGB8 { r: 0, g: 1, b: 255 });
    records.push(one);
    let mut two = full();
    two.animation_url = None;
    two.attributes.reverse();
    records.push(two);
    let mut three = minimal();
    three.youtube_url = Some(Url::parse("file:///C:/x y").unwrap());
    three.name = String::new();
    three.description = "\u{1F680}".to_string();
    records.push(three);
    for m in records.iter() {
        assert_eq!(Metadata::decode(&m.encode()), Ok(m.clone()));
        let through_text = serde_json::to_string(&document_json(&m.encode())).unwrap();
        assert_eq!(decode(&through_text), Ok(m.clone()));
    }
}

#[test]
fn record_with_canonical_links_is_read_back_unchanged() {
    let loose = r#"{"name":"n","extra":1,"image":"HTTP://EXAMPLE.net:80/x/../y","description":"d",
        "background_color":"ABCDEF","attributes":[{"value":3,"trait_type":"t","note":"x"}]}"#;
    let first = decode(loose).unwrap();
    assert!(first.is_normal());
    let written = first.encode();
    assert_ne!(written, document(loose));
    assert_eq!(Metadata::decode(&written), Ok(first.clone()));
    assert_eq!(Metadata::decode(&written).unwrap().encode(), written);
    assert_eq!(
        serde_json::to_string(&document_json(&written)).unwrap(),
        r#"{"attributes":[{"trait_type":"t","value":3}],"background_color":"abcdef","description":"d","image":"http://example.net/y","name":"n"}"#
    );
}

#[test]
fn file_link_with_host_and_drive_is_not_canonical() {
    let first = decode(r#"{"image":"file://h//C:/","description":"d","name":"n"}"#).unwrap();
    assert_eq!(first.image.as_str(), "file://h/C:/");
    assert!(!is_canonical_link(&first.image));
    assert!(!first.is_normal());
    let second = Metadata::decode(&first.encode()).unwrap();
    assert_eq!(second.image.as_str(), "file:///C:/");
    assert_ne!(second, first);
    assert!(is_canonical_link(&second.image));
    assert!(second.is_normal());
    assert_eq!(Metadata::decode(&second.encode()), Ok(second.clone()));
}

#[test]
fn is_normal_tests_every_link() {
    assert!(minimal().is_normal());
    assert!(full().is_normal());
    assert!(decode(PLANETPASS_ITEM).unwrap().is_normal());
    let odd = Url::parse("file://h//C:/").unwrap();
    assert!(!is_canonical_link(&odd));
    let mut m = full();
    m.image = odd.clone();
    assert!(!m.is_normal());
    let mut m = full();
    m.external_url = Some(odd.clone());
    assert!(!m.is_normal());
    let mut m = full();
    m.animation_url = Some(odd.clone());
    assert!(!m.is_normal());
    let mut m = full();
    m.youtube_url = Some(odd.clone());
    assert!(!m.is_normal());
    assert_ne!(Metadata::decode(&m.encode()), Ok(m.clone()));
    m.youtube_url = None;
    assert!(m.is_normal());
    assert_eq!(Metadata::decode(&m.encode()), Ok(m.clone()));
}

#[test]
fn canonical_links_are_told_apart() {
    for text in [
        "https://example.net/",
        "https://assets.wanderers.ai/file/planetpass/vid/0/0.mp4",
        "ipfs://QmHash/1.png",
        "file:///C:/x",
        "data:text/plain,hello",
    ]
    .iter()
    {
        let u = Url::parse(text).unwrap();
        assert_eq!(u.as_str(), *text);
        assert!(is_canonical_link(&u), "{}", text);
    }
    let u = Url::parse("HTTPS://Example.NET:443/a/../b").unwrap();
    assert_eq!(u.as_str(), "https://example.net/b");
    assert!(is_canonical_link(&u));
}
