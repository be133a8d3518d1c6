use nft_server::open_sea::{
    Address, ContractMetadata, Float64, OpenSeaAttribute, OpenSeaAttributeValue,
    OpenSeaDisplayType,
};
use nft_server::prelude::TokenId;
use nft_server::urls::Url;
use nft_server::{NftImage, NftMetadata};
use std::str::FromStr;

fn shown<T: std::fmt::Debug>(value: &T) -> String {
    format!("{:?}", value)
}

#[test]
fn a_url_is_kept_in_its_serialized_form() {
    assert_eq!(Url::parse("http://e/").unwrap().as_str(), "http://e/");
    assert_eq!(Url::parse("HTTP://EXAMPLE.com").unwrap().as_str(), "http://example.com/");
    assert_eq!(
        Url::parse("https://example.com/a/../b c").unwrap().as_str(),
        "https://example.com/b%20c"
    );
    assert_eq!(
        Url::parse("data:text/plain,toast").unwrap().as_str(),
        "data:text/plain,toast"
    );
}

#[test]
fn what_is_no_absolute_url_does_not_parse() {
    for text in ["", "toast", "/0.json", "example.com/x", "http://", "://x", "<svg></svg>"] {
        assert!(Url::parse(text).is_none(), "{:?}", text);
    }
}

#[test]
fn a_serialization_parses_into_itself() {
    for text in ["HTTP://EXAMPLE.com", "https://example.com/a/../b c", "ipfs://Qm/1.png"] {
        let url = Url::parse(text).unwrap();
        assert_eq!(Url::parse(url.as_str()).unwrap().as_str(), url.as_str());
        assert_eq!(url.clone().as_str(), url.as_str());
    }
}

#[test]
fn an_image_text_that_is_a_url_is_an_image_url() {
    let image = NftImage::from_str("HTTPS://Example.com/toast.png").unwrap();
    assert!(
        matches!(&image, NftImage::Url { image } if image.as_str() == "https://example.com/toast.png")
    );
    let image: NftImage = "ipfs://Qm/1.png".parse().unwrap();
    assert!(matches!(&image, NftImage::Url { image } if image.as_str() == "ipfs://Qm/1.png"));
}

#[test]
fn an_image_text_that_is_no_url_is_image_data() {
    for text in ["", "<svg></svg>", "toast.png", "/images/1.png"] {
        let image = NftImage::from_str(text).unwrap();
        assert!(matches!(&image, NftImage::Data { image_data } if image_data == text), "{:?}", text);
    }
}

#[test]
fn images_are_made_from_urls_and_from_texts() {
    let image = NftImage::from(Url::parse("http://i/").unwrap());
    assert!(matches!(&image, NftImage::Url { image } if image.as_str() == "http://i/"));
    let image = NftImage::from("http://i/");
    assert!(matches!(&image, NftImage::Data { image_data } if image_data == "http://i/"));
    let image: NftImage = "abc".into();
    assert!(matches!(&image, NftImage::Data { image_data } if image_data == "abc"));
}

#[test]
fn a_text_attribute() {
    let attribute = OpenSeaAttribute::string(Some("mood"), "crisp");
    assert_eq!(attribute.trait_type.as_deref(), Some("mood"));
    assert!(matches!(&attribute.value, OpenSeaAttributeValue::String { value } if value == "crisp"));
    let attribute = OpenSeaAttribute::string(None, "");
    assert_eq!(attribute.trait_type, None);
    assert!(matches!(&attribute.value, OpenSeaAttributeValue::String { value } if value.is_empty()));
}

#[test]
fn an_integer_attribute() {
    let attribute = OpenSeaAttribute::integer(Some("level"), -3, Some(i64::MAX));
    assert_eq!(attribute.trait_type.as_deref(), Some("level"));
    assert!(matches!(
        attribute.value,
        OpenSeaAttributeValue::Integer { value: -3, display_type: None, max_value: Some(i64::MAX) }
    ));
    let attribute = OpenSeaAttribute::integer(None, i64::MIN, None);
    assert_eq!(attribute.trait_type, None);
    assert!(matches!(
        attribute.value,
        OpenSeaAttributeValue::Integer { value: i64::MIN, display_type: None, max_value: None }
    ));
}

#[test]
fn a_float_attribute() {
    let value = Float64::from_bits(1.5f64.to_bits());
    let max = Float64::from_bits(10.0f64.to_bits());
    let attribute = OpenSeaAttribute::float(Some("crunch"), value, Some(max));
    assert_eq!(attribute.trait_type.as_deref(), Some("crunch"));
    match attribute.value {
        OpenSeaAttributeValue::Float { value, display_type, max_value } => {
            assert_eq!(f64::from_bits(value.to_bits()), 1.5);
            assert_eq!(display_type, None);
            assert_eq!(max_value.map(|m| f64::from_bits(m.to_bits())), Some(10.0));
        }
        other => panic!("{:?}", other),
    }
    let attribute = OpenSeaAttribute::float(None, value, None);
    assert!(matches!(
        attribute.value,
        OpenSeaAttributeValue::Float { max_value: None, display_type: None, .. }
    ));
}

#[test]
fn a_float_is_its_bits() {
    for number in [0.0f64, -0.0, 1.5, f64::MAX, f64::MIN_POSITIVE, f64::INFINITY] {
        let held = Float64::from_bits(number.to_bits());
        assert_eq!(held.to_bits(), number.to_bits());
        assert_eq!(held.bits, number.to_bits());
    }
    assert_ne!(Float64::from_bits(0.0f64.to_bits()), Float64::from_bits((-0.0f64).to_bits()));
    let nan = Float64::from_bits(f64::NAN.to_bits());
    assert_eq!(nan, nan);
}

#[test]
fn an_attribute_value_is_made_from_a_text() {
    let value = OpenSeaAttributeValue::from("crisp");
    assert!(matches!(&value, OpenSeaAttributeValue::String { value } if value == "crisp"));
    let value: OpenSeaAttributeValue = "12".into();
    assert!(matches!(&value, OpenSeaAttributeValue::String { value } if value == "12"));
}

#[test]
fn display_types_are_told_apart() {
    let all = [
        OpenSeaDisplayType::Date,
        OpenSeaDisplayType::Number,
        OpenSeaDisplayType::BoostPercentage,
        OpenSeaDisplayType::BoostNumber,
    ];
    for (i, a) in all.iter().enumerate() {
        for (j, b) in all.iter().enumerate() {
            assert_eq!(a == b, i == j);
        }
    }
}

#[test]
fn a_copy_of_a_document_holds_the_same() {
    let document = NftMetadata {
        name: "Toast".to_string(),
        description: "d".to_string(),
        external_url: Url::parse("http://e/").unwrap(),
        image: NftImage::from("<svg></svg>"),
        attributes: vec![
            OpenSeaAttribute::string(Some("mood"), "crisp"),
            OpenSeaAttribute::integer(None, 3, Some(5)),
            OpenSeaAttribute::float(Some("crunch"), Float64::from_bits(1.5f64.to_bits()), None),
            OpenSeaAttribute {
                trait_type: Some("baked".to_string()),
                value: OpenSeaAttributeValue::Integer {
                    value: 1546360800,
                    display_type: Some(OpenSeaDisplayType::Date),
                    max_value: None,
                },
            },
        ],
        background_color: Some("ffffff".to_string()),
        animation_url: Some(Url::parse("https://example.com/a.mp4").unwrap()),
        youtube_url: None,
    };
    let copy = document.clone();
    assert_eq!(shown(&copy), shown(&document));
    assert_eq!(copy.attributes.len(), 4);
    assert_eq!(copy.attributes[0].trait_type.as_deref(), Some("mood"));
    assert_eq!(copy.attributes[3].trait_type.as_deref(), Some("baked"));
}

#[test]
fn a_copy_of_a_collection_document_holds_the_same() {
    let mut bytes = [0u8; 20];
    bytes[19] = 1;
    let document = ContractMetadata {
        name: "Loaf".to_string(),
        description: "all of them".to_string(),
        image: NftImage::from(Url::parse("http://i/").unwrap()),
        external_link: Url::parse("http://example.com/").unwrap(),
        seller_fee_basis_points: 300,
        fee_recipient: Address { bytes },
    };
    let copy = document.clone();
    assert_eq!(shown(&copy), shown(&document));
    assert_eq!(copy.fee_recipient.bytes, bytes);
    assert_eq!(copy.seller_fee_basis_points, 300);
}

#[test]
fn the_prelude_names_the_token_id() {
    assert_eq!(TokenId::zero().to_string(), "0");
}
