use teloxide::json::JsonValue;
use teloxide::errors::RequestError;
use teloxide::rgb::Rgb;

#[test]
fn json() {
    let json = format!(r#"{{"color":{}}}"#, 0x00AABBCC);
    let parsed: serde_json::Value = serde_json::from_str(&json).unwrap();
    let wire = parsed.get("color").unwrap().as_u64().unwrap();
    let color = Rgb::decode_u64(wire).unwrap();
    assert_eq!(color, Rgb { r: 0xAA, g: 0xBB, b: 0xCC })
}

#[test]
fn to_u32_packs_big_endian() {
    assert_eq!(Rgb { r: 0xAA, g: 0xBB, b: 0xCC }.to_u32(), 0xAABBCC);
    assert_eq!(Rgb { r: 0, g: 0, b: 0 }.to_u32(), 0);
    assert_eq!(Rgb { r: 0xFF, g: 0xFF, b: 0xFF }.to_u32(), 0xFFFFFF);
}

#[test]
fn from_u32_unpacks_big_endian() {
    assert_eq!(Rgb::from_u32(0xAABBCC), Rgb { r: 0xAA, g: 0xBB, b: 0xCC });
    assert_eq!(Rgb::from_u32(0), Rgb { r: 0, g: 0, b: 0 });
}

#[test]
fn round_trip_triples() {
    for &(r, g, b) in &[(0u8, 0u8, 0u8), (1, 2, 3), (0xAA, 0xBB, 0xCC), (0xFF, 0xFF, 0xFF)] {
        let c = Rgb { r, g, b };
        assert_eq!(Rgb::from_u32(c.to_u32()), c);
    }
}

#[test]
fn decode_u64_boundaries() {
    assert_eq!(
        Rgb::decode_u64(0x1_0000_0000),
        Err(RequestError::ValueOutOfRange)
    );
    assert_eq!(
        Rgb::decode_u64(u64::MAX),
        Err(RequestError::ValueOutOfRange)
    );
    assert_eq!(
        Rgb::decode_u64(0xFFFF_FFFF),
        Ok(Rgb { r: 0xFF, g: 0xFF, b: 0xFF })
    );
}

#[test]
fn wire_scenario_aabbcc() {
    let decoded = Rgb::decode_json(&JsonValue::UInt(11189196)).unwrap();
    assert_eq!(decoded, Rgb { r: 0xAA, g: 0xBB, b: 0xCC });
    assert_eq!(decoded.to_u32() as u64, 11189196);
}

#[test]
fn decode_json_rejects_wrong_shapes() {
    assert_eq!(
        Rgb::decode_json(&JsonValue::Str(String::from("0xAABBCC"))),
        Err(RequestError::Decode)
    );
    assert_eq!(
        Rgb::decode_json(&JsonValue::Int(-1)),
        Err(RequestError::ValueOutOfRange)
    );
}
