use miimic::mii::{
    studio_field_rule, BUILD, EYEBROW_Y, EYE_COLOR, EYE_TYPE, FACELINE_COLOR, HAIR_COLOR,
    HAIR_TYPE, HEIGHT, MOUTH_TYPE, NOSE_TYPE, STUDIO_FIELD_COUNT,
};
use miimic::{ColorMode, Error, Mii, MiiData};

const TEST_MII: &str = "0800600308040402020c0301060406020a0000000008000804000a2a003e7f04000214031304160d04000a040109";
const STUDIO_URL: &str = "5a5960070b0a1518212a2d353b44474851626970777e7d84939ea5b6a3aa9bebf6fd0619213944595b666d6e717785";
const SWITCH_CORE: &str = "3e7f602a080113080802168c0601696d8a6a821400080020647244444d00000000000000000000000000000000000000";
const SWITCH_STORE: &str = "3e7f602a080113080802168c0601696d8a6a821400080020647244444d000000000000000000000000000000000000000000000000000000000000000000000000000000";
const SWITCH_CHAR_INFO: &str = "000000000000000000000000000000004d0000000000000000000000000000000000000000000008007f600000000000003e2a000208040304020c0601040306020a010409161304030d080000040a0008040a0004021400";
const FFL_CORE: &str = "03000010000000000000000000000000000000000000000000106e006f0020006e0061006d0065000000000000004040810044000268441806344614811217680d00002900524850";
const FFL_OFFICIAL: &str = "03000010000000000000000000000000000000000000000000106e006f0020006e0061006d0065000000000000004040810044000268441806344614811217680d000029005248500000000000000000000000000000000000000000";
const FFL_STORE: &str = "03000010000000000000000000000000000000000000000000106e006f0020006e0061006d0065000000000000004040810044000268441806344614811217680d0000290052485000000000000000000000000000000000000000000000fac7";
const RFL_CHAR: &str = "0008006e006f0020006e0061006d00650000000000004040000000000000000010048800318008a2088c0858144ab88d008a008a25040000000000000000000000000000000000000000";
const RFL_STORE: &str = "0008006e006f0020006e0061006d00650000000000004040000000000000000010048800318008a2088c0858144ab88d008a008a25040000000000000000000000000000000000000000b891";

fn decode_mii(encoded: &str) -> Mii {
    let data = MiiData::decode(encoded).expect("fixture should decode");
    Mii::from_data(&data).expect("fixture should contain valid Mii fields")
}

#[test]
fn decodes_canonical_studio_fields() {
    let data = MiiData::decode(TEST_MII).expect("fixture should decode");
    let mii = Mii::from_data(&data).expect("fixture should validate");
    assert_eq!(mii.field(BUILD), 96);
    assert_eq!(mii.field(EYE_TYPE), 2);
    assert_eq!(mii.field(HAIR_COLOR), 42);
    assert_eq!(mii.field(HAIR_TYPE), 62);
    assert_eq!(mii.field(HEIGHT), 127);
    assert_eq!(mii.field(MOUTH_TYPE), 22);
    assert_eq!(mii.field(NOSE_TYPE), 1);
}

#[test]
fn switch_and_encoded_studio_formats_match_raw_studio() {
    let expected = decode_mii(TEST_MII);
    for encoded in [STUDIO_URL, SWITCH_CORE, SWITCH_STORE, SWITCH_CHAR_INFO] {
        assert_eq!(decode_mii(encoded), expected);
    }
}

#[test]
fn ffl_and_rfl_formats_match_the_reference_default_mii() {
    let expected = decode_mii(RFL_CHAR);
    assert_eq!(expected.color_mode, ColorMode::Ver3);
    assert_eq!(expected.field(HEIGHT), 64);
    assert_eq!(expected.field(BUILD), 64);
    assert_eq!(expected.field(HAIR_TYPE), 68);
    assert_eq!(expected.field(FACELINE_COLOR), 4);
    assert_eq!(expected.field(EYE_TYPE), 2);

    for encoded in [RFL_STORE, FFL_CORE, FFL_OFFICIAL, FFL_STORE] {
        assert_eq!(decode_mii(encoded), expected);
    }
}

#[test]
fn rejects_bad_checksums_without_rejecting_non_store_containers() {
    for encoded in [RFL_STORE, FFL_STORE] {
        let mut bytes = hex::decode(encoded).expect("fixture should be hexadecimal");
        bytes[0] ^= 1;
        let data = MiiData::try_from(bytes).expect("fixture length should remain recognized");
        assert!(matches!(
            Mii::from_data(&data),
            Err(Error::InvalidMiiChecksum(format)) if format == data.format()
        ));
    }
    // The same change in a container without a checksum is accepted.
    for encoded in [RFL_CHAR, FFL_CORE] {
        let mut bytes = hex::decode(encoded).expect("fixture should be hexadecimal");
        bytes[0] ^= 1;
        let data = MiiData::try_from(bytes).expect("fixture length should remain recognized");
        assert!(!matches!(Mii::from_data(&data), Err(Error::InvalidMiiChecksum(_))));
    }
}

#[test]
fn schema_covers_each_studio_byte_in_order() {
    for offset in 0..STUDIO_FIELD_COUNT {
        let rule = studio_field_rule(offset);
        assert_eq!(rule.offset, offset, "misordered rule for {}", rule.name);
    }
}

#[test]
fn every_studio_field_accepts_exactly_its_documented_byte_range() {
    let baseline = MiiData::decode(TEST_MII).expect("fixture should decode");
    for offset in 0..STUDIO_FIELD_COUNT {
        let rule = studio_field_rule(offset);
        for value in u8::MIN..=u8::MAX {
            let mut bytes = baseline.as_bytes().to_vec();
            bytes[rule.offset] = value;
            let data = MiiData::try_from(bytes).expect("Studio data length should be valid");
            let result = Mii::from_data(&data);
            let expected_valid = (rule.min..=rule.max).contains(&value);
            match result {
                Ok(_) => assert!(expected_valid, "{}={value} should have been rejected", rule.name),
                Err(Error::InvalidMii { field, value: rejected, min, max }) => {
                    assert!(!expected_valid, "{}={value} should have been accepted", rule.name);
                    assert_eq!(field, rule.name);
                    assert_eq!(rejected, value);
                    assert_eq!((min, max), (rule.min, rule.max));
                },
                Err(error) => {
                    panic!("{}={value} returned unexpected error: {}", rule.name, error.to_string())
                },
            }
        }
    }
}

#[test]
fn reports_structured_invalid_field_details() {
    let baseline = MiiData::decode(TEST_MII).expect("fixture should decode");
    let mut bytes = baseline.as_bytes().to_vec();
    bytes[4] = u8::MAX;
    let data = MiiData::try_from(bytes).expect("Studio data length should be valid");
    assert!(matches!(
        Mii::from_data(&data),
        Err(Error::InvalidMii { field: "eye_color", value: u8::MAX, min: 0, max: 99 })
    ));
    assert_eq!(EYE_COLOR, 4);
}

#[test]
fn eyebrow_height_has_a_lower_bound() {
    let rule = studio_field_rule(EYEBROW_Y);
    assert_eq!((rule.name, rule.min, rule.max), ("eyebrow_y", 3, 18));
}

#[test]
fn the_first_field_out_of_range_is_reported() {
    let baseline = MiiData::decode(TEST_MII).expect("fixture should decode");
    let mut bytes = baseline.as_bytes().to_vec();
    bytes[1] = 200;
    bytes[4] = 200;
    let data = MiiData::try_from(bytes).unwrap();
    assert!(matches!(
        Mii::from_data(&data),
        Err(Error::InvalidMii { field: "beard_type", value: 200, min: 0, max: 5 })
    ));
}
