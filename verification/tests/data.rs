use base64::engine::general_purpose;
use base64::Engine as _;
use miimic::{Error, MiiData, MiiFormat};

const TEST_MII: &str = "0800600308040402020c0301060406020a0000000008000804000a2a003e7f04000214031304160d04000a040109";

#[test]
fn detects_canonical_test_mii_as_studio_data() {
    let data = MiiData::decode(TEST_MII).expect("canonical fixture should decode");
    assert_eq!(data.len(), 46);
    assert_eq!(data.format(), MiiFormat::Studio);
}

#[test]
fn accepts_unpadded_base64() {
    let encoded = general_purpose::STANDARD_NO_PAD.encode([0_u8; 46]);
    let data = MiiData::decode(&encoded).expect("base64 should decode");
    assert_eq!(data.format(), MiiFormat::Studio);
}

#[test]
fn rejects_unknown_lengths() {
    let error = MiiData::try_from(vec![0; 45]).expect_err("45 bytes is unsupported");
    assert!(matches!(error, Error::UnsupportedDataLength(45)));
}

#[test]
fn detects_every_supported_representation_by_exact_length() {
    let formats = [
        (46, MiiFormat::Studio),
        (47, MiiFormat::StudioUrl),
        (48, MiiFormat::SwitchCoreData),
        (68, MiiFormat::SwitchStoreData),
        (72, MiiFormat::FflMiiDataCore),
        (74, MiiFormat::RflCharData),
        (76, MiiFormat::RflStoreData),
        (88, MiiFormat::SwitchCharInfo),
        (92, MiiFormat::FflMiiDataOfficial),
        (96, MiiFormat::FflStoreData),
    ];
    for (length, expected) in formats {
        let data = MiiData::try_from(vec![0; length]).expect("length should be recognized");
        assert_eq!(data.format(), expected);
        assert_eq!(MiiFormat::from_len(length), Some(expected));
    }
}

#[test]
fn surrounding_whitespace_is_ignored() {
    let padded = format!(" \t{TEST_MII}\n ");
    let data = MiiData::decode(&padded).expect("trimmed fixture should decode");
    assert_eq!(data.as_bytes(), MiiData::decode(TEST_MII).unwrap().as_bytes());
}

#[test]
fn empty_or_blank_text_is_an_invalid_encoding() {
    assert!(matches!(MiiData::decode(""), Err(Error::InvalidEncoding)));
    assert!(matches!(MiiData::decode("   "), Err(Error::InvalidEncoding)));
}

#[test]
fn hexadecimal_of_an_unsupported_length_reports_that_length() {
    // "00112233" is four bytes as hexadecimal and six as Base64; the Base64
    // reading wins once the hexadecimal length is unsupported.
    let error = MiiData::decode("00112233").expect_err("neither length is supported");
    assert!(matches!(error, Error::UnsupportedDataLength(6)));
    // "00112!" is neither even hexadecimal nor Base64 without stray bits.
    let error = MiiData::decode("00112!").expect_err("text is neither format");
    assert!(matches!(error, Error::InvalidEncoding));
    // Hexadecimal of 45 bytes that is not Base64 reports the hexadecimal length.
    let text = "0".repeat(89) + "f";
    let error = MiiData::decode(&text).expect_err("45 bytes is unsupported");
    assert!(matches!(error, Error::UnsupportedDataLength(45)));
}

#[test]
fn url_safe_base64_is_accepted() {
    let bytes: Vec<u8> = (0..46).map(|i| 0xf8 + (i % 8) as u8).collect();
    let encoded = general_purpose::URL_SAFE.encode(&bytes);
    assert!(encoded.contains('-') || encoded.contains('_'));
    let data = MiiData::decode(&encoded).expect("URL-safe Base64 should decode");
    assert_eq!(data.as_bytes(), bytes.as_slice());
}

#[test]
fn empty_data_is_reported_empty() {
    let data = MiiData::decode(TEST_MII).unwrap();
    assert!(!data.is_empty());
    assert_eq!(data.clone().as_bytes(), data.as_bytes());
}
