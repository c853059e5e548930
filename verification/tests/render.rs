use miimic::render::{validate_texture_resolution, validate_width, MIN_TEXTURE_RESOLUTION};
use miimic::{Error, Expression, MiiData, OutputFormat, RenderRequest, ViewType};

const TEST_MII: &str = "0800600308040402020c0301060406020a0000000008000804000a2a003e7f04000214031304160d04000a040109";

#[test]
fn render_dimensions_use_bounded_hd_defaults() {
    for (width, expected_texture_resolution) in
        [(1, MIN_TEXTURE_RESOLUTION), (512, 512), (1080, 1024)]
    {
        let request =
            RenderRequest::new(MiiData::decode(TEST_MII).expect("fixture should decode"), width)
                .expect("bounded width should validate");
        assert_eq!(request.texture_resolution(), expected_texture_resolution);
    }
}

#[test]
fn render_options_reject_values_outside_the_supported_profile() {
    let mii = MiiData::decode(TEST_MII).expect("fixture should decode");
    assert!(RenderRequest::new(mii.clone(), 0).is_err());
    assert!(RenderRequest::new(mii.clone(), 1081).is_err());

    let mut request = RenderRequest::new(mii, 512).expect("request should validate");
    assert!(request.set_texture_resolution(1).is_err());
    assert!(request.set_texture_resolution(1025).is_err());
    assert_eq!(request.texture_resolution(), 512);
    request.set_expression(Expression::Stunned);
    assert_eq!(request.expression(), Expression::Stunned);
}

#[test]
fn expression_numeric_conversion_covers_the_supported_range() {
    for value in 0..70 {
        let expression = Expression::try_from(value).expect("expression should convert");
        assert_eq!(u8::from(expression), value);
    }
    assert!(Expression::try_from(70).is_err());
}

#[test]
fn width_errors_precede_mii_field_validation() {
    let mut bytes = MiiData::decode(TEST_MII).expect("fixture should decode").as_bytes().to_vec();
    bytes[4] = u8::MAX;
    let invalid_mii = MiiData::try_from(bytes).expect("Studio data length should remain valid");
    let error =
        RenderRequest::new(invalid_mii, 0).expect_err("invalid width should be reported first");
    assert!(matches!(error, Error::InvalidRequest(_)));
}

#[test]
fn new_requests_use_the_documented_defaults() {
    let request = RenderRequest::new(MiiData::decode(TEST_MII).unwrap(), 270).unwrap();
    assert_eq!(request.width(), 270);
    assert_eq!(request.texture_resolution(), 270);
    assert_eq!(request.expression(), Expression::Normal);
    assert_eq!(request.view_type(), ViewType::Avatar);
    assert_eq!(request.background(), [255, 255, 255, 0]);
}

#[test]
fn setters_change_only_their_own_option() {
    let mut request = RenderRequest::new(MiiData::decode(TEST_MII).unwrap(), 64).unwrap();
    let mii = request.mii();
    request.set_view_type(ViewType::Body);
    request.set_texture_resolution(1024).unwrap();
    assert_eq!(request.view_type(), ViewType::Body);
    assert_eq!(request.texture_resolution(), 1024);
    assert_eq!(request.width(), 64);
    assert_eq!(request.expression(), Expression::Normal);
    assert_eq!(request.mii(), mii);
    let copy = request.clone();
    assert_eq!(copy.texture_resolution(), 1024);
    assert_eq!(copy.view_type(), ViewType::Body);
}

#[test]
fn validation_messages_name_the_supported_ranges() {
    match validate_width(0) {
        Err(Error::InvalidRequest(message)) => {
            assert_eq!(message, "width must be between 1 and 1080")
        },
        _ => panic!("width 0 should be refused"),
    }
    assert!(validate_width(1080).is_ok());
    match validate_texture_resolution(1) {
        Err(Error::InvalidRequest(message)) => {
            assert_eq!(message, "texture resolution must be between 2 and 1024")
        },
        _ => panic!("resolution 1 should be refused"),
    }
    assert!(validate_texture_resolution(2).is_ok());
}

#[test]
fn output_formats_name_their_media() {
    assert_eq!(OutputFormat::Png.media_type(), "image/png");
    assert_eq!(OutputFormat::Tga.media_type(), "image/tga");
    assert_eq!(OutputFormat::Glb.media_type(), "model/gltf-binary");
    assert_eq!(OutputFormat::Glb.extension(), "glb");
    assert_eq!(OutputFormat::try_from(3), Err(3));
    assert_eq!(u8::from(OutputFormat::Tga), 1);
}

#[test]
fn views_number_and_body_use() {
    assert_eq!(ViewType::default(), ViewType::Avatar);
    assert!(ViewType::Avatar.uses_body());
    assert!(!ViewType::Face.uses_body());
    assert!(ViewType::Body.uses_body());
    assert_eq!(ViewType::try_from(2), Ok(ViewType::Body));
    assert_eq!(u8::from(ViewType::Face), 1);
}
