use miimic::ffi::{Expression, OutputFormat, RenderRequest, ViewType};

const TEST_MII: &str = "0800600308040402020c0301060406020a0000000008000804000a2a003e7f04000214031304160d04000a040109";

#[test]
fn mirror_enums_match_the_library_domain_enums() {
    for value in 0..=2u8 {
        let mirror = ViewType::try_from(value).expect("mirror discriminant should exist");
        let mirror_name = format!("{mirror:?}");
        let domain: miimic::ViewType = mirror.into();
        assert_eq!(u8::from(domain), value);
        assert_eq!(format!("{domain:?}"), mirror_name);
    }
    for value in 0..=69u8 {
        let mirror = Expression::try_from(value).expect("mirror discriminant should exist");
        let mirror_name = format!("{mirror:?}");
        let domain: miimic::Expression = mirror.into();
        assert_eq!(u8::from(domain), value);
        assert_eq!(format!("{domain:?}"), mirror_name);
    }
    for value in 0..=2u8 {
        let mirror = OutputFormat::try_from(value).expect("mirror discriminant should exist");
        let mirror_name = format!("{mirror:?}");
        let domain: miimic::OutputFormat = mirror.into();
        assert_eq!(u8::from(domain), value);
        assert_eq!(format!("{domain:?}"), mirror_name);
    }
}

#[test]
fn request_constructor_and_setters_preserve_validation() {
    let mut request = RenderRequest::new(TEST_MII, 512).expect("request should validate");
    assert_eq!(request.texture_resolution(), 512);
    assert!(request.set_texture_resolution(1).is_err());
    request.set_texture_resolution(1024).expect("supported resolution should validate");
    assert_eq!(request.texture_resolution(), 1024);
    request.set_expression(Expression::Stunned);
    request.set_view_type(ViewType::Face);
    let snapshot = request.snapshot();
    assert_eq!(snapshot.expression(), miimic::Expression::Stunned);
    assert_eq!(snapshot.view_type(), miimic::ViewType::Face);
    assert_eq!(snapshot.texture_resolution(), 1024);
}

#[test]
fn foreign_requests_report_failures_as_messages() {
    assert_eq!(
        RenderRequest::new("", 512).err(),
        Some(String::from("Mii data is neither valid hexadecimal nor supported base64"))
    );
    assert_eq!(
        RenderRequest::new(TEST_MII, 0).err(),
        Some(String::from("invalid render request: width must be between 1 and 1080"))
    );
    let mut request = RenderRequest::new(TEST_MII, 512).unwrap();
    assert_eq!(
        request.set_texture_resolution(2048),
        Err(String::from("invalid render request: texture resolution must be between 2 and 1024"))
    );
    let mut bytes = hex::decode(TEST_MII).unwrap();
    bytes[4] = 255;
    assert_eq!(
        RenderRequest::new(&hex::encode(bytes), 512).err(),
        Some(String::from("invalid Mii data: eye_color=255; expected 0..=99"))
    );
}

#[test]
fn mirror_defaults_match_the_library() {
    assert_eq!(miimic::ViewType::from(ViewType::default()), miimic::ViewType::default());
    assert_eq!(miimic::Expression::from(Expression::default()), miimic::Expression::default());
    assert_eq!(ViewType::try_from(3), Err(3));
    assert_eq!(Expression::try_from(70), Err(70));
}
