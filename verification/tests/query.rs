use miimic::query::{
    default_expression, default_width, expression_by_name, parse_expression, status_code,
    FflViewType, RenderQuery,
};
use miimic::text::{parse_u8, remove_spaces, str_eq};
use miimic::{Error, Expression, MiiFormat, ViewType};

const TEST_MII: &str = "0800600308040402020c0301060406020a0000000008000804000a2a003e7f04000214031304160d04000a040109";

#[test]
fn names_select_expressions_as_the_viewer_sees_them() {
    assert_eq!(parse_expression("normal").unwrap(), Expression::Normal);
    assert_eq!(parse_expression("puzzled").unwrap(), Expression::Sorrow);
    assert_eq!(parse_expression("happy").unwrap(), Expression::SmileOpenMouth);
    assert_eq!(parse_expression("wink_right").unwrap(), Expression::WinkLeft);
    assert_eq!(parse_expression("wink_left").unwrap(), Expression::WinkRight);
    assert_eq!(parse_expression("like").unwrap(), Expression::LikeWinkLeft);
    assert_eq!(parse_expression("like_wink_left").unwrap(), Expression::LikeWinkRight);
    assert_eq!(parse_expression("frustrated").unwrap(), Expression::Frustrated);
    assert_eq!(expression_by_name("surprised"), Some(4));
    assert_eq!(expression_by_name("Normal"), None);
}

#[test]
fn numbers_select_expressions_below_seventy() {
    assert_eq!(parse_expression("69").unwrap(), Expression::Stunned);
    assert_eq!(parse_expression("+7").unwrap(), Expression::SmileOpenMouth);
    match parse_expression("70") {
        Err(Error::InvalidRequest(message)) => {
            assert_eq!(message, "expression must be between 0 and 69")
        },
        _ => panic!("70 is not an expression"),
    }
    match parse_expression("grin") {
        Err(Error::InvalidRequest(message)) => assert_eq!(message, "unknown expression: grin"),
        _ => panic!("grin is not an expression"),
    }
    match parse_expression("256") {
        Err(Error::InvalidRequest(message)) => assert_eq!(message, "unknown expression: 256"),
        _ => panic!("256 is not a byte"),
    }
}

#[test]
fn bytes_parse_as_the_standard_library_parses_them() {
    for text in ["0", "7", "+9", "255", "256", "", "+", "-1", "1a", "007", " 1", "99999"] {
        assert_eq!(parse_u8(text), text.parse::<u8>().ok(), "{text:?}");
    }
}

#[test]
fn text_helpers_compare_and_strip_spaces() {
    assert!(str_eq("abc", "abc"));
    assert!(!str_eq("abc", "abd"));
    assert!(!str_eq("ab", "abc"));
    assert_eq!(remove_spaces(" a b\tc "), "ab\tc");
    assert_eq!(remove_spaces("né e"), "née");
}

#[test]
fn queries_default_to_the_face_view_and_a_neutral_expression() {
    assert_eq!(default_width(), 270);
    assert_eq!(default_expression(), "normal");
    assert_eq!(FflViewType::default(), FflViewType::Face);
    let query = RenderQuery::new(String::from(TEST_MII));
    assert_eq!(query.width, 270);
    assert_eq!(query.expression, "normal");
    assert_eq!(query.texture_resolution, None);
    assert_eq!(ViewType::from(FflViewType::Face), ViewType::Avatar);
    assert_eq!(ViewType::from(FflViewType::FaceOnly), ViewType::Face);
    assert_eq!(ViewType::from(FflViewType::AllBody), ViewType::Body);
}

#[test]
fn queries_become_requests() {
    let spaced: String = TEST_MII.chars().flat_map(|c| [c, ' ']).collect();
    let mut query = RenderQuery::new(spaced);
    query.expression = String::from("wink_left");
    query.texture_resolution = Some(64);
    query.view_type = FflViewType::AllBody;
    let request = query.to_request().expect("query should describe a request");
    assert_eq!(request.width(), 270);
    assert_eq!(request.expression(), Expression::WinkRight);
    assert_eq!(request.texture_resolution(), 64);
    assert_eq!(request.view_type(), ViewType::Body);
}

#[test]
fn query_problems_are_reported_in_order() {
    let mut query = RenderQuery::new(String::from("zz"));
    query.width = 0;
    assert!(matches!(query.to_request(), Err(Error::InvalidEncoding)));
    let mut query = RenderQuery::new(String::from(TEST_MII));
    query.width = 0;
    query.expression = String::from("grin");
    assert!(matches!(query.to_request(), Err(Error::InvalidRequest(m)) if m.starts_with("width")));
    let mut query = RenderQuery::new(String::from(TEST_MII));
    query.expression = String::from("grin");
    query.texture_resolution = Some(1);
    assert!(matches!(query.to_request(), Err(Error::InvalidRequest(m)) if m == "unknown expression: grin"));
    let mut query = RenderQuery::new(String::from(TEST_MII));
    query.texture_resolution = Some(1);
    assert!(matches!(query.to_request(), Err(Error::InvalidRequest(m)) if m.starts_with("texture")));
}

#[test]
fn errors_map_to_http_statuses() {
    assert_eq!(status_code(&Error::InvalidEncoding), 400);
    assert_eq!(status_code(&Error::UnsupportedDataLength(3)), 400);
    assert_eq!(status_code(&Error::InvalidRequest(String::new())), 400);
    assert_eq!(status_code(&Error::InvalidMii { field: "x", value: 1, min: 0, max: 0 }), 422);
    assert_eq!(status_code(&Error::InvalidMiiChecksum(MiiFormat::FflStoreData)), 422);
    assert_eq!(status_code(&Error::FeatureUnavailable("x")), 501);
    assert_eq!(status_code(&Error::Render(String::new())), 500);
    assert_eq!(status_code(&Error::InvalidResource(String::new())), 500);
}

use miimic::query::AppError;

#[test]
fn service_errors_become_responses() {
    let busy = AppError::RenderCapacity;
    assert_eq!(busy.status(), 503);
    assert_eq!(busy.retry_after(), Some("1"));
    assert_eq!(busy.message(), "render capacity is currently exhausted");
    let refused = AppError::Miimic(Error::InvalidEncoding);
    assert_eq!(refused.status(), 400);
    assert_eq!(refused.retry_after(), None);
    assert_eq!(refused.message(), "Mii data is neither valid hexadecimal nor supported base64");
    let task = AppError::RenderTask(String::from("panicked"));
    assert_eq!(task.status(), 500);
    assert_eq!(task.message(), "blocking render task failed: panicked");
    let response = AppError::Response(String::from("bad header"));
    assert_eq!(response.message(), "failed to build HTTP response: bad header");
    assert_eq!(AppError::Miimic(Error::FeatureUnavailable("x")).status(), 501);
}
