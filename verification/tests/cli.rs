use miimic::cli::{render_request, CliError, FormatArg, ViewArg};
use miimic::{Error, Expression, OutputFormat, ViewType};

const TEST_MII: &str = "0800600308040402020c0301060406020a0000000008000804000a2a003e7f04000214031304160d04000a040109";

#[test]
fn command_line_choices_map_to_library_values() {
    assert_eq!(OutputFormat::from(FormatArg::Png), OutputFormat::Png);
    assert_eq!(OutputFormat::from(FormatArg::Tga), OutputFormat::Tga);
    assert_eq!(OutputFormat::from(FormatArg::Glb), OutputFormat::Glb);
    assert_eq!(ViewType::from(ViewArg::Avatar), ViewType::Avatar);
    assert_eq!(ViewType::from(ViewArg::Face), ViewType::Face);
    assert_eq!(ViewType::from(ViewArg::Body), ViewType::Body);
}

#[test]
fn render_options_build_a_request() {
    let request = render_request(TEST_MII, 512, ViewArg::Face, 12, Some(128)).expect("valid");
    assert_eq!(request.width(), 512);
    assert_eq!(request.view_type(), ViewType::Face);
    assert_eq!(request.expression(), Expression::WinkLeft);
    assert_eq!(request.texture_resolution(), 128);
    let request = render_request(TEST_MII, 2000 / 2, ViewArg::Avatar, 0, None).expect("valid");
    assert_eq!(request.texture_resolution(), 1000);
}

#[test]
fn render_options_report_the_first_problem() {
    assert!(matches!(
        render_request("not mii", 512, ViewArg::Avatar, 80, Some(1)),
        Err(CliError::Request(Error::InvalidEncoding))
    ));
    assert!(matches!(
        render_request(TEST_MII, 0, ViewArg::Avatar, 80, Some(1)),
        Err(CliError::Request(Error::InvalidRequest(_)))
    ));
    assert!(matches!(
        render_request(TEST_MII, 512, ViewArg::Avatar, 70, Some(1)),
        Err(CliError::UnknownExpression(70))
    ));
    assert!(matches!(
        render_request(TEST_MII, 512, ViewArg::Avatar, 69, Some(1)),
        Err(CliError::Request(Error::InvalidRequest(_)))
    ));
}
