use vstd::prelude::*;

use crate::data::MiiData;
use crate::error::Error;
use crate::expression::Expression;
use crate::mii::Mii;
use crate::render::{
    fresh_request, request_from_text, OutputFormat, RenderRequest, ViewType,
    MAX_TEXTURE_RESOLUTION, MIN_TEXTURE_RESOLUTION,
};

verus! {

/// Output format chosen on the command line.
#[derive(Clone, Copy, Debug, PartialEq, Eq, Structural)]
pub enum FormatArg {
    Png,
    Tga,
    Glb,
}

/// View chosen on the command line.
#[derive(Clone, Copy, Debug, PartialEq, Eq, Structural)]
pub enum ViewArg {
    Avatar,
    Face,
    Body,
}

pub open spec fn view_of(value: ViewArg) -> ViewType {
    match value {
        ViewArg::Avatar => ViewType::Avatar,
        ViewArg::Face => ViewType::Face,
        ViewArg::Body => ViewType::Body,
    }
}

pub open spec fn format_of(value: FormatArg) -> OutputFormat {
    match value {
        FormatArg::Png => OutputFormat::Png,
        FormatArg::Tga => OutputFormat::Tga,
        FormatArg::Glb => OutputFormat::Glb,
    }
}

impl From<ViewArg> for ViewType {
    fn from(value: ViewArg) -> (res: ViewType) {
        match value {
            ViewArg::Avatar => ViewType::Avatar,
            ViewArg::Face => ViewType::Face,
            ViewArg::Body => ViewType::Body,
        }
    }
}

impl vstd::std_specs::convert::FromSpecImpl<ViewArg> for ViewType {
    open spec fn obeys_from_spec() -> bool {
        true
    }

    open spec fn from_spec(value: ViewArg) -> ViewType {
        view_of(value)
    }
}

impl From<FormatArg> for OutputFormat {
    fn from(value: FormatArg) -> (res: OutputFormat) {
        match value {
            FormatArg::Png => OutputFormat::Png,
            FormatArg::Tga => OutputFormat::Tga,
            FormatArg::Glb => OutputFormat::Glb,
        }
    }
}

impl vstd::std_specs::convert::FromSpecImpl<FormatArg> for OutputFormat {
    open spec fn obeys_from_spec() -> bool {
        true
    }

    open spec fn from_spec(value: FormatArg) -> OutputFormat {
        format_of(value)
    }
}

/// Why the command line does not describe a render request.
#[derive(Debug)]
pub enum CliError {
    /// The data, the width, the Mii or the texture resolution was refused.
    Request(Error),
    /// No expression has this number.
    UnknownExpression(u8),
}

/// Builds the request that the `render` command describes: the data is
/// decoded and a request of `width` made from it, then the view, the
/// expression and the texture resolution are set, and the first problem is
/// reported.
pub fn render_request(
    data: &str,
    width: u16,
    view: ViewArg,
    expression: u8,
    texture_resolution: Option<u16>,
) -> (res: Result<RenderRequest, CliError>)
    ensures
        match res {
            Ok(request) => {
                &&& request_from_text(data@, width, Ok(request.spec_mii()))
                &&& expression < 70
                &&& request.spec_expression().spec_code() == expression
                &&& request.spec_view_type() == view_of(view)
                &&& request.spec_width() == width
                &&& match texture_resolution {
                    Some(t) => request.spec_texture_resolution() == t,
                    None => request.spec_texture_resolution() == (if width
                        < MIN_TEXTURE_RESOLUTION {
                        MIN_TEXTURE_RESOLUTION
                    } else if width > MAX_TEXTURE_RESOLUTION {
                        MAX_TEXTURE_RESOLUTION
                    } else {
                        width
                    }),
                }
                &&& request.spec_background() == [255u8, 255, 255, 0]
            },
            Err(CliError::Request(error)) => {
                ||| request_from_text(data@, width, Err(error))
                ||| {
                    &&& exists|mii: Mii| request_from_text(data@, width, Ok(mii))
                    &&& expression < 70
                    &&& texture_resolution matches Some(t) && !(MIN_TEXTURE_RESOLUTION <= t
                        <= MAX_TEXTURE_RESOLUTION)
                    &&& error matches Error::InvalidRequest(message) && message@
                        == "texture resolution must be between 2 and 1024"@
                }
            },
            Err(CliError::UnknownExpression(value)) => value == expression && expression >= 70
                && exists|mii: Mii| request_from_text(data@, width, Ok(mii)),
        },
{
    let mii = match MiiData::decode(data) {
        Ok(mii) => mii,
        Err(error) => {
            assert(request_from_text(data@, width, Err(error)));
            return Err(CliError::Request(error));
        },
    };
    let mut request = match RenderRequest::new(mii, width) {
        Ok(request) => request,
        Err(error) => {
            assert(request_from_text(data@, width, Err(error)));
            return Err(CliError::Request(error));
        },
    };
    let ghost decoded = request.spec_mii();
    assert(request_from_text(data@, width, Ok(decoded)));
    assert(fresh_request(request, width));
    request.set_view_type(ViewType::from(view));
    let expression = match Expression::try_from(expression) {
        Ok(expression) => expression,
        Err(value) => return Err(CliError::UnknownExpression(value)),
    };
    request.set_expression(expression);
    if let Some(texture_resolution) = texture_resolution {
        match request.set_texture_resolution(texture_resolution) {
            Ok(()) => {},
            Err(error) => return Err(CliError::Request(error)),
        }
    }
    Ok(request)
}

} // verus!
