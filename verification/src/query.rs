use vstd::prelude::*;

use crate::data::MiiData;
use crate::error::{error_message, has_source, Error};
use crate::expression::Expression;
use crate::mii::Mii;
use crate::render::{
    fresh_request, request_from_text, RenderRequest, ViewType, MAX_TEXTURE_RESOLUTION,
    MIN_TEXTURE_RESOLUTION,
};
use crate::text::{parse_u8, parsed_u8, remove_spaces, str_eq, without_spaces};
use vstd::utf8::encode_utf8;

verus! {

/// The expression that a request may select by name. Where a name differs
/// from the expression's own, it describes the face as the viewer sees it:
/// `wink_right` closes the eye on the viewer's right, which is the Mii's left.
pub open spec fn named_expression(name: Seq<char>) -> Option<u8> {
    if name == "normal"@ {
        Some(0u8)
    } else if name == "smile"@ {
        Some(1u8)
    } else if name == "anger"@ {
        Some(2u8)
    } else if name == "sorrow"@ {
        Some(3u8)
    } else if name == "puzzled"@ {
        Some(3u8)
    } else if name == "surprise"@ {
        Some(4u8)
    } else if name == "surprised"@ {
        Some(4u8)
    } else if name == "blink"@ {
        Some(5u8)
    } else if name == "open_mouth"@ {
        Some(6u8)
    } else if name == "normal_open_mouth"@ {
        Some(6u8)
    } else if name == "happy"@ {
        Some(7u8)
    } else if name == "smile_open_mouth"@ {
        Some(7u8)
    } else if name == "anger_open_mouth"@ {
        Some(8u8)
    } else if name == "sorrow_open_mouth"@ {
        Some(9u8)
    } else if name == "surprise_open_mouth"@ {
        Some(10u8)
    } else if name == "blink_open_mouth"@ {
        Some(11u8)
    } else if name == "wink_right"@ {
        Some(12u8)
    } else if name == "wink_left"@ {
        Some(13u8)
    } else if name == "wink_right_open_mouth"@ {
        Some(14u8)
    } else if name == "wink_left_open_mouth"@ {
        Some(15u8)
    } else if name == "like"@ {
        Some(16u8)
    } else if name == "like_wink_right"@ {
        Some(16u8)
    } else if name == "like_wink_left"@ {
        Some(17u8)
    } else if name == "frustrated"@ {
        Some(18u8)
    } else {
        None
    }
}

/// Looks up an expression by the name a request gives it.
pub fn expression_by_name(name: &str) -> (res: Option<u8>)
    ensures
        res == named_expression(name@),
{
    if str_eq(name, "normal") {
        Some(0)
    } else if str_eq(name, "smile") {
        Some(1)
    } else if str_eq(name, "anger") {
        Some(2)
    } else if str_eq(name, "sorrow") {
        Some(3)
    } else if str_eq(name, "puzzled") {
        Some(3)
    } else if str_eq(name, "surprise") {
        Some(4)
    } else if str_eq(name, "surprised") {
        Some(4)
    } else if str_eq(name, "blink") {
        Some(5)
    } else if str_eq(name, "open_mouth") {
        Some(6)
    } else if str_eq(name, "normal_open_mouth") {
        Some(6)
    } else if str_eq(name, "happy") {
        Some(7)
    } else if str_eq(name, "smile_open_mouth") {
        Some(7)
    } else if str_eq(name, "anger_open_mouth") {
        Some(8)
    } else if str_eq(name, "sorrow_open_mouth") {
        Some(9)
    } else if str_eq(name, "surprise_open_mouth") {
        Some(10)
    } else if str_eq(name, "blink_open_mouth") {
        Some(11)
    } else if str_eq(name, "wink_right") {
        Some(12)
    } else if str_eq(name, "wink_left") {
        Some(13)
    } else if str_eq(name, "wink_right_open_mouth") {
        Some(14)
    } else if str_eq(name, "wink_left_open_mouth") {
        Some(15)
    } else if str_eq(name, "like") {
        Some(16)
    } else if str_eq(name, "like_wink_right") {
        Some(16)
    } else if str_eq(name, "like_wink_left") {
        Some(17)
    } else if str_eq(name, "frustrated") {
        Some(18)
    } else {
        None
    }
}

/// What [`parse_expression`] gives for `name`: a listed name, else a number
/// below 70; a number from 70 on, or text that is neither, is refused.
pub open spec fn expression_for(name: Seq<char>) -> Result<u8, Seq<char>> {
    match named_expression(name) {
        Some(code) => Ok(code),
        None => match parsed_u8(encode_utf8(name)) {
            None => Err("unknown expression: "@ + name),
            Some(code) => if code < 70 {
                Ok(code)
            } else {
                Err("expression must be between 0 and 69"@)
            },
        },
    }
}

/// Resolves an expression given by name or by number.
pub fn parse_expression(value: &str) -> (res: Result<Expression, Error>)
    ensures
        match expression_for(value@) {
            Ok(code) => res matches Ok(expression) && expression.spec_code() == code,
            Err(message) => res matches Err(Error::InvalidRequest(m)) && m@ == message,
        },
{
    if let Some(code) = expression_by_name(value) {
        return match Expression::try_from(code) {
            Ok(expression) => Ok(expression),
            Err(_) => Err(
                Error::InvalidRequest(String::from_str("expression must be between 0 and 69")),
            ),
        };
    }
    match parse_u8(value) {
        Some(code) => match Expression::try_from(code) {
            Ok(expression) => Ok(expression),
            Err(_) => Err(
                Error::InvalidRequest(String::from_str("expression must be between 0 and 69")),
            ),
        },
        None => {
            let mut message = String::from_str("unknown expression: ");
            message.append(value);
            Err(Error::InvalidRequest(message))
        },
    }
}

/// Each name that a request may give selects the expression it names, the
/// wink names as the viewer sees the face (`wink_right` closes the eye on
/// the viewer's right, the Mii's left), and `puzzled`, `surprised`,
/// `normal_open_mouth`, `happy` and `like` are other names for sorrow,
/// surprise, the open mouth, the smile with open mouth and the left-eye like
/// wink.
pub proof fn expression_names_select_their_expressions()
    ensures
        expression_for("normal"@) == Ok::<u8, Seq<char>>(Expression::Normal.spec_code()),
        expression_for("smile"@) == Ok::<u8, Seq<char>>(Expression::Smile.spec_code()),
        expression_for("anger"@) == Ok::<u8, Seq<char>>(Expression::Anger.spec_code()),
        expression_for("sorrow"@) == Ok::<u8, Seq<char>>(Expression::Sorrow.spec_code()),
        expression_for("puzzled"@) == Ok::<u8, Seq<char>>(Expression::Sorrow.spec_code()),
        expression_for("surprise"@) == Ok::<u8, Seq<char>>(Expression::Surprise.spec_code()),
        expression_for("surprised"@) == Ok::<u8, Seq<char>>(Expression::Surprise.spec_code()),
        expression_for("blink"@) == Ok::<u8, Seq<char>>(Expression::Blink.spec_code()),
        expression_for("open_mouth"@) == Ok::<u8, Seq<char>>(Expression::OpenMouth.spec_code()),
        expression_for("normal_open_mouth"@) == Ok::<u8, Seq<char>>(Expression::OpenMouth.spec_code()),
        expression_for("happy"@) == Ok::<u8, Seq<char>>(Expression::SmileOpenMouth.spec_code()),
        expression_for("smile_open_mouth"@) == Ok::<u8, Seq<char>>(Expression::SmileOpenMouth.spec_code()),
        expression_for("anger_open_mouth"@) == Ok::<u8, Seq<char>>(Expression::AngerOpenMouth.spec_code()),
        expression_for("sorrow_open_mouth"@) == Ok::<u8, Seq<char>>(Expression::SorrowOpenMouth.spec_code()),
        expression_for("surprise_open_mouth"@) == Ok::<u8, Seq<char>>(Expression::SurpriseOpenMouth.spec_code()),
        expression_for("blink_open_mouth"@) == Ok::<u8, Seq<char>>(Expression::BlinkOpenMouth.spec_code()),
        expression_for("wink_right"@) == Ok::<u8, Seq<char>>(Expression::WinkLeft.spec_code()),
        expression_for("wink_left"@) == Ok::<u8, Seq<char>>(Expression::WinkRight.spec_code()),
        expression_for("wink_right_open_mouth"@) == Ok::<u8, Seq<char>>(Expression::WinkLeftOpenMouth.spec_code()),
        expression_for("wink_left_open_mouth"@) == Ok::<u8, Seq<char>>(Expression::WinkRightOpenMouth.spec_code()),
        expression_for("like"@) == Ok::<u8, Seq<char>>(Expression::LikeWinkLeft.spec_code()),
        expression_for("like_wink_right"@) == Ok::<u8, Seq<char>>(Expression::LikeWinkLeft.spec_code()),
        expression_for("like_wink_left"@) == Ok::<u8, Seq<char>>(Expression::LikeWinkRight.spec_code()),
        expression_for("frustrated"@) == Ok::<u8, Seq<char>>(Expression::Frustrated.spec_code()),
{
    reveal_strlit("normal");
    reveal_strlit("smile");
    reveal_strlit("anger");
    reveal_strlit("sorrow");
    reveal_strlit("puzzled");
    reveal_strlit("surprise");
    reveal_strlit("surprised");
    reveal_strlit("blink");
    reveal_strlit("open_mouth");
    reveal_strlit("normal_open_mouth");
    reveal_strlit("happy");
    reveal_strlit("smile_open_mouth");
    reveal_strlit("anger_open_mouth");
    reveal_strlit("sorrow_open_mouth");
    reveal_strlit("surprise_open_mouth");
    reveal_strlit("blink_open_mouth");
    reveal_strlit("wink_right");
    reveal_strlit("wink_left");
    reveal_strlit("wink_right_open_mouth");
    reveal_strlit("wink_left_open_mouth");
    reveal_strlit("like");
    reveal_strlit("like_wink_right");
    reveal_strlit("like_wink_left");
    reveal_strlit("frustrated");
}

/// The `type` of a render query, named as FFL names its views.
#[derive(Clone, Copy, Debug, PartialEq, Eq, Structural)]
pub enum FflViewType {
    /// The face of the avatar (the default).
    Face,
    /// The head alone.
    FaceOnly,
    /// The whole body.
    AllBody,
}

pub open spec fn ffl_view(value: FflViewType) -> ViewType {
    match value {
        FflViewType::Face => ViewType::Avatar,
        FflViewType::FaceOnly => ViewType::Face,
        FflViewType::AllBody => ViewType::Body,
    }
}

impl Default for FflViewType {
    fn default() -> (res: FflViewType)
        ensures
            res == FflViewType::Face,
    {
        FflViewType::Face
    }
}

impl From<FflViewType> for ViewType {
    fn from(value: FflViewType) -> (res: ViewType) {
        match value {
            FflViewType::Face => ViewType::Avatar,
            FflViewType::FaceOnly => ViewType::Face,
            FflViewType::AllBody => ViewType::Body,
        }
    }
}

impl vstd::std_specs::convert::FromSpecImpl<FflViewType> for ViewType {
    open spec fn obeys_from_spec() -> bool {
        true
    }

    open spec fn from_spec(value: FflViewType) -> ViewType {
        ffl_view(value)
    }
}

/// Width of a render query that names none.
pub fn default_width() -> (res: u16)
    ensures
        res == 270,
{
    270
}

/// Expression of a render query that names none.
pub fn default_expression() -> (res: String)
    ensures
        res@ == "normal"@,
{
    String::from_str("normal")
}

/// Parameters of an image request.
#[derive(Clone, Debug)]
pub struct RenderQuery {
    pub data: String,
    pub width: u16,
    pub expression: String,
    pub texture_resolution: Option<u16>,
    pub view_type: FflViewType,
}

impl RenderQuery {
    /// A query for `data` with the default options.
    pub fn new(data: String) -> (res: RenderQuery)
        ensures
            res.data@ == data@,
            res.width == 270,
            res.expression@ == "normal"@,
            res.texture_resolution is None,
            res.view_type == FflViewType::Face,
    {
        RenderQuery {
            data,
            width: default_width(),
            expression: default_expression(),
            texture_resolution: None,
            view_type: FflViewType::Face,
        }
    }

    /// Builds the render request the query describes: spaces in the data are
    /// dropped; then the data, the width, the Mii, the expression and the
    /// texture resolution are checked in that order, and the first problem is
    /// reported.
    pub fn to_request(&self) -> (res: Result<RenderRequest, Error>)
        ensures
            match res {
                Ok(request) => {
                    &&& request_from_text(without_spaces(self.data@), self.width, Ok(request.spec_mii()))
                    &&& expression_for(self.expression@) == Ok::<u8, Seq<char>>(
                        request.spec_expression().spec_code(),
                    )
                    &&& request.spec_view_type() == ffl_view(self.view_type)
                    &&& request.spec_width() == self.width
                    &&& match self.texture_resolution {
                        Some(t) => request.spec_texture_resolution() == t,
                        None => request.spec_texture_resolution() == (if self.width
                            < MIN_TEXTURE_RESOLUTION {
                            MIN_TEXTURE_RESOLUTION
                        } else if self.width > MAX_TEXTURE_RESOLUTION {
                            MAX_TEXTURE_RESOLUTION
                        } else {
                            self.width
                        }),
                    }
                    &&& request.spec_background() == [255u8, 255, 255, 0]
                },
                Err(error) => {
                    ||| request_from_text(without_spaces(self.data@), self.width, Err(error))
                    ||| {
                        &&& exists|mii: Mii| request_from_text(without_spaces(self.data@), self.width, Ok(mii))
                        &&& expression_for(self.expression@) matches Err(message)
                        &&& error matches Error::InvalidRequest(m) && m@ == message
                    }
                    ||| {
                        &&& exists|mii: Mii| request_from_text(without_spaces(self.data@), self.width, Ok(mii))
                        &&& expression_for(self.expression@) is Ok
                        &&& self.texture_resolution matches Some(t) && !(MIN_TEXTURE_RESOLUTION
                            <= t <= MAX_TEXTURE_RESOLUTION)
                        &&& error matches Error::InvalidRequest(m) && m@
                            == "texture resolution must be between 2 and 1024"@
                    }
                },
            },
    {
        let data = remove_spaces(self.data.as_str());
        let mii = match MiiData::decode(data.as_str()) {
            Ok(mii) => mii,
            Err(error) => {
                assert(request_from_text(data@, self.width, Err(error)));
                return Err(error);
            },
        };
        let mut request = match RenderRequest::new(mii, self.width) {
            Ok(request) => request,
            Err(error) => {
                assert(request_from_text(data@, self.width, Err(error)));
                return Err(error);
            },
        };
        let ghost decoded = request.spec_mii();
        assert(request_from_text(data@, self.width, Ok(decoded)));
        assert(fresh_request(request, self.width));
        let expression = match parse_expression(self.expression.as_str()) {
            Ok(expression) => expression,
            Err(error) => return Err(error),
        };
        request.set_expression(expression);
        if let Some(texture_resolution) = self.texture_resolution {
            match request.set_texture_resolution(texture_resolution) {
                Ok(()) => {},
                Err(error) => return Err(error),
            }
        }
        request.set_view_type(ViewType::from(self.view_type));
        Ok(request)
    }
}

/// The HTTP status that reports `error`: 400 for malformed input, 422 for
/// well-formed input that cannot be used, 501 for a missing feature, and 500
/// for everything else.
pub fn status_code(error: &Error) -> (res: u16)
    ensures
        res == (match error {
            Error::InvalidEncoding | Error::UnsupportedDataLength(_) | Error::InvalidRequest(_) => 400u16,
            Error::InvalidMii { .. } | Error::InvalidMiiChecksum(_) | Error::UnsupportedResource {
                ..
            } => 422u16,
            Error::FeatureUnavailable(_) => 501u16,
            _ => 500u16,
        }),
{
    match error {
        Error::InvalidEncoding | Error::UnsupportedDataLength(_) | Error::InvalidRequest(_) => 400,
        Error::InvalidMii { .. } | Error::InvalidMiiChecksum(_) | Error::UnsupportedResource {
            ..
        } => 422,
        Error::FeatureUnavailable(_) => 501,
        _ => 500,
    }
}

/// Why the image service could not answer a request.
#[derive(Debug)]
pub enum AppError {
    /// The library refused the request or failed to render it.
    Miimic(Error),
    /// Every render slot is busy.
    RenderCapacity,
    /// The rendering task failed, with the failure's description.
    RenderTask(String),
    /// The response could not be assembled, with the failure's description.
    Response(String),
}

/// The message that describes an error of the image service; a library
/// error describes itself.
pub open spec fn app_error_message(error: AppError) -> Seq<char> {
    match error {
        AppError::Miimic(error) => error_message(error),
        AppError::RenderCapacity => "render capacity is currently exhausted"@,
        AppError::RenderTask(cause) => "blocking render task failed: "@ + cause@,
        AppError::Response(cause) => "failed to build HTTP response: "@ + cause@,
    }
}

impl AppError {
    /// The HTTP status of the response: that of the library error, 503 when
    /// every render slot is busy, and 500 otherwise.
    pub fn status(&self) -> (res: u16)
        ensures
            res == (match self {
                AppError::Miimic(error) => match error {
                    Error::InvalidEncoding | Error::UnsupportedDataLength(_)
                    | Error::InvalidRequest(_) => 400u16,
                    Error::InvalidMii { .. } | Error::InvalidMiiChecksum(_)
                    | Error::UnsupportedResource { .. } => 422u16,
                    Error::FeatureUnavailable(_) => 501u16,
                    _ => 500u16,
                },
                AppError::RenderCapacity => 503u16,
                _ => 500u16,
            }),
    {
        match self {
            AppError::Miimic(error) => status_code(error),
            AppError::RenderCapacity => 503,
            _ => 500,
        }
    }

    /// The seconds after which a client may retry, sent only when every
    /// render slot is busy.
    pub fn retry_after(&self) -> (res: Option<&'static str>)
        ensures
            self is RenderCapacity ==> (res matches Some(seconds) && seconds@ == "1"@),
            !(self is RenderCapacity) ==> res is None,
    {
        match self {
            AppError::RenderCapacity => Some("1"),
            _ => None,
        }
    }

    /// The body of the response.
    pub fn message(&self) -> (res: String)
        ensures
            match self {
                AppError::Miimic(error) => if has_source(*error) {
                    res@.len() >= error_message(*error).len() && res@.subrange(
                        0,
                        error_message(*error).len() as int,
                    ) == error_message(*error)
                } else {
                    res@ == error_message(*error)
                },
                _ => res@ == app_error_message(*self),
            },
    {
        match self {
            AppError::Miimic(error) => error.to_string(),
            AppError::RenderCapacity => String::from_str("render capacity is currently exhausted"),
            AppError::RenderTask(cause) => {
                let mut text = String::from_str("blocking render task failed: ");
                text.append(cause.as_str());
                text
            },
            AppError::Response(cause) => {
                let mut text = String::from_str("failed to build HTTP response: ");
                text.append(cause.as_str());
                text
            },
        }
    }
}

} // verus!
