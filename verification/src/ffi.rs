use vstd::prelude::*;

use crate::data::MiiData;
use crate::error::{error_message, Error};
use crate::expression::expression_with_code;
use crate::render::{fresh_request, request_from_text, MAX_TEXTURE_RESOLUTION, MIN_TEXTURE_RESOLUTION};

verus! {

/// Encoded output format, numbered as [`crate::OutputFormat`] numbers it.
#[derive(Clone, Copy, Debug, PartialEq, Eq, Structural)]
pub enum OutputFormat {
    Png,
    Tga,
    Glb,
}

/// Scene and camera view, numbered as [`crate::ViewType`] numbers it.
#[derive(Clone, Copy, Debug, PartialEq, Eq, Structural)]
pub enum ViewType {
    /// Face-focused view with the head attached to the Wii U body.
    Avatar,
    /// Standalone head using the same face-focused framing.
    Face,
    /// Complete Wii U body with the head attached and centered in frame.
    Body,
}

/// Facial expression, numbered as [`crate::Expression`] numbers it.
#[derive(Clone, Copy, Debug, PartialEq, Eq, Structural)]
pub enum Expression {
    Normal,
    Smile,
    Anger,
    Sorrow,
    Surprise,
    Blink,
    OpenMouth,
    SmileOpenMouth,
    AngerOpenMouth,
    SorrowOpenMouth,
    SurpriseOpenMouth,
    BlinkOpenMouth,
    WinkLeft,
    WinkRight,
    WinkLeftOpenMouth,
    WinkRightOpenMouth,
    LikeWinkLeft,
    LikeWinkRight,
    Frustrated,
    Bored,
    BoredOpenMouth,
    SighMouthStraight,
    Sigh,
    DisgustedMouthStraight,
    Disgusted,
    Love,
    LoveOpenMouth,
    DeterminedMouthStraight,
    Determined,
    CryMouthStraight,
    Cry,
    BigSmileMouthStraight,
    BigSmile,
    Cheeky,
    CheekyDuplicate,
    Afl35,
    Afl36,
    Smug,
    SmugOpenMouth,
    Resolve,
    ResolveOpenMouth,
    Unbelievable,
    UnbelievableDuplicate,
    Cunning,
    CunningDuplicate,
    Raspberry,
    RaspberryDuplicate,
    Innocent,
    InnocentDuplicate,
    Cat,
    CatDuplicate,
    Dog,
    DogDuplicate,
    Tasty,
    TastyDuplicate,
    MoneyMouthStraight,
    Money,
    ConfusedMouthStraight,
    Confused,
    CheerfulMouthStraight,
    Cheerful,
    Afl61,
    Afl62,
    GrumbleMouthStraight,
    Grumble,
    MovedMouthStraight,
    Moved,
    SingingMouthSmall,
    Singing,
    Stunned,
}

impl OutputFormat {
    pub open spec fn spec_code(self) -> u8 {
        match self {
            OutputFormat::Png => 0,
            OutputFormat::Tga => 1,
            OutputFormat::Glb => 2,
        }
    }

    /// The number of this value.
    pub fn code(self) -> (res: u8)
        ensures
            res == self.spec_code(),
    {
        match self {
            OutputFormat::Png => 0,
            OutputFormat::Tga => 1,
            OutputFormat::Glb => 2,
        }
    }

    /// Converts a number; numbers from 3 on are handed back.
    pub fn try_from(value: u8) -> (res: Result<OutputFormat, u8>)
        ensures
            value < 3 ==> (res matches Ok(v) && v.spec_code() == value),
            value >= 3 ==> res == Err::<OutputFormat, u8>(value),
    {
        match value {
            0 => Ok(OutputFormat::Png),
            1 => Ok(OutputFormat::Tga),
            2 => Ok(OutputFormat::Glb),
            _ => Err(value),
        }
    }
}

impl Default for OutputFormat {
    fn default() -> (res: OutputFormat)
        ensures
            res == OutputFormat::Png,
    {
        OutputFormat::Png
    }
}

impl From<OutputFormat> for u8 {
    fn from(value: OutputFormat) -> (res: u8) {
        value.code()
    }
}

impl vstd::std_specs::convert::FromSpecImpl<OutputFormat> for u8 {
    open spec fn obeys_from_spec() -> bool {
        true
    }

    open spec fn from_spec(value: OutputFormat) -> u8 {
        value.spec_code()
    }
}

impl ViewType {
    pub open spec fn spec_code(self) -> u8 {
        match self {
            ViewType::Avatar => 0,
            ViewType::Face => 1,
            ViewType::Body => 2,
        }
    }

    /// The number of this value.
    pub fn code(self) -> (res: u8)
        ensures
            res == self.spec_code(),
    {
        match self {
            ViewType::Avatar => 0,
            ViewType::Face => 1,
            ViewType::Body => 2,
        }
    }

    /// Converts a number; numbers from 3 on are handed back.
    pub fn try_from(value: u8) -> (res: Result<ViewType, u8>)
        ensures
            value < 3 ==> (res matches Ok(v) && v.spec_code() == value),
            value >= 3 ==> res == Err::<ViewType, u8>(value),
    {
        match value {
            0 => Ok(ViewType::Avatar),
            1 => Ok(ViewType::Face),
            2 => Ok(ViewType::Body),
            _ => Err(value),
        }
    }
}

impl Default for ViewType {
    fn default() -> (res: ViewType)
        ensures
            res == ViewType::Avatar,
    {
        ViewType::Avatar
    }
}

impl From<ViewType> for u8 {
    fn from(value: ViewType) -> (res: u8) {
        value.code()
    }
}

impl vstd::std_specs::convert::FromSpecImpl<ViewType> for u8 {
    open spec fn obeys_from_spec() -> bool {
        true
    }

    open spec fn from_spec(value: ViewType) -> u8 {
        value.spec_code()
    }
}

impl Expression {
    pub open spec fn spec_code(self) -> u8 {
        match self {
            Expression::Normal => 0,
            Expression::Smile => 1,
            Expression::Anger => 2,
            Expression::Sorrow => 3,
            Expression::Surprise => 4,
            Expression::Blink => 5,
            Expression::OpenMouth => 6,
            Expression::SmileOpenMouth => 7,
            Expression::AngerOpenMouth => 8,
            Expression::SorrowOpenMouth => 9,
            Expression::SurpriseOpenMouth => 10,
            Expression::BlinkOpenMouth => 11,
            Expression::WinkLeft => 12,
            Expression::WinkRight => 13,
            Expression::WinkLeftOpenMouth => 14,
            Expression::WinkRightOpenMouth => 15,
            Expression::LikeWinkLeft => 16,
            Expression::LikeWinkRight => 17,
            Expression::Frustrated => 18,
            Expression::Bored => 19,
            Expression::BoredOpenMouth => 20,
            Expression::SighMouthStraight => 21,
            Expression::Sigh => 22,
            Expression::DisgustedMouthStraight => 23,
            Expression::Disgusted => 24,
            Expression::Love => 25,
            Expression::LoveOpenMouth => 26,
            Expression::DeterminedMouthStraight => 27,
            Expression::Determined => 28,
            Expression::CryMouthStraight => 29,
            Expression::Cry => 30,
            Expression::BigSmileMouthStraight => 31,
            Expression::BigSmile => 32,
            Expression::Cheeky => 33,
            Expression::CheekyDuplicate => 34,
            Expression::Afl35 => 35,
            Expression::Afl36 => 36,
            Expression::Smug => 37,
            Expression::SmugOpenMouth => 38,
            Expression::Resolve => 39,
            Expression::ResolveOpenMouth => 40,
            Expression::Unbelievable => 41,
            Expression::UnbelievableDuplicate => 42,
            Expression::Cunning => 43,
            Expression::CunningDuplicate => 44,
            Expression::Raspberry => 45,
            Expression::RaspberryDuplicate => 46,
            Expression::Innocent => 47,
            Expression::InnocentDuplicate => 48,
            Expression::Cat => 49,
            Expression::CatDuplicate => 50,
            Expression::Dog => 51,
            Expression::DogDuplicate => 52,
            Expression::Tasty => 53,
            Expression::TastyDuplicate => 54,
            Expression::MoneyMouthStraight => 55,
            Expression::Money => 56,
            Expression::ConfusedMouthStraight => 57,
            Expression::Confused => 58,
            Expression::CheerfulMouthStraight => 59,
            Expression::Cheerful => 60,
            Expression::Afl61 => 61,
            Expression::Afl62 => 62,
            Expression::GrumbleMouthStraight => 63,
            Expression::Grumble => 64,
            Expression::MovedMouthStraight => 65,
            Expression::Moved => 66,
            Expression::SingingMouthSmall => 67,
            Expression::Singing => 68,
            Expression::Stunned => 69,
        }
    }

    /// The number of this value.
    pub fn code(self) -> (res: u8)
        ensures
            res == self.spec_code(),
    {
        match self {
            Expression::Normal => 0,
            Expression::Smile => 1,
            Expression::Anger => 2,
            Expression::Sorrow => 3,
            Expression::Surprise => 4,
            Expression::Blink => 5,
            Expression::OpenMouth => 6,
            Expression::SmileOpenMouth => 7,
            Expression::AngerOpenMouth => 8,
            Expression::SorrowOpenMouth => 9,
            Expression::SurpriseOpenMouth => 10,
            Expression::BlinkOpenMouth => 11,
            Expression::WinkLeft => 12,
            Expression::WinkRight => 13,
            Expression::WinkLeftOpenMouth => 14,
            Expression::WinkRightOpenMouth => 15,
            Expression::LikeWinkLeft => 16,
            Expression::LikeWinkRight => 17,
            Expression::Frustrated => 18,
            Expression::Bored => 19,
            Expression::BoredOpenMouth => 20,
            Expression::SighMouthStraight => 21,
            Expression::Sigh => 22,
            Expression::DisgustedMouthStraight => 23,
            Expression::Disgusted => 24,
            Expression::Love => 25,
            Expression::LoveOpenMouth => 26,
            Expression::DeterminedMouthStraight => 27,
            Expression::Determined => 28,
            Expression::CryMouthStraight => 29,
            Expression::Cry => 30,
            Expression::BigSmileMouthStraight => 31,
            Expression::BigSmile => 32,
            Expression::Cheeky => 33,
            Expression::CheekyDuplicate => 34,
            Expression::Afl35 => 35,
            Expression::Afl36 => 36,
            Expression::Smug => 37,
            Expression::SmugOpenMouth => 38,
            Expression::Resolve => 39,
            Expression::ResolveOpenMouth => 40,
            Expression::Unbelievable => 41,
            Expression::UnbelievableDuplicate => 42,
            Expression::Cunning => 43,
            Expression::CunningDuplicate => 44,
            Expression::Raspberry => 45,
            Expression::RaspberryDuplicate => 46,
            Expression::Innocent => 47,
            Expression::InnocentDuplicate => 48,
            Expression::Cat => 49,
            Expression::CatDuplicate => 50,
            Expression::Dog => 51,
            Expression::DogDuplicate => 52,
            Expression::Tasty => 53,
            Expression::TastyDuplicate => 54,
            Expression::MoneyMouthStraight => 55,
            Expression::Money => 56,
            Expression::ConfusedMouthStraight => 57,
            Expression::Confused => 58,
            Expression::CheerfulMouthStraight => 59,
            Expression::Cheerful => 60,
            Expression::Afl61 => 61,
            Expression::Afl62 => 62,
            Expression::GrumbleMouthStraight => 63,
            Expression::Grumble => 64,
            Expression::MovedMouthStraight => 65,
            Expression::Moved => 66,
            Expression::SingingMouthSmall => 67,
            Expression::Singing => 68,
            Expression::Stunned => 69,
        }
    }

    /// Converts a number; numbers from 70 on are handed back.
    pub fn try_from(value: u8) -> (res: Result<Expression, u8>)
        ensures
            value < 70 ==> (res matches Ok(v) && v.spec_code() == value),
            value >= 70 ==> res == Err::<Expression, u8>(value),
    {
        match value {
            0 => Ok(Expression::Normal),
            1 => Ok(Expression::Smile),
            2 => Ok(Expression::Anger),
            3 => Ok(Expression::Sorrow),
            4 => Ok(Expression::Surprise),
            5 => Ok(Expression::Blink),
            6 => Ok(Expression::OpenMouth),
            7 => Ok(Expression::SmileOpenMouth),
            8 => Ok(Expression::AngerOpenMouth),
            9 => Ok(Expression::SorrowOpenMouth),
            10 => Ok(Expression::SurpriseOpenMouth),
            11 => Ok(Expression::BlinkOpenMouth),
            12 => Ok(Expression::WinkLeft),
            13 => Ok(Expression::WinkRight),
            14 => Ok(Expression::WinkLeftOpenMouth),
            15 => Ok(Expression::WinkRightOpenMouth),
            16 => Ok(Expression::LikeWinkLeft),
            17 => Ok(Expression::LikeWinkRight),
            18 => Ok(Expression::Frustrated),
            19 => Ok(Expression::Bored),
            20 => Ok(Expression::BoredOpenMouth),
            21 => Ok(Expression::SighMouthStraight),
            22 => Ok(Expression::Sigh),
            23 => Ok(Expression::DisgustedMouthStraight),
            24 => Ok(Expression::Disgusted),
            25 => Ok(Expression::Love),
            26 => Ok(Expression::LoveOpenMouth),
            27 => Ok(Expression::DeterminedMouthStraight),
            28 => Ok(Expression::Determined),
            29 => Ok(Expression::CryMouthStraight),
            30 => Ok(Expression::Cry),
            31 => Ok(Expression::BigSmileMouthStraight),
            32 => Ok(Expression::BigSmile),
            33 => Ok(Expression::Cheeky),
            34 => Ok(Expression::CheekyDuplicate),
            35 => Ok(Expression::Afl35),
            36 => Ok(Expression::Afl36),
            37 => Ok(Expression::Smug),
            38 => Ok(Expression::SmugOpenMouth),
            39 => Ok(Expression::Resolve),
            40 => Ok(Expression::ResolveOpenMouth),
            41 => Ok(Expression::Unbelievable),
            42 => Ok(Expression::UnbelievableDuplicate),
            43 => Ok(Expression::Cunning),
            44 => Ok(Expression::CunningDuplicate),
            45 => Ok(Expression::Raspberry),
            46 => Ok(Expression::RaspberryDuplicate),
            47 => Ok(Expression::Innocent),
            48 => Ok(Expression::InnocentDuplicate),
            49 => Ok(Expression::Cat),
            50 => Ok(Expression::CatDuplicate),
            51 => Ok(Expression::Dog),
            52 => Ok(Expression::DogDuplicate),
            53 => Ok(Expression::Tasty),
            54 => Ok(Expression::TastyDuplicate),
            55 => Ok(Expression::MoneyMouthStraight),
            56 => Ok(Expression::Money),
            57 => Ok(Expression::ConfusedMouthStraight),
            58 => Ok(Expression::Confused),
            59 => Ok(Expression::CheerfulMouthStraight),
            60 => Ok(Expression::Cheerful),
            61 => Ok(Expression::Afl61),
            62 => Ok(Expression::Afl62),
            63 => Ok(Expression::GrumbleMouthStraight),
            64 => Ok(Expression::Grumble),
            65 => Ok(Expression::MovedMouthStraight),
            66 => Ok(Expression::Moved),
            67 => Ok(Expression::SingingMouthSmall),
            68 => Ok(Expression::Singing),
            69 => Ok(Expression::Stunned),
            _ => Err(value),
        }
    }
}

impl Default for Expression {
    fn default() -> (res: Expression)
        ensures
            res == Expression::Normal,
    {
        Expression::Normal
    }
}

impl From<Expression> for u8 {
    fn from(value: Expression) -> (res: u8) {
        value.code()
    }
}

impl vstd::std_specs::convert::FromSpecImpl<Expression> for u8 {
    open spec fn obeys_from_spec() -> bool {
        true
    }

    open spec fn from_spec(value: Expression) -> u8 {
        value.spec_code()
    }
}

/// The library value with the same number.
pub open spec fn domain_outputformat(value: OutputFormat) -> crate::OutputFormat {
    match value {
        OutputFormat::Png => crate::OutputFormat::Png,
        OutputFormat::Tga => crate::OutputFormat::Tga,
        OutputFormat::Glb => crate::OutputFormat::Glb,
    }
}

impl From<OutputFormat> for crate::OutputFormat {
    fn from(value: OutputFormat) -> (res: crate::OutputFormat) {
        match value {
            OutputFormat::Png => crate::OutputFormat::Png,
            OutputFormat::Tga => crate::OutputFormat::Tga,
            OutputFormat::Glb => crate::OutputFormat::Glb,
        }
    }
}

impl vstd::std_specs::convert::FromSpecImpl<OutputFormat> for crate::OutputFormat {
    open spec fn obeys_from_spec() -> bool {
        true
    }

    open spec fn from_spec(value: OutputFormat) -> crate::OutputFormat {
        domain_outputformat(value)
    }
}

/// The library value with the same number.
pub open spec fn domain_viewtype(value: ViewType) -> crate::ViewType {
    match value {
        ViewType::Avatar => crate::ViewType::Avatar,
        ViewType::Face => crate::ViewType::Face,
        ViewType::Body => crate::ViewType::Body,
    }
}

impl From<ViewType> for crate::ViewType {
    fn from(value: ViewType) -> (res: crate::ViewType) {
        match value {
            ViewType::Avatar => crate::ViewType::Avatar,
            ViewType::Face => crate::ViewType::Face,
            ViewType::Body => crate::ViewType::Body,
        }
    }
}

impl vstd::std_specs::convert::FromSpecImpl<ViewType> for crate::ViewType {
    open spec fn obeys_from_spec() -> bool {
        true
    }

    open spec fn from_spec(value: ViewType) -> crate::ViewType {
        domain_viewtype(value)
    }
}

impl From<Expression> for crate::Expression {
    fn from(value: Expression) -> (res: crate::Expression) {
        match crate::Expression::try_from(value.code()) {
            Ok(expression) => expression,
            Err(_) => crate::Expression::Normal,
        }
    }
}

impl vstd::std_specs::convert::FromSpecImpl<Expression> for crate::Expression {
    open spec fn obeys_from_spec() -> bool {
        true
    }

    open spec fn from_spec(value: Expression) -> crate::Expression {
        expression_with_code(value.spec_code())
    }
}

/// A resource archive handed to foreign callers.
pub struct ResourceArchive {
    inner: crate::resource::ResourceArchive,
}

impl ResourceArchive {
    pub closed spec fn spec_inner(&self) -> crate::resource::ResourceArchive {
        self.inner
    }

    /// Hands `inner` to foreign callers.
    pub fn new(inner: crate::resource::ResourceArchive) -> (res: ResourceArchive)
        ensures
            res.spec_inner() == inner,
    {
        ResourceArchive { inner }
    }

    /// The archive itself.
    pub fn archive(&self) -> (res: &crate::resource::ResourceArchive)
        ensures
            *res == self.spec_inner(),
    {
        &self.inner
    }
}

/// A validated render request handed to foreign callers, which see every
/// failure as its message.
pub struct RenderRequest {
    inner: crate::RenderRequest,
}

impl RenderRequest {
    pub closed spec fn spec_inner(&self) -> crate::RenderRequest {
        self.inner
    }

    /// Decodes Mii data and creates a request with width-derived defaults;
    /// the first problem, in the order decoding, width, Mii fields, is
    /// reported as its message.
    pub fn new(encoded_mii: &str, width: u16) -> (res: Result<RenderRequest, String>)
        ensures
            match res {
                Ok(request) => request_from_text(encoded_mii@, width, Ok(request.spec_inner().spec_mii()))
                    && fresh_request(request.spec_inner(), width),
                Err(message) => exists|error: Error|
                    request_from_text(encoded_mii@, width, Err(error)) && message@ == error_message(
                        error,
                    ),
            },
    {
        let mii = match MiiData::decode(encoded_mii) {
            Ok(mii) => mii,
            Err(error) => {
                assert(request_from_text(encoded_mii@, width, Err(error)));
                return Err(error.to_string());
            },
        };
        proof {
            reveal_strlit("invalid render request: ");
            reveal_strlit("width must be between 1 and 1080");
            reveal_strlit("invalid render request: width must be between 1 and 1080");
        }
        match crate::RenderRequest::new(mii, width) {
            Ok(inner) => Ok(RenderRequest { inner }),
            Err(error) => {
                assert(request_from_text(encoded_mii@, width, Err(error)));
                Err(error.to_string())
            },
        }
    }

    /// Overrides the generated face-mask texture resolution; an unsupported
    /// resolution leaves the request unchanged and is reported.
    pub fn set_texture_resolution(&mut self, texture_resolution: u16) -> (res: Result<(), String>)
        ensures
            MIN_TEXTURE_RESOLUTION <= texture_resolution <= MAX_TEXTURE_RESOLUTION ==> res is Ok
                && final(self).spec_inner().spec_texture_resolution() == texture_resolution,
            !(MIN_TEXTURE_RESOLUTION <= texture_resolution <= MAX_TEXTURE_RESOLUTION) ==> (res matches Err(
                message,
            ) && message@ == "invalid render request: texture resolution must be between 2 and 1024"@)
                && final(self).spec_inner().spec_texture_resolution() == old(
                self,
            ).spec_inner().spec_texture_resolution(),
            final(self).spec_inner().spec_mii() == old(self).spec_inner().spec_mii(),
            final(self).spec_inner().spec_width() == old(self).spec_inner().spec_width(),
            final(self).spec_inner().spec_expression() == old(self).spec_inner().spec_expression(),
            final(self).spec_inner().spec_view_type() == old(self).spec_inner().spec_view_type(),
    {
        proof {
            reveal_strlit("invalid render request: ");
            reveal_strlit("texture resolution must be between 2 and 1024");
            reveal_strlit("invalid render request: texture resolution must be between 2 and 1024");
        }
        match self.inner.set_texture_resolution(texture_resolution) {
            Ok(()) => Ok(()),
            Err(error) => Err(error.to_string()),
        }
    }

    /// Selects the facial expression rendered on the Mii.
    pub fn set_expression(&mut self, expression: Expression)
        ensures
            final(self).spec_inner().spec_expression() == expression_with_code(
                expression.spec_code(),
            ),
            final(self).spec_inner().spec_mii() == old(self).spec_inner().spec_mii(),
            final(self).spec_inner().spec_width() == old(self).spec_inner().spec_width(),
            final(self).spec_inner().spec_texture_resolution() == old(
                self,
            ).spec_inner().spec_texture_resolution(),
            final(self).spec_inner().spec_view_type() == old(self).spec_inner().spec_view_type(),
    {
        self.inner.set_expression(crate::Expression::from(expression));
    }

    /// Selects the camera framing used for raster output.
    pub fn set_view_type(&mut self, view_type: ViewType)
        ensures
            final(self).spec_inner().spec_view_type() == domain_viewtype(view_type),
            final(self).spec_inner().spec_mii() == old(self).spec_inner().spec_mii(),
            final(self).spec_inner().spec_width() == old(self).spec_inner().spec_width(),
            final(self).spec_inner().spec_texture_resolution() == old(
                self,
            ).spec_inner().spec_texture_resolution(),
            final(self).spec_inner().spec_expression() == old(self).spec_inner().spec_expression(),
    {
        self.inner.set_view_type(crate::ViewType::from(view_type));
    }

    /// The generated face-mask texture resolution.
    pub fn texture_resolution(&self) -> (res: u16)
        ensures
            res == self.spec_inner().spec_texture_resolution(),
    {
        self.inner.texture_resolution()
    }

    /// A copy of the request, as rendering takes it.
    pub fn snapshot(&self) -> (res: crate::RenderRequest)
        ensures
            res.spec_mii() == self.spec_inner().spec_mii(),
            res.spec_width() == self.spec_inner().spec_width(),
            res.spec_texture_resolution() == self.spec_inner().spec_texture_resolution(),
            res.spec_expression() == self.spec_inner().spec_expression(),
            res.spec_background() == self.spec_inner().spec_background(),
            res.spec_view_type() == self.spec_inner().spec_view_type(),
    {
        self.inner.clone()
    }
}

/// Converting a foreign value to the library's keeps its number.
pub proof fn mirrors_keep_their_numbers(format: OutputFormat, view: ViewType, expression: Expression)
    ensures
        domain_outputformat(format).spec_code() == format.spec_code(),
        domain_viewtype(view).spec_code() == view.spec_code(),
        expression_with_code(expression.spec_code()).spec_code() == expression.spec_code(),
{
}

} // verus!
