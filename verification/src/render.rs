use vstd::prelude::*;

use crate::data::{decode_error, decoded_text, format_for_len, MiiData};
use crate::error::Error;
use crate::expression::Expression;
use crate::mii::{from_data_result, Mii};
use crate::model::assembly::{build_error, early_steps_succeed, model_of, CharacterModel};
use crate::resource::ResourceArchive;

verus! {

/// Largest square raster output accepted.
pub const MAX_RENDER_WIDTH: u16 = 1080;

/// Smallest generated face-mask texture accepted.
pub const MIN_TEXTURE_RESOLUTION: u16 = 2;

/// Largest generated face-mask texture accepted.
pub const MAX_TEXTURE_RESOLUTION: u16 = 1024;

/// Encoded output format: 0 PNG, 1 TGA, 2 binary glTF.
#[derive(Clone, Copy, Debug, PartialEq, Eq, Structural)]
pub enum OutputFormat {
    Png,
    Tga,
    Glb,
}

/// Scene and camera view used for rendering: 0 avatar, 1 face, 2 body.
#[derive(Clone, Copy, Debug, PartialEq, Eq, Structural)]
pub enum ViewType {
    /// Face-focused view with the head attached to the Wii U body.
    Avatar,
    /// Standalone head using the same face-focused framing.
    Face,
    /// Complete Wii U body with the head attached and centered in frame.
    Body,
}

impl OutputFormat {
    pub open spec fn spec_code(self) -> u8 {
        match self {
            OutputFormat::Png => 0,
            OutputFormat::Tga => 1,
            OutputFormat::Glb => 2,
        }
    }

    /// The number of this format.
    pub fn code(self) -> (res: u8)
        ensures
            res == self.spec_code(),
    {
        match self {
            OutputFormat::Png => 0,
            OutputFormat::Tga => 1,
            OutputFormat::Glb => 2,
        }
    }

    /// Converts a format number; numbers from 3 on are handed back.
    pub fn try_from(value: u8) -> (res: Result<OutputFormat, u8>)
        ensures
            value < 3 ==> (res matches Ok(f) && f.spec_code() == value),
            value >= 3 ==> res == Err::<OutputFormat, u8>(value),
    {
        match value {
            0 => Ok(OutputFormat::Png),
            1 => Ok(OutputFormat::Tga),
            2 => Ok(OutputFormat::Glb),
            _ => Err(value),
        }
    }

    /// The media type of the encoded bytes.
    pub fn media_type(self) -> (res: &'static str)
        ensures
            res@ == (match self {
                OutputFormat::Png => "image/png"@,
                OutputFormat::Tga => "image/tga"@,
                OutputFormat::Glb => "model/gltf-binary"@,
            }),
    {
        match self {
            OutputFormat::Png => "image/png",
            OutputFormat::Tga => "image/tga",
            OutputFormat::Glb => "model/gltf-binary",
        }
    }

    /// The usual file extension of the encoded bytes.
    pub fn extension(self) -> (res: &'static str)
        ensures
            res@ == (match self {
                OutputFormat::Png => "png"@,
                OutputFormat::Tga => "tga"@,
                OutputFormat::Glb => "glb"@,
            }),
    {
        match self {
            OutputFormat::Png => "png",
            OutputFormat::Tga => "tga",
            OutputFormat::Glb => "glb",
        }
    }
}

impl From<OutputFormat> for u8 {
    fn from(format: OutputFormat) -> (res: u8) {
        format.code()
    }
}

impl vstd::std_specs::convert::FromSpecImpl<OutputFormat> for u8 {
    open spec fn obeys_from_spec() -> bool {
        true
    }

    open spec fn from_spec(format: OutputFormat) -> u8 {
        format.spec_code()
    }
}

impl ViewType {
    pub open spec fn spec_code(self) -> u8 {
        match self {
            ViewType::Avatar => 0,
            ViewType::Face => 1,
            ViewType::Body => 2,
        }
    }

    /// The number of this view.
    pub fn code(self) -> (res: u8)
        ensures
            res == self.spec_code(),
    {
        match self {
            ViewType::Avatar => 0,
            ViewType::Face => 1,
            ViewType::Body => 2,
        }
    }

    /// Converts a view number; numbers from 3 on are handed back.
    pub fn try_from(value: u8) -> (res: Result<ViewType, u8>)
        ensures
            value < 3 ==> (res matches Ok(v) && v.spec_code() == value),
            value >= 3 ==> res == Err::<ViewType, u8>(value),
    {
        match value {
            0 => Ok(ViewType::Avatar),
            1 => Ok(ViewType::Face),
            2 => Ok(ViewType::Body),
            _ => Err(value),
        }
    }

    /// Whether raster output of this view draws the Wii U body.
    pub fn uses_body(self) -> (res: bool)
        ensures
            res == (self == ViewType::Avatar || self == ViewType::Body),
    {
        match self {
            ViewType::Avatar | ViewType::Body => true,
            ViewType::Face => false,
        }
    }
}

impl Default for ViewType {
    fn default() -> (res: ViewType)
        ensures
            res == ViewType::Avatar,
    {
        ViewType::Avatar
    }
}

impl From<ViewType> for u8 {
    fn from(view: ViewType) -> (res: u8) {
        view.code()
    }
}

impl vstd::std_specs::convert::FromSpecImpl<ViewType> for u8 {
    open spec fn obeys_from_spec() -> bool {
        true
    }

    open spec fn from_spec(view: ViewType) -> u8 {
        view.spec_code()
    }
}

/// Rejects widths outside `1..=1080`.
pub fn validate_width(width: u16) -> (res: Result<(), Error>)
    ensures
        1 <= width <= MAX_RENDER_WIDTH ==> res is Ok,
        !(1 <= width <= MAX_RENDER_WIDTH) ==> (res matches Err(Error::InvalidRequest(message))
            && message@ == "width must be between 1 and 1080"@),
{
    if width == 0 || width > MAX_RENDER_WIDTH {
        return Err(Error::InvalidRequest(String::from_str("width must be between 1 and 1080")));
    }
    Ok(())
}

/// Rejects face-mask texture resolutions outside `2..=1024`.
pub fn validate_texture_resolution(texture_resolution: u16) -> (res: Result<(), Error>)
    ensures
        MIN_TEXTURE_RESOLUTION <= texture_resolution <= MAX_TEXTURE_RESOLUTION ==> res is Ok,
        !(MIN_TEXTURE_RESOLUTION <= texture_resolution <= MAX_TEXTURE_RESOLUTION) ==> (res matches Err(
            Error::InvalidRequest(message),
        ) && message@ == "texture resolution must be between 2 and 1024"@),
{
    if texture_resolution < MIN_TEXTURE_RESOLUTION || texture_resolution > MAX_TEXTURE_RESOLUTION {
        return Err(
            Error::InvalidRequest(
                String::from_str("texture resolution must be between 2 and 1024"),
            ),
        );
    }
    Ok(())
}

/// Validated Mii and options shared by one-shot and reusable rendering.
#[derive(Debug)]
pub struct RenderRequest {
    mii: Mii,
    width: u16,
    texture_resolution: u16,
    expression: Expression,
    background: [u8; 4],
    view_type: ViewType,
}

/// The Mii of an accepted request, or the error of a refused one.
pub open spec fn request_mii(res: Result<RenderRequest, Error>) -> Result<Mii, Error> {
    match res {
        Ok(request) => Ok(request.spec_mii()),
        Err(error) => Err(error),
    }
}

/// What decoding `encoded` and creating a request of `width` from it give:
/// the Mii of the request, or the first error, in the order decoding, width,
/// Mii fields.
pub open spec fn request_from_text(encoded: Seq<char>, width: u16, res: Result<Mii, Error>) -> bool {
    match decode_error(encoded) {
        Some(error) => res == Err::<Mii, Error>(error),
        None => if !(1 <= width <= MAX_RENDER_WIDTH) {
            res matches Err(Error::InvalidRequest(message)) && message@
                == "width must be between 1 and 1080"@
        } else {
            match decoded_text(encoded) {
                Ok(bytes) => from_data_result(format_for_len(bytes.len() as int)->0, bytes, res),
                Err(_) => false,
            }
        },
    }
}

/// `request` has the options that [`RenderRequest::new`] gives a request
/// of `width`: the texture resolution follows the width within `2..=1024`,
/// the expression is neutral, the background transparent white and the view
/// the avatar.
pub open spec fn fresh_request(request: RenderRequest, width: u16) -> bool {
    &&& request.spec_width() == width
    &&& request.spec_texture_resolution() == (if width < MIN_TEXTURE_RESOLUTION {
        MIN_TEXTURE_RESOLUTION
    } else if width > MAX_TEXTURE_RESOLUTION {
        MAX_TEXTURE_RESOLUTION
    } else {
        width
    })
    &&& request.spec_expression() == Expression::Normal
    &&& request.spec_background() == [255u8, 255, 255, 0]
    &&& request.spec_view_type() == ViewType::Avatar
}

impl RenderRequest {
    #[verifier::type_invariant]
    spec fn options_in_range(self) -> bool {
        &&& self.mii.wf()
        &&& 1 <= self.width <= MAX_RENDER_WIDTH
        &&& MIN_TEXTURE_RESOLUTION <= self.texture_resolution <= MAX_TEXTURE_RESOLUTION
    }

    pub closed spec fn spec_mii(self) -> Mii {
        self.mii
    }

    pub closed spec fn spec_width(self) -> u16 {
        self.width
    }

    pub closed spec fn spec_texture_resolution(self) -> u16 {
        self.texture_resolution
    }

    pub closed spec fn spec_expression(self) -> Expression {
        self.expression
    }

    pub closed spec fn spec_background(self) -> [u8; 4] {
        self.background
    }

    pub closed spec fn spec_view_type(self) -> ViewType {
        self.view_type
    }

    /// Creates a render request using bounded HD defaults: the texture
    /// resolution follows the width within `2..=1024`, the expression is
    /// neutral, the background transparent white and the view the avatar.
    ///
    /// The width is checked before the Mii's fields.
    pub fn new(mii: MiiData, width: u16) -> (res: Result<RenderRequest, Error>)
        ensures
            !(1 <= width <= MAX_RENDER_WIDTH) ==> (res matches Err(Error::InvalidRequest(message))
                && message@ == "width must be between 1 and 1080"@),
            1 <= width <= MAX_RENDER_WIDTH ==> from_data_result(
                mii.spec_format(),
                mii@,
                request_mii(res),
            ),
            res matches Ok(request) ==> fresh_request(request, width),
    {
        match validate_width(width) {
            Ok(()) => {},
            Err(error) => return Err(error),
        }
        let mii = match Mii::from_data(&mii) {
            Ok(mii) => mii,
            Err(error) => return Err(error),
        };
        let texture_resolution = if width < MIN_TEXTURE_RESOLUTION {
            MIN_TEXTURE_RESOLUTION
        } else if width > MAX_TEXTURE_RESOLUTION {
            MAX_TEXTURE_RESOLUTION
        } else {
            width
        };
        Ok(
            RenderRequest {
                mii,
                width,
                texture_resolution,
                expression: Expression::Normal,
                background: [255, 255, 255, 0],
                view_type: ViewType::Avatar,
            },
        )
    }

    /// Overrides the generated face-mask texture resolution; an unsupported
    /// resolution leaves the request unchanged.
    pub fn set_texture_resolution(&mut self, texture_resolution: u16) -> (res: Result<(), Error>)
        ensures
            MIN_TEXTURE_RESOLUTION <= texture_resolution <= MAX_TEXTURE_RESOLUTION ==> res is Ok
                && final(self).spec_texture_resolution() == texture_resolution,
            !(MIN_TEXTURE_RESOLUTION <= texture_resolution <= MAX_TEXTURE_RESOLUTION) ==> (res matches Err(
                Error::InvalidRequest(message),
            ) && message@ == "texture resolution must be between 2 and 1024"@)
                && final(self).spec_texture_resolution() == old(self).spec_texture_resolution(),
            final(self).spec_mii() == old(self).spec_mii(),
            final(self).spec_width() == old(self).spec_width(),
            final(self).spec_expression() == old(self).spec_expression(),
            final(self).spec_background() == old(self).spec_background(),
            final(self).spec_view_type() == old(self).spec_view_type(),
    {
        match validate_texture_resolution(texture_resolution) {
            Ok(()) => {},
            Err(error) => return Err(error),
        }
        proof {
            use_type_invariant(&*self);
        }
        self.texture_resolution = texture_resolution;
        Ok(())
    }

    /// Overrides the expression rendered on the Mii.
    pub fn set_expression(&mut self, expression: Expression)
        ensures
            final(self).spec_expression() == expression,
            final(self).spec_mii() == old(self).spec_mii(),
            final(self).spec_width() == old(self).spec_width(),
            final(self).spec_texture_resolution() == old(self).spec_texture_resolution(),
            final(self).spec_background() == old(self).spec_background(),
            final(self).spec_view_type() == old(self).spec_view_type(),
    {
        proof {
            use_type_invariant(&*self);
        }
        self.expression = expression;
    }

    /// Overrides the scene and camera view used for rendering.
    pub fn set_view_type(&mut self, view_type: ViewType)
        ensures
            final(self).spec_view_type() == view_type,
            final(self).spec_mii() == old(self).spec_mii(),
            final(self).spec_width() == old(self).spec_width(),
            final(self).spec_texture_resolution() == old(self).spec_texture_resolution(),
            final(self).spec_background() == old(self).spec_background(),
            final(self).spec_expression() == old(self).spec_expression(),
    {
        proof {
            use_type_invariant(&*self);
        }
        self.view_type = view_type;
    }

    /// The generated face-mask texture resolution, within `2..=1024`.
    pub fn texture_resolution(&self) -> (res: u16)
        ensures
            res == self.spec_texture_resolution(),
            MIN_TEXTURE_RESOLUTION <= res <= MAX_TEXTURE_RESOLUTION,
    {
        proof {
            use_type_invariant(self);
        }
        self.texture_resolution
    }

    /// The square raster output width, within `1..=1080`.
    pub fn width(&self) -> (res: u16)
        ensures
            res == self.spec_width(),
            1 <= res <= MAX_RENDER_WIDTH,
    {
        proof {
            use_type_invariant(self);
        }
        self.width
    }

    /// The expression rendered on the Mii.
    pub fn expression(&self) -> (res: Expression)
        ensures
            res == self.spec_expression(),
    {
        self.expression
    }

    /// The scene and camera view.
    pub fn view_type(&self) -> (res: ViewType)
        ensures
            res == self.spec_view_type(),
    {
        self.view_type
    }

    /// The RGBA clear color of raster output.
    pub fn background(&self) -> (res: [u8; 4])
        ensures
            res == self.spec_background(),
    {
        self.background
    }

    /// The validated Mii.
    pub fn mii(&self) -> (res: Mii)
        ensures
            res == self.spec_mii(),
            res.wf(),
    {
        proof {
            use_type_invariant(self);
        }
        self.mii
    }
}

impl Clone for RenderRequest {
    fn clone(&self) -> (res: RenderRequest)
        ensures
            res.spec_mii() == self.spec_mii(),
            res.spec_width() == self.spec_width(),
            res.spec_texture_resolution() == self.spec_texture_resolution(),
            res.spec_expression() == self.spec_expression(),
            res.spec_background() == self.spec_background(),
            res.spec_view_type() == self.spec_view_type(),
    {
        proof {
            use_type_invariant(self);
        }
        RenderRequest {
            mii: self.mii,
            width: self.width,
            texture_resolution: self.texture_resolution,
            expression: self.expression,
            background: self.background,
            view_type: self.view_type,
        }
    }
}

/// Whether `output` of `view` draws the Wii U body: binary glTF only for the
/// body view, raster images for the avatar and body views.
pub open spec fn body_drawn(view: ViewType, output: OutputFormat) -> bool {
    match output {
        OutputFormat::Glb => view == ViewType::Body,
        _ => view == ViewType::Avatar || view == ViewType::Body,
    }
}

/// What producing an output needs beyond the library: the model and
/// whether the Wii U body is drawn with it.
#[derive(Clone, Debug)]
pub struct Prepared {
    pub model: CharacterModel,
    pub with_body: bool,
}

/// Builds the model that `output` of `request` draws and decides whether
/// the Wii U body is drawn with it; the body needs its assets, and a missing
/// body is reported after any problem with the model.
pub fn prepare_render(
    resources: &ResourceArchive,
    request: &RenderRequest,
    output: OutputFormat,
    body_assets: bool,
) -> (res: Result<Prepared, Error>)
    ensures
        match res {
            Ok(prepared) => {
                &&& early_steps_succeed(
                    resources@,
                    request.spec_mii(),
                    request.spec_expression(),
                    request.spec_texture_resolution(),
                )
                &&& model_of(
                    resources@,
                    request.spec_mii(),
                    request.spec_expression(),
                    prepared.model,
                )
                &&& prepared.with_body == body_drawn(request.spec_view_type(), output)
                &&& prepared.with_body ==> body_assets
            },
            Err(error) => {
                ||| build_error(
                    resources@,
                    request.spec_mii(),
                    request.spec_expression(),
                    request.spec_texture_resolution(),
                    error,
                )
                ||| {
                    &&& early_steps_succeed(
                        resources@,
                        request.spec_mii(),
                        request.spec_expression(),
                        request.spec_texture_resolution(),
                    )
                    &&& exists|model: CharacterModel|
                        model_of(resources@, request.spec_mii(), request.spec_expression(), model)
                    &&& body_drawn(request.spec_view_type(), output)
                    &&& !body_assets
                    &&& error matches Error::FeatureUnavailable(feature) && feature@
                        == "Wii U body assets"@
                }
            },
        },
{
    let mii = request.mii();
    let model = match CharacterModel::build(
        resources,
        mii,
        request.expression(),
        request.texture_resolution(),
    ) {
        Ok(model) => model,
        Err(error) => return Err(error),
    };
    let view = request.view_type();
    let with_body = match output {
        OutputFormat::Glb => match view {
            ViewType::Body => true,
            _ => false,
        },
        _ => view.uses_body(),
    };
    if with_body && !body_assets {
        return Err(Error::FeatureUnavailable("Wii U body assets"));
    }
    Ok(Prepared { model, with_body })
}

} // verus!
