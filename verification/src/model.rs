use vstd::prelude::*;

use crate::resource::{Texture, TextureFormat};

pub mod assembly;

verus! {

/// Material operation attached to a model mesh.
#[derive(Clone, Copy, Debug, PartialEq, Eq, Structural)]
pub enum ModulateMode {
    Constant,
    TextureDirect,
    Alpha,
    LuminanceAlpha,
}

/// Semantic FFL part represented by a model mesh.
#[derive(Clone, Copy, Debug, PartialEq, Eq, Structural)]
pub enum ModelPart {
    Faceline,
    Beard,
    Nose,
    Forehead,
    Hair,
    Mask,
    Noseline,
    Glass,
    Body,
    Pants,
}

/// The FFL name of `part`, used for meshes and materials.
pub open spec fn part_name(part: ModelPart) -> Seq<char> {
    match part {
        ModelPart::Faceline => "OpaFaceline"@,
        ModelPart::Beard => "OpaBeard"@,
        ModelPart::Nose => "OpaNose"@,
        ModelPart::Forehead => "OpaForehead"@,
        ModelPart::Hair => "OpaHair"@,
        ModelPart::Mask => "XluMask"@,
        ModelPart::Noseline => "XluNoseLine"@,
        ModelPart::Glass => "XluGlass"@,
        ModelPart::Body => "Body"@,
        ModelPart::Pants => "Pants"@,
    }
}

impl ModelPart {
    /// The FFL name of this part, used for meshes and materials.
    pub fn name(self) -> (res: &'static str)
        ensures
            res@ == part_name(self),
            res@ == (match self {
                ModelPart::Faceline => "OpaFaceline"@,
                ModelPart::Beard => "OpaBeard"@,
                ModelPart::Nose => "OpaNose"@,
                ModelPart::Forehead => "OpaForehead"@,
                ModelPart::Hair => "OpaHair"@,
                ModelPart::Mask => "XluMask"@,
                ModelPart::Noseline => "XluNoseLine"@,
                ModelPart::Glass => "XluGlass"@,
                ModelPart::Body => "Body"@,
                ModelPart::Pants => "Pants"@,
            }),
    {
        match self {
            ModelPart::Faceline => "OpaFaceline",
            ModelPart::Beard => "OpaBeard",
            ModelPart::Nose => "OpaNose",
            ModelPart::Forehead => "OpaForehead",
            ModelPart::Hair => "OpaHair",
            ModelPart::Mask => "XluMask",
            ModelPart::Noseline => "XluNoseLine",
            ModelPart::Glass => "XluGlass",
            ModelPart::Body => "Body",
            ModelPart::Pants => "Pants",
        }
    }

    /// The FFL modulate type of this part (5, the cap, is not produced).
    pub fn modulate_type(self) -> (res: u8)
        ensures
            res == (match self {
                ModelPart::Faceline => 0u8,
                ModelPart::Beard => 1,
                ModelPart::Nose => 2,
                ModelPart::Forehead => 3,
                ModelPart::Hair => 4,
                ModelPart::Mask => 6,
                ModelPart::Noseline => 7,
                ModelPart::Glass => 8,
                ModelPart::Body => 9,
                ModelPart::Pants => 10,
            }),
    {
        match self {
            ModelPart::Faceline => 0,
            ModelPart::Beard => 1,
            ModelPart::Nose => 2,
            ModelPart::Forehead => 3,
            ModelPart::Hair => 4,
            ModelPart::Mask => 6,
            ModelPart::Noseline => 7,
            ModelPart::Glass => 8,
            ModelPart::Body => 9,
            ModelPart::Pants => 10,
        }
    }

    /// Whether the part is drawn in the translucent pass.
    pub fn is_translucent(self) -> (res: bool)
        ensures
            res == (self == ModelPart::Mask || self == ModelPart::Noseline || self
                == ModelPart::Glass),
    {
        match self {
            ModelPart::Mask | ModelPart::Noseline | ModelPart::Glass => true,
            _ => false,
        }
    }
}

/// A renderer-ready RGBA texture.
#[derive(Clone, Debug, PartialEq, Eq)]
pub struct ModelTexture {
    pub width: u16,
    pub height: u16,
    pub pixels: Vec<u8>,
}

/// The RGBA bytes of a resource texture: a red channel is repeated into
/// gray, a red-green pair gets blue 0, and every opaque channel is 255.
pub open spec fn rgba_pixels(format: TextureFormat, pixels: Seq<u8>) -> Seq<u8> {
    match format {
        TextureFormat::R8 => Seq::new(
            4 * pixels.len(),
            |i: int|
                if i % 4 == 3 {
                    255u8
                } else {
                    pixels[i / 4]
                },
        ),
        TextureFormat::Rg8 => Seq::new(
            4 * (pixels.len() / 2),
            |i: int|
                if i % 4 < 2 {
                    pixels[(i / 4) * 2 + i % 4]
                } else if i % 4 == 2 {
                    0u8
                } else {
                    255u8
                },
        ),
        TextureFormat::Rgba8 => pixels,
    }
}

impl ModelTexture {
    /// Expands a resource texture to RGBA; a well-formed texture gives four
    /// bytes per pixel.
    pub fn from_resource(texture: &Texture) -> (res: ModelTexture)
        ensures
            res.width == texture.width,
            res.height == texture.height,
            res.pixels@ == rgba_pixels(texture.format, texture.pixels@),
            texture.wf() ==> res.pixels@.len() == 4 * texture.width * texture.height,
    {
        let source = &texture.pixels;
        let mut pixels: Vec<u8> = Vec::new();
        let ghost expected = rgba_pixels(texture.format, source@);
        match texture.format {
            TextureFormat::R8 => {
                let mut i: usize = 0;
                while i < source.len()
                    invariant
                        i <= source@.len(),
                        expected == rgba_pixels(TextureFormat::R8, source@),
                        pixels@ =~= expected.subrange(0, 4 * i as int),
                    decreases source@.len() - i,
                {
                    let red = source[i];
                    pixels.push(red);
                    pixels.push(red);
                    pixels.push(red);
                    pixels.push(255);
                    i = i + 1;
                }
            },
            TextureFormat::Rg8 => {
                let mut i: usize = 0;
                while i + 1 < source.len()
                    invariant
                        i % 2 == 0,
                        i <= source@.len(),
                        expected == rgba_pixels(TextureFormat::Rg8, source@),
                        pixels@ =~= expected.subrange(0, 2 * i as int),
                    decreases source@.len() - i,
                {
                    let red = source[i];
                    let green = source[i + 1];
                    pixels.push(red);
                    pixels.push(green);
                    pixels.push(0);
                    pixels.push(255);
                    i = i + 2;
                }
            },
            TextureFormat::Rgba8 => {
                let mut i: usize = 0;
                while i < source.len()
                    invariant
                        i <= source@.len(),
                        expected == source@,
                        pixels@ =~= source@.subrange(0, i as int),
                    decreases source@.len() - i,
                {
                    pixels.push(source[i]);
                    i = i + 1;
                }
            },
        }
        proof {
            assert(pixels@ =~= expected);
            if texture.wf() {
                let w = texture.width as int;
                let h = texture.height as int;
                let len = source@.len() as int;
                let bpp = texture.format.spec_bytes_per_pixel();
                assert(len == w * h * bpp);
                assert(4 * w * h == 4 * (w * h)) by (nonlinear_arith);
                assert(w * h * bpp == (w * h) * bpp) by (nonlinear_arith);
                assert(((w * h) * 2) / 2 == w * h) by (nonlinear_arith);
                assert(4 * (w * h) == (w * h) * 4) by (nonlinear_arith);
            }
        }
        ModelTexture { width: texture.width, height: texture.height, pixels }
    }
}

/// Entry `index` of a per-vertex attribute, or its first entry when the
/// attribute holds one value for all vertices, or `default` when it is empty.
pub fn repeated<T: Copy, const N: usize>(values: &[[T; N]], index: usize, default: [T; N]) -> (res: [T; N])
    ensures
        index < values@.len() ==> res == values@[index as int],
        index >= values@.len() && values@.len() > 0 ==> res == values@[0],
        values@.len() == 0 ==> res == default,
{
    if index < values.len() {
        values[index]
    } else if values.len() > 0 {
        values[0]
    } else {
        default
    }
}

} // verus!
