use vstd::prelude::*;

use crate::error::Error;
use crate::expression::{
    eye_rotate_offset, resolution, resolve, spec_eye_rotate_offset, Expression, Resolved,
};
use crate::mii::{
    field_in_range, FieldLimits, Mii, EYEBROW_ROTATE, EYEBROW_TYPE, EYE_ROTATE, EYE_TYPE, MOLE_TYPE, MUSTACHE_TYPE,
};
use crate::resource::{lemma_texture_load_exclusive, texture_load, ResourceArchive, Texture, TexturePart};

verus! {

/// Rotation offsets of the eyebrow textures, as 32 minus the offset in 32nds
/// of a turn.
pub const EYEBROW_ROTATE_BASE: [u8; 28] = [
    6, 6, 5, 7, 6, 7, 6, 7, 4, 7, 6, 8, 5, 5, 6, 6, 7, 7, 6, 6, 5, 6, 7, 5, 6, 6, 6, 6,
];

/// Rotation offset of eyebrow texture `kind`, in 32nds of a turn.
pub fn eyebrow_rotate_offset(kind: u8) -> (res: u8)
    requires
        kind < 28,
    ensures
        res == 32 - EYEBROW_ROTATE_BASE@[kind as int],
        24 <= res <= 28,
{
    32 - EYEBROW_ROTATE_BASE[kind as usize]
}

/// The point of a feature texture that its position places.
#[derive(Clone, Copy, Debug, PartialEq, Eq, Structural)]
pub enum Origin {
    Center,
    Right,
    Left,
}

/// How the channels of a feature texture become color.
#[derive(Clone, Copy, Debug, PartialEq, Eq, Structural)]
pub enum FeatureColor {
    /// The texture's own colors.
    Direct,
    /// Eye channels tinted with the eye color.
    EyeLayers,
    /// Mouth channels tinted with the mouth and upper-lip colors.
    MouthLayers,
    /// Coverage tinted with the eyebrow color.
    Eyebrow,
    /// Coverage tinted with the beard color.
    Mustache,
    /// Coverage tinted with the mole's dark brown.
    Mole,
}

/// One texture drawn onto the face mask; where it lands and how large it is
/// follow from the Mii's fields.
#[derive(Clone, Copy, Debug, PartialEq, Eq, Structural)]
pub struct FeatureLayer {
    pub part: TexturePart,
    pub index: u8,
    pub origin: Origin,
    /// Turn in 32nds of a full turn.
    pub rotation: u8,
    /// Whether the turn runs the other way, for the feature's right-hand copy.
    pub mirrored: bool,
    pub color: FeatureColor,
}

/// Eye textures that carry their own colors.
pub open spec fn is_direct_eye(index: u8) -> bool {
    index == 60 || index == 62 || index == 65 || (69 <= index <= 75) || index == 78 || index
        == 79
}

/// How an eye texture is colored.
pub fn eye_modulation(index: u8) -> (res: FeatureColor)
    ensures
        res == (if is_direct_eye(index) {
            FeatureColor::Direct
        } else {
            FeatureColor::EyeLayers
        }),
{
    if index == 60 || index == 62 || index == 65 || (69 <= index && index <= 75) || index == 78
        || index == 79 {
        FeatureColor::Direct
    } else {
        FeatureColor::EyeLayers
    }
}

pub open spec fn layer(
    part: TexturePart,
    index: u8,
    origin: Origin,
    rotation: u8,
    mirrored: bool,
    color: FeatureColor,
) -> FeatureLayer {
    FeatureLayer { part, index, origin, rotation, mirrored, color }
}

/// The layers of the face mask of a resolved Mii, in drawing order: a
/// two-sided mustache, the mouth, both eyebrows, both eyes and a mole.
pub open spec fn feature_layout(resolved: Resolved) -> Seq<FeatureLayer> {
    let f = resolved.mii.fields@;
    let eye_turn = ((f[EYE_ROTATE as int] + spec_eye_rotate_offset(f[EYE_TYPE as int])) % 32) as u8;
    let brow_turn = ((f[EYEBROW_ROTATE as int] + 32 - EYEBROW_ROTATE_BASE@[f[EYEBROW_TYPE as int] as int])
        % 32) as u8;
    let mustache = if f[MUSTACHE_TYPE as int] != 0 {
        seq![
            layer(TexturePart::Mustache, f[MUSTACHE_TYPE as int], Origin::Left, 0, false, FeatureColor::Mustache),
            layer(TexturePart::Mustache, f[MUSTACHE_TYPE as int], Origin::Right, 0, false, FeatureColor::Mustache),
        ]
    } else {
        Seq::empty()
    };
    let mole = if f[MOLE_TYPE as int] != 0 {
        seq![layer(TexturePart::Mole, f[MOLE_TYPE as int], Origin::Center, 0, false, FeatureColor::Mole)]
    } else {
        Seq::empty()
    };
    let mouth_color = if resolved.mouth > 36 {
        FeatureColor::Direct
    } else {
        FeatureColor::MouthLayers
    };
    let eye_color = |index: u8|
        if is_direct_eye(index) {
            FeatureColor::Direct
        } else {
            FeatureColor::EyeLayers
        };
    mustache + seq![
        layer(TexturePart::Mouth, resolved.mouth, Origin::Center, 0, false, mouth_color),
        layer(TexturePart::Eyebrow, resolved.eyebrow, Origin::Left, brow_turn, false, FeatureColor::Eyebrow),
        layer(TexturePart::Eyebrow, resolved.eyebrow, Origin::Right, brow_turn, true, FeatureColor::Eyebrow),
        layer(TexturePart::Eye, resolved.eye_right, Origin::Left, eye_turn, false, eye_color(resolved.eye_right)),
        layer(TexturePart::Eye, resolved.eye_left, Origin::Right, eye_turn, true, eye_color(resolved.eye_left)),
    ] + mole
}

/// The textures that composing the face mask loads, in the order it loads
/// them: both eyes, the eyebrow and the mouth, then the mustache and the mole
/// where the Mii has them.
pub open spec fn feature_loads(resolved: Resolved) -> Seq<(TexturePart, u8)> {
    let f = resolved.mii.fields@;
    seq![
        (TexturePart::Eye, resolved.eye_right),
        (TexturePart::Eye, resolved.eye_left),
        (TexturePart::Eyebrow, resolved.eyebrow),
        (TexturePart::Mouth, resolved.mouth),
    ] + (if f[MUSTACHE_TYPE as int] != 0 {
        seq![(TexturePart::Mustache, f[MUSTACHE_TYPE as int])]
    } else {
        Seq::empty()
    }) + (if f[MOLE_TYPE as int] != 0 {
        seq![(TexturePart::Mole, f[MOLE_TYPE as int])]
    } else {
        Seq::empty()
    })
}

/// Loading texture `index` of `part` from `bytes` succeeds.
pub open spec fn texture_loads(bytes: Seq<u8>, part: TexturePart, index: u8) -> bool {
    exists|texture: Texture| texture_load(bytes, part, index as int, Ok(texture))
}

/// The rotation and types that [`feature_layout`] reads lie in the tables.
pub open spec fn layout_inputs_in_range(resolved: Resolved) -> bool {
    let f = resolved.mii.fields@;
    &&& f[EYE_TYPE as int] < 80
    &&& f[EYEBROW_TYPE as int] < 28
    &&& f[EYE_ROTATE as int] <= 7
    &&& f[EYEBROW_ROTATE as int] <= 11
}

/// The layers of the face mask of a resolved Mii.
pub fn layout(resolved: &Resolved) -> (res: Vec<FeatureLayer>)
    requires
        layout_inputs_in_range(*resolved),
    ensures
        res@ == feature_layout(*resolved),
{
    let fields = &resolved.mii.fields;
    let eye_turn = (fields[EYE_ROTATE] + eye_rotate_offset(fields[EYE_TYPE])) % 32;
    let brow_turn = (fields[EYEBROW_ROTATE] + eyebrow_rotate_offset(fields[EYEBROW_TYPE])) % 32;
    let mut layers: Vec<FeatureLayer> = Vec::new();
    let mustache = fields[MUSTACHE_TYPE];
    if mustache != 0 {
        layers.push(
            FeatureLayer {
                part: TexturePart::Mustache,
                index: mustache,
                origin: Origin::Left,
                rotation: 0,
                mirrored: false,
                color: FeatureColor::Mustache,
            },
        );
        layers.push(
            FeatureLayer {
                part: TexturePart::Mustache,
                index: mustache,
                origin: Origin::Right,
                rotation: 0,
                mirrored: false,
                color: FeatureColor::Mustache,
            },
        );
    }
    let mouth_color = if resolved.mouth > 36 {
        FeatureColor::Direct
    } else {
        FeatureColor::MouthLayers
    };
    layers.push(
        FeatureLayer {
            part: TexturePart::Mouth,
            index: resolved.mouth,
            origin: Origin::Center,
            rotation: 0,
            mirrored: false,
            color: mouth_color,
        },
    );
    layers.push(
        FeatureLayer {
            part: TexturePart::Eyebrow,
            index: resolved.eyebrow,
            origin: Origin::Left,
            rotation: brow_turn,
            mirrored: false,
            color: FeatureColor::Eyebrow,
        },
    );
    layers.push(
        FeatureLayer {
            part: TexturePart::Eyebrow,
            index: resolved.eyebrow,
            origin: Origin::Right,
            rotation: brow_turn,
            mirrored: true,
            color: FeatureColor::Eyebrow,
        },
    );
    layers.push(
        FeatureLayer {
            part: TexturePart::Eye,
            index: resolved.eye_right,
            origin: Origin::Left,
            rotation: eye_turn,
            mirrored: false,
            color: eye_modulation(resolved.eye_right),
        },
    );
    layers.push(
        FeatureLayer {
            part: TexturePart::Eye,
            index: resolved.eye_left,
            origin: Origin::Right,
            rotation: eye_turn,
            mirrored: true,
            color: eye_modulation(resolved.eye_left),
        },
    );
    let mole = fields[MOLE_TYPE];
    if mole != 0 {
        layers.push(
            FeatureLayer {
                part: TexturePart::Mole,
                index: mole,
                origin: Origin::Center,
                rotation: 0,
                mirrored: false,
                color: FeatureColor::Mole,
            },
        );
    }
    assert(layers@ =~= feature_layout(*resolved));
    layers
}

/// A face-mask layer with its texture.
#[derive(Clone, Debug)]
pub struct Feature {
    pub layer: FeatureLayer,
    pub texture: Texture,
}

/// `res` is what loading the face-mask textures of `resolved` from the
/// archive `bytes` gives: every layer with its texture, or the error of the
/// first texture that fails to load.
pub open spec fn features_loaded(bytes: Seq<u8>, resolved: Resolved, res: Result<Vec<Feature>, Error>) -> bool {
    let layers = feature_layout(resolved);
    let loads = feature_loads(resolved);
    match res {
        Ok(features) => {
            &&& forall|k: int| 0 <= k < loads.len() ==> texture_loads(bytes, #[trigger] loads[k].0, loads[k].1)
            &&& features@.len() == layers.len()
            &&& forall|i: int|
                0 <= i < layers.len() ==> {
                    &&& (#[trigger] features@[i]).layer == layers[i]
                    &&& texture_load(
                        bytes,
                        layers[i].part,
                        layers[i].index as int,
                        Ok(features@[i].texture),
                    )
                }
        },
        Err(error) => exists|k: int|
            0 <= k < loads.len() && (forall|j: int| 0 <= j < k ==> texture_loads(bytes, #[trigger] loads[j].0, loads[j].1))
                && texture_load(bytes, loads[k].0, loads[k].1 as int, Err(error)),
    }
}

/// The textures that composing the mask of `resolved` loads, in order.
fn load_order(resolved: &Resolved) -> (res: Vec<(TexturePart, u8)>)
    ensures
        res@ == feature_loads(*resolved),
{
    let mut loads: Vec<(TexturePart, u8)> = Vec::new();
    loads.push((TexturePart::Eye, resolved.eye_right));
    loads.push((TexturePart::Eye, resolved.eye_left));
    loads.push((TexturePart::Eyebrow, resolved.eyebrow));
    loads.push((TexturePart::Mouth, resolved.mouth));
    let mustache = resolved.mii.fields[MUSTACHE_TYPE];
    if mustache != 0 {
        loads.push((TexturePart::Mustache, mustache));
    }
    let mole = resolved.mii.fields[MOLE_TYPE];
    if mole != 0 {
        loads.push((TexturePart::Mole, mole));
    }
    assert(loads@ =~= feature_loads(*resolved));
    loads
}

/// Loads the textures that `loads` names, in order, stopping at the first
/// that fails.
fn load_all(archive: &ResourceArchive, loads: &Vec<(TexturePart, u8)>) -> (res: Result<
    Vec<Texture>,
    Error,
>)
    ensures
        match res {
            Ok(textures) => textures@.len() == loads@.len() && forall|i: int|
                0 <= i < loads@.len() ==> texture_load(
                    archive@,
                    loads@[i].0,
                    loads@[i].1 as int,
                    Ok(#[trigger] textures@[i]),
                ),
            Err(error) => exists|k: int|
                0 <= k < loads@.len() && (forall|j: int|
                    0 <= j < k ==> texture_loads(archive@, #[trigger] loads@[j].0, loads@[j].1))
                    && texture_load(archive@, loads@[k].0, loads@[k].1 as int, Err(error)),
        },
{
    let mut textures: Vec<Texture> = Vec::new();
    let mut i: usize = 0;
    while i < loads.len()
        invariant
            i <= loads@.len(),
            textures@.len() == i,
            forall|j: int|
                0 <= j < i ==> texture_load(
                    archive@,
                    loads@[j].0,
                    loads@[j].1 as int,
                    Ok(#[trigger] textures@[j]),
                ),
        decreases loads@.len() - i,
    {
        let (part, index) = loads[i];
        match archive.load_texture(part, index as usize) {
            Ok(texture) => textures.push(texture),
            Err(error) => {
                assert forall|j: int| 0 <= j < i implies texture_loads(
                    archive@,
                    #[trigger] loads@[j].0,
                    loads@[j].1,
                ) by {
                    assert(texture_load(archive@, loads@[j].0, loads@[j].1 as int, Ok(textures@[j])));
                }
                return Err(error);
            },
        }
        i = i + 1;
    }
    Ok(textures)
}

/// Loading the face-mask textures either succeeds or fails, whichever of
/// two resolutions of the same expression it starts from.
pub proof fn lemma_features_exclusive(
    bytes: Seq<u8>,
    mii: Mii,
    expression: Expression,
    first: Resolved,
    second: Resolved,
    error: Error,
    features: Vec<Feature>,
)
    requires
        resolution(mii, expression, first),
        resolution(mii, expression, second),
        features_loaded(bytes, first, Err(error)),
    ensures
        !features_loaded(bytes, second, Ok(features)),
{
    let loads = feature_loads(first);
    assert(feature_loads(second) =~= loads);
    let k = choose|k: int|
        0 <= k < loads.len() && (forall|j: int|
            0 <= j < k ==> texture_loads(bytes, #[trigger] loads[j].0, loads[j].1))
            && texture_load(bytes, loads[k].0, loads[k].1 as int, Err(error));
    if features_loaded(bytes, second, Ok(features)) {
        assert(texture_loads(bytes, loads[k].0, loads[k].1));
        let texture = choose|t: Texture| texture_load(bytes, loads[k].0, loads[k].1 as int, Ok(t));
        lemma_texture_load_exclusive(bytes, loads[k].0, loads[k].1 as int, error, texture);
    }
}

/// `layer` with a copy of its texture.
fn feature(archive: &ResourceArchive, layer: FeatureLayer, texture: &Texture) -> (res: Feature)
    requires
        texture_load(archive@, layer.part, layer.index as int, Ok(*texture)),
    ensures
        res.layer == layer,
        texture_load(archive@, layer.part, layer.index as int, Ok(res.texture)),
{
    proof {
        reveal(texture_load);
    }
    Feature { layer, texture: texture.clone() }
}

/// Resolves `expression` on `mii` and loads the textures of the face mask's
/// layers, in the order composing the mask loads them.
pub fn features(archive: &ResourceArchive, mii: &Mii, expression: Expression) -> (res: Result<
    Vec<Feature>,
    Error,
>)
    requires
        mii.wf(),
    ensures
        exists|resolved: Resolved|
            resolution(*mii, expression, resolved) && features_loaded(archive@, resolved, res),
{
    let resolved = resolve(*mii, expression);
    let loads = load_order(&resolved);
    let textures = match load_all(archive, &loads) {
        Ok(textures) => textures,
        Err(error) => return Err(error),
    };
    proof {
        assert(field_in_range(mii.fields@, FieldLimits::Decoded(mii.color_mode), EYE_TYPE as int));
        assert(field_in_range(
            mii.fields@,
            FieldLimits::Decoded(mii.color_mode),
            EYEBROW_TYPE as int,
        ));
    }
    let layers = layout(&resolved);
    let ghost layout_spec = feature_layout(resolved);
    let ghost load_spec = feature_loads(resolved);
    let mut features: Vec<Feature> = Vec::new();
    let mut next: usize = 0;
    let mustache = resolved.mii.fields[MUSTACHE_TYPE] != 0;
    if mustache {
        assert(load_spec[4] == (layout_spec[0].part, layout_spec[0].index));
        features.push(feature(archive, layers[0], &textures[4]));
        features.push(feature(archive, layers[1], &textures[4]));
        next = 2;
    }
    let n = next;
    assert(load_spec[3] == (layout_spec[n as int].part, layout_spec[n as int].index));
    assert(load_spec[2] == (layout_spec[n + 1].part, layout_spec[n + 1].index));
    assert(load_spec[2] == (layout_spec[n + 2].part, layout_spec[n + 2].index));
    assert(load_spec[0] == (layout_spec[n + 3].part, layout_spec[n + 3].index));
    assert(load_spec[1] == (layout_spec[n + 4].part, layout_spec[n + 4].index));
    features.push(feature(archive, layers[n], &textures[3]));
    features.push(feature(archive, layers[n + 1], &textures[2]));
    features.push(feature(archive, layers[n + 2], &textures[2]));
    features.push(feature(archive, layers[n + 3], &textures[0]));
    features.push(feature(archive, layers[n + 4], &textures[1]));
    if resolved.mii.fields[MOLE_TYPE] != 0 {
        let mole: usize = if mustache {
            5
        } else {
            4
        };
        assert(load_spec[mole as int] == (layout_spec[n + 5].part, layout_spec[n + 5].index));
        features.push(feature(archive, layers[n + 5], &textures[mole]));
    }
    assert forall|k: int| 0 <= k < load_spec.len() implies texture_loads(
        archive@,
        #[trigger] load_spec[k].0,
        load_spec[k].1,
    ) by {
        assert(texture_load(archive@, loads@[k].0, loads@[k].1 as int, Ok(textures@[k])));
    }
    assert(features@.len() == layout_spec.len());
    assert(forall|i: int| 0 <= i < layout_spec.len() ==> (#[trigger] features@[i]).layer == layout_spec[i]);
    Ok(features)
}


/// The face mask is symmetric: exactly the right-hand copies of the eyes and
/// eyebrows are mirrored, so each turns the opposite way from its left-hand
/// copy; the two eyebrow layers show the same texture with the same turn,
/// and so do the two eye layers' turns.
pub proof fn two_sided_features_are_mirror_images(resolved: Resolved)
    ensures
        forall|i: int|
            0 <= i < feature_layout(resolved).len() ==> ((#[trigger] feature_layout(resolved)[i]).mirrored
                <==> (feature_layout(resolved)[i].origin == Origin::Right && (
            feature_layout(resolved)[i].part == TexturePart::Eye || feature_layout(resolved)[i].part
                == TexturePart::Eyebrow))),
        forall|i: int, j: int|
            0 <= i < feature_layout(resolved).len() && 0 <= j < feature_layout(resolved).len()
                && (#[trigger] feature_layout(resolved)[i]).part == TexturePart::Eyebrow
                && (#[trigger] feature_layout(resolved)[j]).part == TexturePart::Eyebrow
                ==> feature_layout(resolved)[i].index == feature_layout(resolved)[j].index
                && feature_layout(resolved)[i].rotation == feature_layout(resolved)[j].rotation,
        forall|i: int, j: int|
            0 <= i < feature_layout(resolved).len() && 0 <= j < feature_layout(resolved).len()
                && (#[trigger] feature_layout(resolved)[i]).part == TexturePart::Eye
                && (#[trigger] feature_layout(resolved)[j]).part == TexturePart::Eye
                ==> feature_layout(resolved)[i].rotation == feature_layout(resolved)[j].rotation,
        exists|i: int|
            0 <= i < feature_layout(resolved).len() && (#[trigger] feature_layout(resolved)[i]).part
                == TexturePart::Eyebrow && feature_layout(resolved)[i].origin == Origin::Left,
        exists|i: int|
            0 <= i < feature_layout(resolved).len() && (#[trigger] feature_layout(resolved)[i]).part
                == TexturePart::Eyebrow && feature_layout(resolved)[i].origin == Origin::Right,
{
    let layers = feature_layout(resolved);
    let k: int = if resolved.mii.fields@[MUSTACHE_TYPE as int] != 0 { 2 } else { 0 };
    assert(layers[k + 1].part == TexturePart::Eyebrow && layers[k + 1].origin == Origin::Left);
    assert(layers[k + 2].part == TexturePart::Eyebrow && layers[k + 2].origin == Origin::Right);
}

} // verus!
