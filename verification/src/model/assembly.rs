use vstd::prelude::*;

use crate::error::{resource_error, Error};
use crate::expression::{resolution, Expression, Resolved};
use crate::faceline::{is_enabled, lemma_overlays_exclusive, overlays, overlays_loaded, Overlay};
use crate::mask::{features, features_loaded, lemma_features_exclusive, texture_loads, Feature};
use crate::mii::{
    Mii, BEARD_TYPE, FACELINE_MAKE, FACELINE_TYPE, FACELINE_WRINKLE, GLASS_TYPE, HAIR_TYPE,
    NOSE_TYPE,
};
use crate::model::{ModelPart, ModulateMode};
use crate::render::{validate_texture_resolution, MAX_TEXTURE_RESOLUTION, MIN_TEXTURE_RESOLUTION};
use crate::resource::shape::{
    lemma_loaded_shapes_agree, lemma_shape_load_exclusive, shape_load, Shape, ShapeTransform,
};
use crate::resource::{
    lemma_texture_load_exclusive, texture_load, ResourceArchive, ShapePart, Texture, TexturePart,
};

verus! {

/// Where the texture of a mesh comes from.
#[derive(Clone, Debug)]
pub enum MeshTexture {
    /// The mesh has one color and no texture.
    Plain,
    /// The generated faceline texture, drawn from these overlays.
    Overlays(Vec<Overlay>),
    /// The generated face mask, drawn from these layers.
    Features(Vec<Feature>),
    /// A texture of the archive.
    Resource(Texture),
}

/// One mesh of a character model, before it is placed and colored.
#[derive(Clone, Debug)]
pub struct ModelMesh {
    pub part: ModelPart,
    pub shape: Shape,
    pub mode: ModulateMode,
    pub texture: MeshTexture,
}

/// The meshes of a Mii's head in FFL draw order, with the hair's placement
/// of hats and accessories.
#[derive(Clone, Debug)]
pub struct CharacterModel {
    pub mii: Mii,
    pub meshes: Vec<ModelMesh>,
    pub hair_placement: ShapeTransform,
}

/// Expressions whose mask is blank: they draw no mask and no nose.
pub open spec fn is_blank(expression: Expression) -> bool {
    expression == Expression::Afl61 || expression == Expression::Afl62
}

/// Animal expressions, which hide the nose.
pub open spec fn is_animal(expression: Expression) -> bool {
    expression == Expression::Cat || expression == Expression::CatDuplicate || expression
        == Expression::Dog || expression == Expression::DogDuplicate
}

pub open spec fn hides_nose(expression: Expression) -> bool {
    is_blank(expression) || is_animal(expression)
}

/// Loading shape `index` of `part` succeeds.
pub open spec fn shape_loads(bytes: Seq<u8>, part: ShapePart, index: u8) -> bool {
    exists|shape: Shape| shape_load(bytes, part, index as int, Ok(shape))
}

/// Shape `index` of `part` loads and has triangles.
#[verifier::opaque]
pub open spec fn shape_has_triangles(bytes: Seq<u8>, part: ShapePart, index: u8) -> bool {
    exists|shape: Shape| shape_load(bytes, part, index as int, Ok(shape)) && shape.indices@.len() > 0
}

/// The loaded faceline carries the placement of hair, nose and beard.
pub open spec fn faceline_is_placed(bytes: Seq<u8>, index: u8) -> bool {
    forall|shape: Shape|
        shape_load(bytes, ShapePart::Faceline, index as int, Ok(shape))
            ==> #[trigger] shape.transform is Faceline
}

/// Every overlay texture of `mii` loads.
pub open spec fn overlays_load(bytes: Seq<u8>, mii: Mii) -> bool {
    exists|o: Vec<Overlay>| overlays_loaded(bytes, mii, Ok(o))
}

/// Every face-mask texture of `mii` with `expression` loads.
pub open spec fn features_load(bytes: Seq<u8>, mii: Mii, expression: Expression) -> bool {
    exists|resolved: Resolved, fs: Vec<Feature>|
        resolution(mii, expression, resolved) && features_loaded(bytes, resolved, Ok(fs))
}

/// `part` where `drawn`, else nothing.
pub open spec fn optional(drawn: bool, part: ModelPart) -> Seq<ModelPart> {
    if drawn {
        seq![part]
    } else {
        Seq::empty()
    }
}

/// The parts drawn before the mask: the faceline; a shape beard, the nose,
/// the forehead and the hair where their shapes have triangles (the beard
/// only for beard types 0 to 3, the nose unless the expression hides it).
pub open spec fn early_parts(bytes: Seq<u8>, mii: Mii, expression: Expression) -> Seq<ModelPart> {
    let f = mii.fields@;
    seq![ModelPart::Faceline] + optional(
        f[BEARD_TYPE as int] < 4 && shape_has_triangles(bytes, ShapePart::Beard, f[BEARD_TYPE as int]),
        ModelPart::Beard,
    ) + optional(
        !hides_nose(expression) && shape_has_triangles(bytes, ShapePart::Nose, f[NOSE_TYPE as int]),
        ModelPart::Nose,
    ) + optional(
        shape_has_triangles(bytes, ShapePart::ForeheadNormal, f[HAIR_TYPE as int]),
        ModelPart::Forehead,
    ) + optional(
        shape_has_triangles(bytes, ShapePart::HairNormal, f[HAIR_TYPE as int]),
        ModelPart::Hair,
    )
}

/// The parts drawn from the mask on: the mask unless the expression is
/// blank, the nose line where the nose shows and has triangles, and glasses.
pub open spec fn late_parts(bytes: Seq<u8>, mii: Mii, expression: Expression) -> Seq<ModelPart> {
    let f = mii.fields@;
    optional(!is_blank(expression), ModelPart::Mask) + optional(
        !hides_nose(expression) && shape_has_triangles(
            bytes,
            ShapePart::Noseline,
            f[NOSE_TYPE as int],
        ),
        ModelPart::Noseline,
    ) + optional(f[GLASS_TYPE as int] != 0, ModelPart::Glass)
}

/// The parts of the model of `mii` with `expression`, in FFL draw order.
pub open spec fn planned_parts(bytes: Seq<u8>, mii: Mii, expression: Expression) -> Seq<ModelPart> {
    early_parts(bytes, mii, expression) + late_parts(bytes, mii, expression)
}

/// The draw position of each part.
pub open spec fn draw_rank(part: ModelPart) -> int {
    match part {
        ModelPart::Faceline => 0,
        ModelPart::Beard => 1,
        ModelPart::Nose => 2,
        ModelPart::Forehead => 3,
        ModelPart::Hair => 4,
        ModelPart::Mask => 5,
        ModelPart::Noseline => 6,
        ModelPart::Glass => 7,
        ModelPart::Body => 8,
        ModelPart::Pants => 9,
    }
}

/// The parts of `parts` come in increasing draw rank.
pub open spec fn in_draw_order(parts: Seq<ModelPart>) -> bool {
    forall|i: int, j: int| 0 <= i < j < parts.len() ==> draw_rank(parts[i]) < draw_rank(parts[j])
}

proof fn lemma_append_optional(parts: Seq<ModelPart>, drawn: bool, part: ModelPart)
    requires
        in_draw_order(parts),
        forall|i: int| 0 <= i < parts.len() ==> draw_rank(#[trigger] parts[i]) < draw_rank(part),
    ensures
        in_draw_order(parts + optional(drawn, part)),
        forall|i: int|
            0 <= i < (parts + optional(drawn, part)).len() ==> draw_rank(
                #[trigger] (parts + optional(drawn, part))[i],
            ) <= draw_rank(part),
        (parts + optional(drawn, part)).contains(part) <==> drawn,
        forall|other: ModelPart|
            other != part ==> ((parts + optional(drawn, part)).contains(other) <==> parts.contains(
                other,
            )),
{
    let longer = parts + optional(drawn, part);
    if drawn {
        assert(longer[parts.len() as int] == part);
    }
    assert forall|other: ModelPart| other != part implies (longer.contains(other) <==> parts.contains(
        other,
    )) by {
        if parts.contains(other) {
            let i = choose|i: int| 0 <= i < parts.len() && parts[i] == other;
            assert(longer[i] == other);
        }
    }
}

/// The parts that the draw flags select, in draw order.
pub open spec fn part_sequence(
    beard: bool,
    nose: bool,
    forehead: bool,
    hair: bool,
    mask: bool,
    noseline: bool,
    glass: bool,
) -> Seq<ModelPart> {
    seq![ModelPart::Faceline] + optional(beard, ModelPart::Beard) + optional(nose, ModelPart::Nose)
        + optional(forehead, ModelPart::Forehead) + optional(hair, ModelPart::Hair) + optional(
        mask,
        ModelPart::Mask,
    ) + optional(noseline, ModelPart::Noseline) + optional(glass, ModelPart::Glass)
}

proof fn lemma_part_sequence(
    beard: bool,
    nose: bool,
    forehead: bool,
    hair: bool,
    mask: bool,
    noseline: bool,
    glass: bool,
)
    ensures
        part_sequence(beard, nose, forehead, hair, mask, noseline, glass)[0] == ModelPart::Faceline,
        in_draw_order(part_sequence(beard, nose, forehead, hair, mask, noseline, glass)),
        part_sequence(beard, nose, forehead, hair, mask, noseline, glass).contains(ModelPart::Mask)
            <==> mask,
        part_sequence(beard, nose, forehead, hair, mask, noseline, glass).contains(ModelPart::Nose)
            <==> nose,
        part_sequence(beard, nose, forehead, hair, mask, noseline, glass).contains(
            ModelPart::Noseline,
        ) <==> noseline,
{
    let s0 = seq![ModelPart::Faceline];
    let s1 = s0 + optional(beard, ModelPart::Beard);
    lemma_append_optional(s0, beard, ModelPart::Beard);
    let s2 = s1 + optional(nose, ModelPart::Nose);
    lemma_append_optional(s1, nose, ModelPart::Nose);
    let s3 = s2 + optional(forehead, ModelPart::Forehead);
    lemma_append_optional(s2, forehead, ModelPart::Forehead);
    let s4 = s3 + optional(hair, ModelPart::Hair);
    lemma_append_optional(s3, hair, ModelPart::Hair);
    let s5 = s4 + optional(mask, ModelPart::Mask);
    lemma_append_optional(s4, mask, ModelPart::Mask);
    let s6 = s5 + optional(noseline, ModelPart::Noseline);
    lemma_append_optional(s5, noseline, ModelPart::Noseline);
    let s7 = s6 + optional(glass, ModelPart::Glass);
    lemma_append_optional(s6, glass, ModelPart::Glass);
    assert(s7[0] == ModelPart::Faceline);
}

/// A model draws its faceline first and every part at most once, in FFL
/// draw order; a blank expression draws neither mask nor nose nor nose line,
/// and an animal expression no nose and no nose line.
pub proof fn planned_parts_law(bytes: Seq<u8>, mii: Mii, expression: Expression)
    ensures
        planned_parts(bytes, mii, expression)[0] == ModelPart::Faceline,
        in_draw_order(planned_parts(bytes, mii, expression)),
        is_blank(expression) ==> !planned_parts(bytes, mii, expression).contains(ModelPart::Mask),
        hides_nose(expression) ==> !planned_parts(bytes, mii, expression).contains(ModelPart::Nose)
            && !planned_parts(bytes, mii, expression).contains(ModelPart::Noseline),
{
    let f = mii.fields@;
    let beard = f[BEARD_TYPE as int] < 4 && shape_has_triangles(
        bytes,
        ShapePart::Beard,
        f[BEARD_TYPE as int],
    );
    let nose = !hides_nose(expression) && shape_has_triangles(
        bytes,
        ShapePart::Nose,
        f[NOSE_TYPE as int],
    );
    let forehead = shape_has_triangles(bytes, ShapePart::ForeheadNormal, f[HAIR_TYPE as int]);
    let hair = shape_has_triangles(bytes, ShapePart::HairNormal, f[HAIR_TYPE as int]);
    let mask = !is_blank(expression);
    let noseline = !hides_nose(expression) && shape_has_triangles(
        bytes,
        ShapePart::Noseline,
        f[NOSE_TYPE as int],
    );
    let glass = f[GLASS_TYPE as int] != 0;
    assert(planned_parts(bytes, mii, expression) =~= part_sequence(
        beard,
        nose,
        forehead,
        hair,
        mask,
        noseline,
        glass,
    ));
    lemma_part_sequence(beard, nose, forehead, hair, mask, noseline, glass);
}

/// The archive shape that the mesh of `part` uses.
pub open spec fn mesh_shape(part: ModelPart, mii: Mii) -> (ShapePart, u8) {
    let f = mii.fields@;
    match part {
        ModelPart::Faceline => (ShapePart::Faceline, f[FACELINE_TYPE as int]),
        ModelPart::Beard => (ShapePart::Beard, f[BEARD_TYPE as int]),
        ModelPart::Nose => (ShapePart::Nose, f[NOSE_TYPE as int]),
        ModelPart::Forehead => (ShapePart::ForeheadNormal, f[HAIR_TYPE as int]),
        ModelPart::Hair => (ShapePart::HairNormal, f[HAIR_TYPE as int]),
        ModelPart::Mask => (ShapePart::Mask, f[FACELINE_TYPE as int]),
        ModelPart::Noseline => (ShapePart::Noseline, f[NOSE_TYPE as int]),
        _ => (ShapePart::Glass, 0u8),
    }
}

/// The material operation of the mesh of `part`.
pub open spec fn mesh_mode(part: ModelPart, mii: Mii) -> ModulateMode {
    match part {
        ModelPart::Faceline => if mii.fields@[FACELINE_MAKE as int] != 0
            || mii.fields@[FACELINE_WRINKLE as int] != 0 || mii.fields@[BEARD_TYPE as int] >= 4 {
            ModulateMode::TextureDirect
        } else {
            ModulateMode::Constant
        },
        ModelPart::Mask => ModulateMode::TextureDirect,
        ModelPart::Noseline => ModulateMode::Alpha,
        ModelPart::Glass => ModulateMode::LuminanceAlpha,
        _ => ModulateMode::Constant,
    }
}

/// The texture of `mesh` is the one its part takes.
pub open spec fn mesh_texture_loaded(bytes: Seq<u8>, mii: Mii, expression: Expression, mesh: ModelMesh) -> bool {
    let f = mii.fields@;
    match mesh.part {
        ModelPart::Faceline => if mesh_mode(ModelPart::Faceline, mii) == ModulateMode::TextureDirect {
            mesh.texture matches MeshTexture::Overlays(o) && overlays_loaded(bytes, mii, Ok(o))
        } else {
            mesh.texture is Plain
        },
        ModelPart::Mask => mesh.texture matches MeshTexture::Features(fs) && exists|resolved: Resolved|
            resolution(mii, expression, resolved) && features_loaded(bytes, resolved, Ok(fs)),
        ModelPart::Noseline => mesh.texture matches MeshTexture::Resource(t) && texture_load(
            bytes,
            TexturePart::Noseline,
            f[NOSE_TYPE as int] as int,
            Ok(t),
        ),
        ModelPart::Glass => mesh.texture matches MeshTexture::Resource(t) && texture_load(
            bytes,
            TexturePart::Glass,
            f[GLASS_TYPE as int] as int,
            Ok(t),
        ),
        _ => mesh.texture is Plain,
    }
}

/// `mesh` has the shape, operation and texture that its part takes.
pub open spec fn mesh_loaded(bytes: Seq<u8>, mii: Mii, expression: Expression, mesh: ModelMesh) -> bool {
    &&& mesh.mode == mesh_mode(mesh.part, mii)
    &&& shape_load(
        bytes,
        mesh_shape(mesh.part, mii).0,
        mesh_shape(mesh.part, mii).1 as int,
        Ok(mesh.shape),
    )
    &&& mesh_texture_loaded(bytes, mii, expression, mesh)
}

/// `model` is the model of `mii` with `expression` that the archive `bytes`
/// gives.
#[verifier::opaque]
pub open spec fn model_of(bytes: Seq<u8>, mii: Mii, expression: Expression, model: CharacterModel) -> bool {
    &&& model.mii == mii
    &&& model.meshes@.map_values(|mesh: ModelMesh| mesh.part) == planned_parts(bytes, mii, expression)
    &&& forall|i: int|
        0 <= i < model.meshes@.len() ==> mesh_loaded(bytes, mii, expression, #[trigger] model.meshes@[i])
    &&& forall|hair: Shape|
        shape_load(bytes, ShapePart::HairNormal, mii.fields@[HAIR_TYPE as int] as int, Ok(hair))
            ==> model.hair_placement == #[trigger] hair.transform
}

/// The steps before the mask succeed: the texture resolution is supported,
/// the faceline loads with its placement, the hair and forehead load, the
/// faceline overlays load where the faceline is textured, and the shape
/// beard and the nose load where they are drawn.
pub open spec fn early_steps_succeed(
    bytes: Seq<u8>,
    mii: Mii,
    expression: Expression,
    texture_resolution: u16,
) -> bool {
    let f = mii.fields@;
    &&& MIN_TEXTURE_RESOLUTION <= texture_resolution <= MAX_TEXTURE_RESOLUTION
    &&& shape_loads(bytes, ShapePart::Faceline, f[FACELINE_TYPE as int])
    &&& faceline_is_placed(bytes, f[FACELINE_TYPE as int])
    &&& shape_loads(bytes, ShapePart::HairNormal, f[HAIR_TYPE as int])
    &&& shape_loads(bytes, ShapePart::ForeheadNormal, f[HAIR_TYPE as int])
    &&& mesh_mode(ModelPart::Faceline, mii) == ModulateMode::TextureDirect ==> overlays_load(bytes, mii)
    &&& f[BEARD_TYPE as int] < 4 ==> shape_loads(bytes, ShapePart::Beard, f[BEARD_TYPE as int])
    &&& !hides_nose(expression) ==> shape_loads(bytes, ShapePart::Nose, f[NOSE_TYPE as int])
}

/// `error` is what building the model of `mii` with `expression` at
/// `texture_resolution` reports: the first step that fails, in the order
/// texture resolution, faceline, its placement, hair, forehead, faceline
/// overlays, shape beard, nose, and then the steps of [`late_error`].
#[verifier::opaque]
pub open spec fn build_error(
    bytes: Seq<u8>,
    mii: Mii,
    expression: Expression,
    texture_resolution: u16,
    error: Error,
) -> bool {
    let f = mii.fields@;
    if !(MIN_TEXTURE_RESOLUTION <= texture_resolution <= MAX_TEXTURE_RESOLUTION) {
        error matches Error::InvalidRequest(m) && m@ == "texture resolution must be between 2 and 1024"@
    } else if !shape_loads(bytes, ShapePart::Faceline, f[FACELINE_TYPE as int]) {
        shape_load(bytes, ShapePart::Faceline, f[FACELINE_TYPE as int] as int, Err(error))
    } else if !faceline_is_placed(bytes, f[FACELINE_TYPE as int]) {
        error matches Error::InvalidResource(m) && m@ == "faceline shape is missing placement transforms"@
    } else if !shape_loads(bytes, ShapePart::HairNormal, f[HAIR_TYPE as int]) {
        shape_load(bytes, ShapePart::HairNormal, f[HAIR_TYPE as int] as int, Err(error))
    } else if !shape_loads(bytes, ShapePart::ForeheadNormal, f[HAIR_TYPE as int]) {
        shape_load(bytes, ShapePart::ForeheadNormal, f[HAIR_TYPE as int] as int, Err(error))
    } else if mesh_mode(ModelPart::Faceline, mii) == ModulateMode::TextureDirect && !overlays_load(
        bytes,
        mii,
    ) {
        overlays_loaded(bytes, mii, Err(error))
    } else if f[BEARD_TYPE as int] < 4 && !shape_loads(bytes, ShapePart::Beard, f[BEARD_TYPE as int]) {
        shape_load(bytes, ShapePart::Beard, f[BEARD_TYPE as int] as int, Err(error))
    } else if !hides_nose(expression) && !shape_loads(bytes, ShapePart::Nose, f[NOSE_TYPE as int]) {
        shape_load(bytes, ShapePart::Nose, f[NOSE_TYPE as int] as int, Err(error))
    } else {
        late_error(bytes, mii, expression, error)
    }
}

/// `error` is what the steps from the mask on report: the first that
/// fails, in the order mask shape, mask textures, nose line shape and
/// texture, glasses shape and texture.
#[verifier::opaque]
pub open spec fn late_error(bytes: Seq<u8>, mii: Mii, expression: Expression, error: Error) -> bool {
    let f = mii.fields@;
    if !is_blank(expression) && !shape_loads(bytes, ShapePart::Mask, f[FACELINE_TYPE as int]) {
        shape_load(bytes, ShapePart::Mask, f[FACELINE_TYPE as int] as int, Err(error))
    } else if !is_blank(expression) && !features_load(bytes, mii, expression) {
        exists|resolved: Resolved|
            resolution(mii, expression, resolved) && features_loaded(bytes, resolved, Err(error))
    } else if !hides_nose(expression) && !shape_loads(bytes, ShapePart::Noseline, f[NOSE_TYPE as int]) {
        shape_load(bytes, ShapePart::Noseline, f[NOSE_TYPE as int] as int, Err(error))
    } else if !hides_nose(expression) && shape_has_triangles(bytes, ShapePart::Noseline, f[NOSE_TYPE as int])
        && !texture_loads(bytes, TexturePart::Noseline, f[NOSE_TYPE as int]) {
        texture_load(bytes, TexturePart::Noseline, f[NOSE_TYPE as int] as int, Err(error))
    } else if f[GLASS_TYPE as int] != 0 && !shape_loads(bytes, ShapePart::Glass, 0) {
        shape_load(bytes, ShapePart::Glass, 0, Err(error))
    } else if f[GLASS_TYPE as int] != 0 && !texture_loads(bytes, TexturePart::Glass, f[GLASS_TYPE as int]) {
        texture_load(bytes, TexturePart::Glass, f[GLASS_TYPE as int] as int, Err(error))
    } else {
        false
    }
}

/// Loads a shape for the model, or explains why the model cannot be built.
fn load_shape(archive: &ResourceArchive, part: ShapePart, index: u8) -> (res: Result<Shape, Error>)
    ensures
        match res {
            Ok(shape) => shape_load(archive@, part, index as int, Ok(shape)) && shape_loads(
                archive@,
                part,
                index,
            ) && (shape_has_triangles(archive@, part, index) <==> shape.indices@.len() > 0),
            Err(error) => shape_load(archive@, part, index as int, Err(error)) && !shape_loads(
                archive@,
                part,
                index,
            ),
        },
{
    let res = archive.load_shape(part, index as usize);
    proof {
        reveal(shape_has_triangles);
        if res is Ok {
            let shape = res->Ok_0;
            assert forall|other: Shape|
                shape_load(archive@, part, index as int, Ok(other)) implies other.indices@.len()
                == shape.indices@.len() by {
                lemma_loaded_shapes_agree(archive@, part, index as int, shape, other);
            }
        } else {
            let error = res->Err_0;
            assert forall|other: Shape| !shape_load(archive@, part, index as int, Ok(other)) by {
                lemma_shape_load_exclusive(archive@, part, index as int, error, other);
            }
        }
    }
    res
}

/// Loads a texture for the model, or explains why the model cannot be built.
fn load_texture(archive: &ResourceArchive, part: TexturePart, index: u8) -> (res: Result<Texture, Error>)
    ensures
        match res {
            Ok(texture) => texture_load(archive@, part, index as int, Ok(texture)) && texture_loads(
                archive@,
                part,
                index,
            ),
            Err(error) => texture_load(archive@, part, index as int, Err(error)) && !texture_loads(
                archive@,
                part,
                index,
            ),
        },
{
    let res = archive.load_texture(part, index as usize);
    proof {
        if res is Err {
            let error = res->Err_0;
            assert forall|other: Texture| !texture_load(archive@, part, index as int, Ok(other)) by {
                lemma_texture_load_exclusive(archive@, part, index as int, error, other);
            }
        }
    }
    res
}

/// The meshes drawn from the mask on, or the error of the first of their
/// steps that fails.
fn late_meshes(archive: &ResourceArchive, mii: &Mii, expression: Expression) -> (res: Result<
    Vec<ModelMesh>,
    Error,
>)
    requires
        mii.wf(),
    ensures
        match res {
            Ok(meshes) => {
                &&& meshes@.map_values(|mesh: ModelMesh| mesh.part) == late_parts(
                    archive@,
                    *mii,
                    expression,
                )
                &&& forall|i: int|
                    0 <= i < meshes@.len() ==> mesh_loaded(
                        archive@,
                        *mii,
                        expression,
                        #[trigger] meshes@[i],
                    )
            },
            Err(error) => late_error(archive@, *mii, expression, error),
        },
{
    let ghost bytes = archive@;
    let blank = match expression {
        Expression::Afl61 | Expression::Afl62 => true,
        _ => false,
    };
    let hidden = blank || match expression {
        Expression::Cat | Expression::CatDuplicate | Expression::Dog | Expression::DogDuplicate => true,
        _ => false,
    };
    let face_type = mii.fields[FACELINE_TYPE];
    let nose_type = mii.fields[NOSE_TYPE];
    let glass_type = mii.fields[GLASS_TYPE];
    let mut meshes: Vec<ModelMesh> = Vec::new();
    if !blank {
        let mask = match load_shape(archive, ShapePart::Mask, face_type) {
            Ok(shape) => shape,
            Err(error) => {
                assert(late_error(bytes, *mii, expression, error)) by {
                    reveal(late_error);
                }
                return Err(error);
            },
        };
        let layers = match features(archive, mii, expression) {
            Ok(layers) => layers,
            Err(error) => {
                proof {
                    let first = choose|resolved: Resolved|
                        resolution(*mii, expression, resolved) && features_loaded(
                            bytes,
                            resolved,
                            Err(error),
                        );
                    assert forall|second: Resolved, other: Vec<Feature>|
                        !(resolution(*mii, expression, second) && features_loaded(
                            bytes,
                            second,
                            Ok(other),
                        )) by {
                        if resolution(*mii, expression, second) {
                            lemma_features_exclusive(bytes, *mii, expression, first, second, error, other);
                        }
                    }
                    assert(late_error(bytes, *mii, expression, error)) by {
                        reveal(late_error);
                    }
                }
                return Err(error);
            },
        };
        meshes.push(
            ModelMesh {
                part: ModelPart::Mask,
                shape: mask,
                mode: ModulateMode::TextureDirect,
                texture: MeshTexture::Features(layers),
            },
        );
    }
    let ghost after_mask = meshes@;
    if !hidden {
        let noseline = match load_shape(archive, ShapePart::Noseline, nose_type) {
            Ok(shape) => shape,
            Err(error) => {
                assert(late_error(bytes, *mii, expression, error)) by {
                    reveal(late_error);
                }
                return Err(error);
            },
        };
        if noseline.indices.len() > 0 {
            let texture = match load_texture(archive, TexturePart::Noseline, nose_type) {
                Ok(texture) => texture,
                Err(error) => {
                    assert(late_error(bytes, *mii, expression, error)) by {
                        reveal(late_error);
                    }
                    return Err(error);
                },
            };
            meshes.push(
                ModelMesh {
                    part: ModelPart::Noseline,
                    shape: noseline,
                    mode: ModulateMode::Alpha,
                    texture: MeshTexture::Resource(texture),
                },
            );
        }
    }
    let ghost after_noseline = meshes@;
    if glass_type != 0 {
        let glass = match load_shape(archive, ShapePart::Glass, 0) {
            Ok(shape) => shape,
            Err(error) => {
                assert(late_error(bytes, *mii, expression, error)) by {
                    reveal(late_error);
                }
                return Err(error);
            },
        };
        let texture = match load_texture(archive, TexturePart::Glass, glass_type) {
            Ok(texture) => texture,
            Err(error) => {
                assert(late_error(bytes, *mii, expression, error)) by {
                    reveal(late_error);
                }
                return Err(error);
            },
        };
        meshes.push(
            ModelMesh {
                part: ModelPart::Glass,
                shape: glass,
                mode: ModulateMode::LuminanceAlpha,
                texture: MeshTexture::Resource(texture),
            },
        );
    }
    assert(meshes@.map_values(|mesh: ModelMesh| mesh.part) =~= late_parts(bytes, *mii, expression));
    Ok(meshes)
}

/// The faceline, hair and forehead shapes, which every model loads first.
fn head_shapes(archive: &ResourceArchive, mii: &Mii, expression: Expression, texture_resolution: u16) -> (res: Result<
    (Shape, Shape, Shape),
    Error,
>)
    requires
        MIN_TEXTURE_RESOLUTION <= texture_resolution <= MAX_TEXTURE_RESOLUTION,
    ensures
        match res {
            Ok((faceline, hair, forehead)) => {
                let f = mii.fields@;
                &&& shape_load(archive@, ShapePart::Faceline, f[FACELINE_TYPE as int] as int, Ok(faceline))
                &&& shape_loads(archive@, ShapePart::Faceline, f[FACELINE_TYPE as int])
                &&& faceline_is_placed(archive@, f[FACELINE_TYPE as int])
                &&& shape_load(archive@, ShapePart::HairNormal, f[HAIR_TYPE as int] as int, Ok(hair))
                &&& shape_loads(archive@, ShapePart::HairNormal, f[HAIR_TYPE as int])
                &&& (shape_has_triangles(archive@, ShapePart::HairNormal, f[HAIR_TYPE as int])
                    <==> hair.indices@.len() > 0)
                &&& forall|other: Shape|
                    shape_load(archive@, ShapePart::HairNormal, f[HAIR_TYPE as int] as int, Ok(other))
                        ==> #[trigger] other.transform == hair.transform
                &&& shape_load(
                    archive@,
                    ShapePart::ForeheadNormal,
                    f[HAIR_TYPE as int] as int,
                    Ok(forehead),
                )
                &&& shape_loads(archive@, ShapePart::ForeheadNormal, f[HAIR_TYPE as int])
                &&& (shape_has_triangles(archive@, ShapePart::ForeheadNormal, f[HAIR_TYPE as int])
                    <==> forehead.indices@.len() > 0)
            },
            Err(error) => build_error(archive@, *mii, expression, texture_resolution, error),
        },
{
    let ghost bytes = archive@;
    let face_type = mii.fields[FACELINE_TYPE];
    let faceline = match load_shape(archive, ShapePart::Faceline, face_type) {
        Ok(shape) => shape,
        Err(error) => {
            assert(build_error(bytes, *mii, expression, texture_resolution, error)) by {
                reveal(build_error);
            }
            return Err(error);
        },
    };
    let placed = match faceline.transform {
        ShapeTransform::Faceline { .. } => true,
        _ => false,
    };
    if !placed {
        let error = resource_error(
            String::from_str("faceline shape is missing placement transforms"),
        );
        assert(build_error(bytes, *mii, expression, texture_resolution, error)) by {
            reveal(build_error);
        }
        return Err(error);
    }
    proof {
        assert forall|shape: Shape|
            shape_load(bytes, ShapePart::Faceline, face_type as int, Ok(shape)) implies #[trigger] shape.transform is Faceline by {
            lemma_loaded_shapes_agree(bytes, ShapePart::Faceline, face_type as int, faceline, shape);
        }
    }
    let hair_type = mii.fields[HAIR_TYPE];
    let hair = match load_shape(archive, ShapePart::HairNormal, hair_type) {
        Ok(shape) => shape,
        Err(error) => {
            assert(build_error(bytes, *mii, expression, texture_resolution, error)) by {
                reveal(build_error);
            }
            return Err(error);
        },
    };
    proof {
        assert forall|other: Shape|
            shape_load(bytes, ShapePart::HairNormal, hair_type as int, Ok(other)) implies #[trigger] other.transform
            == hair.transform by {
            lemma_loaded_shapes_agree(bytes, ShapePart::HairNormal, hair_type as int, hair, other);
        }
    }
    let forehead = match load_shape(archive, ShapePart::ForeheadNormal, hair_type) {
        Ok(shape) => shape,
        Err(error) => {
            assert(build_error(bytes, *mii, expression, texture_resolution, error)) by {
                reveal(build_error);
            }
            return Err(error);
        },
    };
    Ok((faceline, hair, forehead))
}

/// The meshes drawn before the mask, with the hair's placement, or the
/// error of the first of their steps that fails.
#[verifier::rlimit(60)]
fn early_meshes(archive: &ResourceArchive, mii: &Mii, expression: Expression, texture_resolution: u16) -> (res: Result<
    (Vec<ModelMesh>, ShapeTransform),
    Error,
>)
    ensures
        match res {
            Ok((meshes, hair_placement)) => {
                &&& early_steps_succeed(archive@, *mii, expression, texture_resolution)
                &&& meshes@.map_values(|mesh: ModelMesh| mesh.part) == early_parts(
                    archive@,
                    *mii,
                    expression,
                )
                &&& forall|i: int|
                    0 <= i < meshes@.len() ==> mesh_loaded(
                        archive@,
                        *mii,
                        expression,
                        #[trigger] meshes@[i],
                    )
                &&& forall|hair: Shape|
                    shape_load(archive@, ShapePart::HairNormal, mii.fields@[HAIR_TYPE as int] as int, Ok(hair))
                        ==> hair_placement == #[trigger] hair.transform
            },
            Err(error) => build_error(archive@, *mii, expression, texture_resolution, error),
        },
{
    let ghost bytes = archive@;
    match validate_texture_resolution(texture_resolution) {
        Ok(()) => {},
        Err(error) => {
            assert(build_error(bytes, *mii, expression, texture_resolution, error)) by {
                reveal(build_error);
            }
            return Err(error);
        },
    }
    let (faceline, hair, forehead) = match head_shapes(archive, mii, expression, texture_resolution) {
        Ok(shapes) => shapes,
        Err(error) => return Err(error),
    };
    let textured = is_enabled(mii);
    let faceline_texture = if textured {
        match overlays(archive, mii) {
            Ok(layers) => MeshTexture::Overlays(layers),
            Err(error) => {
                proof {
                    assert forall|other: Vec<Overlay>| !overlays_loaded(bytes, *mii, Ok(other)) by {
                        lemma_overlays_exclusive(bytes, *mii, error, other);
                    }
                    assert(build_error(bytes, *mii, expression, texture_resolution, error)) by {
                        reveal(build_error);
                    }
                }
                return Err(error);
            },
        }
    } else {
        MeshTexture::Plain
    };
    let faceline_mode = if textured {
        ModulateMode::TextureDirect
    } else {
        ModulateMode::Constant
    };
    let mut meshes: Vec<ModelMesh> = Vec::new();
    meshes.push(
        ModelMesh {
            part: ModelPart::Faceline,
            shape: faceline,
            mode: faceline_mode,
            texture: faceline_texture,
        },
    );
    let beard_type = mii.fields[BEARD_TYPE];
    if beard_type < 4 {
        let beard = match load_shape(archive, ShapePart::Beard, beard_type) {
            Ok(shape) => shape,
            Err(error) => {
                assert(build_error(bytes, *mii, expression, texture_resolution, error)) by {
                    reveal(build_error);
                }
                return Err(error);
            },
        };
        if beard.indices.len() > 0 {
            meshes.push(
                ModelMesh {
                    part: ModelPart::Beard,
                    shape: beard,
                    mode: ModulateMode::Constant,
                    texture: MeshTexture::Plain,
                },
            );
        }
    }
    let hidden = match expression {
        Expression::Afl61 | Expression::Afl62 | Expression::Cat | Expression::CatDuplicate
        | Expression::Dog | Expression::DogDuplicate => true,
        _ => false,
    };
    if !hidden {
        let nose = match load_shape(archive, ShapePart::Nose, mii.fields[NOSE_TYPE]) {
            Ok(shape) => shape,
            Err(error) => {
                assert(build_error(bytes, *mii, expression, texture_resolution, error)) by {
                    reveal(build_error);
                }
                return Err(error);
            },
        };
        if nose.indices.len() > 0 {
            meshes.push(
                ModelMesh {
                    part: ModelPart::Nose,
                    shape: nose,
                    mode: ModulateMode::Constant,
                    texture: MeshTexture::Plain,
                },
            );
        }
    }
    let hair_placement = hair.transform;
    if forehead.indices.len() > 0 {
        meshes.push(
            ModelMesh {
                part: ModelPart::Forehead,
                shape: forehead,
                mode: ModulateMode::Constant,
                texture: MeshTexture::Plain,
            },
        );
    }
    if hair.indices.len() > 0 {
        meshes.push(
            ModelMesh {
                part: ModelPart::Hair,
                shape: hair,
                mode: ModulateMode::Constant,
                texture: MeshTexture::Plain,
            },
        );
    }
    assert(meshes@.map_values(|mesh: ModelMesh| mesh.part) =~= early_parts(bytes, *mii, expression));
    Ok((meshes, hair_placement))
}

impl CharacterModel {
    /// Builds the head model of `mii` showing `expression`: loads every
    /// shape and texture it draws, in FFL draw order, and reports the first
    /// that is missing or malformed. Placing the shapes, coloring them and
    /// drawing the generated faceline and mask textures follow from the
    /// model.
    pub fn build(
        archive: &ResourceArchive,
        mii: Mii,
        expression: Expression,
        texture_resolution: u16,
    ) -> (res: Result<CharacterModel, Error>)
        requires
            mii.wf(),
        ensures
            match res {
                Ok(model) => {
                    &&& early_steps_succeed(archive@, mii, expression, texture_resolution)
                    &&& model_of(archive@, mii, expression, model)
                },
                Err(error) => build_error(archive@, mii, expression, texture_resolution, error),
            },
    {
        let (mut meshes, hair_placement) = match early_meshes(archive, &mii, expression, texture_resolution) {
            Ok(early) => early,
            Err(error) => return Err(error),
        };
        let mut late = match late_meshes(archive, &mii, expression) {
            Ok(late) => late,
            Err(error) => {
                assert(build_error(archive@, mii, expression, texture_resolution, error)) by {
                    reveal(build_error);
                }
                return Err(error);
            },
        };
        let ghost early = meshes@;
        let ghost rest = late@;
        meshes.append(&mut late);
        let model = CharacterModel { mii, meshes, hair_placement };
        assert(model_of(archive@, mii, expression, model)) by {
            reveal(model_of);
            assert(model.meshes@ == early + rest);
            assert(model.meshes@.map_values(|mesh: ModelMesh| mesh.part) =~= early.map_values(
                |mesh: ModelMesh| mesh.part,
            ) + rest.map_values(|mesh: ModelMesh| mesh.part));
            assert forall|i: int| 0 <= i < model.meshes@.len() implies mesh_loaded(
                archive@,
                mii,
                expression,
                #[trigger] model.meshes@[i],
            ) by {
                if i < early.len() {
                    assert(model.meshes@[i] == early[i]);
                } else {
                    assert(model.meshes@[i] == rest[i - early.len()]);
                }
            }
        }
        Ok(model)
    }
}

} // verus!
