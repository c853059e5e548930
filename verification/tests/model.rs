use miimic::composite::mirror_index;
use miimic::faceline::is_enabled;
use miimic::glb::{glb_length, pad_to, padded_length};
use miimic::mii::{BEARD_TYPE, FACELINE_MAKE, FACELINE_WRINKLE};
use miimic::model::{repeated, ModelPart, ModelTexture};
use miimic::resource::{Texture, TextureFormat};
use miimic::{Mii, MiiData};

const TEST_MII: &str = "0800600308040402020c0301060406020a0000000008000804000a2a003e7f04000214031304160d04000a040109";

#[test]
fn glb_length_includes_padded_chunks() {
    assert_eq!(glb_length(1, 1).expect("small GLB should fit"), 36);
}

#[test]
fn glb_length_rejects_format_overflow() {
    let error = glb_length(u32::MAX as usize, 0).expect_err("oversized GLB should fail");
    assert_eq!(error.to_string(), "rendering failed: GLB exceeds the 32-bit format limit");
}

#[test]
fn chunk_lengths_round_up_to_four_bytes() {
    assert_eq!(padded_length(0).unwrap(), 0);
    assert_eq!(padded_length(5).unwrap(), 8);
    assert_eq!(padded_length(8).unwrap(), 8);
    assert!(padded_length(usize::MAX).is_err());
    assert_eq!(glb_length(4, 0).unwrap(), 32);
}

#[test]
fn padding_appends_the_fill_value_to_the_next_boundary() {
    let mut bytes = vec![1, 2, 3, 4, 5];
    pad_to(&mut bytes, 4, 0x20);
    assert_eq!(bytes, vec![1, 2, 3, 4, 5, 0x20, 0x20, 0x20]);
    pad_to(&mut bytes, 4, 0);
    assert_eq!(bytes.len(), 8);
}

#[test]
fn mirrored_repeat_reflects_at_each_edge() {
    let expected = [0, 1, 2, 2, 1, 0, 0, 1];
    for (index, want) in (0..8).zip(expected) {
        assert_eq!(mirror_index(index, 3), want);
    }
    assert_eq!(mirror_index(-1, 3), 0);
    assert_eq!(mirror_index(-4, 3), 2);
}

#[test]
fn resource_textures_expand_to_rgba() {
    let gray = Texture { width: 2, height: 1, format: TextureFormat::R8, pixels: vec![10, 20] };
    assert_eq!(ModelTexture::from_resource(&gray).pixels, vec![10, 10, 10, 255, 20, 20, 20, 255]);
    let pair = Texture { width: 1, height: 1, format: TextureFormat::Rg8, pixels: vec![7, 9] };
    assert_eq!(ModelTexture::from_resource(&pair).pixels, vec![7, 9, 0, 255]);
    let rgba =
        Texture { width: 1, height: 1, format: TextureFormat::Rgba8, pixels: vec![1, 2, 3, 4] };
    let expanded = ModelTexture::from_resource(&rgba);
    assert_eq!((expanded.width, expanded.height), (1, 1));
    assert_eq!(expanded.pixels, vec![1, 2, 3, 4]);
}

#[test]
fn per_vertex_attributes_repeat_their_first_value() {
    let values = [[1u8, 2], [3, 4]];
    assert_eq!(repeated(&values, 1, [0, 0]), [3, 4]);
    assert_eq!(repeated(&values, 5, [0, 0]), [1, 2]);
    assert_eq!(repeated::<u8, 2>(&[], 0, [9, 9]), [9, 9]);
}

#[test]
fn parts_carry_their_ffl_names_and_passes() {
    assert_eq!(ModelPart::Faceline.name(), "OpaFaceline");
    assert_eq!(ModelPart::Noseline.name(), "XluNoseLine");
    assert_eq!(ModelPart::Mask.modulate_type(), 6);
    assert!(ModelPart::Glass.is_translucent());
    assert!(!ModelPart::Hair.is_translucent());
}

#[test]
fn faceline_texture_is_needed_for_makeup_wrinkles_or_texture_beards() {
    let mii = Mii::from_data(&MiiData::decode(TEST_MII).unwrap()).unwrap();
    let mut plain = mii;
    plain.fields[FACELINE_MAKE] = 0;
    plain.fields[FACELINE_WRINKLE] = 0;
    plain.fields[BEARD_TYPE] = 3;
    assert!(!is_enabled(&plain));
    let mut beard = plain;
    beard.fields[BEARD_TYPE] = 4;
    assert!(is_enabled(&beard));
    let mut wrinkles = plain;
    wrinkles.fields[FACELINE_WRINKLE] = 1;
    assert!(is_enabled(&wrinkles));
}

use miimic::expression::resolve;
use miimic::mask::{eye_modulation, layout, FeatureColor, Origin};
use miimic::mii::{
    EYEBROW_ROTATE, EYEBROW_TYPE, EYE_ROTATE, EYE_TYPE, FACELINE_TYPE, GLASS_TYPE, MOLE_TYPE,
    MUSTACHE_TYPE,
};
use miimic::model::assembly::{CharacterModel, MeshTexture};
use miimic::model::ModulateMode;
use miimic::resource::{
    ResourceArchive, TexturePart, AFL_2_3_HIGH_EXPANDED_SIZE, AFL_2_3_HIGH_HEADER_SIZE, MAGIC,
    VERSION,
};
use miimic::{Error, Expression};

fn fixture_mii() -> Mii {
    Mii::from_data(&MiiData::decode(TEST_MII).unwrap()).unwrap()
}

#[test]
fn mask_layers_follow_the_draw_order() {
    let mut mii = fixture_mii();
    mii.fields[MUSTACHE_TYPE] = 2;
    mii.fields[MOLE_TYPE] = 1;
    let resolved = resolve(mii, Expression::Normal);
    let layers = layout(&resolved);
    let parts: Vec<TexturePart> = layers.iter().map(|layer| layer.part).collect();
    assert_eq!(
        parts,
        vec![
            TexturePart::Mustache,
            TexturePart::Mustache,
            TexturePart::Mouth,
            TexturePart::Eyebrow,
            TexturePart::Eyebrow,
            TexturePart::Eye,
            TexturePart::Eye,
            TexturePart::Mole,
        ]
    );
    assert_eq!(layers[0].origin, Origin::Left);
    assert_eq!(layers[1].origin, Origin::Right);
    assert_eq!(layers[0].index, 2);
    let eye_turn = (mii.field(EYE_ROTATE) + miimic::expression::eye_rotate_offset(mii.field(EYE_TYPE))) % 32;
    assert_eq!(layers[5].rotation, eye_turn);
    assert!(!layers[5].mirrored && layers[6].mirrored);
    let brow_turn = (mii.field(EYEBROW_ROTATE) + eyebrow_rotate_offset(mii.field(EYEBROW_TYPE))) % 32;
    assert_eq!(layers[3].rotation, brow_turn);
    assert_eq!(layers[7].color, FeatureColor::Mole);

    mii.fields[MUSTACHE_TYPE] = 0;
    mii.fields[MOLE_TYPE] = 0;
    let plain = layout(&resolve(mii, Expression::Normal));
    assert_eq!(plain.len(), 5);
    assert_eq!(plain[0].part, TexturePart::Mouth);
}

#[test]
fn eyes_with_their_own_colors_are_drawn_directly() {
    assert_eq!(eye_modulation(60), FeatureColor::Direct);
    assert_eq!(eye_modulation(72), FeatureColor::Direct);
    assert_eq!(eye_modulation(61), FeatureColor::EyeLayers);
    assert_eq!(eye_modulation(2), FeatureColor::EyeLayers);
}

use miimic::mask::eyebrow_rotate_offset;

fn archive_with_faceline(faceline_type: u8, payload: &[u8]) -> ResourceArchive {
    let mut bytes = vec![0; AFL_2_3_HIGH_HEADER_SIZE];
    bytes[..4].copy_from_slice(&MAGIC);
    bytes[4..8].copy_from_slice(&VERSION.to_be_bytes());
    bytes[12..16].copy_from_slice(&AFL_2_3_HIGH_EXPANDED_SIZE.to_be_bytes());
    // The shape table starts after the texture table; the faceline part
    // follows 4 beard, 132 and 132 entries.
    let entry = 0x1740 + (268 + usize::from(faceline_type)) * 16;
    bytes[entry..entry + 4].copy_from_slice(&(AFL_2_3_HIGH_HEADER_SIZE as u32).to_be_bytes());
    bytes[entry + 4..entry + 8].copy_from_slice(&(payload.len() as u32).to_be_bytes());
    bytes[entry + 15] = 5;
    bytes.extend_from_slice(payload);
    ResourceArchive::unchecked_from_bytes(bytes).expect("header should be accepted")
}

/// A faceline shape of one triangle with placement metadata.
fn faceline_entry() -> Vec<u8> {
    let mut data = Vec::new();
    let base = 0x90u32;
    for offset in [base, base + 16, base + 16, base + 16, base + 16, base + 16] {
        data.extend_from_slice(&offset.to_be_bytes());
    }
    for size in [16u32, 0, 0, 0, 0, 3] {
        data.extend_from_slice(&size.to_be_bytes());
    }
    data.resize(0x90, 0);
    data.extend_from_slice(&[0; 16]);
    data.extend_from_slice(&[0, 0, 0, 0, 0, 0]);
    data
}

fn plain_mii() -> Mii {
    let mut mii = fixture_mii();
    mii.fields[FACELINE_MAKE] = 0;
    mii.fields[FACELINE_WRINKLE] = 0;
    mii.fields[BEARD_TYPE] = 0;
    mii.fields[GLASS_TYPE] = 0;
    mii
}

#[test]
fn models_report_their_first_missing_piece() {
    let mii = plain_mii();
    let bare = archive_with_faceline(mii.field(FACELINE_TYPE), &[]);
    match CharacterModel::build(&bare, mii, Expression::Normal, 1) {
        Err(Error::InvalidRequest(message)) => {
            assert_eq!(message, "texture resolution must be between 2 and 1024")
        },
        _ => panic!("resolution 1 is unsupported"),
    }
    match CharacterModel::build(&bare, mii, Expression::Normal, 64) {
        Err(Error::InvalidResource(message)) => {
            assert_eq!(message, "faceline shape is missing placement transforms")
        },
        _ => panic!("an empty faceline has no placement"),
    }
    let archive = archive_with_faceline(mii.field(FACELINE_TYPE), &faceline_entry());
    match CharacterModel::build(&archive, mii, Expression::Normal, 64) {
        Err(Error::InvalidResource(message)) => {
            assert_eq!(message, "texture is shorter than its 12-byte footer")
        },
        _ => panic!("the mask textures are missing"),
    }
}

#[test]
fn blank_expressions_draw_only_the_faceline_of_a_bare_archive() {
    let mii = plain_mii();
    let archive = archive_with_faceline(mii.field(FACELINE_TYPE), &faceline_entry());
    let model = CharacterModel::build(&archive, mii, Expression::Afl61, 64).expect("model");
    assert_eq!(model.meshes.len(), 1);
    let faceline = &model.meshes[0];
    assert_eq!(faceline.part, ModelPart::Faceline);
    assert_eq!(faceline.mode, ModulateMode::Constant);
    assert!(matches!(faceline.texture, MeshTexture::Plain));
    assert_eq!(faceline.shape.indices, vec![0, 0, 0]);
    assert_eq!(faceline.shape.positions.len(), 1);
    assert_eq!(model.mii, mii);
}

#[test]
fn direct_model_build_rejects_unbounded_texture_resolution() {
    let mii = plain_mii();
    let archive = archive_with_faceline(mii.field(FACELINE_TYPE), &faceline_entry());
    let error = CharacterModel::build(&archive, mii, Expression::Normal, u16::MAX)
        .expect_err("model construction must enforce the HD texture bound");
    assert!(matches!(error, Error::InvalidRequest(_)));
}

use miimic::render::prepare_render;
use miimic::{OutputFormat, RenderRequest, ViewType};

#[test]
fn outputs_draw_the_body_only_where_their_view_needs_it() {
    let mut bytes = MiiData::decode(TEST_MII).unwrap().as_bytes().to_vec();
    bytes[FACELINE_MAKE] = 0;
    bytes[FACELINE_WRINKLE] = 0;
    bytes[BEARD_TYPE] = 0;
    bytes[GLASS_TYPE] = 0;
    let data = MiiData::try_from(bytes).unwrap();
    let mut request = RenderRequest::new(data, 64).unwrap();
    request.set_expression(Expression::Afl61);
    let archive = archive_with_faceline(request.mii().field(FACELINE_TYPE), &faceline_entry());

    request.set_view_type(ViewType::Face);
    let prepared = prepare_render(&archive, &request, OutputFormat::Glb, false).expect("face GLB");
    assert!(!prepared.with_body);
    assert_eq!(prepared.model.meshes.len(), 1);

    request.set_view_type(ViewType::Avatar);
    assert!(!prepare_render(&archive, &request, OutputFormat::Glb, false).unwrap().with_body);
    assert!(matches!(
        prepare_render(&archive, &request, OutputFormat::Png, false),
        Err(Error::FeatureUnavailable("Wii U body assets"))
    ));
    assert!(prepare_render(&archive, &request, OutputFormat::Tga, true).unwrap().with_body);

    request.set_view_type(ViewType::Body);
    assert!(matches!(
        prepare_render(&archive, &request, OutputFormat::Glb, false),
        Err(Error::FeatureUnavailable("Wii U body assets"))
    ));
    assert!(prepare_render(&archive, &request, OutputFormat::Glb, true).unwrap().with_body);

    // A problem with the model is reported before a missing body.
    let bare = archive_with_faceline(request.mii().field(FACELINE_TYPE), &[]);
    assert!(matches!(
        prepare_render(&bare, &request, OutputFormat::Glb, false),
        Err(Error::InvalidResource(_))
    ));
}

use miimic::glb::{
    alpha_mode, exported_attributes, image_name, material_name, primitive_mode, triangle_indices,
    vertex_colors, vertex_count, AlphaMode, BinaryBuffer,
};

#[test]
fn binary_chunks_are_aligned_to_their_component_size() {
    let mut buffer = BinaryBuffer::new();
    let first = buffer.add(&[1, 2, 3], 1);
    assert_eq!((first.offset, first.length), (0, 3));
    let second = buffer.add(&[4, 5], 4);
    assert_eq!((second.offset, second.length), (4, 2));
    assert_eq!(buffer.bytes, vec![1, 2, 3, 0, 4, 5]);
    let third = buffer.add(&[6, 7], 2);
    assert_eq!(third.offset, 6);
}

#[test]
fn meshes_export_the_vertices_their_indices_address() {
    assert_eq!(vertex_count(&[0, 3, 1], 4, "OpaNose").unwrap(), 4);
    match vertex_count(&[0, 4], 4, "OpaNose") {
        Err(Error::Render(message)) => assert_eq!(message, "OpaNose has no addressable vertices"),
        _ => panic!("index 4 needs five positions"),
    }
    assert!(vertex_count(&[], 4, "OpaHair").is_err());
}

#[test]
fn vertex_colors_fall_back_to_the_first_color_or_zero() {
    assert_eq!(vertex_colors(&[[1, 2, 3, 4], [5, 6, 7, 8]], 2), vec![1, 2, 3, 4, 5, 6, 7, 8]);
    assert_eq!(vertex_colors(&[[1, 2, 3, 4]], 2), vec![1, 2, 3, 4, 1, 2, 3, 4]);
    assert_eq!(vertex_colors(&[], 1), vec![0, 0, 0, 0]);
    assert_eq!(triangle_indices(&[1, 0x0203]), vec![1, 0, 3, 2]);
}

#[test]
fn materials_are_named_and_blended_by_part() {
    assert_eq!(material_name(ModelPart::Mask), "Material_XluMask_0");
    assert_eq!(material_name(ModelPart::Faceline), "Material_OpaFaceline");
    assert_eq!(alpha_mode(ModelPart::Mask), AlphaMode::Mask);
    assert_eq!(alpha_mode(ModelPart::Glass), AlphaMode::Blend);
    assert_eq!(alpha_mode(ModelPart::Faceline), AlphaMode::Opaque);
    assert_eq!(image_name(ModelPart::Mask, 3), (String::from("MaskTexture_0"), 3));
    assert_eq!(image_name(ModelPart::Glass, 3), (String::from("Texture_3"), 4));
    assert_eq!(primitive_mode(ModulateMode::Constant), 0);
    assert_eq!(primitive_mode(ModulateMode::LuminanceAlpha), 1);
}

#[test]
fn attributes_are_exported_where_every_vertex_has_one() {
    let archive = archive_with_faceline(0, &faceline_entry());
    let shape = archive.load_shape(miimic::resource::ShapePart::Faceline, 0).unwrap();
    let attributes = exported_attributes(&shape, true, 1);
    assert!(!attributes.texcoords && !attributes.normals && !attributes.tangents);
    let mut tangent = shape.clone();
    tangent.tangents = vec![[1, 0, 0, 127]];
    tangent.normals = vec![0];
    let attributes = exported_attributes(&tangent, false, 1);
    assert!(attributes.tangents && attributes.normals && !attributes.texcoords);
    tangent.tangents = vec![[1, 0, 0, 0]];
    assert!(!exported_attributes(&tangent, false, 1).tangents);
}

#[test]
fn faceline_textures_are_half_as_wide_as_tall() {
    assert_eq!(miimic::faceline::texture_size(512), (256, 512));
    assert_eq!(miimic::faceline::texture_size(3), (1, 3));
}
