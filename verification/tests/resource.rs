use std::io::Write as _;
use std::sync::Arc;

use flate2::write::ZlibEncoder;
use flate2::Compression;
use sha2::Digest as _;
use miimic::resource::shape::{normal_components, sign_extend_10, Shape, ShapeTransform, NAN_BITS};
use miimic::resource::{
    check_digest, check_expanded, PartInfo, TRUSTED_ARCHIVE_HASHES, ResourceArchive, ShapePart, Texture, TextureFormat, TexturePart,
    AFL_2_3_HIGH_EXPANDED_SIZE, AFL_2_3_HIGH_HEADER_SIZE, AFL_2_3_HIGH_TEXTURE_HEADER_SIZE,
    AFL_2_3_TEXTURE_COUNTS, BASE_HEADER_SIZE, MAGIC, MAX_EXPANDED_ENTRY_SIZE, PART_INFO_SIZE,
    SHAPE_COUNTS, VERSION,
};
use miimic::{Error, ResourceKind};

fn afl_2_3_high_header() -> Vec<u8> {
    let mut bytes = vec![0; AFL_2_3_HIGH_HEADER_SIZE];
    bytes[..4].copy_from_slice(&MAGIC);
    bytes[4..8].copy_from_slice(&VERSION.to_be_bytes());
    bytes[12..16].copy_from_slice(&AFL_2_3_HIGH_EXPANDED_SIZE.to_be_bytes());
    bytes
}

/// An archive with a bare header followed by `payload`, which starts at
/// the returned offset.
fn test_archive(payload: &[u8]) -> (ResourceArchive, usize) {
    let mut bytes = afl_2_3_high_header();
    let offset = bytes.len();
    bytes.extend_from_slice(payload);
    let archive = ResourceArchive::unchecked_from_bytes(bytes).expect("header should be accepted");
    (archive, offset)
}

fn compress_zlib(bytes: &[u8]) -> Vec<u8> {
    let mut encoder = ZlibEncoder::new(Vec::new(), Compression::default());
    encoder.write_all(bytes).expect("test data should compress");
    encoder.finish().expect("test stream should finish")
}

#[test]
fn afl_2_3_high_header_offsets_cover_exact_header() {
    let texture_end = BASE_HEADER_SIZE
        + AFL_2_3_TEXTURE_COUNTS.len() * 4
        + AFL_2_3_TEXTURE_COUNTS.iter().sum::<usize>() * PART_INFO_SIZE;
    let shape_end =
        texture_end + SHAPE_COUNTS.len() * 4 + SHAPE_COUNTS.iter().sum::<usize>() * PART_INFO_SIZE;
    assert_eq!(texture_end, 0x1710);
    assert_eq!(texture_end - BASE_HEADER_SIZE, AFL_2_3_HIGH_TEXTURE_HEADER_SIZE);
    assert_eq!(shape_end + 48, AFL_2_3_HIGH_HEADER_SIZE);
}

#[test]
fn rejects_legacy_resource_archive_layouts() {
    for expanded_size in [0x00cb_bde0_u32, 0x0239_d5e0, (2 << 29) | 0x0239_d5e0] {
        let mut bytes = vec![0; BASE_HEADER_SIZE];
        bytes[..4].copy_from_slice(&MAGIC);
        bytes[4..8].copy_from_slice(&VERSION.to_be_bytes());
        bytes[12..16].copy_from_slice(&expanded_size.to_be_bytes());
        let error = ResourceArchive::unchecked_from_bytes(bytes)
            .err()
            .expect("legacy resource archives should be rejected");
        assert!(matches!(
            error,
            Error::InvalidResource(message)
                if message == "only AFL 2.3 high resource archives are supported"
        ));
    }
}

#[test]
fn unchecked_archive_bypasses_trusted_digest() {
    let archive = ResourceArchive::unchecked_from_bytes(afl_2_3_high_header())
        .expect("unchecked loading should accept an AFL 2.3 high header");
    assert_eq!(archive.len(), 0x4d00);
}

#[test]
fn trusted_archive_rejects_unknown_digest() {
    let error = ResourceArchive::from_bytes(afl_2_3_high_header())
        .err()
        .expect("an unknown AFL 2.3 high archive should not be trusted");
    assert!(matches!(
        error,
        Error::UntrustedResourceArchive { sha256 } if sha256.len() == 64
    ));
}

#[test]
fn untrusted_digest_is_the_lower_case_sha256_of_the_archive() {
    let bytes = afl_2_3_high_header();
    let expected = hex::encode(sha2::Sha256::digest(&bytes));
    match ResourceArchive::from_bytes(bytes) {
        Err(Error::UntrustedResourceArchive { sha256 }) => assert_eq!(sha256, expected),
        _ => panic!("the header alone is not a trusted archive"),
    }
}

#[test]
fn rejects_entries_above_expanded_size_limit() {
    let (archive, _) = test_archive(&[]);
    let error = archive
        .load_entry(PartInfo {
            data_pos: 0,
            data_size: MAX_EXPANDED_ENTRY_SIZE + 1,
            compressed_size: 0,
            strategy: 5,
        })
        .expect_err("oversized entries should be rejected before allocation");
    assert!(matches!(
        error,
        Error::InvalidResource(message)
            if message == format!(
                "expanded entry has {} bytes, maximum is {MAX_EXPANDED_ENTRY_SIZE}",
                MAX_EXPANDED_ENTRY_SIZE + 1
            )
    ));
}

#[test]
fn caps_zlib_output_at_expected_size_plus_one() {
    let compressed = compress_zlib(&[0; 4096]);
    let compressed_size = compressed.len();
    let (archive, offset) = test_archive(&compressed);
    let error = archive
        .load_entry(PartInfo { data_pos: offset, data_size: 8, compressed_size, strategy: 0 })
        .expect_err("over-expanding streams should be rejected");
    assert!(matches!(
        error,
        Error::InvalidResource(message) if message == "decoded entry has 9 bytes, expected 8"
    ));
}

#[test]
fn inflates_compressed_entries_and_copies_stored_ones() {
    let expected = [42u8; 4096];
    let compressed = compress_zlib(&expected);
    let compressed_size = compressed.len();
    let (archive, offset) = test_archive(&compressed);
    let entry = PartInfo { data_pos: offset, data_size: expected.len(), compressed_size, strategy: 0 };
    let first = archive.load_entry(entry).expect("entry should inflate");
    assert_eq!(*first, expected);
    let second = archive.clone().load_entry(entry).expect("clones read the same entry");
    assert_eq!(first, second);

    let stored = PartInfo { data_pos: offset, data_size: 3, compressed_size: 0, strategy: 5 };
    assert_eq!(*archive.load_entry(stored).unwrap(), compressed[..3].to_vec());
}

#[test]
fn caches_expanded_entries_across_archive_clones() {
    let expected = [42; 4096];
    let compressed = compress_zlib(&expected);
    let compressed_size = compressed.len();
    let (archive, offset) = test_archive(&compressed);
    let entry = PartInfo { data_pos: offset, data_size: expected.len(), compressed_size, strategy: 0 };
    let archive_clone = archive.clone();

    let first = archive.load_entry(entry).expect("first load should decompress the entry");
    drop(archive);
    let second = archive_clone
        .load_entry(entry)
        .expect("archive clones should reuse the expanded entry");

    assert_eq!(first.as_slice(), expected);
    assert!(Arc::ptr_eq(&first, &second));
    let third = archive_clone.load_entry(entry).expect("the entry stays cached");
    assert!(Arc::ptr_eq(&first, &third));
}

#[test]
fn digests_and_inflated_lengths_are_checked_as_given() {
    let trusted = TRUSTED_ARCHIVE_HASHES[0];
    assert!(check_digest(&trusted).is_ok());
    let mut other = trusted;
    other[31] ^= 1;
    match check_digest(&other) {
        Err(Error::UntrustedResourceArchive { sha256 }) => assert_eq!(sha256, hex::encode(other)),
        _ => panic!("a changed digest is not trusted"),
    }
    assert_eq!(check_expanded(vec![7, 8, 9], 3).expect("exact length"), vec![7, 8, 9]);
    assert!(matches!(
        check_expanded(vec![7, 8, 9], 2),
        Err(Error::InvalidResource(message)) if message == "decoded entry has 3 bytes, expected 2"
    ));
}

#[test]
fn entry_reading_errors_are_named() {
    let (archive, offset) = test_archive(&[1, 2, 3, 4]);
    let outside = PartInfo { data_pos: offset + 2, data_size: 3, compressed_size: 0, strategy: 5 };
    assert!(matches!(
        archive.load_entry(outside),
        Err(Error::InvalidResource(message)) if message == "resource slice is outside the file"
    ));
    let strategy = PartInfo { data_pos: offset, data_size: 2, compressed_size: 2, strategy: 7 };
    assert!(matches!(
        archive.load_entry(strategy),
        Err(Error::InvalidResource(message)) if message == "unsupported compression strategy 7"
    ));
    let corrupt = PartInfo { data_pos: offset, data_size: 2, compressed_size: 4, strategy: 0 };
    assert!(matches!(
        archive.load_entry(corrupt),
        Err(Error::InvalidResourceSource { context, .. }) if context == "zlib decompression failed"
    ));
    let empty = PartInfo { data_pos: usize::MAX, data_size: 0, compressed_size: 9, strategy: 9 };
    assert_eq!(*archive.load_entry(empty).unwrap(), Vec::<u8>::new());
}

#[test]
fn rejects_zero_sized_textures() {
    for (width, height) in [(0_u16, 1_u16), (1, 0), (0, 0)] {
        let mut data = vec![0; 12];
        data[4..6].copy_from_slice(&width.to_be_bytes());
        data[6..8].copy_from_slice(&height.to_be_bytes());
        let error =
            Texture::decode(&data).expect_err("zero-sized textures should be rejected during decoding");
        assert!(matches!(
            error,
            Error::InvalidResource(message)
                if message == format!("texture dimensions must be nonzero, got {width}x{height}")
        ));
    }
}

#[test]
fn textures_decode_their_linear_base_level() {
    let mut data = vec![7, 8, 9, 10, 11, 12, 0xee, 0xee];
    let mut footer = vec![0; 12];
    footer[4..6].copy_from_slice(&3u16.to_be_bytes());
    footer[6..8].copy_from_slice(&1u16.to_be_bytes());
    footer[9] = 1;
    data.extend_from_slice(&footer);
    let texture = Texture::decode(&data).expect("texture should decode");
    assert_eq!((texture.width, texture.height), (3, 1));
    assert_eq!(texture.format, TextureFormat::Rg8);
    assert_eq!(texture.pixels, vec![7, 8, 9, 10, 11, 12]);

    let code_at = data.len() - 3;
    data[code_at] = 3;
    assert!(matches!(
        Texture::decode(&data),
        Err(Error::InvalidResource(message)) if message == "unsupported texture format 3"
    ));
    assert!(matches!(
        Texture::decode(&[0; 11]),
        Err(Error::InvalidResource(message)) if message == "texture is shorter than its 12-byte footer"
    ));
}

#[test]
fn afl_2_3_high_resources_include_extended_glasses() {
    let (archive, _) = test_archive(&[]);
    ResourceArchive::require_texture(TexturePart::Glass, 19)
        .expect("AFL 2.3 high resources contain all 20 glasses textures");
    let error = archive
        .load_texture(TexturePart::Glass, 20)
        .expect_err("glasses texture index 20 should be out of range");
    assert!(matches!(
        error,
        Error::UnsupportedResource {
            kind: ResourceKind::Texture,
            part: "glass",
            index: 20,
            available: 20,
        }
    ));
}

#[test]
fn shape_indices_beyond_the_table_are_unsupported() {
    let (archive, _) = test_archive(&[]);
    assert!(ResourceArchive::require_shape(ShapePart::Glass, 0).is_ok());
    assert!(matches!(
        archive.load_shape(ShapePart::Glass, 1),
        Err(Error::UnsupportedResource { kind: ResourceKind::Shape, part: "glass", index: 1, available: 1 })
    ));
    // Every entry of the bare header is empty, so it holds an empty shape.
    let shape = archive.load_shape(ShapePart::Nose, 3).expect("empty entries are empty shapes");
    assert!(shape.indices.is_empty());
    assert_eq!(shape.bounds, [[NAN_BITS; 3]; 2]);
    assert_eq!(shape.transform, ShapeTransform::Untransformed);
}

fn push_u32(bytes: &mut Vec<u8>, value: u32) {
    bytes.extend_from_slice(&value.to_be_bytes());
}

/// A shape of one triangle: three positions, normals, texture coordinates,
/// tangents and colors, and three indices, after the 0x90-byte header.
fn triangle_entry() -> Vec<u8> {
    let mut header = Vec::new();
    let base = 0x90u32;
    let offsets = [base, base + 48, base + 60, base + 84, base + 96, base + 108];
    let sizes = [48u32, 12, 24, 12, 12, 3];
    for offset in offsets {
        push_u32(&mut header, offset);
    }
    for size in sizes {
        push_u32(&mut header, size);
    }
    for bound in [0.0f32, 0.0, 0.0, 1.0, 1.0, 0.0] {
        push_u32(&mut header, bound.to_bits());
    }
    for k in 0..18u32 {
        push_u32(&mut header, (k as f32).to_bits());
    }
    assert_eq!(header.len(), 0x90);
    let mut data = header;
    for position in [[0.0f32, 0.0, 0.0], [1.0, 0.0, 0.0], [0.0, 1.0, 0.0]] {
        for component in position {
            push_u32(&mut data, component.to_bits());
        }
        push_u32(&mut data, 1.0f32.to_bits());
    }
    for normal in [0x0000_01ffu32, 0x0000_0201, 0] {
        push_u32(&mut data, normal);
    }
    for texcoord in [0.5f32, 0.25, 1.0, 0.0, 0.0, 1.0] {
        push_u32(&mut data, texcoord.to_bits());
    }
    data.extend_from_slice(&[127, 0, 0, 127, 0x81, 0, 0, 127, 0, 0, 0, 0]);
    data.extend_from_slice(&[255, 0, 0, 255, 0, 255, 0, 255, 0, 0, 255, 255]);
    data.extend_from_slice(&[0, 0, 0, 1, 0, 2]);
    data
}

#[test]
fn shapes_decode_every_vertex_element() {
    let data = triangle_entry();
    let shape = Shape::decode(&data, ShapePart::HairNormal).expect("triangle should decode");
    assert_eq!(shape.positions.len(), 3);
    assert_eq!(shape.positions[1], [1.0f32.to_bits(), 0, 0]);
    assert_eq!(shape.normals, vec![0x0000_01ff, 0x0000_0201, 0]);
    assert_eq!(shape.texcoords[0], [0.5f32.to_bits(), 0.25f32.to_bits()]);
    assert_eq!(shape.tangents[1], [-127, 0, 0, 127]);
    assert_eq!(shape.colors[2], [0, 0, 255, 255]);
    assert_eq!(shape.indices, vec![0, 1, 2]);
    assert_eq!(shape.bounds, [[0, 0, 0], [1.0f32.to_bits(), 1.0f32.to_bits(), 0]]);
    let bits = |k: u32| [(k as f32).to_bits(), ((k + 1) as f32).to_bits(), ((k + 2) as f32).to_bits()];
    assert_eq!(
        shape.transform,
        ShapeTransform::Hair {
            front_translate: bits(0),
            front_rotate: bits(3),
            side_translate: bits(6),
            side_rotate: bits(9),
            top_translate: bits(12),
            top_rotate: bits(15),
        }
    );
    let faceline = Shape::decode(&data, ShapePart::Faceline).unwrap();
    assert_eq!(
        faceline.transform,
        ShapeTransform::Faceline { hair: bits(0), nose: bits(3), beard: bits(6) }
    );
    let nose = Shape::decode(&data, ShapePart::Nose).unwrap();
    assert_eq!(nose.transform, ShapeTransform::Untransformed);
}

#[test]
fn malformed_shapes_are_refused_with_their_reason() {
    let refuse = |data: &[u8], expected: &str| match Shape::decode(data, ShapePart::Nose) {
        Err(Error::InvalidResource(message)) => assert_eq!(message, expected),
        other => panic!("expected {expected:?}, got {:?}", other.map(|shape| shape.indices)),
    };
    refuse(&[0; 0x8f], "shape is shorter than its 0x90-byte header");
    let mut data = triangle_entry();
    data[24..28].copy_from_slice(&40u32.to_be_bytes());
    refuse(&data, "position element is not Vec4-aligned");
    let mut data = triangle_entry();
    data[28..32].copy_from_slice(&10u32.to_be_bytes());
    refuse(&data, "normal element is not u32-aligned");
    let mut data = triangle_entry();
    data[32..36].copy_from_slice(&20u32.to_be_bytes());
    refuse(&data, "texcoord element is not Vec2-aligned");
    let mut data = triangle_entry();
    data[36..40].copy_from_slice(&10u32.to_be_bytes());
    refuse(&data, "tangent element is not four-byte aligned");
    let mut data = triangle_entry();
    data[40..44].copy_from_slice(&10u32.to_be_bytes());
    refuse(&data, "color element is not four-byte aligned");
    let mut data = triangle_entry();
    data[44..48].copy_from_slice(&4u32.to_be_bytes());
    refuse(&data, "resource slice is outside the file");
    let empty = Shape::decode(&[], ShapePart::Faceline).expect("an empty entry is an empty shape");
    assert!(empty.positions.is_empty());
    assert_eq!(f32::from_bits(empty.bounds[0][0]).is_nan(), true);
}

#[test]
fn normal_unpack_matches_signed_ten_bit_layout() {
    let unit = |packed: u32| normal_components(packed).map(|c| f32::from(c) / 511.0);
    for component in unit(0) {
        assert!(component.abs() < f32::EPSILON);
    }
    assert!((unit(0x0000_01ff)[0] - 1.0).abs() < f32::EPSILON);
    assert!((unit(0x0000_0201)[0] - (-511.0 / 511.0)).abs() < f32::EPSILON);
}

#[test]
fn ten_bit_fields_are_sign_extended() {
    assert_eq!(sign_extend_10(0x1ff), 511);
    assert_eq!(sign_extend_10(0x200), -512);
    assert_eq!(sign_extend_10(0x3ff), -1);
    assert_eq!(sign_extend_10(0xffff_fc05), 5);
    assert_eq!(normal_components(0x3ff0_0401), [1, 1, -1]);
}
