use vstd::prelude::*;

use crate::error::{resource_error, Error};
use crate::resource::{
    be_u16, be_u32, be_u32_at, element_bytes, entry_failure, entry_payload, part_info_at, shape_count,
    shape_entry_offset, span_error, ResourceArchive, ResourceKind, ShapePart,
};

verus! {

/// The bit pattern of the quiet NaN that bounds an empty shape.
pub const NAN_BITS: u32 = 0x7fc0_0000;

/// Placement metadata embedded in faceline and hair meshes. Each component
/// is the IEEE 754 bit pattern of a single-precision value.
#[derive(Clone, Copy, Debug, PartialEq, Eq)]
pub enum ShapeTransform {
    Untransformed,
    Faceline { hair: [u32; 3], nose: [u32; 3], beard: [u32; 3] },
    Hair {
        front_translate: [u32; 3],
        front_rotate: [u32; 3],
        side_translate: [u32; 3],
        side_rotate: [u32; 3],
        top_translate: [u32; 3],
        top_rotate: [u32; 3],
    },
}

/// A decoded FFL mesh. Floating-point attributes keep the IEEE 754 bit
/// patterns stored in the archive; normals stay packed as three signed
/// ten-bit fields, and tangents as four signed bytes.
#[derive(Clone, Debug, PartialEq, Eq)]
pub struct Shape {
    pub positions: Vec<[u32; 3]>,
    pub texcoords: Vec<[u32; 2]>,
    pub normals: Vec<u32>,
    pub tangents: Vec<[i8; 4]>,
    pub colors: Vec<[u8; 4]>,
    pub indices: Vec<u16>,
    pub bounds: [[u32; 3]; 2],
    pub transform: ShapeTransform,
}

// ---------------------------------------------------------------------------
// The shape layout
// ---------------------------------------------------------------------------

/// Offset of vertex element `element` (positions, normals, texcoords,
/// tangents, colors, indices) from the shape header.
pub open spec fn shape_offset(data: Seq<u8>, element: int) -> int {
    be_u32(data, 4 * element) as int
}

/// Size of vertex element `element` from the shape header; for indices it
/// is their count.
pub open spec fn shape_size(data: Seq<u8>, element: int) -> int {
    be_u32(data, 24 + 4 * element) as int
}

/// The bytes of vertex element `element`, `size` bytes long.
pub open spec fn shape_element(data: Seq<u8>, element: int, size: int) -> Seq<u8> {
    if size == 0 {
        Seq::empty()
    } else {
        data.subrange(shape_offset(data, element), shape_offset(data, element) + size)
    }
}

/// The first problem with vertex element `element`, whose size must be a
/// multiple of `unit`.
pub open spec fn element_error(data: Seq<u8>, element: int, unit: int, misaligned: Seq<char>) -> Option<
    Seq<char>,
> {
    let span = span_error(data.len() as int, shape_offset(data, element), shape_size(data, element));
    if span is Some {
        span
    } else if shape_size(data, element) % unit != 0 {
        Some(misaligned)
    } else {
        None
    }
}

/// The first problem with the index element, which holds 16-bit indices.
pub open spec fn index_error(data: Seq<u8>) -> Option<Seq<char>> {
    if shape_size(data, 5) * 2 > usize::MAX {
        Some("index byte size overflow"@)
    } else {
        span_error(data.len() as int, shape_offset(data, 5), shape_size(data, 5) * 2)
    }
}

/// The first check that a shape entry fails, as its message. An empty
/// entry is an empty shape; any other starts with a 0x90-byte header of
/// big-endian element offsets at 0, element sizes at 24, bounds at 48 and
/// placement metadata at 72.
pub open spec fn shape_error(data: Seq<u8>) -> Option<Seq<char>> {
    if data.len() == 0 {
        None
    } else if data.len() < 0x90 {
        Some("shape is shorter than its 0x90-byte header"@)
    } else if element_error(data, 0, 16, "position element is not Vec4-aligned"@) is Some {
        element_error(data, 0, 16, "position element is not Vec4-aligned"@)
    } else if element_error(data, 1, 4, "normal element is not u32-aligned"@) is Some {
        element_error(data, 1, 4, "normal element is not u32-aligned"@)
    } else if element_error(data, 2, 8, "texcoord element is not Vec2-aligned"@) is Some {
        element_error(data, 2, 8, "texcoord element is not Vec2-aligned"@)
    } else if element_error(data, 3, 4, "tangent element is not four-byte aligned"@) is Some {
        element_error(data, 3, 4, "tangent element is not four-byte aligned"@)
    } else if element_error(data, 4, 4, "color element is not four-byte aligned"@) is Some {
        element_error(data, 4, 4, "color element is not four-byte aligned"@)
    } else {
        index_error(data)
    }
}

/// The three big-endian words at `offset`.
pub open spec fn vec3_at(data: Seq<u8>, offset: int) -> [u32; 3] {
    [be_u32(data, offset), be_u32(data, offset + 4), be_u32(data, offset + 8)]
}

/// The placement metadata that a shape of `part` carries.
pub open spec fn transform_of(data: Seq<u8>, part: ShapePart) -> ShapeTransform {
    match part {
        ShapePart::Faceline => ShapeTransform::Faceline {
            hair: vec3_at(data, 72),
            nose: vec3_at(data, 84),
            beard: vec3_at(data, 96),
        },
        ShapePart::HairNormal => ShapeTransform::Hair {
            front_translate: vec3_at(data, 72),
            front_rotate: vec3_at(data, 84),
            side_translate: vec3_at(data, 96),
            side_rotate: vec3_at(data, 108),
            top_translate: vec3_at(data, 120),
            top_rotate: vec3_at(data, 132),
        },
        _ => ShapeTransform::Untransformed,
    }
}

/// The shape without vertices, with NaN bounds and no placement.
pub open spec fn is_empty_shape(shape: Shape) -> bool {
    &&& shape.positions@.len() == 0
    &&& shape.texcoords@.len() == 0
    &&& shape.normals@.len() == 0
    &&& shape.tangents@.len() == 0
    &&& shape.colors@.len() == 0
    &&& shape.indices@.len() == 0
    &&& shape.bounds == [[NAN_BITS, NAN_BITS, NAN_BITS], [NAN_BITS, NAN_BITS, NAN_BITS]]
    &&& shape.transform == ShapeTransform::Untransformed
}

/// Each position is the first three words of a four-word vector.
pub open spec fn positions_of(bytes: Seq<u8>, positions: Seq<[u32; 3]>) -> bool {
    &&& positions.len() == bytes.len() / 16
    &&& forall|i: int| 0 <= i < positions.len() ==> #[trigger] positions[i] == vec3_at(bytes, 16 * i)
}

/// Each texture coordinate is a pair of words.
pub open spec fn texcoords_of(bytes: Seq<u8>, texcoords: Seq<[u32; 2]>) -> bool {
    &&& texcoords.len() == bytes.len() / 8
    &&& forall|i: int|
        0 <= i < texcoords.len() ==> #[trigger] texcoords[i] == [
            be_u32(bytes, 8 * i),
            be_u32(bytes, 8 * i + 4),
        ]
}

/// Each packed normal is one word.
pub open spec fn words_of(bytes: Seq<u8>, words: Seq<u32>) -> bool {
    &&& words.len() == bytes.len() / 4
    &&& forall|i: int| 0 <= i < words.len() ==> #[trigger] words[i] == be_u32(bytes, 4 * i)
}

/// Each tangent is four signed bytes.
pub open spec fn tangents_of(bytes: Seq<u8>, tangents: Seq<[i8; 4]>) -> bool {
    &&& tangents.len() == bytes.len() / 4
    &&& forall|i: int|
        0 <= i < tangents.len() ==> #[trigger] tangents[i] == [
            bytes[4 * i] as i8,
            bytes[4 * i + 1] as i8,
            bytes[4 * i + 2] as i8,
            bytes[4 * i + 3] as i8,
        ]
}

/// Each color is four bytes.
pub open spec fn colors_of(bytes: Seq<u8>, colors: Seq<[u8; 4]>) -> bool {
    &&& colors.len() == bytes.len() / 4
    &&& forall|i: int|
        0 <= i < colors.len() ==> #[trigger] colors[i] == [
            bytes[4 * i],
            bytes[4 * i + 1],
            bytes[4 * i + 2],
            bytes[4 * i + 3],
        ]
}

/// Each index is a big-endian half-word.
pub open spec fn indices_of(bytes: Seq<u8>, indices: Seq<u16>) -> bool {
    &&& indices.len() == bytes.len() / 2
    &&& forall|i: int| 0 <= i < indices.len() ==> #[trigger] indices[i] == be_u16(bytes, 2 * i)
}

/// `shape` is what the shape entry `data` of `part` holds.
pub open spec fn shape_of(data: Seq<u8>, part: ShapePart, shape: Shape) -> bool {
    if data.len() == 0 {
        is_empty_shape(shape)
    } else {
        &&& positions_of(shape_element(data, 0, shape_size(data, 0)), shape.positions@)
        &&& words_of(shape_element(data, 1, shape_size(data, 1)), shape.normals@)
        &&& texcoords_of(shape_element(data, 2, shape_size(data, 2)), shape.texcoords@)
        &&& tangents_of(shape_element(data, 3, shape_size(data, 3)), shape.tangents@)
        &&& colors_of(shape_element(data, 4, shape_size(data, 4)), shape.colors@)
        &&& indices_of(shape_element(data, 5, shape_size(data, 5) * 2), shape.indices@)
        &&& shape.bounds == [vec3_at(data, 48), vec3_at(data, 60)]
        &&& shape.transform == transform_of(data, part)
    }
}

// ---------------------------------------------------------------------------
// Decoding
// ---------------------------------------------------------------------------

/// The three big-endian words at `offset`.
fn read_vec3(data: &[u8], offset: usize) -> (res: [u32; 3])
    requires
        offset + 12 <= data@.len(),
    ensures
        res == vec3_at(data@, offset as int),
{
    let length = data.len();
    assert(offset + 12 <= length);
    [be_u32_at(data, offset), be_u32_at(data, offset + 4), be_u32_at(data, offset + 8)]
}

/// Offset and size of vertex element `element`, read from the header.
fn element_span(data: &[u8], element: usize) -> (res: (usize, usize))
    requires
        data@.len() >= 0x90,
        element < 6,
    ensures
        res.0 == shape_offset(data@, element as int),
        res.1 == shape_size(data@, element as int),
{
    (be_u32_at(data, element * 4) as usize, be_u32_at(data, 24 + element * 4) as usize)
}

fn decode_positions(bytes: &[u8]) -> (res: Vec<[u32; 3]>)
    requires
        bytes@.len() % 16 == 0,
    ensures
        positions_of(bytes@, res@),
{
    let mut res: Vec<[u32; 3]> = Vec::new();
    let mut at: usize = 0;
    while at < bytes.len()
        invariant
            bytes@.len() % 16 == 0,
            at % 16 == 0,
            at <= bytes@.len(),
            res@.len() == at / 16,
            forall|i: int| 0 <= i < res@.len() ==> #[trigger] res@[i] == vec3_at(bytes@, 16 * i),
        decreases bytes@.len() - at,
    {
        res.push(read_vec3(bytes, at));
        at = at + 16;
    }
    res
}

fn decode_texcoords(bytes: &[u8]) -> (res: Vec<[u32; 2]>)
    requires
        bytes@.len() % 8 == 0,
    ensures
        texcoords_of(bytes@, res@),
{
    let mut res: Vec<[u32; 2]> = Vec::new();
    let mut at: usize = 0;
    while at < bytes.len()
        invariant
            bytes@.len() % 8 == 0,
            at % 8 == 0,
            at <= bytes@.len(),
            res@.len() == at / 8,
            forall|i: int|
                0 <= i < res@.len() ==> #[trigger] res@[i] == [
                    be_u32(bytes@, 8 * i),
                    be_u32(bytes@, 8 * i + 4),
                ],
        decreases bytes@.len() - at,
    {
        res.push([be_u32_at(bytes, at), be_u32_at(bytes, at + 4)]);
        at = at + 8;
    }
    res
}

fn decode_words(bytes: &[u8]) -> (res: Vec<u32>)
    requires
        bytes@.len() % 4 == 0,
    ensures
        words_of(bytes@, res@),
{
    let mut res: Vec<u32> = Vec::new();
    let mut at: usize = 0;
    while at < bytes.len()
        invariant
            bytes@.len() % 4 == 0,
            at % 4 == 0,
            at <= bytes@.len(),
            res@.len() == at / 4,
            forall|i: int| 0 <= i < res@.len() ==> #[trigger] res@[i] == be_u32(bytes@, 4 * i),
        decreases bytes@.len() - at,
    {
        res.push(be_u32_at(bytes, at));
        at = at + 4;
    }
    res
}

fn decode_tangents(bytes: &[u8]) -> (res: Vec<[i8; 4]>)
    requires
        bytes@.len() % 4 == 0,
    ensures
        tangents_of(bytes@, res@),
{
    let mut res: Vec<[i8; 4]> = Vec::new();
    let mut at: usize = 0;
    while at < bytes.len()
        invariant
            bytes@.len() % 4 == 0,
            at % 4 == 0,
            at <= bytes@.len(),
            res@.len() == at / 4,
            forall|i: int|
                0 <= i < res@.len() ==> #[trigger] res@[i] == [
                    bytes@[4 * i] as i8,
                    bytes@[4 * i + 1] as i8,
                    bytes@[4 * i + 2] as i8,
                    bytes@[4 * i + 3] as i8,
                ],
        decreases bytes@.len() - at,
    {
        res.push([bytes[at] as i8, bytes[at + 1] as i8, bytes[at + 2] as i8, bytes[at + 3] as i8]);
        at = at + 4;
    }
    res
}

fn decode_colors(bytes: &[u8]) -> (res: Vec<[u8; 4]>)
    requires
        bytes@.len() % 4 == 0,
    ensures
        colors_of(bytes@, res@),
{
    let mut res: Vec<[u8; 4]> = Vec::new();
    let mut at: usize = 0;
    while at < bytes.len()
        invariant
            bytes@.len() % 4 == 0,
            at % 4 == 0,
            at <= bytes@.len(),
            res@.len() == at / 4,
            forall|i: int|
                0 <= i < res@.len() ==> #[trigger] res@[i] == [
                    bytes@[4 * i],
                    bytes@[4 * i + 1],
                    bytes@[4 * i + 2],
                    bytes@[4 * i + 3],
                ],
        decreases bytes@.len() - at,
    {
        res.push([bytes[at], bytes[at + 1], bytes[at + 2], bytes[at + 3]]);
        at = at + 4;
    }
    res
}

/// Reads `count` big-endian indices at `position`.
pub fn decode_indices(data: &[u8], position: usize, count: usize) -> (res: Result<Vec<u16>, Error>)
    ensures
        count * 2 > usize::MAX ==> (res matches Err(Error::InvalidResource(m)) && m@
            == "index byte size overflow"@),
        count * 2 <= usize::MAX ==> match span_error(data@.len() as int, position as int, count * 2) {
            Some(message) => res matches Err(Error::InvalidResource(m)) && m@ == message,
            None => res matches Ok(indices) && indices_of(
                if count == 0 {
                    Seq::empty()
                } else {
                    data@.subrange(position as int, position + count * 2)
                },
                indices@,
            ),
        },
{
    let byte_size = match count.checked_mul(2) {
        Some(size) => size,
        None => return Err(resource_error(String::from_str("index byte size overflow"))),
    };
    let bytes = match element_bytes(data, position, byte_size) {
        Ok(bytes) => bytes,
        Err(error) => return Err(error),
    };
    let mut res: Vec<u16> = Vec::new();
    let mut at: usize = 0;
    while at < bytes.len()
        invariant
            bytes@.len() % 2 == 0,
            at % 2 == 0,
            at <= bytes@.len(),
            res@.len() == at / 2,
            forall|i: int| 0 <= i < res@.len() ==> #[trigger] res@[i] == be_u16(bytes@, 2 * i),
        decreases bytes@.len() - at,
    {
        let value = (bytes[at] as u16) * 256 + bytes[at + 1] as u16;
        res.push(value);
        at = at + 2;
    }
    Ok(res)
}

impl Shape {
    /// The shape of an empty entry.
    fn empty() -> (res: Shape)
        ensures
            is_empty_shape(res),
    {
        Shape {
            positions: Vec::new(),
            texcoords: Vec::new(),
            normals: Vec::new(),
            tangents: Vec::new(),
            colors: Vec::new(),
            indices: Vec::new(),
            bounds: [[NAN_BITS, NAN_BITS, NAN_BITS], [NAN_BITS, NAN_BITS, NAN_BITS]],
            transform: ShapeTransform::Untransformed,
        }
    }

    /// Decodes the shape entry `data` of `part`.
    pub fn decode(data: &[u8], part: ShapePart) -> (res: Result<Shape, Error>)
        ensures
            shape_error(data@) is None ==> (res matches Ok(shape) && shape_of(data@, part, shape)),
            shape_error(data@) matches Some(message) ==> (res matches Err(
                Error::InvalidResource(m),
            ) && m@ == message),
    {
        if data.len() == 0 {
            return Ok(Shape::empty());
        }
        if data.len() < 0x90 {
            return Err(
                resource_error(String::from_str("shape is shorter than its 0x90-byte header")),
            );
        }
        let (position_offset, position_size) = element_span(data, 0);
        let position_data = match element_bytes(data, position_offset, position_size) {
            Ok(bytes) => bytes,
            Err(error) => return Err(error),
        };
        if position_data.len() % 16 != 0 {
            return Err(resource_error(String::from_str("position element is not Vec4-aligned")));
        }
        let positions = decode_positions(position_data);

        let (normal_offset, normal_size) = element_span(data, 1);
        let normal_data = match element_bytes(data, normal_offset, normal_size) {
            Ok(bytes) => bytes,
            Err(error) => return Err(error),
        };
        if normal_data.len() % 4 != 0 {
            return Err(resource_error(String::from_str("normal element is not u32-aligned")));
        }
        let normals = decode_words(normal_data);

        let (texcoord_offset, texcoord_size) = element_span(data, 2);
        let texcoord_data = match element_bytes(data, texcoord_offset, texcoord_size) {
            Ok(bytes) => bytes,
            Err(error) => return Err(error),
        };
        if texcoord_data.len() % 8 != 0 {
            return Err(resource_error(String::from_str("texcoord element is not Vec2-aligned")));
        }
        let texcoords = decode_texcoords(texcoord_data);

        let (tangent_offset, tangent_size) = element_span(data, 3);
        let tangent_data = match element_bytes(data, tangent_offset, tangent_size) {
            Ok(bytes) => bytes,
            Err(error) => return Err(error),
        };
        if tangent_data.len() % 4 != 0 {
            return Err(
                resource_error(String::from_str("tangent element is not four-byte aligned")),
            );
        }
        let tangents = decode_tangents(tangent_data);

        let (color_offset, color_size) = element_span(data, 4);
        let color_data = match element_bytes(data, color_offset, color_size) {
            Ok(bytes) => bytes,
            Err(error) => return Err(error),
        };
        if color_data.len() % 4 != 0 {
            return Err(resource_error(String::from_str("color element is not four-byte aligned")));
        }
        let colors = decode_colors(color_data);

        let (index_offset, index_count) = element_span(data, 5);
        let indices = match decode_indices(data, index_offset, index_count) {
            Ok(indices) => indices,
            Err(error) => return Err(error),
        };

        let bounds = [read_vec3(data, 48), read_vec3(data, 60)];
        let transform = match part {
            ShapePart::Faceline => ShapeTransform::Faceline {
                hair: read_vec3(data, 72),
                nose: read_vec3(data, 84),
                beard: read_vec3(data, 96),
            },
            ShapePart::HairNormal => ShapeTransform::Hair {
                front_translate: read_vec3(data, 72),
                front_rotate: read_vec3(data, 84),
                side_translate: read_vec3(data, 96),
                side_rotate: read_vec3(data, 108),
                top_translate: read_vec3(data, 120),
                top_rotate: read_vec3(data, 132),
            },
            _ => ShapeTransform::Untransformed,
        };
        Ok(Shape { positions, texcoords, normals, tangents, colors, indices, bounds, transform })
    }
}

/// The two's-complement value of the low ten bits of `value`.
pub open spec fn signed_ten_bits(value: u32) -> int {
    let bits = value % 1024;
    if bits < 512 {
        bits as int
    } else {
        bits - 1024
    }
}

/// Sign-extends the low ten bits of `value`.
pub fn sign_extend_10(value: u32) -> (res: i16)
    ensures
        res == signed_ten_bits(value),
{
    let bits = value & 0x3ff;
    assert(bits == value % 1024) by (bit_vector)
        requires
            bits == value & 0x3ff,
    ;
    if bits & 0x200 == 0 {
        assert(bits & 0x200 == 0 ==> bits < 512) by (bit_vector)
            requires
                bits < 1024,
        ;
        bits as i16
    } else {
        assert(bits & 0x200 != 0 ==> bits >= 512) by (bit_vector)
            requires
                bits < 1024,
        ;
        (bits as i32 - 1024) as i16
    }
}

/// The signed x, y and z fields of a packed 10:10:10 normal; dividing each
/// by 511 gives the unit vector.
pub fn normal_components(packed: u32) -> (res: [i16; 3])
    ensures
        res == [
            signed_ten_bits(packed) as i16,
            signed_ten_bits(packed / 1024) as i16,
            signed_ten_bits(packed / 0x10_0000) as i16,
        ],
{
    let x = sign_extend_10(packed);
    let y_bits = packed >> 10u32;
    let z_bits = packed >> 20u32;
    assert(y_bits == packed / 1024 && z_bits == packed / 0x10_0000) by (bit_vector)
        requires
            y_bits == packed >> 10u32,
            z_bits == packed >> 20u32,
    ;
    let y = sign_extend_10(y_bits);
    let z = sign_extend_10(z_bits);
    [x, y, z]
}

/// What loading shape `index` of `part` from the archive `bytes` gives.
pub open spec fn shape_load(bytes: Seq<u8>, part: ShapePart, index: int, res: Result<Shape, Error>) -> bool {
    if index >= shape_count(part) {
        res == Err::<Shape, Error>(
            Error::UnsupportedResource {
                kind: ResourceKind::Shape,
                part: part.spec_name(),
                index: index as usize,
                available: shape_count(part),
            },
        )
    } else {
        let entry = part_info_at(bytes, shape_entry_offset(part, index));
        match entry_payload(bytes, entry) {
            None => res matches Err(error) && entry_failure(bytes, entry, error),
            Some(payload) => match shape_error(payload) {
                None => res matches Ok(shape) && shape_of(payload, part, shape),
                Some(message) => res matches Err(Error::InvalidResource(m)) && m@ == message,
            },
        }
    }
}

/// Two shapes loaded from the same entry have as many indices and the same
/// placement.
pub proof fn lemma_loaded_shapes_agree(bytes: Seq<u8>, part: ShapePart, index: int, a: Shape, b: Shape)
    requires
        shape_load(bytes, part, index, Ok(a)),
        shape_load(bytes, part, index, Ok(b)),
    ensures
        a.indices@.len() == b.indices@.len(),
        a.transform == b.transform,
{
}

/// Loading a shape either succeeds or fails.
pub proof fn lemma_shape_load_exclusive(bytes: Seq<u8>, part: ShapePart, index: int, error: Error, shape: Shape)
    requires
        shape_load(bytes, part, index, Err(error)),
    ensures
        !shape_load(bytes, part, index, Ok(shape)),
{
}

impl ResourceArchive {
    /// Loads shape `index` of `part`.
    pub fn load_shape(&self, part: ShapePart, index: usize) -> (res: Result<Shape, Error>)
        ensures
            shape_load(self@, part, index as int, res),
    {
        let entry = match self.shape_entry(part, index) {
            Ok(entry) => entry,
            Err(error) => return Err(error),
        };
        let payload = match self.load_entry(entry) {
            Ok(payload) => payload,
            Err(error) => return Err(error),
        };
        Shape::decode(payload.as_slice(), part)
    }
}

} // verus!
