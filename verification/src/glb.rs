use vstd::prelude::*;

use crate::error::{decimal, decimal_string, Error};
use crate::model::{part_name, ModelPart, ModulateMode};
use crate::resource::shape::Shape;

verus! {

/// `length` rounded up to a multiple of four.
pub open spec fn rounded_to_four(length: int) -> int {
    (length + 3) / 4 * 4
}

/// Rounds a chunk length up to the 4-byte alignment that GLB requires.
pub fn padded_length(length: usize) -> (res: Result<usize, Error>)
    ensures
        length + 3 <= usize::MAX ==> res == Ok::<usize, Error>(
            rounded_to_four(length as int) as usize,
        ),
        length + 3 > usize::MAX ==> (res matches Err(Error::Render(m)) && m@
            == "GLB length overflow"@),
{
    match length.checked_add(3) {
        Some(bumped) => {
            let rounded = bumped & !3usize;
            assert(rounded == bumped / 4 * 4) by (bit_vector)
                requires
                    rounded == bumped & !3usize,
            ;
            Ok(rounded)
        },
        None => Err(Error::Render(String::from_str("GLB length overflow"))),
    }
}

/// The total length of a GLB file: the 12-byte header, then the JSON and
/// binary chunks, each with an 8-byte chunk header and padded to four bytes.
pub open spec fn glb_total(json_length: int, binary_length: int) -> int {
    12 + 8 + rounded_to_four(json_length) + 8 + rounded_to_four(binary_length)
}

/// The length field of a GLB header, which the format limits to 32 bits.
pub fn glb_length(json_length: usize, binary_length: usize) -> (res: Result<u32, Error>)
    ensures
        glb_total(json_length as int, binary_length as int) <= u32::MAX ==> res == Ok::<u32, Error>(
            glb_total(json_length as int, binary_length as int) as u32,
        ),
        glb_total(json_length as int, binary_length as int) > u32::MAX ==> res matches Err(
            Error::Render(_),
        ),
        u32::MAX < glb_total(json_length as int, binary_length as int) && json_length + 3
            <= usize::MAX && binary_length + 3 <= usize::MAX && glb_total(
            json_length as int,
            binary_length as int,
        ) <= usize::MAX ==> (res matches Err(Error::Render(m)) && m@
            == "GLB exceeds the 32-bit format limit"@),
{
    let json_padded = match padded_length(json_length) {
        Ok(length) => length,
        Err(error) => return Err(error),
    };
    let binary_padded = match padded_length(binary_length) {
        Ok(length) => length,
        Err(error) => return Err(error),
    };
    let total = match 20usize.checked_add(json_padded) {
        Some(t) => match t.checked_add(8) {
            Some(t) => t.checked_add(binary_padded),
            None => None,
        },
        None => None,
    };
    let total = match total {
        Some(total) => total,
        None => return Err(Error::Render(String::from_str("GLB length overflow"))),
    };
    if total > u32::MAX as usize {
        return Err(Error::Render(String::from_str("GLB exceeds the 32-bit format limit")));
    }
    Ok(total as u32)
}

/// Appends `value` until the length is a multiple of `alignment`.
pub fn pad_to(bytes: &mut Vec<u8>, alignment: usize, value: u8)
    requires
        alignment > 0,
        old(bytes)@.len() + alignment <= usize::MAX,
    ensures
        (final(bytes)@.len() as int) % (alignment as int) == 0,
        old(bytes)@.len() <= final(bytes)@.len() < old(bytes)@.len() + alignment,
        final(bytes)@.subrange(0, old(bytes)@.len() as int) == old(bytes)@,
        forall|i: int|
            old(bytes)@.len() <= i < final(bytes)@.len() ==> #[trigger] final(bytes)@[i] == value,
{
    let length = bytes.len();
    let padding = (alignment - length % alignment) % alignment;
    let mut added: usize = 0;
    while added < padding
        invariant
            added <= padding < alignment,
            padding == (alignment - length % alignment) % (alignment as int),
            length == old(bytes)@.len(),
            bytes@.len() == length + added,
            bytes@.subrange(0, length as int) == old(bytes)@,
            forall|i: int| length <= i < bytes@.len() ==> #[trigger] bytes@[i] == value,
        decreases padding - added,
    {
        bytes.push(value);
        added = added + 1;
    }
    assert((length + padding) % (alignment as int) == 0) by (nonlinear_arith)
        requires
            padding == (alignment - length % alignment) % (alignment as int),
            alignment > 0,
    ;
}

/// Where a chunk of bytes lies in the binary buffer of a GLB file.
#[derive(Clone, Copy, Debug, PartialEq, Eq, Structural)]
pub struct BufferView {
    pub offset: usize,
    pub length: usize,
}

/// The binary chunk of a GLB file, filled chunk by chunk.
#[derive(Clone, Debug)]
pub struct BinaryBuffer {
    pub bytes: Vec<u8>,
}

impl BinaryBuffer {
    /// An empty buffer.
    pub fn new() -> (res: BinaryBuffer)
        ensures
            res.bytes@.len() == 0,
    {
        BinaryBuffer { bytes: Vec::new() }
    }

    /// Appends `data` at the next multiple of `alignment`, zero-filling the
    /// gap, and says where it lies.
    pub fn add(&mut self, data: &[u8], alignment: usize) -> (view: BufferView)
        requires
            alignment > 0,
            old(self).bytes@.len() + alignment + data@.len() <= usize::MAX,
        ensures
            view.length == data@.len(),
            (view.offset as int) % (alignment as int) == 0,
            old(self).bytes@.len() <= view.offset < old(self).bytes@.len() + alignment,
            final(self).bytes@.len() == view.offset + data@.len(),
            final(self).bytes@.subrange(0, old(self).bytes@.len() as int) == old(self).bytes@,
            forall|i: int|
                old(self).bytes@.len() <= i < view.offset ==> #[trigger] final(self).bytes@[i] == 0,
            final(self).bytes@.subrange(view.offset as int, final(self).bytes@.len() as int)
                == data@,
    {
        pad_to(&mut self.bytes, alignment, 0);
        let offset = self.bytes.len();
        let ghost padded = self.bytes@;
        self.bytes.extend_from_slice(data);
        assert(self.bytes@.subrange(0, padded.len() as int) =~= padded);
        assert(self.bytes@.subrange(offset as int, self.bytes@.len() as int) =~= data@);
        BufferView { offset, length: data.len() }
    }
}

/// The number of vertices that `indices` address: one past the largest.
pub open spec fn addressed(indices: Seq<u16>) -> int
    decreases indices.len(),
{
    if indices.len() == 0 {
        0
    } else {
        let rest = addressed(indices.drop_last());
        if indices.last() + 1 > rest {
            indices.last() + 1
        } else {
            rest
        }
    }
}

/// The number of vertices a mesh exports: those its indices address, which
/// its positions must cover.
pub fn vertex_count(indices: &[u16], positions: usize, name: &str) -> (res: Result<usize, Error>)
    ensures
        addressed(indices@) == 0 || addressed(indices@) > positions ==> (res matches Err(
            Error::Render(m),
        ) && m@ == name@ + " has no addressable vertices"@),
        0 < addressed(indices@) <= positions ==> res == Ok::<usize, Error>(
            addressed(indices@) as usize,
        ),
{
    let mut count: usize = 0;
    let mut i: usize = 0;
    while i < indices.len()
        invariant
            i <= indices@.len(),
            count == addressed(indices@.take(i as int)),
            count <= 0x1_0000,
        decreases indices@.len() - i,
    {
        assert(indices@.take(i + 1).drop_last() =~= indices@.take(i as int));
        let next = indices[i] as usize + 1;
        if next > count {
            count = next;
        }
        i = i + 1;
    }
    assert(indices@.take(indices@.len() as int) =~= indices@);
    if count == 0 || count > positions {
        let mut message = String::from_str(name);
        message.append(" has no addressable vertices");
        return Err(Error::Render(message));
    }
    Ok(count)
}

/// The vertex color bytes of a mesh of `count` vertices: its own colors
/// where it has one per vertex, else its first color for every vertex, else
/// zeros.
pub open spec fn color_bytes(colors: Seq<[u8; 4]>, count: int) -> Seq<u8> {
    Seq::new(
        (4 * count) as nat,
        |i: int|
            if colors.len() >= count {
                colors[i / 4][i % 4]
            } else if colors.len() > 0 {
                colors[0][i % 4]
            } else {
                0u8
            },
    )
}

/// The vertex color attribute of a mesh of `count` vertices.
pub fn vertex_colors(colors: &[[u8; 4]], count: usize) -> (res: Vec<u8>)
    requires
        4 * count <= usize::MAX,
    ensures
        res@ == color_bytes(colors@, count as int),
{
    let mut res: Vec<u8> = Vec::new();
    let mut vertex: usize = 0;
    let own = colors.len() >= count;
    while vertex < count
        invariant
            vertex <= count,
            4 * count <= usize::MAX,
            own == (colors@.len() >= count),
            res@ =~= color_bytes(colors@, count as int).take(4 * vertex as int),
        decreases count - vertex,
    {
        let color = if own {
            colors[vertex]
        } else if colors.len() > 0 {
            colors[0]
        } else {
            [0u8, 0, 0, 0]
        };
        res.push(color[0]);
        res.push(color[1]);
        res.push(color[2]);
        res.push(color[3]);
        vertex = vertex + 1;
    }
    res
}

/// The little-endian bytes of a mesh's triangle indices.
pub open spec fn index_bytes(indices: Seq<u16>) -> Seq<u8> {
    Seq::new(
        2 * indices.len(),
        |i: int|
            if i % 2 == 0 {
                (indices[i / 2] % 256) as u8
            } else {
                (indices[i / 2] / 256) as u8
            },
    )
}

/// The index attribute of a mesh.
pub fn triangle_indices(indices: &[u16]) -> (res: Vec<u8>)
    requires
        2 * indices@.len() <= usize::MAX,
    ensures
        res@ == index_bytes(indices@),
{
    let mut res: Vec<u8> = Vec::new();
    let mut i: usize = 0;
    while i < indices.len()
        invariant
            i <= indices@.len(),
            res@ =~= index_bytes(indices@).take(2 * i as int),
        decreases indices@.len() - i,
    {
        let index = indices[i];
        res.push((index % 256) as u8);
        res.push((index / 256) as u8);
        i = i + 1;
    }
    res
}

/// How a textured material's alpha is used.
#[derive(Clone, Copy, Debug, PartialEq, Eq, Structural)]
pub enum AlphaMode {
    Opaque,
    Mask,
    Blend,
}

/// The alpha use of a textured material of `part`: the mask cuts out, the
/// nose line and glasses blend, everything else is opaque.
pub fn alpha_mode(part: ModelPart) -> (res: AlphaMode)
    ensures
        res == (match part {
            ModelPart::Mask => AlphaMode::Mask,
            ModelPart::Noseline | ModelPart::Glass => AlphaMode::Blend,
            _ => AlphaMode::Opaque,
        }),
{
    match part {
        ModelPart::Mask => AlphaMode::Mask,
        ModelPart::Noseline | ModelPart::Glass => AlphaMode::Blend,
        _ => AlphaMode::Opaque,
    }
}

/// The name of the material of `part`; the mask's carries the suffix of
/// its first texture.
pub fn material_name(part: ModelPart) -> (res: String)
    ensures
        res@ == "Material_"@ + part_name(part) + (if part == ModelPart::Mask {
            "_0"@
        } else {
            Seq::empty()
        }),
{
    let mut name = String::from_str("Material_");
    name.append(part.name());
    if part == ModelPart::Mask {
        name.append("_0");
    }
    name
}

/// The name of the image of a textured `part`, given how many images of
/// other parts precede it, and how many do after it.
pub fn image_name(part: ModelPart, non_mask_images: usize) -> (res: (String, usize))
    requires
        non_mask_images < usize::MAX,
    ensures
        part == ModelPart::Mask ==> res.0@ == "MaskTexture_0"@ && res.1 == non_mask_images,
        part != ModelPart::Mask ==> res.0@ == "Texture_"@ + decimal(non_mask_images as nat)
            && res.1 == non_mask_images + 1,
{
    if part == ModelPart::Mask {
        (String::from_str("MaskTexture_0"), non_mask_images)
    } else {
        let mut name = String::from_str("Texture_");
        let number = decimal_string(non_mask_images as u64);
        name.append(number.as_str());
        (name, non_mask_images + 1)
    }
}

/// The modulate mode a primitive records: 0 for a constant color, 1 for a
/// textured material.
pub fn primitive_mode(mode: ModulateMode) -> (res: u8)
    ensures
        res == (if mode == ModulateMode::Constant {
            0u8
        } else {
            1u8
        }),
{
    match mode {
        ModulateMode::Constant => 0,
        _ => 1,
    }
}

/// Which optional vertex attributes a mesh exports.
#[derive(Clone, Copy, Debug, PartialEq, Eq, Structural)]
pub struct Attributes {
    pub texcoords: bool,
    pub normals: bool,
    pub tangents: bool,
}

/// The optional attributes a mesh of `count` vertices exports: texture
/// coordinates for a textured mesh, and normals and tangents, each where the
/// shape has one per vertex; tangents only where the first has handedness.
pub fn exported_attributes(shape: &Shape, textured: bool, count: usize) -> (res: Attributes)
    ensures
        res.texcoords == (textured && shape.texcoords@.len() >= count),
        res.normals == (shape.normals@.len() >= count),
        res.tangents == (shape.tangents@.len() >= count && shape.tangents@.len() > 0
            && shape.tangents@[0][3] != 0),
{
    let tangents = shape.tangents.len() >= count && shape.tangents.len() > 0
        && shape.tangents[0][3] != 0;
    Attributes {
        texcoords: textured && shape.texcoords.len() >= count,
        normals: shape.normals.len() >= count,
        tangents,
    }
}

} // verus!
