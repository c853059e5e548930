use vstd::prelude::*;

use std::io::Read as _;
use std::sync::Arc;

use vstd::cell::invcell::InvCell;

use sha2::Digest as _;

use crate::error::{decimal, decimal_string, resource_error, resource_source, Error};

pub mod shape;

verus! {

/// `FFRA`, the first four bytes of a resource archive.
pub const MAGIC: [u8; 4] = [0x46, 0x46, 0x52, 0x41];

/// The supported resource archive version.
pub const VERSION: u32 = 0x0007_0000;

/// Size of the fixed header that precedes the part tables.
pub const BASE_HEADER_SIZE: usize = 20;

/// Size of one part table entry.
pub const PART_INFO_SIZE: usize = 16;

/// The expanded size that identifies an AFL 2.3 high archive.
pub const AFL_2_3_HIGH_EXPANDED_SIZE: u32 = 0x0250_2de0;

/// Size of the texture tables of an AFL 2.3 high archive.
pub const AFL_2_3_HIGH_TEXTURE_HEADER_SIZE: usize = 0x16fc;

/// Size of the whole header of an AFL 2.3 high archive.
pub const AFL_2_3_HIGH_HEADER_SIZE: usize = 0x4d00;

/// Largest expanded entry accepted.
pub const MAX_EXPANDED_ENTRY_SIZE: usize = 1024 * 1024;

/// SHA-256 digests of the archives trusted by [`ResourceArchive::from_bytes`].
pub const TRUSTED_ARCHIVE_HASHES: [[u8; 32]; 1] = [
    [
        0x4a, 0x4b, 0xe7, 0x1d, 0x75, 0x16, 0x2c, 0x20, 0xb4, 0x87, 0x20, 0xef, 0x89, 0xcd, 0x3d,
        0x4e, 0x6c, 0xd4, 0xe8, 0xe2, 0x1b, 0xcb, 0xc2, 0xae, 0xd6, 0x3e, 0xe0, 0x8d, 0x96, 0xde,
        0x77, 0x22,
    ],
];

/// Number of textures of each texture part, in table order.
pub const AFL_2_3_TEXTURE_COUNTS: [usize; 11] = [3, 132, 80, 28, 12, 12, 20, 2, 52, 6, 18];

/// Number of shapes of each shape part, in table order.
pub const SHAPE_COUNTS: [usize; 12] = [4, 132, 132, 12, 1, 12, 18, 18, 132, 132, 132, 132];

/// Kind of archive entry required by model construction.
#[derive(Clone, Copy, Debug, PartialEq, Eq, Structural)]
pub enum ResourceKind {
    Shape,
    Texture,
}

impl ResourceKind {
    /// The lower-case name of this kind.
    pub fn name(self) -> (res: &'static str)
        ensures
            res@ == (match self {
                ResourceKind::Shape => "shape"@,
                ResourceKind::Texture => "texture"@,
            }),
    {
        match self {
            ResourceKind::Shape => "shape",
            ResourceKind::Texture => "texture",
        }
    }
}

/// A resource texture category in the order stored in `FFLRes*.dat`.
#[derive(Clone, Copy, Debug, PartialEq, Eq, Structural)]
pub enum TexturePart {
    Beard,
    Eye,
    Eyebrow,
    Faceline,
    FaceMakeup,
    Glass,
    Mole,
    Mouth,
    Mustache,
    Noseline,
}

impl TexturePart {
    /// Position of this part's table.
    pub open spec fn spec_index(self) -> int {
        match self {
            TexturePart::Beard => 0,
            TexturePart::Eye => 2,
            TexturePart::Eyebrow => 3,
            TexturePart::Faceline => 4,
            TexturePart::FaceMakeup => 5,
            TexturePart::Glass => 6,
            TexturePart::Mole => 7,
            TexturePart::Mouth => 8,
            TexturePart::Mustache => 9,
            TexturePart::Noseline => 10,
        }
    }

    /// Position of this part's table.
    pub fn index(self) -> (res: usize)
        ensures
            res == self.spec_index(),
            res < 11,
    {
        match self {
            TexturePart::Beard => 0,
            TexturePart::Eye => 2,
            TexturePart::Eyebrow => 3,
            TexturePart::Faceline => 4,
            TexturePart::FaceMakeup => 5,
            TexturePart::Glass => 6,
            TexturePart::Mole => 7,
            TexturePart::Mouth => 8,
            TexturePart::Mustache => 9,
            TexturePart::Noseline => 10,
        }
    }

    pub open spec fn spec_name(self) -> &'static str {
        match self {
            TexturePart::Beard => "beard",
            TexturePart::Eye => "eye",
            TexturePart::Eyebrow => "eyebrow",
            TexturePart::Faceline => "faceline",
            TexturePart::FaceMakeup => "face_makeup",
            TexturePart::Glass => "glass",
            TexturePart::Mole => "mole",
            TexturePart::Mouth => "mouth",
            TexturePart::Mustache => "mustache",
            TexturePart::Noseline => "noseline",
        }
    }

    /// The name used in error messages.
    pub fn name(self) -> (res: &'static str)
        ensures
            res == self.spec_name(),
    {
        match self {
            TexturePart::Beard => "beard",
            TexturePart::Eye => "eye",
            TexturePart::Eyebrow => "eyebrow",
            TexturePart::Faceline => "faceline",
            TexturePart::FaceMakeup => "face_makeup",
            TexturePart::Glass => "glass",
            TexturePart::Mole => "mole",
            TexturePart::Mouth => "mouth",
            TexturePart::Mustache => "mustache",
            TexturePart::Noseline => "noseline",
        }
    }
}

/// A resource mesh category in the order stored in `FFLRes*.dat`.
#[derive(Clone, Copy, Debug, PartialEq, Eq, Structural)]
pub enum ShapePart {
    Beard,
    Faceline,
    Glass,
    Mask,
    Noseline,
    Nose,
    HairNormal,
    ForeheadNormal,
}

impl ShapePart {
    /// Position of this part's table.
    pub open spec fn spec_index(self) -> int {
        match self {
            ShapePart::Beard => 0,
            ShapePart::Faceline => 3,
            ShapePart::Glass => 4,
            ShapePart::Mask => 5,
            ShapePart::Noseline => 6,
            ShapePart::Nose => 7,
            ShapePart::HairNormal => 8,
            ShapePart::ForeheadNormal => 10,
        }
    }

    /// Position of this part's table.
    pub fn index(self) -> (res: usize)
        ensures
            res == self.spec_index(),
            res < 12,
    {
        match self {
            ShapePart::Beard => 0,
            ShapePart::Faceline => 3,
            ShapePart::Glass => 4,
            ShapePart::Mask => 5,
            ShapePart::Noseline => 6,
            ShapePart::Nose => 7,
            ShapePart::HairNormal => 8,
            ShapePart::ForeheadNormal => 10,
        }
    }

    pub open spec fn spec_name(self) -> &'static str {
        match self {
            ShapePart::Beard => "beard",
            ShapePart::Faceline => "faceline",
            ShapePart::Glass => "glass",
            ShapePart::Mask => "mask",
            ShapePart::Noseline => "noseline",
            ShapePart::Nose => "nose",
            ShapePart::HairNormal => "hair_normal",
            ShapePart::ForeheadNormal => "forehead_normal",
        }
    }

    /// The name used in error messages.
    pub fn name(self) -> (res: &'static str)
        ensures
            res == self.spec_name(),
    {
        match self {
            ShapePart::Beard => "beard",
            ShapePart::Faceline => "faceline",
            ShapePart::Glass => "glass",
            ShapePart::Mask => "mask",
            ShapePart::Noseline => "noseline",
            ShapePart::Nose => "nose",
            ShapePart::HairNormal => "hair_normal",
            ShapePart::ForeheadNormal => "forehead_normal",
        }
    }
}

/// Pixel layout used by an FFL texture.
#[derive(Clone, Copy, Debug, PartialEq, Eq, Structural)]
pub enum TextureFormat {
    R8,
    Rg8,
    Rgba8,
}

impl TextureFormat {
    pub open spec fn spec_bytes_per_pixel(self) -> int {
        match self {
            TextureFormat::R8 => 1,
            TextureFormat::Rg8 => 2,
            TextureFormat::Rgba8 => 4,
        }
    }

    /// Bytes that one pixel occupies.
    pub fn bytes_per_pixel(self) -> (res: usize)
        ensures
            res == self.spec_bytes_per_pixel(),
    {
        match self {
            TextureFormat::R8 => 1,
            TextureFormat::Rg8 => 2,
            TextureFormat::Rgba8 => 4,
        }
    }
}

/// A decoded, linear base-level texture.
#[derive(Debug, PartialEq, Eq)]
pub struct Texture {
    pub width: u16,
    pub height: u16,
    pub format: TextureFormat,
    pub pixels: Vec<u8>,
}

impl Texture {
    /// Nonzero dimensions and exactly one base level of pixels.
    pub open spec fn wf(&self) -> bool {
        &&& self.width > 0
        &&& self.height > 0
        &&& self.pixels@.len() == self.width * self.height * self.format.spec_bytes_per_pixel()
    }
}

// ---------------------------------------------------------------------------
// Byte access
// ---------------------------------------------------------------------------

pub open spec fn be_u16(bytes: Seq<u8>, offset: int) -> u16 {
    (bytes[offset] * 256 + bytes[offset + 1]) as u16
}

pub open spec fn be_u32(bytes: Seq<u8>, offset: int) -> u32 {
    (bytes[offset] * 0x100_0000 + bytes[offset + 1] * 0x1_0000 + bytes[offset + 2] * 0x100
        + bytes[offset + 3]) as u32
}

/// `size` bytes at `offset`, or the error that reports them as unreadable.
pub fn checked_slice(data: &[u8], offset: usize, size: usize) -> (res: Result<&[u8], Error>)
    ensures
        offset + size <= data@.len() ==> (res matches Ok(s) && s@ == data@.subrange(
            offset as int,
            offset + size,
        )),
        offset + size > usize::MAX ==> (res matches Err(Error::InvalidResource(m)) && m@
            == "resource slice offset overflow"@),
        data@.len() < offset + size <= usize::MAX ==> (res matches Err(Error::InvalidResource(m))
            && m@ == "resource slice is outside the file"@),
{
    let len = data.len();
    if offset > usize::MAX - size {
        return Err(resource_error(String::from_str("resource slice offset overflow")));
    }
    let end = offset + size;
    if end > len {
        return Err(resource_error(String::from_str("resource slice is outside the file")));
    }
    Ok(vstd::slice::slice_subrange(data, offset, end))
}

/// The problem with reading a non-empty element of `size` bytes at
/// `offset` from `len` bytes, if there is one; an empty element is always
/// readable.
pub open spec fn span_error(len: int, offset: int, size: int) -> Option<Seq<char>> {
    if size == 0 {
        None
    } else if offset + size > usize::MAX {
        Some("resource slice offset overflow"@)
    } else if offset + size > len {
        Some("resource slice is outside the file"@)
    } else {
        None
    }
}

/// Like [`checked_slice`], except that an empty element is always readable.
pub fn element_bytes(data: &[u8], offset: usize, size: usize) -> (res: Result<&[u8], Error>)
    ensures
        size == 0 ==> (res matches Ok(s) && s@.len() == 0),
        size != 0 && offset + size <= data@.len() ==> (res matches Ok(s) && s@ == data@.subrange(
            offset as int,
            offset + size,
        )),
        span_error(data@.len() as int, offset as int, size as int) matches Some(message) ==> (
        res matches Err(Error::InvalidResource(m)) && m@ == message),
        span_error(data@.len() as int, offset as int, size as int) is None ==> res is Ok,
{
    if size == 0 {
        return Ok(vstd::slice::slice_subrange(data, 0, 0));
    }
    checked_slice(data, offset, size)
}

/// The big-endian `u16` at `offset`.
pub fn read_u16(data: &[u8], offset: usize) -> (res: Result<u16, Error>)
    ensures
        offset + 2 <= data@.len() ==> res == Ok::<u16, Error>(be_u16(data@, offset as int)),
        offset + 2 > data@.len() ==> (res matches Err(Error::InvalidResource(m)) && m@ == (if offset
            + 2 > usize::MAX {
            "resource slice offset overflow"@
        } else {
            "resource slice is outside the file"@
        })),
{
    let bytes = match checked_slice(data, offset, 2) {
        Ok(bytes) => bytes,
        Err(error) => return Err(error),
    };
    let high = bytes[0] as u16;
    let low = bytes[1] as u16;
    assert((high << 8u16) | low == high * 256 + low) by (bit_vector)
        requires
            high < 256,
            low < 256,
    ;
    Ok((high << 8u16) | low)
}

/// The big-endian `u32` at `offset`, which the data holds.
pub fn be_u32_at(data: &[u8], offset: usize) -> (res: u32)
    requires
        offset + 4 <= data@.len(),
    ensures
        res == be_u32(data@, offset as int),
{
    let b0 = data[offset] as u32;
    let b1 = data[offset + 1] as u32;
    let b2 = data[offset + 2] as u32;
    let b3 = data[offset + 3] as u32;
    let value = (b0 << 24u32) | (b1 << 16u32) | (b2 << 8u32) | b3;
    assert(value == b0 * 0x100_0000 + b1 * 0x1_0000 + b2 * 0x100 + b3) by (bit_vector)
        requires
            b0 < 256,
            b1 < 256,
            b2 < 256,
            b3 < 256,
            value == (b0 << 24u32) | (b1 << 16u32) | (b2 << 8u32) | b3,
    ;
    value
}

/// The big-endian `u32` at `offset`.
pub fn read_u32(data: &[u8], offset: usize) -> (res: Result<u32, Error>)
    ensures
        offset + 4 <= data@.len() ==> res == Ok::<u32, Error>(be_u32(data@, offset as int)),
        offset + 4 > data@.len() ==> (res matches Err(Error::InvalidResource(m)) && m@ == (if offset
            + 4 > usize::MAX {
            "resource slice offset overflow"@
        } else {
            "resource slice is outside the file"@
        })),
{
    let bytes = match checked_slice(data, offset, 4) {
        Ok(bytes) => bytes,
        Err(error) => return Err(error),
    };
    Ok(be_u32_at(bytes, 0))
}

// ---------------------------------------------------------------------------
// Archive header
// ---------------------------------------------------------------------------

/// Whether the expanded-size field names an AFL 2.3 high archive.
pub open spec fn is_afl_2_3_high_layout(expanded_size: u32) -> bool {
    let hint = expanded_size >> 29u32;
    &&& (hint == 0 || hint == 3)
    &&& expanded_size & 0x1fff_ffff == AFL_2_3_HIGH_EXPANDED_SIZE
}

/// The first header check that `bytes` fails, as its message.
pub open spec fn header_error(bytes: Seq<u8>) -> Option<Seq<char>> {
    if bytes.len() < BASE_HEADER_SIZE {
        Some("file is shorter than its base header"@)
    } else if bytes.subrange(0, 4) != MAGIC@ {
        Some("invalid FFRA magic"@)
    } else if be_u32(bytes, 4) != VERSION {
        Some("unsupported FFL resource version"@)
    } else if be_u32(bytes, 16) == 1 {
        Some("expanded resource archives are unsupported"@)
    } else if !is_afl_2_3_high_layout(be_u32(bytes, 12)) {
        Some("only AFL 2.3 high resource archives are supported"@)
    } else if bytes.len() < AFL_2_3_HIGH_HEADER_SIZE {
        Some("file is shorter than its 0x4d00-byte header"@)
    } else {
        None
    }
}

/// Accepts only the AFL 2.3 high layout.
pub fn validate_layout(bytes: &[u8]) -> (res: Result<(), Error>)
    ensures
        bytes@.len() >= 16 ==> (is_afl_2_3_high_layout(be_u32(bytes@, 12)) ==> res is Ok),
        bytes@.len() >= 16 ==> (!is_afl_2_3_high_layout(be_u32(bytes@, 12)) ==> (res matches Err(
            Error::InvalidResource(m),
        ) && m@ == "only AFL 2.3 high resource archives are supported"@)),
        bytes@.len() < 16 ==> (res matches Err(Error::InvalidResource(m)) && m@
            == "resource slice is outside the file"@),
{
    let expanded_size = match read_u32(bytes, 12) {
        Ok(value) => value,
        Err(error) => return Err(error),
    };
    let hint = expanded_size >> 29u32;
    let untagged_size = expanded_size & 0x1fff_ffff;
    if !(hint == 0 || hint == 3) || untagged_size != AFL_2_3_HIGH_EXPANDED_SIZE {
        return Err(
            resource_error(String::from_str("only AFL 2.3 high resource archives are supported")),
        );
    }
    Ok(())
}

/// The SHA-256 digest of `data` (FIPS 180-4).
pub uninterp spec fn sha256_digest(data: Seq<u8>) -> Seq<u8>;

/// Calls `sha2::Sha256::digest`; its result is the SHA-256 digest of the input.
#[verifier::external_body]
fn sha256(data: &[u8]) -> (res: [u8; 32])
    ensures
        res@ == sha256_digest(data@),
{
    sha2::Sha256::digest(data).into()
}

/// Lower-case hexadecimal digit for `d < 16`.
pub open spec fn lower_hex_digit(d: int) -> char {
    if d < 10 {
        (48 + d) as char
    } else {
        (87 + d) as char
    }
}

/// Two lower-case hexadecimal digits per byte, high nibble first.
pub open spec fn lower_hex(bytes: Seq<u8>) -> Seq<char> {
    Seq::new(
        2 * bytes.len(),
        |i: int|
            if i % 2 == 0 {
                lower_hex_digit((bytes[i / 2] / 16) as int)
            } else {
                lower_hex_digit((bytes[i / 2] % 16) as int)
            },
    )
}

/// Calls `hex::encode`, which writes two lower-case digits per byte.
#[verifier::external_body]
fn hex_encode(data: &[u8]) -> (res: String)
    ensures
        res@ == lower_hex(data@),
{
    hex::encode(data)
}

/// Whether `digest` is one of the trusted archive digests.
pub open spec fn is_trusted_digest(digest: Seq<u8>) -> bool {
    exists|i: int| 0 <= i < 1 && #[trigger] TRUSTED_ARCHIVE_HASHES@[i]@ == digest
}

/// Rejects archives whose digest is not trusted.
pub fn verify_trusted_archive(bytes: &[u8]) -> (res: Result<(), Error>)
    ensures
        is_trusted_digest(sha256_digest(bytes@)) ==> res is Ok,
        !is_trusted_digest(sha256_digest(bytes@)) ==> (res matches Err(
            Error::UntrustedResourceArchive { sha256 },
        ) && sha256@ == lower_hex(sha256_digest(bytes@)) && sha256@.len() == 64),
{
    let digest = sha256(bytes);
    check_digest(&digest)
}

/// Accepts a SHA-256 digest only when it is one of the trusted archive
/// digests; otherwise reports it in lower-case hexadecimal.
pub fn check_digest(digest: &[u8; 32]) -> (res: Result<(), Error>)
    ensures
        is_trusted_digest(digest@) ==> res is Ok,
        !is_trusted_digest(digest@) ==> (res matches Err(Error::UntrustedResourceArchive { sha256 })
            && sha256@ == lower_hex(digest@) && sha256@.len() == 64),
{
    let trusted = TRUSTED_ARCHIVE_HASHES[0];
    let mut equal = true;
    let mut i: usize = 0;
    while i < 32
        invariant
            i <= 32,
            equal == (forall|j: int| 0 <= j < i ==> #[trigger] digest@[j] == trusted@[j]),
        decreases 32 - i,
    {
        if digest[i] != trusted[i] {
            equal = false;
        }
        i = i + 1;
    }
    if equal {
        assert(TRUSTED_ARCHIVE_HASHES@[0]@ =~= digest@);
        Ok(())
    } else {
        proof {
            if is_trusted_digest(digest@) {
                assert(TRUSTED_ARCHIVE_HASHES@[0]@ == digest@);
                assert(false);
            }
        }
        Err(Error::UntrustedResourceArchive { sha256: hex_encode(digest) })
    }
}

/// The expanded entries read so far, each beside the entry it came from.
pub type ExpandedEntries = Vec<(PartInfo, Arc<Vec<u8>>)>;

/// Every expanded entry kept is what reading its entry from `bytes` gives.
pub open spec fn entries_hold(bytes: Seq<u8>, entries: ExpandedEntries) -> bool {
    forall|i: int|
        0 <= i < entries@.len() ==> entry_payload(bytes, (#[trigger] entries@[i]).0) == Some(
            entries@[i].1@,
        )
}

/// The invariant of the expanded-entry cache of an archive of `bytes`.
pub open spec fn cache_invariant(bytes: Seq<u8>) -> spec_fn(ExpandedEntries) -> bool {
    |entries: ExpandedEntries| entries_hold(bytes, entries)
}

/// Immutable reader for an AFL 2.3 high resource archive. Expanded entries
/// are kept once read, in a cache that the archive's clones share.
pub struct ResourceArchive {
    bytes: Vec<u8>,
    expanded_entries: Arc<InvCell<ExpandedEntries, spec_fn(ExpandedEntries) -> bool>>,
    source_path: Option<String>,
}

impl View for ResourceArchive {
    type V = Seq<u8>;

    closed spec fn view(&self) -> Seq<u8> {
        self.bytes@
    }
}

impl ResourceArchive {
    #[verifier::type_invariant]
    spec fn header_is_valid(self) -> bool {
        &&& header_error(self.bytes@) is None
        &&& (*self.expanded_entries).predicate() == cache_invariant(self.bytes@)
    }

    /// The file the archive was read from, if any.
    pub closed spec fn spec_source_path(&self) -> Option<Seq<char>> {
        match self.source_path {
            Some(path) => Some(path@),
            None => None,
        }
    }

    /// Validates an in-memory AFL 2.3 high resource archive without requiring
    /// a trusted digest: the FFRA header, version and layout are still checked.
    pub fn unchecked_from_bytes(bytes: Vec<u8>) -> (res: Result<ResourceArchive, Error>)
        ensures
            header_error(bytes@) is None ==> (res matches Ok(archive) && archive@ == bytes@
                && archive.spec_source_path() is None),
            header_error(bytes@) matches Some(message) ==> (res matches Err(
                Error::InvalidResource(m),
            ) && m@ == message),
    {
        if bytes.len() < BASE_HEADER_SIZE {
            return Err(resource_error(String::from_str("file is shorter than its base header")));
        }
        if !(bytes[0] == MAGIC[0] && bytes[1] == MAGIC[1] && bytes[2] == MAGIC[2] && bytes[3]
            == MAGIC[3]) {
            proof {
                if bytes@.subrange(0, 4) == MAGIC@ {
                    assert(bytes@.subrange(0, 4)[0] == MAGIC@[0]);
                    assert(bytes@.subrange(0, 4)[1] == MAGIC@[1]);
                    assert(bytes@.subrange(0, 4)[2] == MAGIC@[2]);
                    assert(bytes@.subrange(0, 4)[3] == MAGIC@[3]);
                }
            }
            return Err(resource_error(String::from_str("invalid FFRA magic")));
        }
        assert(bytes@.subrange(0, 4) =~= MAGIC@);
        let version = match read_u32(bytes.as_slice(), 4) {
            Ok(value) => value,
            Err(error) => return Err(error),
        };
        if version != VERSION {
            return Err(resource_error(String::from_str("unsupported FFL resource version")));
        }
        let expanded = match read_u32(bytes.as_slice(), 16) {
            Ok(value) => value,
            Err(error) => return Err(error),
        };
        if expanded == 1 {
            return Err(
                resource_error(String::from_str("expanded resource archives are unsupported")),
            );
        }
        match validate_layout(bytes.as_slice()) {
            Ok(()) => {},
            Err(error) => return Err(error),
        }
        if bytes.len() < AFL_2_3_HIGH_HEADER_SIZE {
            return Err(
                resource_error(String::from_str("file is shorter than its 0x4d00-byte header")),
            );
        }
        let ghost contents = bytes@;
        let cache = InvCell::new(Vec::new(), Ghost(cache_invariant(contents)));
        Ok(ResourceArchive { bytes, expanded_entries: Arc::new(cache), source_path: None })
    }

    /// Validates and verifies an in-memory AFL 2.3 high resource archive: the
    /// header is checked first, then the SHA-256 digest of the whole file.
    pub fn from_bytes(bytes: Vec<u8>) -> (res: Result<ResourceArchive, Error>)
        ensures
            header_error(bytes@) matches Some(message) ==> (res matches Err(
                Error::InvalidResource(m),
            ) && m@ == message),
            header_error(bytes@) is None && is_trusted_digest(sha256_digest(bytes@)) ==> (res matches Ok(
                archive,
            ) && archive@ == bytes@ && archive.spec_source_path() is None),
            header_error(bytes@) is None && !is_trusted_digest(sha256_digest(bytes@)) ==> (res matches Err(
                Error::UntrustedResourceArchive { sha256 },
            ) && sha256@ == lower_hex(sha256_digest(bytes@)) && sha256@.len() == 64),
    {
        let archive = match ResourceArchive::unchecked_from_bytes(bytes) {
            Ok(archive) => archive,
            Err(error) => return Err(error),
        };
        match verify_trusted_archive(archive.bytes.as_slice()) {
            Ok(()) => Ok(archive),
            Err(error) => Err(error),
        }
    }

    /// Records the file the archive was read from.
    pub fn with_source_path(self, path: String) -> (res: ResourceArchive)
        ensures
            res@ == self@,
            res.spec_source_path() == Some(path@),
    {
        proof {
            use_type_invariant(&self);
        }
        ResourceArchive {
            bytes: self.bytes,
            expanded_entries: self.expanded_entries,
            source_path: Some(path),
        }
    }

    /// The file the archive was read from, if any.
    pub fn source_path(&self) -> (res: Option<&str>)
        ensures
            match self.spec_source_path() {
                Some(path) => res matches Some(p) && p@ == path,
                None => res is None,
            },
    {
        match &self.source_path {
            Some(path) => Some(path.as_str()),
            None => None,
        }
    }

    /// Number of bytes in the archive file.
    pub fn len(&self) -> (res: usize)
        ensures
            res == self@.len(),
            res >= AFL_2_3_HIGH_HEADER_SIZE,
    {
        proof {
            use_type_invariant(self);
        }
        self.bytes.len()
    }
}

impl Clone for ResourceArchive {
    fn clone(&self) -> (res: ResourceArchive)
        ensures
            res@ == self@,
            res.spec_source_path() == self.spec_source_path(),
    {
        proof {
            use_type_invariant(self);
        }
        ResourceArchive {
            bytes: self.bytes.clone(),
            expanded_entries: self.expanded_entries.clone(),
            source_path: self.source_path.clone(),
        }
    }
}


// ---------------------------------------------------------------------------
// Part tables and entries
// ---------------------------------------------------------------------------

/// Location, sizes and storage of one archive entry.
#[derive(Clone, Copy, Debug, PartialEq, Eq, Hash, Structural)]
pub struct PartInfo {
    pub data_pos: usize,
    pub data_size: usize,
    pub compressed_size: usize,
    pub strategy: u8,
}

/// Sum of the first `n` counts.
pub open spec fn sum_prefix(counts: Seq<usize>, n: int) -> int
    decreases n,
{
    if n <= 0 {
        0
    } else {
        sum_prefix(counts, n - 1) + counts[n - 1]
    }
}

pub proof fn lemma_sum_prefix_monotone(counts: Seq<usize>, a: int, b: int)
    requires
        0 <= a <= b <= counts.len(),
    ensures
        0 <= sum_prefix(counts, a) <= sum_prefix(counts, b),
    decreases b - a,
{
    if a < b {
        lemma_sum_prefix_monotone(counts, a, b - 1);
    } else {
        lemma_sum_prefix_nonnegative(counts, a);
    }
}

pub proof fn lemma_sum_prefix_nonnegative(counts: Seq<usize>, n: int)
    requires
        0 <= n <= counts.len(),
    ensures
        sum_prefix(counts, n) >= 0,
    decreases n,
{
    if n > 0 {
        lemma_sum_prefix_nonnegative(counts, n - 1);
    }
}

/// Byte offset of entry `index` of part `part` in a table starting at
/// `entries_offset`.
pub open spec fn entry_offset(entries_offset: int, counts: Seq<usize>, part: int, index: int) -> int {
    entries_offset + (sum_prefix(counts, part) + index) * PART_INFO_SIZE
}

/// The entry stored at `offset`: big-endian position, expanded size and
/// stored size, and the strategy in the last byte.
pub open spec fn part_info_at(bytes: Seq<u8>, offset: int) -> PartInfo {
    PartInfo {
        data_pos: be_u32(bytes, offset) as usize,
        data_size: be_u32(bytes, offset + 4) as usize,
        compressed_size: be_u32(bytes, offset + 8) as usize,
        strategy: bytes[offset + 15],
    }
}

/// Reads entry `index` of part `part` from a part table.
pub fn entry_at(bytes: &[u8], entries_offset: usize, counts: &[usize], part: usize, index: usize) -> (res: Result<
    PartInfo,
    Error,
>)
    requires
        sum_prefix(counts@, counts@.len() as int) * PART_INFO_SIZE <= usize::MAX,
    ensures
        part >= counts@.len() ==> (res matches Err(Error::InvalidResource(m)) && m@
            == "invalid resource part type"@),
        part < counts@.len() && index >= counts@[part as int] ==> (res matches Err(
            Error::InvalidResource(m),
        ) && m@ == "part index "@ + decimal(index as nat) + " is outside 0.."@ + decimal(
            counts@[part as int] as nat,
        )),
        part < counts@.len() && index < counts@[part as int] ==> {
            let offset = entry_offset(entries_offset as int, counts@, part as int, index as int);
            &&& offset + PART_INFO_SIZE <= bytes@.len() ==> res == Ok::<PartInfo, Error>(
                part_info_at(bytes@, offset),
            )
            &&& offset + PART_INFO_SIZE > bytes@.len() ==> res matches Err(
                Error::InvalidResource(_),
            )
        },
{
    if part >= counts.len() {
        return Err(resource_error(String::from_str("invalid resource part type")));
    }
    let count = counts[part];
    if index >= count {
        let mut message = String::from_str("part index ");
        let index_text = decimal_string(index as u64);
        message.append(index_text.as_str());
        message.append(" is outside 0..");
        let count_text = decimal_string(count as u64);
        message.append(count_text.as_str());
        return Err(resource_error(message));
    }
    let mut preceding: usize = 0;
    let mut i: usize = 0;
    proof {
        lemma_sum_prefix_monotone(counts@, part as int + 1, counts@.len() as int);
    }
    while i < part
        invariant
            i <= part < counts@.len(),
            preceding == sum_prefix(counts@, i as int),
            sum_prefix(counts@, part as int + 1) * PART_INFO_SIZE <= usize::MAX,
        decreases part - i,
    {
        proof {
            lemma_sum_prefix_monotone(counts@, i as int + 1, part as int + 1);
        }
        preceding = preceding + counts[i];
        i = i + 1;
    }
    assert((preceding + index) * PART_INFO_SIZE <= sum_prefix(counts@, part as int + 1)
        * PART_INFO_SIZE) by (nonlinear_arith)
        requires
            preceding + index < sum_prefix(counts@, part as int + 1),
    ;
    let relative = (preceding + index) * PART_INFO_SIZE;
    let _len = bytes.len();
    let offset = match entries_offset.checked_add(relative) {
        Some(offset) => offset,
        None => {
            return Err(resource_error(String::from_str("part table offset overflow")));
        },
    };
    let info = match checked_slice(bytes, offset, PART_INFO_SIZE) {
        Ok(info) => info,
        Err(error) => return Err(error),
    };
    let data_pos = match read_u32(info, 0) {
        Ok(value) => value as usize,
        Err(error) => return Err(error),
    };
    let data_size = match read_u32(info, 4) {
        Ok(value) => value as usize,
        Err(error) => return Err(error),
    };
    let compressed_size = match read_u32(info, 8) {
        Ok(value) => value as usize,
        Err(error) => return Err(error),
    };
    let res = PartInfo { data_pos, data_size, compressed_size, strategy: info[15] };
    assert(info@ =~= bytes@.subrange(offset as int, offset + 16));
    assert(res == part_info_at(bytes@, offset as int));
    Ok(res)
}

/// Rejects an index beyond the `available` entries of a part.
pub fn require_entry(kind: ResourceKind, part: &'static str, index: usize, available: usize) -> (res: Result<
    (),
    Error,
>)
    ensures
        index < available ==> res is Ok,
        index >= available ==> res == Err::<(), Error>(
            Error::UnsupportedResource { kind, part, index, available },
        ),
{
    if index >= available {
        return Err(Error::UnsupportedResource { kind, part, index, available });
    }
    Ok(())
}

/// Number of shapes of `part`.
pub open spec fn shape_count(part: ShapePart) -> usize {
    SHAPE_COUNTS@[part.spec_index()]
}

/// Number of textures of `part`.
pub open spec fn texture_count(part: TexturePart) -> usize {
    AFL_2_3_TEXTURE_COUNTS@[part.spec_index()]
}

/// Where the texture part table starts.
pub open spec fn texture_table_offset() -> int {
    BASE_HEADER_SIZE + 11 * 4
}

/// Where the shape part table starts.
pub open spec fn shape_table_offset() -> int {
    BASE_HEADER_SIZE + AFL_2_3_HIGH_TEXTURE_HEADER_SIZE + 12 * 4
}

proof fn lemma_count_sums()
    ensures
        sum_prefix(AFL_2_3_TEXTURE_COUNTS@, 11) == 365,
        sum_prefix(SHAPE_COUNTS@, 12) == 857,
{
    reveal_with_fuel(sum_prefix, 13);
}

/// Where the table entry of `index` of a texture part lies.
pub open spec fn texture_entry_offset(part: TexturePart, index: int) -> int {
    entry_offset(texture_table_offset(), AFL_2_3_TEXTURE_COUNTS@, part.spec_index(), index)
}

/// Where the table entry of `index` of a shape part lies.
pub open spec fn shape_entry_offset(part: ShapePart, index: int) -> int {
    entry_offset(shape_table_offset(), SHAPE_COUNTS@, part.spec_index(), index)
}

/// Every table entry lies inside the header of an AFL 2.3 high archive.
pub proof fn lemma_entries_inside_header(tpart: TexturePart, tindex: int, spart: ShapePart, sindex: int)
    requires
        0 <= tindex < texture_count(tpart),
        0 <= sindex < shape_count(spart),
    ensures
        texture_entry_offset(tpart, tindex) + PART_INFO_SIZE <= AFL_2_3_HIGH_HEADER_SIZE,
        shape_entry_offset(spart, sindex) + PART_INFO_SIZE <= AFL_2_3_HIGH_HEADER_SIZE,
{
    lemma_count_sums();
    lemma_sum_prefix_monotone(AFL_2_3_TEXTURE_COUNTS@, tpart.spec_index() + 1, 11);
    lemma_sum_prefix_monotone(SHAPE_COUNTS@, spart.spec_index() + 1, 12);
}

/// The stored bytes of an entry: expanded entries are stored as is.
pub open spec fn stored_size(entry: PartInfo) -> int {
    if entry.strategy == 5 {
        entry.data_size as int
    } else {
        entry.compressed_size as int
    }
}

/// The zlib stream `input` inflated, reading at most `limit` bytes of output;
/// `None` where the decoder reports an error.
pub uninterp spec fn zlib_inflated(input: Seq<u8>, limit: nat) -> Option<Seq<u8>>;

/// Reads `flate2::read::ZlibDecoder` over `input`, through `Read::take(limit)`,
/// to its end: at most `limit` bytes come out.
#[verifier::external_body]
fn zlib_inflate(input: &[u8], limit: u64) -> (res: Result<Vec<u8>, std::io::Error>)
    ensures
        match zlib_inflated(input@, limit as nat) {
            Some(output) => res matches Ok(v) && v@ == output,
            None => res is Err,
        },
        res matches Ok(v) ==> v@.len() <= limit,
{
    let mut output = Vec::new();
    match flate2::read::ZlibDecoder::new(input).take(limit).read_to_end(&mut output) {
        Ok(_) => Ok(output),
        Err(error) => Err(error),
    }
}

/// The expanded bytes of `entry`, if it can be read.
pub open spec fn entry_payload(bytes: Seq<u8>, entry: PartInfo) -> Option<Seq<u8>> {
    let pos = entry.data_pos as int;
    let size = entry.data_size as int;
    if size > MAX_EXPANDED_ENTRY_SIZE {
        None
    } else if size == 0 {
        Some(Seq::empty())
    } else if pos + stored_size(entry) > bytes.len() {
        None
    } else if entry.strategy == 5 {
        Some(bytes.subrange(pos, pos + size))
    } else if entry.strategy > 4 {
        None
    } else {
        match zlib_inflated(bytes.subrange(pos, pos + stored_size(entry)), (size + 1) as nat) {
            Some(output) => if output.len() == size {
                Some(output)
            } else {
                None
            },
            None => None,
        }
    }
}

/// The message with which reading `entry` fails, where the failure is not
/// the inflater's own error.
pub open spec fn entry_error(bytes: Seq<u8>, entry: PartInfo) -> Option<Seq<char>> {
    let pos = entry.data_pos as int;
    let size = entry.data_size as int;
    if size > MAX_EXPANDED_ENTRY_SIZE {
        Some(
            "expanded entry has "@ + decimal(entry.data_size as nat) + " bytes, maximum is 1048576"@,
        )
    } else if size == 0 {
        None
    } else if pos + stored_size(entry) > usize::MAX {
        Some("resource slice offset overflow"@)
    } else if pos + stored_size(entry) > bytes.len() {
        Some("resource slice is outside the file"@)
    } else if entry.strategy == 5 {
        None
    } else if entry.strategy > 4 {
        Some("unsupported compression strategy "@ + decimal(entry.strategy as nat))
    } else {
        match zlib_inflated(bytes.subrange(pos, pos + stored_size(entry)), (size + 1) as nat) {
            Some(output) => if output.len() == size {
                None
            } else {
                Some(
                    "decoded entry has "@ + decimal(output.len()) + " bytes, expected "@ + decimal(
                        entry.data_size as nat,
                    ),
                )
            },
            None => None,
        }
    }
}

/// `error` is how reading `entry` fails.
pub open spec fn entry_failure(bytes: Seq<u8>, entry: PartInfo, error: Error) -> bool {
    match entry_error(bytes, entry) {
        Some(message) => error matches Error::InvalidResource(m) && m@ == message,
        None => error matches Error::InvalidResourceSource { context, .. } && context@
            == "zlib decompression failed"@,
    }
}

/// The expanded entry kept for `entry`, if any.
fn kept_entry(entries: &ExpandedEntries, entry: PartInfo) -> (res: Option<Arc<Vec<u8>>>)
    ensures
        match res {
            Some(expanded) => exists|i: int|
                0 <= i < entries@.len() && (#[trigger] entries@[i]).0 == entry && entries@[i].1
                    == expanded,
            None => forall|i: int| 0 <= i < entries@.len() ==> (#[trigger] entries@[i]).0 != entry,
        },
{
    let mut i: usize = 0;
    while i < entries.len()
        invariant
            i <= entries@.len(),
            forall|j: int| 0 <= j < i ==> (#[trigger] entries@[j]).0 != entry,
        decreases entries@.len() - i,
    {
        if entries[i].0 == entry {
            return Some(entries[i].1.clone());
        }
        i = i + 1;
    }
    None
}

/// Accepts inflated bytes only when they are exactly `data_size` long.
pub fn check_expanded(expanded: Vec<u8>, data_size: usize) -> (res: Result<Vec<u8>, Error>)
    ensures
        expanded@.len() == data_size ==> (res matches Ok(v) && v@ == expanded@),
        expanded@.len() != data_size ==> (res matches Err(Error::InvalidResource(m)) && m@
            == "decoded entry has "@ + decimal(expanded@.len()) + " bytes, expected "@ + decimal(
            data_size as nat,
        )),
{
    if expanded.len() != data_size {
        let mut message = String::from_str("decoded entry has ");
        let got = decimal_string(expanded.len() as u64);
        message.append(got.as_str());
        message.append(" bytes, expected ");
        let want = decimal_string(data_size as u64);
        message.append(want.as_str());
        return Err(resource_error(message));
    }
    Ok(expanded)
}

impl ResourceArchive {
    /// Reads and, unless stored expanded (strategy 5), inflates an entry;
    /// entries above 1 MiB are refused before anything is read. An entry
    /// read before, through this archive or a clone of it, is handed out
    /// again from the shared cache.
    pub fn load_entry(&self, entry: PartInfo) -> (res: Result<Arc<Vec<u8>>, Error>)
        ensures
            res is Ok <==> entry_payload(self@, entry) is Some,
            res matches Ok(v) ==> v@ == entry_payload(self@, entry)->0,
            entry_payload(self@, entry) is None ==> (res matches Err(error) && entry_failure(
                self@,
                entry,
                error,
            )),
    {
        proof {
            use_type_invariant(self);
        }
        let data_size = entry.data_size;
        if data_size > MAX_EXPANDED_ENTRY_SIZE {
            let mut message = String::from_str("expanded entry has ");
            let size_text = decimal_string(data_size as u64);
            message.append(size_text.as_str());
            message.append(" bytes, maximum is 1048576");
            return Err(resource_error(message));
        }
        if data_size == 0 {
            return Ok(Arc::new(Vec::new()));
        }
        let cache: &InvCell<ExpandedEntries, spec_fn(ExpandedEntries) -> bool> = &*self.expanded_entries;
        let entries = cache.replace(Vec::new());
        let cached = kept_entry(&entries, entry);
        cache.set(entries);
        if let Some(expanded) = cached {
            return Ok(expanded);
        }
        let stored_size = if entry.strategy == 5 {
            data_size
        } else {
            entry.compressed_size
        };
        let stored = match checked_slice(self.bytes.as_slice(), entry.data_pos, stored_size) {
            Ok(stored) => stored,
            Err(error) => return Err(error),
        };
        let expanded = if entry.strategy == 5 {
            vstd::slice::slice_to_vec(stored)
        } else {
            if entry.strategy > 4 {
                let mut message = String::from_str("unsupported compression strategy ");
                let strategy_text = decimal_string(entry.strategy as u64);
                message.append(strategy_text.as_str());
                return Err(resource_error(message));
            }
            let output_limit = data_size + 1;
            let inflated = match zlib_inflate(stored, output_limit as u64) {
                Ok(inflated) => inflated,
                Err(error) => {
                    return Err(
                        resource_source(String::from_str("zlib decompression failed"), error),
                    );
                },
            };
            match check_expanded(inflated, data_size) {
                Ok(inflated) => inflated,
                Err(error) => return Err(error),
            }
        };
        let mut entries = cache.replace(Vec::new());
        let shared = match kept_entry(&entries, entry) {
            Some(kept) => kept,
            None => {
                let shared = Arc::new(expanded);
                let ghost before = entries@;
                entries.push((entry, shared.clone()));
                assert(entries_hold(self@, entries)) by {
                    assert forall|i: int| 0 <= i < entries@.len() implies entry_payload(
                        self@,
                        (#[trigger] entries@[i]).0,
                    ) == Some(entries@[i].1@) by {
                        if i < before.len() {
                            assert(entries@[i] == before[i]);
                        }
                    }
                }
                shared
            },
        };
        cache.set(entries);
        Ok(shared)
    }

    /// Rejects a shape index beyond the archive's table.
    pub fn require_shape(part: ShapePart, index: usize) -> (res: Result<(), Error>)
        ensures
            index < shape_count(part) ==> res is Ok,
            index >= shape_count(part) ==> res == Err::<(), Error>(
                Error::UnsupportedResource {
                    kind: ResourceKind::Shape,
                    part: part.spec_name(),
                    index,
                    available: shape_count(part),
                },
            ),
    {
        require_entry(ResourceKind::Shape, part.name(), index, SHAPE_COUNTS[part.index()])
    }

    /// Rejects a texture index beyond the archive's table.
    pub fn require_texture(part: TexturePart, index: usize) -> (res: Result<(), Error>)
        ensures
            index < texture_count(part) ==> res is Ok,
            index >= texture_count(part) ==> res == Err::<(), Error>(
                Error::UnsupportedResource {
                    kind: ResourceKind::Texture,
                    part: part.spec_name(),
                    index,
                    available: texture_count(part),
                },
            ),
    {
        require_entry(
            ResourceKind::Texture,
            part.name(),
            index,
            AFL_2_3_TEXTURE_COUNTS[part.index()],
        )
    }

    /// The table entry of texture `index` of `part`.
    pub fn texture_entry(&self, part: TexturePart, index: usize) -> (res: Result<PartInfo, Error>)
        ensures
            index >= texture_count(part) ==> res == Err::<PartInfo, Error>(
                Error::UnsupportedResource {
                    kind: ResourceKind::Texture,
                    part: part.spec_name(),
                    index,
                    available: texture_count(part),
                },
            ),
            index < texture_count(part) ==> res == Ok::<PartInfo, Error>(
                part_info_at(self@, texture_entry_offset(part, index as int)),
            ),
    {
        proof {
            use_type_invariant(self);
            lemma_count_sums();
        }
        match ResourceArchive::require_texture(part, index) {
            Ok(()) => {},
            Err(error) => return Err(error),
        }
        proof {
            lemma_entries_inside_header(part, index as int, ShapePart::Beard, 0);
        }
        entry_at(
            self.bytes.as_slice(),
            BASE_HEADER_SIZE + 11 * 4,
            &AFL_2_3_TEXTURE_COUNTS,
            part.index(),
            index,
        )
    }

    /// The table entry of shape `index` of `part`.
    pub fn shape_entry(&self, part: ShapePart, index: usize) -> (res: Result<PartInfo, Error>)
        ensures
            index >= shape_count(part) ==> res == Err::<PartInfo, Error>(
                Error::UnsupportedResource {
                    kind: ResourceKind::Shape,
                    part: part.spec_name(),
                    index,
                    available: shape_count(part),
                },
            ),
            index < shape_count(part) ==> res == Ok::<PartInfo, Error>(
                part_info_at(self@, shape_entry_offset(part, index as int)),
            ),
    {
        proof {
            use_type_invariant(self);
            lemma_count_sums();
        }
        match ResourceArchive::require_shape(part, index) {
            Ok(()) => {},
            Err(error) => return Err(error),
        }
        proof {
            lemma_entries_inside_header(TexturePart::Beard, 0, part, index as int);
        }
        entry_at(
            self.bytes.as_slice(),
            BASE_HEADER_SIZE + AFL_2_3_HIGH_TEXTURE_HEADER_SIZE + 12 * 4,
            &SHAPE_COUNTS,
            part.index(),
            index,
        )
    }
}


// ---------------------------------------------------------------------------
// Textures
// ---------------------------------------------------------------------------

/// The pixel layout that footer code `code` (at most 2) names.
pub open spec fn texture_format_of(code: u8) -> TextureFormat {
    if code == 0 {
        TextureFormat::R8
    } else if code == 1 {
        TextureFormat::Rg8
    } else {
        TextureFormat::Rgba8
    }
}

pub open spec fn texture_width(data: Seq<u8>) -> u16 {
    be_u16(data, data.len() - 8)
}

pub open spec fn texture_height(data: Seq<u8>) -> u16 {
    be_u16(data, data.len() - 6)
}

pub open spec fn texture_format_code(data: Seq<u8>) -> u8 {
    data[data.len() - 3]
}

/// Bytes of pixels that the footer of `data` announces.
pub open spec fn texture_pixel_bytes(data: Seq<u8>) -> int {
    texture_width(data) * texture_height(data) * texture_format_of(
        texture_format_code(data),
    ).spec_bytes_per_pixel()
}

/// The first check that a texture entry fails, as its message. A texture is
/// its linear base level followed by a 12-byte footer holding the big-endian
/// width and height at 4 and 6 and the format code at 9.
pub open spec fn texture_error(data: Seq<u8>) -> Option<Seq<char>> {
    if data.len() < 12 {
        Some("texture is shorter than its 12-byte footer"@)
    } else if texture_width(data) == 0 || texture_height(data) == 0 {
        Some(
            "texture dimensions must be nonzero, got "@ + decimal(texture_width(data) as nat) + "x"@
                + decimal(texture_height(data) as nat),
        )
    } else if texture_format_code(data) > 2 {
        Some("unsupported texture format "@ + decimal(texture_format_code(data) as nat))
    } else if texture_pixel_bytes(data) > usize::MAX {
        Some("texture dimensions overflow"@)
    } else if texture_pixel_bytes(data) > data.len() {
        Some("resource slice is outside the file"@)
    } else {
        None
    }
}

impl Clone for Texture {
    fn clone(&self) -> (res: Texture)
        ensures
            res.width == self.width,
            res.height == self.height,
            res.format == self.format,
            res.pixels@ == self.pixels@,
    {
        Texture {
            width: self.width,
            height: self.height,
            format: self.format,
            pixels: self.pixels.clone(),
        }
    }
}

/// What loading texture `index` of `part` from the archive `bytes` gives.
#[verifier::opaque]
pub open spec fn texture_load(bytes: Seq<u8>, part: TexturePart, index: int, res: Result<Texture, Error>) -> bool {
    if index >= texture_count(part) {
        res == Err::<Texture, Error>(
            Error::UnsupportedResource {
                kind: ResourceKind::Texture,
                part: part.spec_name(),
                index: index as usize,
                available: texture_count(part),
            },
        )
    } else {
        let entry = part_info_at(bytes, texture_entry_offset(part, index));
        match entry_payload(bytes, entry) {
            None => res matches Err(error) && entry_failure(bytes, entry, error),
            Some(payload) => match texture_error(payload) {
                None => res matches Ok(texture) && texture_of(payload, texture) && texture.wf(),
                Some(message) => res matches Err(Error::InvalidResource(m)) && m@ == message,
            },
        }
    }
}

/// Loading a texture either succeeds or fails.
pub proof fn lemma_texture_load_exclusive(
    bytes: Seq<u8>,
    part: TexturePart,
    index: int,
    error: Error,
    texture: Texture,
)
    requires
        texture_load(bytes, part, index, Err(error)),
    ensures
        !texture_load(bytes, part, index, Ok(texture)),
{
    reveal(texture_load);
}

/// `texture` is what the entry `data` holds.
pub open spec fn texture_of(data: Seq<u8>, texture: Texture) -> bool {
    &&& texture.width == texture_width(data)
    &&& texture.height == texture_height(data)
    &&& texture.format == texture_format_of(texture_format_code(data))
    &&& texture.pixels@ == data.subrange(0, texture_pixel_bytes(data))
}

impl Texture {
    /// Decodes a texture entry; a decoded texture is well formed.
    #[verifier::spinoff_prover]
    pub fn decode(data: &[u8]) -> (res: Result<Texture, Error>)
        ensures
            texture_error(data@) is None ==> (res matches Ok(texture) && texture_of(data@, texture)
                && texture.wf()),
            texture_error(data@) matches Some(message) ==> (res matches Err(
                Error::InvalidResource(m),
            ) && m@ == message),
    {
        if data.len() < 12 {
            return Err(
                resource_error(String::from_str("texture is shorter than its 12-byte footer")),
            );
        }
        let footer: usize = data.len() - 12;
        let width = match read_u16(data, footer + 4) {
            Ok(value) => value,
            Err(error) => return Err(error),
        };
        let height = match read_u16(data, footer + 6) {
            Ok(value) => value,
            Err(error) => return Err(error),
        };
        if width == 0 || height == 0 {
            let mut message = String::from_str("texture dimensions must be nonzero, got ");
            let width_text = decimal_string(width as u64);
            message.append(width_text.as_str());
            message.append("x");
            let height_text = decimal_string(height as u64);
            message.append(height_text.as_str());
            proof {
                reveal_strlit("x");
            }
            return Err(resource_error(message));
        }
        let code = data[footer + 9];
        let format = match code {
            0 => TextureFormat::R8,
            1 => TextureFormat::Rg8,
            2 => TextureFormat::Rgba8,
            _ => {
                let mut message = String::from_str("unsupported texture format ");
                let code_text = decimal_string(code as u64);
                message.append(code_text.as_str());
                return Err(resource_error(message));
            },
        };
        let pixel_count = match (width as usize).checked_mul(height as usize) {
            Some(count) => count,
            None => return Err(resource_error(String::from_str("texture dimensions overflow"))),
        };
        let expected = match pixel_count.checked_mul(format.bytes_per_pixel()) {
            Some(expected) => expected,
            None => return Err(resource_error(String::from_str("texture dimensions overflow"))),
        };
        let pixels = match checked_slice(data, 0, expected) {
            Ok(pixels) => vstd::slice::slice_to_vec(pixels),
            Err(error) => return Err(error),
        };
        Ok(Texture { width, height, format, pixels })
    }
}

impl ResourceArchive {
    /// Loads the linear base level of texture `index` of `part`.
    pub fn load_texture(&self, part: TexturePart, index: usize) -> (res: Result<Texture, Error>)
        ensures
            texture_load(self@, part, index as int, res),
    {
        proof {
            reveal(texture_load);
        }
        let entry = match self.texture_entry(part, index) {
            Ok(entry) => entry,
            Err(error) => return Err(error),
        };
        let payload = match self.load_entry(entry) {
            Ok(payload) => payload,
            Err(error) => return Err(error),
        };
        Texture::decode(payload.as_slice())
    }
}

} // verus!
