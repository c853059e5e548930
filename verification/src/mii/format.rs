use vstd::prelude::*;

use super::{ColorMode, Mii};
use crate::data::MiiFormat;
use crate::error::Error;

verus! {

/// How a packed field's 16-bit word is assembled from the serialized bytes.
#[derive(Clone, Copy, PartialEq, Eq, Structural)]
pub enum WordOrder {
    /// The word is the single byte at the offset.
    Byte,
    /// Two bytes, least significant first.
    Little,
    /// Two bytes, most significant first.
    Big,
}

/// The number of bytes a word of this order occupies.
pub open spec fn word_width(order: WordOrder) -> int {
    match order {
        WordOrder::Byte => 1,
        _ => 2,
    }
}

/// The word at `offset`.
pub open spec fn word_at(bytes: Seq<u8>, offset: int, order: WordOrder) -> u16 {
    match order {
        WordOrder::Byte => bytes[offset] as u16,
        WordOrder::Little => (bytes[offset] + bytes[offset + 1] * 256) as u16,
        WordOrder::Big => (bytes[offset] * 256 + bytes[offset + 1]) as u16,
    }
}

/// Bits `shift..shift + bits` of `value`, lowest bit first.
pub open spec fn bits_of(value: u16, shift: u32, bits: u32) -> u8 {
    ((value >> shift) & (((1u16 << bits) - 1) as u16)) as u8
}

/// The field that layout entry `entry` (offset, shift, bit count, addend)
/// describes.
pub open spec fn packed_field(bytes: Seq<u8>, entry: [u8; 4], order: WordOrder) -> u8 {
    (bits_of(word_at(bytes, entry[0] as int, order), entry[1] as u32, entry[2] as u32) + entry[3])
        as u8
}

/// Every entry of `layout` stays inside `len` bytes and yields a byte.
pub open spec fn layout_fits(layout: Seq<[u8; 4]>, order: WordOrder, len: int) -> bool {
    &&& layout.len() == 46
    &&& forall|k: int|
        #![trigger layout[k]]
        0 <= k < 46 ==> {
            &&& layout[k][0] + word_width(order) <= len
            &&& layout[k][1] < 16
            &&& layout[k][2] <= 8
            &&& (layout[k][3] == 0 || (layout[k][2] < 8 && layout[k][3] <= 128))
        }
}

/// All 46 fields that `layout` describes, in Studio order.
pub open spec fn packed_fields(bytes: Seq<u8>, layout: Seq<[u8; 4]>, order: WordOrder) -> Seq<u8> {
    Seq::new(46, |k: int| packed_field(bytes, layout[k], order))
}

/// Switch core data (`nn::mii::detail::CoreDataRaw`): byte, shift, bits, addend.
pub const SWITCH_CORE_LAYOUT: [[u8; 4]; 46] = [
    [7, 0, 7, 0], [13, 5, 3, 0], [2, 0, 7, 0], [17, 5, 3, 0], [4, 0, 7, 0], [16, 5, 3, 0],
    [18, 5, 3, 0], [9, 0, 6, 0], [23, 4, 4, 0], [11, 0, 5, 0], [15, 5, 3, 0], [5, 0, 7, 0],
    [24, 4, 4, 0], [24, 0, 4, 0], [12, 0, 5, 0], [25, 0, 4, 0], [25, 4, 4, 3], [22, 0, 4, 0],
    [23, 0, 4, 0], [21, 4, 4, 0], [22, 4, 4, 0], [21, 0, 4, 0], [4, 7, 1, 0], [8, 0, 7, 0],
    [11, 5, 3, 0], [20, 0, 5, 0], [17, 0, 5, 0], [3, 0, 7, 0], [2, 7, 1, 0], [0, 0, 8, 0],
    [1, 0, 7, 0], [27, 4, 4, 0], [1, 7, 1, 0], [18, 0, 5, 0], [19, 0, 5, 0], [14, 5, 3, 0],
    [6, 0, 7, 0], [26, 4, 4, 0], [10, 0, 6, 0], [15, 0, 5, 0], [27, 0, 4, 0], [12, 5, 3, 0],
    [16, 0, 5, 0], [26, 0, 4, 0], [13, 0, 5, 0], [14, 0, 5, 0],
];

/// Switch `CharInfo`: the byte that holds each field.
pub const SWITCH_CHAR_INFO_LAYOUT: [[u8; 4]; 46] = [
    [74, 0, 8, 0], [75, 0, 8, 0], [42, 0, 8, 0], [55, 0, 8, 0], [53, 0, 8, 0], [56, 0, 8, 0],
    [54, 0, 8, 0], [52, 0, 8, 0], [57, 0, 8, 0], [58, 0, 8, 0], [62, 0, 8, 0], [60, 0, 8, 0],
    [63, 0, 8, 0], [61, 0, 8, 0], [59, 0, 8, 0], [64, 0, 8, 0], [65, 0, 8, 0], [46, 0, 8, 0],
    [48, 0, 8, 0], [45, 0, 8, 0], [47, 0, 8, 0], [39, 0, 8, 0], [40, 0, 8, 0], [80, 0, 8, 0],
    [81, 0, 8, 0], [79, 0, 8, 0], [82, 0, 8, 0], [50, 0, 8, 0], [51, 0, 8, 0], [49, 0, 8, 0],
    [41, 0, 8, 0], [84, 0, 8, 0], [83, 0, 8, 0], [85, 0, 8, 0], [86, 0, 8, 0], [72, 0, 8, 0],
    [70, 0, 8, 0], [71, 0, 8, 0], [69, 0, 8, 0], [73, 0, 8, 0], [77, 0, 8, 0], [76, 0, 8, 0],
    [78, 0, 8, 0], [67, 0, 8, 0], [66, 0, 8, 0], [68, 0, 8, 0],
];

/// Wii U `FFLiMiiDataCore`: little-endian word offset, shift, bits, addend.
pub const FFL_LAYOUT: [[u8; 4]; 46] = [
    [66, 3, 3, 0], [66, 0, 3, 0], [46, 8, 8, 0], [52, 13, 3, 0], [52, 6, 3, 0], [54, 0, 5, 0],
    [52, 9, 4, 0], [52, 0, 6, 0], [54, 5, 4, 0], [54, 9, 5, 0], [56, 12, 3, 0], [56, 5, 3, 0],
    [58, 0, 5, 0], [56, 8, 4, 0], [56, 0, 5, 0], [58, 5, 4, 0], [58, 9, 5, 0], [48, 5, 3, 0],
    [48, 12, 4, 0], [48, 1, 4, 0], [48, 8, 4, 0], [24, 10, 4, 0], [24, 0, 1, 0], [68, 4, 3, 0],
    [68, 7, 4, 0], [68, 0, 4, 0], [68, 11, 5, 0], [50, 8, 3, 0], [50, 11, 1, 0], [50, 0, 8, 0],
    [46, 0, 8, 0], [70, 1, 4, 0], [70, 0, 1, 0], [70, 5, 5, 0], [70, 10, 5, 0], [62, 13, 3, 0],
    [62, 6, 3, 0], [62, 9, 4, 0], [62, 0, 6, 0], [64, 0, 5, 0], [66, 6, 4, 0], [64, 5, 3, 0],
    [66, 10, 5, 0], [60, 5, 4, 0], [60, 0, 5, 0], [60, 9, 5, 0],
];

/// Wii `RFLiCharData`: big-endian word offset, shift, bits, addend. The
/// aspects that this format lacks read as the constant 3; the faceline line
/// and makeup (fields 18 and 20) come from [`RFL_FACE_LINE_AND_MAKE`].
pub const RFL_LAYOUT: [[u8; 4]; 46] = [
    [50, 9, 3, 0], [50, 12, 2, 0], [22, 0, 8, 0], [0, 0, 0, 3], [42, 13, 3, 0], [40, 5, 5, 0],
    [42, 9, 4, 0], [40, 10, 6, 0], [42, 5, 4, 0], [40, 0, 5, 0], [0, 0, 0, 3], [38, 13, 3, 0],
    [36, 6, 5, 0], [38, 9, 4, 0], [36, 11, 5, 0], [38, 0, 4, 0], [38, 4, 5, 0], [32, 10, 3, 0],
    [0, 0, 0, 0], [32, 13, 3, 0], [0, 0, 0, 0], [0, 1, 4, 0], [0, 14, 1, 0], [48, 9, 3, 0],
    [48, 5, 4, 0], [48, 12, 4, 0], [48, 0, 5, 0], [34, 6, 3, 0], [34, 5, 1, 0], [34, 9, 7, 0],
    [22, 8, 8, 0], [52, 11, 4, 0], [52, 15, 1, 0], [52, 1, 5, 0], [52, 6, 5, 0], [0, 0, 0, 3],
    [46, 9, 2, 0], [46, 5, 4, 0], [46, 11, 5, 0], [46, 0, 5, 0], [50, 5, 4, 0], [50, 14, 2, 0],
    [50, 0, 5, 0], [44, 8, 4, 0], [44, 12, 4, 0], [44, 3, 5, 0],
];

/// Wii faceline code to (wrinkle, makeup).
pub const RFL_FACE_LINE_AND_MAKE: [[u8; 2]; 12] = [
    [0, 0], [0, 1], [0, 6], [0, 9], [5, 0], [2, 0], [3, 0], [7, 0], [8, 0], [0, 10], [9, 0],
    [11, 0],
];

/// Studio URL obfuscation: each byte is XORed with the previous encoded byte
/// after subtracting 7; the first encoded byte is the seed.
pub open spec fn studio_url_decoded(encoded: Seq<u8>) -> Seq<u8> {
    Seq::new(46, |i: int| (((encoded[i + 1] + 256 - 7) % 256) as u8) ^ encoded[i])
}

/// The Switch core data fields.
pub open spec fn switch_core_fields(bytes: Seq<u8>) -> Seq<u8> {
    packed_fields(bytes, SWITCH_CORE_LAYOUT@, WordOrder::Byte)
}

/// The Switch `CharInfo` fields.
pub open spec fn char_info_fields(bytes: Seq<u8>) -> Seq<u8> {
    packed_fields(bytes, SWITCH_CHAR_INFO_LAYOUT@, WordOrder::Byte)
}

/// The Wii U fields.
pub open spec fn ffl_fields(bytes: Seq<u8>) -> Seq<u8> {
    packed_fields(bytes, FFL_LAYOUT@, WordOrder::Little)
}

/// The 4-bit Wii faceline line-and-makeup code.
pub open spec fn rfl_line_and_make(bytes: Seq<u8>) -> u8 {
    bits_of(word_at(bytes, 32, WordOrder::Big), 6, 4)
}

/// The Wii fields, for a faceline code below 12.
pub open spec fn rfl_fields(bytes: Seq<u8>) -> Seq<u8> {
    let code = rfl_line_and_make(bytes) as int;
    packed_fields(bytes, RFL_LAYOUT@, WordOrder::Big).update(
        18,
        RFL_FACE_LINE_AND_MAKE@[code][1],
    ).update(20, RFL_FACE_LINE_AND_MAKE@[code][0])
}

/// One step of the CCITT CRC-16 register (polynomial 0x1021, MSB first).
pub open spec fn crc_shift(crc: u16) -> u16 {
    if crc & 0x8000 == 0 {
        crc << 1u16
    } else {
        (crc << 1u16) ^ 0x1021
    }
}

pub open spec fn crc_shifted(crc: u16, n: nat) -> u16
    decreases n,
{
    if n == 0 {
        crc
    } else {
        crc_shift(crc_shifted(crc, (n - 1) as nat))
    }
}

/// The CRC-16 register after feeding in `bytes` from a zero start. Data whose
/// trailing checksum is right yields zero.
pub open spec fn crc16(bytes: Seq<u8>) -> u16
    decreases bytes.len(),
{
    if bytes.len() == 0 {
        0
    } else {
        crc_shifted(crc16(bytes.drop_last()), 8) ^ (bytes.last() as u16)
    }
}

/// Extracts bits `shift..shift + bits` of `value`.
pub fn bit_range(value: u16, shift: u32, bits: u32) -> (res: u8)
    requires
        shift < 16,
        bits <= 8,
    ensures
        res == bits_of(value, shift, bits),
        bits < 8 ==> res < 128,
{
    let one: u16 = 1;
    assert(one << bits >= 1 && one << bits <= 256) by (bit_vector)
        requires
            one == 1,
            bits <= 8,
    ;
    let mask = (one << bits) - 1;
    let masked = (value >> shift) & mask;
    assert(masked < 256) by (bit_vector)
        requires
            masked == (value >> shift) & mask,
            mask < 256,
    ;
    assert(bits < 8 ==> masked < 128) by (bit_vector)
        requires
            masked == (value >> shift) & mask,
            mask == (one << bits) - 1,
            one == 1,
    ;
    masked as u8
}

/// The little-endian word at `offset`.
pub fn read_u16_le(bytes: &[u8], offset: usize) -> (res: u16)
    requires
        offset + 1 < bytes@.len(),
    ensures
        res == word_at(bytes@, offset as int, WordOrder::Little),
{
    let low = bytes[offset] as u16;
    let high = bytes[offset + 1] as u16;
    assert(low | (high << 8u16) == low + high * 256) by (bit_vector)
        requires
            low < 256,
            high < 256,
    ;
    low | (high << 8u16)
}

/// The big-endian word at `offset`.
pub fn read_u16_be(bytes: &[u8], offset: usize) -> (res: u16)
    requires
        offset + 1 < bytes@.len(),
    ensures
        res == word_at(bytes@, offset as int, WordOrder::Big),
{
    let high = bytes[offset] as u16;
    let low = bytes[offset + 1] as u16;
    assert((high << 8u16) | low == high * 256 + low) by (bit_vector)
        requires
            low < 256,
            high < 256,
    ;
    (high << 8u16) | low
}

/// Reads the 46 fields that `layout` describes.
fn decode_packed(bytes: &[u8], layout: &[[u8; 4]; 46], order: WordOrder) -> (res: [u8; 46])
    requires
        layout_fits(layout@, order, bytes@.len() as int),
    ensures
        res@ == packed_fields(bytes@, layout@, order),
{
    let mut fields = [0u8; 46];
    let mut k: usize = 0;
    while k < 46
        invariant
            k <= 46,
            layout_fits(layout@, order, bytes@.len() as int),
            forall|j: int| 0 <= j < k ==> #[trigger] fields@[j] == packed_field(bytes@, layout@[j], order),
        decreases 46 - k,
    {
        let entry = layout[k];
        assert(entry == layout@[k as int]);
        let offset = entry[0] as usize;
        let word = match order {
            WordOrder::Byte => bytes[offset] as u16,
            WordOrder::Little => read_u16_le(bytes, offset),
            WordOrder::Big => read_u16_be(bytes, offset),
        };
        let value = bit_range(word, entry[1] as u32, entry[2] as u32);
        fields[k] = value + entry[3];
        k = k + 1;
    }
    assert(fields@ =~= packed_fields(bytes@, layout@, order));
    fields
}

/// Removes the Studio URL obfuscation from 47 encoded bytes.
pub fn decode_studio_url(bytes: &[u8]) -> (res: Result<[u8; 46], Error>)
    ensures
        bytes@.len() == 47 ==> (res matches Ok(decoded) && decoded@ == studio_url_decoded(bytes@)),
        bytes@.len() != 47 ==> (res matches Err(Error::UnsupportedDataLength(n)) && n
            == bytes@.len()),
{
    if bytes.len() != 47 {
        return Err(Error::UnsupportedDataLength(bytes.len()));
    }
    let mut decoded = [0u8; 46];
    let mut previous = bytes[0];
    let mut i: usize = 0;
    while i < 46
        invariant
            i <= 46,
            bytes@.len() == 47,
            previous == bytes@[i as int],
            forall|j: int| 0 <= j < i ==> #[trigger] decoded@[j] == studio_url_decoded(bytes@)[j],
        decreases 46 - i,
    {
        let input = bytes[i + 1];
        decoded[i] = input.wrapping_sub(7) ^ previous;
        previous = input;
        i = i + 1;
    }
    assert(decoded@ =~= studio_url_decoded(bytes@));
    Ok(decoded)
}

/// Decodes Switch `CharInfo` (88 bytes).
pub fn decode_switch_char_info(bytes: &[u8]) -> (res: Result<Mii, Error>)
    ensures
        bytes@.len() == 88 ==> (res matches Ok(mii) && mii.fields@ == char_info_fields(bytes@)
            && mii.color_mode == ColorMode::Common),
        bytes@.len() != 88 ==> (res matches Err(Error::UnsupportedDataLength(n)) && n
            == bytes@.len()),
{
    if bytes.len() != 88 {
        return Err(Error::UnsupportedDataLength(bytes.len()));
    }
    let fields = decode_packed(bytes, &SWITCH_CHAR_INFO_LAYOUT, WordOrder::Byte);
    Ok(Mii { fields, color_mode: ColorMode::Common })
}

/// Decodes Switch core data (48 bytes, or the 68-byte store data holding it).
pub fn decode_switch_core_data(bytes: &[u8]) -> (res: Result<Mii, Error>)
    ensures
        (bytes@.len() == 48 || bytes@.len() == 68) ==> (res matches Ok(mii) && mii.fields@
            == switch_core_fields(bytes@) && mii.color_mode == ColorMode::Common),
        !(bytes@.len() == 48 || bytes@.len() == 68) ==> (res matches Err(
            Error::UnsupportedDataLength(n),
        ) && n == bytes@.len()),
{
    if bytes.len() != 48 && bytes.len() != 68 {
        return Err(Error::UnsupportedDataLength(bytes.len()));
    }
    let fields = decode_packed(bytes, &SWITCH_CORE_LAYOUT, WordOrder::Byte);
    Ok(Mii { fields, color_mode: ColorMode::Common })
}

/// Decodes Wii U Mii data (the first 72 bytes of any FFL container).
pub fn decode_ffl_mii_data(bytes: &[u8]) -> (res: Mii)
    requires
        bytes@.len() >= 72,
    ensures
        res.fields@ == ffl_fields(bytes@),
        res.color_mode == ColorMode::Ver3,
{
    let fields = decode_packed(bytes, &FFL_LAYOUT, WordOrder::Little);
    Mii { fields, color_mode: ColorMode::Ver3 }
}

/// Decodes Wii character data (the first 54 bytes of any RFL container).
pub fn decode_rfl_char_data(bytes: &[u8]) -> (res: Result<Mii, Error>)
    requires
        bytes@.len() >= 54,
    ensures
        rfl_line_and_make(bytes@) < 12 ==> (res matches Ok(mii) && mii.fields@ == rfl_fields(
            bytes@,
        ) && mii.color_mode == ColorMode::Ver3),
        rfl_line_and_make(bytes@) >= 12 ==> res == Err::<Mii, Error>(
            Error::InvalidMii {
                field: "faceline_line_and_make",
                value: rfl_line_and_make(bytes@),
                min: 0,
                max: 11,
            },
        ),
{
    let face = read_u16_be(bytes, 32);
    let line_and_make = bit_range(face, 6, 4);
    if line_and_make >= 12 {
        return Err(
            Error::InvalidMii { field: "faceline_line_and_make", value: line_and_make, min: 0, max: 11 },
        );
    }
    let mut fields = decode_packed(bytes, &RFL_LAYOUT, WordOrder::Big);
    let pair = RFL_FACE_LINE_AND_MAKE[line_and_make as usize];
    fields[20] = pair[0];
    fields[18] = pair[1];
    assert(fields@ =~= rfl_fields(bytes@));
    Ok(Mii { fields, color_mode: ColorMode::Ver3 })
}

/// Checks the trailing CRC-16 of store data.
pub fn verify_crc16(bytes: &[u8], format: MiiFormat) -> (res: Result<(), Error>)
    ensures
        crc16(bytes@) == 0 ==> res is Ok,
        crc16(bytes@) != 0 ==> (res matches Err(Error::InvalidMiiChecksum(f)) && f == format),
{
    let mut crc: u16 = 0;
    let mut i: usize = 0;
    while i < bytes.len()
        invariant
            i <= bytes@.len(),
            crc == crc16(bytes@.take(i as int)),
        decreases bytes@.len() - i,
    {
        let start = crc;
        let mut round: u32 = 0;
        while round < 8
            invariant
                round <= 8,
                crc == crc_shifted(start, round as nat),
            decreases 8 - round,
        {
            crc = if crc & 0x8000 == 0 {
                crc << 1u16
            } else {
                (crc << 1u16) ^ 0x1021
            };
            round = round + 1;
        }
        crc = crc ^ (bytes[i] as u16);
        assert(bytes@.take(i + 1).drop_last() =~= bytes@.take(i as int));
        i = i + 1;
    }
    assert(bytes@.take(bytes@.len() as int) =~= bytes@);
    if crc == 0 {
        Ok(())
    } else {
        Err(Error::InvalidMiiChecksum(format))
    }
}

} // verus!
