use vstd::prelude::*;

use crate::data::{MiiData, MiiFormat};
use crate::error::Error;

pub mod format;

use format::{
    char_info_fields, crc16, ffl_fields, rfl_fields, rfl_line_and_make, studio_url_decoded,
    switch_core_fields, RFL_FACE_LINE_AND_MAKE,
};

verus! {

/// Number of fields, and of bytes, in the Mii Studio representation.
pub const STUDIO_FIELD_COUNT: usize = 46;

pub const BEARD_COLOR: usize = 0;
pub const BEARD_TYPE: usize = 1;
pub const BUILD: usize = 2;
pub const EYE_ASPECT: usize = 3;
pub const EYE_COLOR: usize = 4;
pub const EYE_ROTATE: usize = 5;
pub const EYE_SCALE: usize = 6;
pub const EYE_TYPE: usize = 7;
pub const EYE_X: usize = 8;
pub const EYE_Y: usize = 9;
pub const EYEBROW_ASPECT: usize = 10;
pub const EYEBROW_COLOR: usize = 11;
pub const EYEBROW_ROTATE: usize = 12;
pub const EYEBROW_SCALE: usize = 13;
pub const EYEBROW_TYPE: usize = 14;
pub const EYEBROW_X: usize = 15;
pub const EYEBROW_Y: usize = 16;
pub const FACELINE_COLOR: usize = 17;
pub const FACELINE_MAKE: usize = 18;
pub const FACELINE_TYPE: usize = 19;
pub const FACELINE_WRINKLE: usize = 20;
pub const FAVORITE_COLOR: usize = 21;
pub const GENDER: usize = 22;
pub const GLASS_COLOR: usize = 23;
pub const GLASS_SCALE: usize = 24;
pub const GLASS_TYPE: usize = 25;
pub const GLASS_Y: usize = 26;
pub const HAIR_COLOR: usize = 27;
pub const HAIR_FLIP: usize = 28;
pub const HAIR_TYPE: usize = 29;
pub const HEIGHT: usize = 30;
pub const MOLE_SCALE: usize = 31;
pub const MOLE_TYPE: usize = 32;
pub const MOLE_X: usize = 33;
pub const MOLE_Y: usize = 34;
pub const MOUTH_ASPECT: usize = 35;
pub const MOUTH_COLOR: usize = 36;
pub const MOUTH_SCALE: usize = 37;
pub const MOUTH_TYPE: usize = 38;
pub const MOUTH_Y: usize = 39;
pub const MUSTACHE_SCALE: usize = 40;
pub const MUSTACHE_TYPE: usize = 41;
pub const MUSTACHE_Y: usize = 42;
pub const NOSE_SCALE: usize = 43;
pub const NOSE_TYPE: usize = 44;
pub const NOSE_Y: usize = 45;

/// Field names in Studio byte order.
pub const STUDIO_FIELD_NAMES: [&'static str; 46] = [
    "beard_color",
    "beard_type",
    "build",
    "eye_aspect",
    "eye_color",
    "eye_rotate",
    "eye_scale",
    "eye_type",
    "eye_x",
    "eye_y",
    "eyebrow_aspect",
    "eyebrow_color",
    "eyebrow_rotate",
    "eyebrow_scale",
    "eyebrow_type",
    "eyebrow_x",
    "eyebrow_y",
    "faceline_color",
    "faceline_make",
    "faceline_type",
    "faceline_wrinkle",
    "favorite_color",
    "gender",
    "glass_color",
    "glass_scale",
    "glass_type",
    "glass_y",
    "hair_color",
    "hair_flip",
    "hair_type",
    "height",
    "mole_scale",
    "mole_type",
    "mole_x",
    "mole_y",
    "mouth_aspect",
    "mouth_color",
    "mouth_scale",
    "mouth_type",
    "mouth_y",
    "mustache_scale",
    "mustache_type",
    "mustache_y",
    "nose_scale",
    "nose_type",
    "nose_y",
];

/// Largest value of each field that Mii Studio data may hold.
pub const STUDIO_FIELD_MAX: [u8; 46] = [
    99, 5, 127, 6, 99, 7, 7, 59, 12, 18, 6, 99, 11, 8, 23, 12, 18, 9, 11, 11, 11, 11, 1, 99, 7, 19, 20, 99, 1, 131, 127, 8, 1, 16, 30, 6, 99, 8, 35, 18, 8, 5, 16, 8, 17, 18,
];

/// Smallest value of each Studio field: only `eyebrow_y` starts above zero.
pub open spec fn studio_min(offset: int) -> u8 {
    if offset == EYEBROW_Y as int {
        3
    } else {
        0
    }
}

/// Color tables that a decoded Mii's color indices refer to.
#[derive(Clone, Copy, Debug, PartialEq, Eq, Structural)]
pub enum ColorMode {
    /// Switch common-color table (100 entries).
    Common,
    /// Wii and Wii U version 3 tables (8 or fewer entries).
    Ver3,
}

/// The accepted range of one Studio field.
#[derive(Clone, Copy, Debug, PartialEq, Eq)]
pub struct StudioFieldRule {
    pub offset: usize,
    pub name: &'static str,
    pub min: u8,
    pub max: u8,
}

/// The Studio rule for the field at `offset`.
pub fn studio_field_rule(offset: usize) -> (rule: StudioFieldRule)
    requires
        offset < STUDIO_FIELD_COUNT,
    ensures
        rule.offset == offset,
        rule.name == STUDIO_FIELD_NAMES@[offset as int],
        rule.min == studio_min(offset as int),
        rule.max == STUDIO_FIELD_MAX@[offset as int],
{
    let min = if offset == EYEBROW_Y {
        3
    } else {
        0
    };
    StudioFieldRule {
        offset,
        name: STUDIO_FIELD_NAMES[offset],
        min,
        max: STUDIO_FIELD_MAX[offset],
    }
}

/// Renderer-facing Mii parameters: the 46 fields in Mii Studio order (see
/// the offset constants) and the color tables their color indices refer to.
#[derive(Clone, Copy, Debug, PartialEq, Eq)]
pub struct Mii {
    pub fields: [u8; 46],
    pub color_mode: ColorMode,
}

/// The upper bound of a decoded field: some formats store wider values or
/// smaller color tables than Mii Studio.
pub open spec fn decoded_max(offset: int, studio_max: u8, color_mode: ColorMode) -> u8 {
    if offset == 2 || offset == 30 {
        128
    } else if offset == 14 {
        27
    } else if color_mode == ColorMode::Ver3 && (offset == 0 || offset == 11 || offset == 27) {
        7
    } else if color_mode == ColorMode::Ver3 && (offset == 4 || offset == 23) {
        5
    } else if color_mode == ColorMode::Ver3 && offset == 25 {
        8
    } else if color_mode == ColorMode::Ver3 && offset == 36 {
        4
    } else {
        studio_max
    }
}

/// The upper bound of a decoded field (see [`decoded_max`]).
pub fn decoded_field_max(offset: usize, studio_max: u8, color_mode: ColorMode) -> (res: u8)
    ensures
        res == decoded_max(offset as int, studio_max, color_mode),
{
    match (offset, color_mode) {
        (2, _) | (30, _) => 128,
        (14, _) => 27,
        (0, ColorMode::Ver3) | (11, ColorMode::Ver3) | (27, ColorMode::Ver3) => 7,
        (4, ColorMode::Ver3) | (23, ColorMode::Ver3) => 5,
        (25, ColorMode::Ver3) => 8,
        (36, ColorMode::Ver3) => 4,
        _ => studio_max,
    }
}

/// Which bounds a set of fields is held to.
#[derive(Clone, Copy, PartialEq, Eq, Structural)]
pub enum FieldLimits {
    /// The ranges of serialized Mii Studio data.
    Studio,
    /// The ranges of a decoded Mii with the given color tables.
    Decoded(ColorMode),
}

pub open spec fn field_max(offset: int, limits: FieldLimits) -> u8 {
    match limits {
        FieldLimits::Studio => STUDIO_FIELD_MAX@[offset],
        FieldLimits::Decoded(mode) => decoded_max(offset, STUDIO_FIELD_MAX@[offset], mode),
    }
}

pub open spec fn field_in_range(fields: Seq<u8>, limits: FieldLimits, offset: int) -> bool {
    studio_min(offset) <= fields[offset] <= field_max(offset, limits)
}

/// The first field, at `from` or later, that is out of range.
pub open spec fn first_violation(fields: Seq<u8>, limits: FieldLimits, from: int) -> Option<int>
    decreases 46 - from,
{
    if from >= 46 || from < 0 {
        None
    } else if !field_in_range(fields, limits, from) {
        Some(from)
    } else {
        first_violation(fields, limits, from + 1)
    }
}

/// The error that reports field `offset` as out of range.
pub open spec fn violation(fields: Seq<u8>, limits: FieldLimits, offset: int) -> Error {
    Error::InvalidMii {
        field: STUDIO_FIELD_NAMES@[offset],
        value: fields[offset],
        min: studio_min(offset),
        max: field_max(offset, limits),
    }
}

/// The outcome of checking `fields` against `limits`.
pub open spec fn checked(fields: Seq<u8>, limits: FieldLimits) -> Result<(), Error> {
    match first_violation(fields, limits, 0) {
        None => Ok(()),
        Some(k) => Err(violation(fields, limits, k)),
    }
}

/// `first_violation` finds nothing exactly when every field is in range.
pub proof fn lemma_first_violation(fields: Seq<u8>, limits: FieldLimits, from: int)
    requires
        0 <= from <= 46,
    ensures
        first_violation(fields, limits, from) is None <==> forall|k: int|
            from <= k < 46 ==> #[trigger] field_in_range(fields, limits, k),
        first_violation(fields, limits, from) matches Some(k) ==> from <= k < 46
            && !field_in_range(fields, limits, k) && forall|j: int|
            from <= j < k ==> #[trigger] field_in_range(fields, limits, j),
    decreases 46 - from,
{
    if from < 46 {
        lemma_first_violation(fields, limits, from + 1);
    }
}

/// `res` is the Mii with `fields` and `mode` if every field is in its
/// decoded range, and otherwise the error for the first one that is not.
pub open spec fn checked_mii(fields: Seq<u8>, mode: ColorMode, res: Result<Mii, Error>) -> bool {
    match first_violation(fields, FieldLimits::Decoded(mode), 0) {
        None => res matches Ok(mii) && mii.fields@ == fields && mii.color_mode == mode,
        Some(k) => res == Err::<Mii, Error>(violation(fields, FieldLimits::Decoded(mode), k)),
    }
}

/// Serialized Studio fields are first held to the Studio ranges.
pub open spec fn studio_checked(fields: Seq<u8>, res: Result<Mii, Error>) -> bool {
    match first_violation(fields, FieldLimits::Studio, 0) {
        None => checked_mii(fields, ColorMode::Common, res),
        Some(k) => res == Err::<Mii, Error>(violation(fields, FieldLimits::Studio, k)),
    }
}

pub open spec fn rfl_checked(bytes: Seq<u8>, res: Result<Mii, Error>) -> bool {
    let code = rfl_line_and_make(bytes);
    if code >= 12 {
        res == Err::<Mii, Error>(
            Error::InvalidMii { field: "faceline_line_and_make", value: code, min: 0, max: 11 },
        )
    } else {
        checked_mii(rfl_fields(bytes), ColorMode::Ver3, res)
    }
}

/// What [`Mii::from_data`] gives for serialized `bytes` in `format`.
pub open spec fn from_data_result(format: MiiFormat, bytes: Seq<u8>, res: Result<Mii, Error>) -> bool {
    match format {
        MiiFormat::Studio => studio_checked(bytes, res),
        MiiFormat::StudioUrl => studio_checked(studio_url_decoded(bytes), res),
        MiiFormat::SwitchCoreData | MiiFormat::SwitchStoreData => checked_mii(
            switch_core_fields(bytes),
            ColorMode::Common,
            res,
        ),
        MiiFormat::SwitchCharInfo => checked_mii(char_info_fields(bytes), ColorMode::Common, res),
        MiiFormat::FflMiiDataCore | MiiFormat::FflMiiDataOfficial => checked_mii(
            ffl_fields(bytes),
            ColorMode::Ver3,
            res,
        ),
        MiiFormat::FflStoreData => if crc16(bytes) == 0 {
            checked_mii(ffl_fields(bytes), ColorMode::Ver3, res)
        } else {
            res matches Err(Error::InvalidMiiChecksum(MiiFormat::FflStoreData))
        },
        MiiFormat::RflCharData => rfl_checked(bytes, res),
        MiiFormat::RflStoreData => if crc16(bytes) == 0 {
            rfl_checked(bytes, res)
        } else {
            res matches Err(Error::InvalidMiiChecksum(MiiFormat::RflStoreData))
        },
    }
}

/// Checks each field against `limits`, reporting the first one out of range.
pub fn validate_fields(fields: &[u8; 46], limits: FieldLimits) -> (res: Result<(), Error>)
    ensures
        res == checked(fields@, limits),
{
    let mut k: usize = 0;
    while k < 46
        invariant
            k <= 46,
            first_violation(fields@, limits, 0) == first_violation(fields@, limits, k as int),
        decreases 46 - k,
    {
        let studio_max = STUDIO_FIELD_MAX[k];
        let rule = studio_field_rule(k);
        let max = match limits {
            FieldLimits::Studio => studio_max,
            FieldLimits::Decoded(mode) => decoded_field_max(k, studio_max, mode),
        };
        let value = fields[k];
        if value < rule.min || value > max {
            return Err(Error::InvalidMii { field: rule.name, value, min: rule.min, max });
        }
        k = k + 1;
    }
    Ok(())
}

/// Checks serialized Studio bytes against the Studio ranges.
pub fn validate_studio_fields(bytes: &[u8; 46]) -> (res: Result<(), Error>)
    ensures
        res == checked(bytes@, FieldLimits::Studio),
{
    validate_fields(bytes, FieldLimits::Studio)
}

/// Checks a decoded Mii against the ranges its color tables allow.
pub fn validate_decoded_fields(mii: &Mii) -> (res: Result<(), Error>)
    ensures
        res == checked(mii.fields@, FieldLimits::Decoded(mii.color_mode)),
{
    validate_fields(&mii.fields, FieldLimits::Decoded(mii.color_mode))
}

fn checked_result(mii: Mii) -> (res: Result<Mii, Error>)
    ensures
        checked_mii(mii.fields@, mii.color_mode, res),
{
    match validate_decoded_fields(&mii) {
        Ok(()) => Ok(mii),
        Err(error) => Err(error),
    }
}

impl Mii {
    /// Every field lies in the range its color tables allow, as after
    /// [`Mii::from_data`].
    pub open spec fn wf(&self) -> bool {
        forall|k: int|
            0 <= k < 46 ==> #[trigger] field_in_range(
                self.fields@,
                FieldLimits::Decoded(self.color_mode),
                k,
            )
    }

    /// The field at `offset` (see the offset constants).
    pub fn field(&self, offset: usize) -> (res: u8)
        requires
            offset < STUDIO_FIELD_COUNT,
        ensures
            res == self.fields@[offset as int],
    {
        self.fields[offset]
    }

    /// Converts serialized Mii data into renderer-facing parameters.
    ///
    /// Checksummed representations are verified first; then every field is
    /// held to its range, and the first field out of range is reported.
    pub fn from_data(data: &MiiData) -> (res: Result<Mii, Error>)
        ensures
            from_data_result(data.spec_format(), data@, res),
            res matches Ok(mii) ==> mii.wf(),
    {
        let format = data.format();
        let bytes = data.as_bytes();
        let res = match format {
            MiiFormat::Studio => {
                let mut fields = [0u8; 46];
                let mut i: usize = 0;
                while i < 46
                    invariant
                        i <= 46,
                        bytes@.len() == 46,
                        forall|j: int| 0 <= j < i ==> #[trigger] fields@[j] == bytes@[j],
                    decreases 46 - i,
                {
                    fields[i] = bytes[i];
                    i = i + 1;
                }
                assert(fields@ =~= bytes@);
                match validate_studio_fields(&fields) {
                    Ok(()) => checked_result(Mii { fields, color_mode: ColorMode::Common }),
                    Err(error) => Err(error),
                }
            },
            MiiFormat::StudioUrl => {
                let decoded = match format::decode_studio_url(bytes) {
                    Ok(decoded) => decoded,
                    Err(error) => return Err(error),
                };
                match validate_studio_fields(&decoded) {
                    Ok(()) => checked_result(Mii { fields: decoded, color_mode: ColorMode::Common }),
                    Err(error) => Err(error),
                }
            },
            MiiFormat::SwitchCoreData | MiiFormat::SwitchStoreData => {
                match format::decode_switch_core_data(bytes) {
                    Ok(mii) => checked_result(mii),
                    Err(error) => Err(error),
                }
            },
            MiiFormat::SwitchCharInfo => match format::decode_switch_char_info(bytes) {
                Ok(mii) => checked_result(mii),
                Err(error) => Err(error),
            },
            MiiFormat::FflMiiDataCore | MiiFormat::FflMiiDataOfficial => {
                checked_result(format::decode_ffl_mii_data(bytes))
            },
            MiiFormat::FflStoreData => match format::verify_crc16(bytes, format) {
                Ok(()) => checked_result(format::decode_ffl_mii_data(bytes)),
                Err(error) => Err(error),
            },
            MiiFormat::RflCharData => match format::decode_rfl_char_data(bytes) {
                Ok(mii) => checked_result(mii),
                Err(error) => Err(error),
            },
            MiiFormat::RflStoreData => match format::verify_crc16(bytes, format) {
                Ok(()) => match format::decode_rfl_char_data(bytes) {
                    Ok(mii) => checked_result(mii),
                    Err(error) => Err(error),
                },
                Err(error) => Err(error),
            },
        };
        proof {
            if let Ok(mii) = res {
                lemma_first_violation(mii.fields@, FieldLimits::Decoded(mii.color_mode), 0);
            }
        }
        res
    }
}

/// Mii Studio data is accepted exactly when every field lies in its Studio
/// range; otherwise the first field outside its range is reported.
pub proof fn studio_data_is_accepted_exactly_in_range(bytes: Seq<u8>, res: Result<Mii, Error>)
    requires
        bytes.len() == 46,
        from_data_result(MiiFormat::Studio, bytes, res),
    ensures
        res is Ok <==> forall|k: int| 0 <= k < 46 ==> #[trigger] field_in_range(bytes, FieldLimits::Studio, k),
        res matches Ok(mii) ==> mii.fields@ == bytes && mii.color_mode == ColorMode::Common,
        res is Err ==> exists|k: int| 0 <= k < 46 && first_violation(bytes, FieldLimits::Studio, 0) == Some(k)
            && res == Err::<Mii, Error>(violation(bytes, FieldLimits::Studio, k)),
{
    lemma_first_violation(bytes, FieldLimits::Studio, 0);
    if forall|k: int| 0 <= k < 46 ==> #[trigger] field_in_range(bytes, FieldLimits::Studio, k) {
        assert forall|k: int| 0 <= k < 46 implies #[trigger] field_in_range(
            bytes,
            FieldLimits::Decoded(ColorMode::Common),
            k,
        ) by {
            assert(field_in_range(bytes, FieldLimits::Studio, k));
        }
        lemma_first_violation(bytes, FieldLimits::Decoded(ColorMode::Common), 0);
    }
}


/// Wii data packs wrinkles and makeup into one faceline code. A decoded Wii
/// Mii has a code below 12, its wrinkles (field 20) are the first entry of
/// the code's pair and its makeup (field 18) the second, and no code gives
/// both wrinkles and makeup.
pub proof fn wii_faceline_code_splits_into_wrinkles_and_makeup(
    format: MiiFormat,
    bytes: Seq<u8>,
    mii: Mii,
)
    requires
        format == MiiFormat::RflCharData || format == MiiFormat::RflStoreData,
        from_data_result(format, bytes, Ok(mii)),
    ensures
        rfl_line_and_make(bytes) < 12,
        mii.fields@[FACELINE_WRINKLE as int] == RFL_FACE_LINE_AND_MAKE@[rfl_line_and_make(
            bytes,
        ) as int][0],
        mii.fields@[FACELINE_MAKE as int] == RFL_FACE_LINE_AND_MAKE@[rfl_line_and_make(
            bytes,
        ) as int][1],
        mii.fields@[FACELINE_WRINKLE as int] == 0 || mii.fields@[FACELINE_MAKE as int] == 0,
        rfl_line_and_make(bytes) == 1 ==> mii.fields@[FACELINE_MAKE as int] == 1
            && mii.fields@[FACELINE_WRINKLE as int] == 0,
{
}

} // verus!
