use vstd::prelude::*;

use base64::Engine as _;

use crate::error::Error;
use vstd::utf8::encode_utf8;

verus! {

/// A recognized serialized Mii representation.
#[derive(Clone, Copy, Debug, PartialEq, Eq, Structural)]
#[non_exhaustive]
pub enum MiiFormat {
    Studio,
    StudioUrl,
    SwitchCoreData,
    FflMiiDataCore,
    RflCharData,
    RflStoreData,
    SwitchStoreData,
    SwitchCharInfo,
    FflMiiDataOfficial,
    FflStoreData,
}

/// The representation that a serialized Mii of `len` bytes uses, if any.
pub open spec fn format_for_len(len: int) -> Option<MiiFormat> {
    if len == 46 {
        Some(MiiFormat::Studio)
    } else if len == 47 {
        Some(MiiFormat::StudioUrl)
    } else if len == 48 {
        Some(MiiFormat::SwitchCoreData)
    } else if len == 68 {
        Some(MiiFormat::SwitchStoreData)
    } else if len == 72 {
        Some(MiiFormat::FflMiiDataCore)
    } else if len == 74 {
        Some(MiiFormat::RflCharData)
    } else if len == 76 {
        Some(MiiFormat::RflStoreData)
    } else if len == 88 {
        Some(MiiFormat::SwitchCharInfo)
    } else if len == 92 {
        Some(MiiFormat::FflMiiDataOfficial)
    } else if len == 96 {
        Some(MiiFormat::FflStoreData)
    } else {
        None
    }
}

impl MiiFormat {
    /// Detects a representation by its exact byte length.
    pub fn from_len(len: usize) -> (res: Option<MiiFormat>)
        ensures
            res == format_for_len(len as int),
    {
        match len {
            46 => Some(MiiFormat::Studio),
            47 => Some(MiiFormat::StudioUrl),
            48 => Some(MiiFormat::SwitchCoreData),
            68 => Some(MiiFormat::SwitchStoreData),
            72 => Some(MiiFormat::FflMiiDataCore),
            74 => Some(MiiFormat::RflCharData),
            76 => Some(MiiFormat::RflStoreData),
            88 => Some(MiiFormat::SwitchCharInfo),
            92 => Some(MiiFormat::FflMiiDataOfficial),
            96 => Some(MiiFormat::FflStoreData),
            _ => None,
        }
    }
}

/// Length-validated serialized Mii data together with its detected representation.
#[derive(Debug, PartialEq, Eq)]
pub struct MiiData {
    bytes: Vec<u8>,
    format: MiiFormat,
}

impl View for MiiData {
    type V = Seq<u8>;

    closed spec fn view(&self) -> Seq<u8> {
        self.bytes@
    }
}

impl Clone for MiiData {
    fn clone(&self) -> (res: MiiData)
        ensures
            res@ == self@,
            res.spec_format() == self.spec_format(),
    {
        proof {
            use_type_invariant(self);
        }
        MiiData { bytes: self.bytes.clone(), format: self.format }
    }
}

impl MiiData {
    #[verifier::type_invariant]
    spec fn length_matches_format(self) -> bool {
        format_for_len(self.bytes@.len() as int) == Some(self.format)
    }

    /// The representation detected for these bytes.
    pub closed spec fn spec_format(&self) -> MiiFormat {
        self.format
    }

    /// Wraps raw bytes whose length names a supported representation.
    pub fn try_from(bytes: Vec<u8>) -> (res: Result<MiiData, Error>)
        ensures
            match format_for_len(bytes@.len() as int) {
                Some(format) => res matches Ok(data) && data@ == bytes@ && data.spec_format()
                    == format,
                None => res matches Err(Error::UnsupportedDataLength(n)) && n == bytes@.len(),
            },
    {
        match MiiFormat::from_len(bytes.len()) {
            Some(format) => Ok(MiiData { bytes, format }),
            None => Err(Error::UnsupportedDataLength(bytes.len())),
        }
    }

    /// The detected representation.
    pub fn format(&self) -> (res: MiiFormat)
        ensures
            res == self.spec_format(),
            format_for_len(self@.len() as int) == Some(res),
    {
        proof {
            use_type_invariant(self);
        }
        self.format
    }

    /// The serialized bytes.
    pub fn as_bytes(&self) -> (res: &[u8])
        ensures
            res@ == self@,
            format_for_len(self@.len() as int) == Some(self.spec_format()),
    {
        proof {
            use_type_invariant(self);
        }
        self.bytes.as_slice()
    }

    /// The number of serialized bytes.
    pub fn len(&self) -> (res: usize)
        ensures
            res == self@.len(),
    {
        self.bytes.len()
    }

    /// Whether there are no serialized bytes; never true for a valid value.
    pub fn is_empty(&self) -> (res: bool)
        ensures
            res == (self@.len() == 0),
            !res,
    {
        proof {
            use_type_invariant(self);
        }
        self.bytes.len() == 0
    }
}

// ---------------------------------------------------------------------------
// Text decoding
// ---------------------------------------------------------------------------

/// Unicode `White_Space`, the set `char::is_whitespace` and `str::trim` use.
pub open spec fn is_unicode_whitespace(c: char) -> bool {
    ||| '\u{9}' <= c <= '\u{d}'
    ||| c == ' '
    ||| c == '\u{85}'
    ||| c == '\u{a0}'
    ||| c == '\u{1680}'
    ||| '\u{2000}' <= c <= '\u{200a}'
    ||| c == '\u{2028}'
    ||| c == '\u{2029}'
    ||| c == '\u{202f}'
    ||| c == '\u{205f}'
    ||| c == '\u{3000}'
}

pub open spec fn trim_start(s: Seq<char>) -> Seq<char>
    decreases s.len(),
{
    if s.len() > 0 && is_unicode_whitespace(s[0]) {
        trim_start(s.drop_first())
    } else {
        s
    }
}

pub open spec fn trim_end(s: Seq<char>) -> Seq<char>
    decreases s.len(),
{
    if s.len() > 0 && is_unicode_whitespace(s.last()) {
        trim_end(s.drop_last())
    } else {
        s
    }
}

/// `s` without leading and trailing whitespace.
pub open spec fn trimmed(s: Seq<char>) -> Seq<char> {
    trim_end(trim_start(s))
}

/// Calls `str::trim`, which strips leading and trailing Unicode `White_Space`.
#[verifier::external_body]
fn trim_whitespace(s: &str) -> (res: &str)
    ensures
        res@ == trimmed(s@),
{
    s.trim()
}

pub open spec fn is_hex_digit(b: u8) -> bool {
    (48 <= b <= 57) || (65 <= b <= 70) || (97 <= b <= 102)
}

pub open spec fn hex_value(b: u8) -> int {
    if 48 <= b <= 57 {
        b - 48
    } else if 65 <= b <= 70 {
        b - 55
    } else {
        b - 87
    }
}

pub open spec fn all_hex_digits(s: Seq<u8>) -> bool {
    forall|i: int| 0 <= i < s.len() ==> #[trigger] is_hex_digit(s[i])
}

/// Hexadecimal decoding as the `hex` crate performs it: pairs of digits in
/// either case, high nibble first; odd lengths and other bytes are rejected.
pub open spec fn hex_decoded(s: Seq<u8>) -> Option<Seq<u8>> {
    if s.len() % 2 == 0 && all_hex_digits(s) {
        Some(
            Seq::new(
                (s.len() / 2) as nat,
                |i: int| (hex_value(s[2 * i]) * 16 + hex_value(s[2 * i + 1])) as u8,
            ),
        )
    } else {
        None
    }
}

/// Calls `hex::decode`; its result is `hex_decoded` of the input.
#[verifier::external_body]
fn hex_decode(input: &[u8]) -> (res: Option<Vec<u8>>)
    ensures
        match hex_decoded(input@) {
            Some(bytes) => res matches Some(v) && v@ == bytes,
            None => res is None,
        },
{
    hex::decode(input).ok()
}

/// The bytes that `base64`'s `Engine::decode` gives for `input`, or `None`
/// where it reports an error. `engine` selects the configuration:
/// 0 `STANDARD`, 1 `STANDARD_NO_PAD`, 2 `URL_SAFE`, 3 `URL_SAFE_NO_PAD`.
pub uninterp spec fn base64_decoded(engine: u8, input: Seq<u8>) -> Option<Seq<u8>>;

/// Calls `Engine::decode` of one of the `general_purpose` engines of `base64`.
#[verifier::external_body]
fn base64_decode(engine: u8, input: &[u8]) -> (res: Option<Vec<u8>>)
    requires
        engine < 4,
    ensures
        match base64_decoded(engine, input@) {
            Some(bytes) => res matches Some(v) && v@ == bytes,
            None => res is None,
        },
{
    let engine = match engine {
        0 => &base64::engine::general_purpose::STANDARD,
        1 => &base64::engine::general_purpose::STANDARD_NO_PAD,
        2 => &base64::engine::general_purpose::URL_SAFE,
        _ => &base64::engine::general_purpose::URL_SAFE_NO_PAD,
    };
    engine.decode(input).ok()
}

/// The first successful Base64 decoding, trying the engines in order.
pub open spec fn first_base64(input: Seq<u8>, from: int) -> Option<Seq<u8>>
    decreases 4 - from,
{
    if from >= 4 || from < 0 {
        None
    } else {
        match base64_decoded(from as u8, input) {
            Some(bytes) => Some(bytes),
            None => first_base64(input, from + 1),
        }
    }
}

/// The bytes that the text `encoded` stands for, or the error that
/// [`MiiData::decode`] reports.
pub open spec fn decoded_text(encoded: Seq<char>) -> Result<Seq<u8>, Option<int>> {
    let bytes = encode_utf8(trimmed(encoded));
    let hex = hex_decoded(bytes);
    if trimmed(encoded).len() == 0 {
        Err(None)
    } else if hex is Some && format_for_len(hex.unwrap().len() as int) is Some {
        Ok(hex.unwrap())
    } else {
        match first_base64(bytes, 0) {
            Some(b) => Ok(b),
            None => Err(
                if hex is Some {
                    Some(hex.unwrap().len() as int)
                } else {
                    None
                },
            ),
        }
    }
}

impl MiiData {
    /// Decodes a hexadecimal or Base64 representation and validates its size.
    ///
    /// Surrounding whitespace is ignored. Hexadecimal text of a supported
    /// length wins; otherwise the standard and URL-safe Base64 alphabets, padded
    /// and unpadded, are tried in turn.
    pub fn decode(encoded: &str) -> (res: Result<MiiData, Error>)
        ensures
            match decoded_text(encoded@) {
                Ok(bytes) => match format_for_len(bytes.len() as int) {
                    Some(format) => res matches Ok(data) && data@ == bytes && data.spec_format()
                        == format,
                    None => res matches Err(Error::UnsupportedDataLength(n)) && n == bytes.len(),
                },
                Err(None) => res matches Err(Error::InvalidEncoding),
                Err(Some(len)) => res matches Err(Error::UnsupportedDataLength(n)) && n == len,
            },
    {
        let text = trim_whitespace(encoded);
        if text.is_empty() {
            return Err(Error::InvalidEncoding);
        }
        let bytes = text.as_bytes();
        let mut all_hex = bytes.len() % 2 == 0;
        let mut i: usize = 0;
        while i < bytes.len()
            invariant
                i <= bytes@.len(),
                all_hex == (bytes@.len() % 2 == 0 && forall|j: int|
                    0 <= j < i ==> #[trigger] is_hex_digit(bytes@[j])),
            decreases bytes@.len() - i,
        {
            let b = bytes[i];
            let digit = (48 <= b && b <= 57) || (65 <= b && b <= 70) || (97 <= b && b <= 102);
            assert(digit == is_hex_digit(bytes@[i as int]));
            if !digit {
                all_hex = false;
            }
            i = i + 1;
        }
        let mut hex_length: Option<usize> = None;
        if all_hex {
            match hex_decode(bytes) {
                Some(decoded) => {
                    if MiiFormat::from_len(decoded.len()).is_some() {
                        return MiiData::try_from(decoded);
                    }
                    hex_length = Some(decoded.len());
                },
                None => {
                    return Err(Error::InvalidEncoding);
                },
            }
        }
        proof {
            assert(all_hex_digits(bytes@) && bytes@.len() % 2 == 0 <==> all_hex);
        }
        let mut engine: u8 = 0;
        while engine < 4
            invariant
                engine <= 4,
                bytes@ == encode_utf8(trimmed(encoded@)),
                trimmed(encoded@).len() != 0,
                first_base64(bytes@, 0) == first_base64(bytes@, engine as int),
                hex_length is Some ==> (hex_decoded(bytes@) matches Some(h) && hex_length->0 == h.len()
                    && format_for_len(h.len() as int) is None),
                hex_length is None ==> hex_decoded(bytes@) is None,
            decreases 4 - engine,
        {
            if let Some(decoded) = base64_decode(engine, bytes) {
                return MiiData::try_from(decoded);
            }
            engine = engine + 1;
        }
        match hex_length {
            Some(len) => Err(Error::UnsupportedDataLength(len)),
            None => Err(Error::InvalidEncoding),
        }
    }
}

/// The error that [`MiiData::decode`] reports for `encoded`, if any.
pub open spec fn decode_error(encoded: Seq<char>) -> Option<Error> {
    match decoded_text(encoded) {
        Err(None) => Some(Error::InvalidEncoding),
        Err(Some(len)) => Some(Error::UnsupportedDataLength(len as usize)),
        Ok(bytes) => if format_for_len(bytes.len() as int) is None {
            Some(Error::UnsupportedDataLength(bytes.len() as usize))
        } else {
            None
        },
    }
}


/// Whether the text `encoded`, trimmed, is hexadecimal for a supported number
/// of bytes.
pub open spec fn is_supported_hex(encoded: Seq<char>) -> bool {
    hex_decoded(encode_utf8(trimmed(encoded))) matches Some(h) && format_for_len(h.len() as int) is Some
}

/// Decoding reads text as hexadecimal when it is hexadecimal for a supported
/// number of bytes; otherwise it takes the first of the Base64 engines that
/// accepts the text, in the order padded standard, unpadded standard, padded
/// URL-safe, unpadded URL-safe, and fails when none does.
pub proof fn text_decoding_tries_hex_then_base64_engines_in_order(encoded: Seq<char>)
    ensures
        trimmed(encoded).len() == 0 ==> decoded_text(encoded) == Err::<Seq<u8>, Option<int>>(None),
        trimmed(encoded).len() != 0 && is_supported_hex(encoded) ==> decoded_text(encoded) == Ok::<
            Seq<u8>,
            Option<int>,
        >(hex_decoded(encode_utf8(trimmed(encoded)))->0),
        trimmed(encoded).len() != 0 && !is_supported_hex(encoded) ==> {
            let bytes = encode_utf8(trimmed(encoded));
            let engine = |e: u8| base64_decoded(e, bytes);
            &&& engine(0) is Some ==> decoded_text(encoded) == Ok::<Seq<u8>, Option<int>>(
                engine(0)->0,
            )
            &&& engine(0) is None && engine(1) is Some ==> decoded_text(encoded) == Ok::<
                Seq<u8>,
                Option<int>,
            >(engine(1)->0)
            &&& engine(0) is None && engine(1) is None && engine(2) is Some ==> decoded_text(
                encoded,
            ) == Ok::<Seq<u8>, Option<int>>(engine(2)->0)
            &&& engine(0) is None && engine(1) is None && engine(2) is None && engine(3) is Some
                ==> decoded_text(encoded) == Ok::<Seq<u8>, Option<int>>(engine(3)->0)
            &&& engine(0) is None && engine(1) is None && engine(2) is None && engine(3) is None
                ==> decoded_text(encoded) is Err
        },
{
    let bytes = encode_utf8(trimmed(encoded));
    reveal_with_fuel(first_base64, 5);
}

} // verus!
