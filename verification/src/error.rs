use vstd::prelude::*;

use crate::data::MiiFormat;
use crate::resource::ResourceKind;

verus! {

/// Lets I/O errors travel inside [`Error`] as the cause of a failure.
#[verifier::external_type_specification]
#[verifier::external_body]
pub struct ExIoError(std::io::Error);

/// Errors produced by the format and resource layers.
#[derive(Debug)]
#[non_exhaustive]
pub enum Error {
    /// The text is neither supported hexadecimal nor Base64.
    InvalidEncoding,
    /// The decoded bytes have a length that no Mii representation uses.
    UnsupportedDataLength(usize),
    /// A Mii field is outside the range `min..=max`.
    InvalidMii { field: &'static str, value: u8, min: u8, max: u8 },
    /// A checksummed representation failed its CRC-16 check.
    InvalidMiiChecksum(MiiFormat),
    /// The archive has no entry `part[index]`.
    UnsupportedResource { kind: ResourceKind, part: &'static str, index: usize, available: usize },
    /// The resource archive or one of its entries is malformed.
    InvalidResource(String),
    /// The resource archive is malformed, with the underlying cause.
    InvalidResourceSource { context: String, source: std::io::Error },
    /// A structurally supported archive whose digest is not trusted.
    UntrustedResourceArchive { sha256: String },
    /// Reading a resource failed.
    Io(std::io::Error),
    /// A render option is outside its supported range.
    InvalidRequest(String),
    /// A feature that the current inputs need is not available.
    FeatureUnavailable(&'static str),
    /// Producing an output failed.
    Render(String),
    /// Producing an output failed, with the underlying cause.
    RenderSource { context: String, source: std::io::Error },
}

/// Builds an [`Error::InvalidResource`] with the given message.
pub fn resource_error(message: String) -> (res: Error)
    ensures
        res matches Error::InvalidResource(m) && m@ == message@,
{
    Error::InvalidResource(message)
}

/// Builds an [`Error::InvalidResourceSource`] that keeps its cause.
pub fn resource_source(context: String, source: std::io::Error) -> (res: Error)
    ensures
        res matches Error::InvalidResourceSource { context: c, source: s } && c@ == context@ && s
            == source,
{
    Error::InvalidResourceSource { context, source }
}

/// Builds an [`Error::RenderSource`] that keeps its cause.
pub fn render_source(context: String, source: std::io::Error) -> (res: Error)
    ensures
        res matches Error::RenderSource { context: c, source: s } && c@ == context@ && s == source,
{
    Error::RenderSource { context, source }
}

/// The name of `format` as the error messages write it.
pub open spec fn format_name(format: MiiFormat) -> Seq<char> {
    match format {
        MiiFormat::Studio => "Studio"@,
        MiiFormat::StudioUrl => "StudioUrl"@,
        MiiFormat::SwitchCoreData => "SwitchCoreData"@,
        MiiFormat::FflMiiDataCore => "FflMiiDataCore"@,
        MiiFormat::RflCharData => "RflCharData"@,
        MiiFormat::RflStoreData => "RflStoreData"@,
        MiiFormat::SwitchStoreData => "SwitchStoreData"@,
        MiiFormat::SwitchCharInfo => "SwitchCharInfo"@,
        MiiFormat::FflMiiDataOfficial => "FflMiiDataOfficial"@,
        MiiFormat::FflStoreData => "FflStoreData"@,
    }
}

fn format_str(format: MiiFormat) -> (res: &'static str)
    ensures
        res@ == format_name(format),
{
    match format {
        MiiFormat::Studio => "Studio",
        MiiFormat::StudioUrl => "StudioUrl",
        MiiFormat::SwitchCoreData => "SwitchCoreData",
        MiiFormat::FflMiiDataCore => "FflMiiDataCore",
        MiiFormat::RflCharData => "RflCharData",
        MiiFormat::RflStoreData => "RflStoreData",
        MiiFormat::SwitchStoreData => "SwitchStoreData",
        MiiFormat::SwitchCharInfo => "SwitchCharInfo",
        MiiFormat::FflMiiDataOfficial => "FflMiiDataOfficial",
        MiiFormat::FflStoreData => "FflStoreData",
    }
}

/// The lower-case name of a resource kind.
pub open spec fn kind_name(kind: ResourceKind) -> Seq<char> {
    match kind {
        ResourceKind::Shape => "shape"@,
        ResourceKind::Texture => "texture"@,
    }
}

/// What an error says of itself, up to the text of an I/O cause, which the
/// message then ends with.
pub open spec fn error_message(error: Error) -> Seq<char> {
    match error {
        Error::InvalidEncoding => "Mii data is neither valid hexadecimal nor supported base64"@,
        Error::UnsupportedDataLength(len) => "unsupported Mii data length: "@ + decimal(
            len as nat,
        ) + " bytes"@,
        Error::InvalidMii { field, value, min, max } => "invalid Mii data: "@ + field@ + "="@
            + decimal(value as nat) + "; expected "@ + decimal(min as nat) + "..="@ + decimal(
            max as nat,
        ),
        Error::InvalidMiiChecksum(format) => "invalid "@ + format_name(format)
            + " Mii data: CRC-16 checksum mismatch"@,
        Error::UnsupportedResource { kind, part, index, available } =>
            "selected resource archive has no "@ + kind_name(kind) + " "@ + part@ + "["@
            + decimal(index as nat) + "] (available entries: "@ + decimal(available as nat)
            + ")"@,
        Error::InvalidResource(message) => "invalid FFL resource: "@ + message@,
        Error::InvalidResourceSource { context, .. } => "invalid FFL resource: "@ + context@
            + ": "@,
        Error::UntrustedResourceArchive { sha256 } =>
            "AFL 2.3 high resource archive is not trusted (SHA-256: "@ + sha256@ + ")"@,
        Error::Io(_) => "resource I/O failed: "@,
        Error::InvalidRequest(message) => "invalid render request: "@ + message@,
        Error::FeatureUnavailable(feature) => "feature is not implemented yet: "@ + feature@,
        Error::Render(message) => "rendering failed: "@ + message@,
        Error::RenderSource { context, .. } => "rendering failed: "@ + context@ + ": "@,
    }
}

/// Whether an error carries an I/O cause.
pub open spec fn has_source(error: Error) -> bool {
    error is InvalidResourceSource || error is Io || error is RenderSource
}

/// Calls the `Display` impl of `std::io::Error`, which writes the error's
/// own description; nothing is stated of the text.
#[verifier::external_body]
fn io_error_text(error: &std::io::Error) -> (res: String) {
    format!("{error}")
}

impl Error {
    /// The message that describes this error; for an error with an I/O
    /// cause, the cause's own description follows.
    pub fn to_string(&self) -> (res: String)
        ensures
            !has_source(*self) ==> res@ == error_message(*self),
            has_source(*self) ==> res@.len() >= error_message(*self).len() && res@.subrange(
                0,
                error_message(*self).len() as int,
            ) == error_message(*self),
    {
        match self {
            Error::InvalidEncoding => String::from_str(
                "Mii data is neither valid hexadecimal nor supported base64",
            ),
            Error::UnsupportedDataLength(len) => {
                let mut text = String::from_str("unsupported Mii data length: ");
                let number = decimal_string(*len as u64);
                text.append(number.as_str());
                text.append(" bytes");
                text
            },
            Error::InvalidMii { field, value, min, max } => {
                let mut text = String::from_str("invalid Mii data: ");
                text.append(field);
                text.append("=");
                let number = decimal_string(*value as u64);
                text.append(number.as_str());
                text.append("; expected ");
                let number = decimal_string(*min as u64);
                text.append(number.as_str());
                text.append("..=");
                let number = decimal_string(*max as u64);
                text.append(number.as_str());
                text
            },
            Error::InvalidMiiChecksum(format) => {
                let mut text = String::from_str("invalid ");
                text.append(format_str(*format));
                text.append(" Mii data: CRC-16 checksum mismatch");
                text
            },
            Error::UnsupportedResource { kind, part, index, available } => {
                let mut text = String::from_str("selected resource archive has no ");
                text.append(kind.name());
                text.append(" ");
                text.append(part);
                text.append("[");
                let number = decimal_string(*index as u64);
                text.append(number.as_str());
                text.append("] (available entries: ");
                let number = decimal_string(*available as u64);
                text.append(number.as_str());
                text.append(")");
                text
            },
            Error::InvalidResource(message) => {
                let mut text = String::from_str("invalid FFL resource: ");
                text.append(message.as_str());
                text
            },
            Error::InvalidResourceSource { context, source } => {
                let mut text = String::from_str("invalid FFL resource: ");
                text.append(context.as_str());
                text.append(": ");
                let cause = io_error_text(source);
                text.append(cause.as_str());
                text
            },
            Error::UntrustedResourceArchive { sha256 } => {
                let mut text = String::from_str(
                    "AFL 2.3 high resource archive is not trusted (SHA-256: ",
                );
                text.append(sha256.as_str());
                text.append(")");
                text
            },
            Error::Io(source) => {
                let mut text = String::from_str("resource I/O failed: ");
                let cause = io_error_text(source);
                text.append(cause.as_str());
                text
            },
            Error::InvalidRequest(message) => {
                let mut text = String::from_str("invalid render request: ");
                text.append(message.as_str());
                text
            },
            Error::FeatureUnavailable(feature) => {
                let mut text = String::from_str("feature is not implemented yet: ");
                text.append(feature);
                text
            },
            Error::Render(message) => {
                let mut text = String::from_str("rendering failed: ");
                text.append(message.as_str());
                text
            },
            Error::RenderSource { context, source } => {
                let mut text = String::from_str("rendering failed: ");
                text.append(context.as_str());
                text.append(": ");
                let cause = io_error_text(source);
                text.append(cause.as_str());
                text
            },
        }
    }

    /// The I/O error that caused this one, if any.
    pub fn source(&self) -> (res: Option<&std::io::Error>)
        ensures
            res is Some <==> has_source(*self),
            self matches Error::InvalidResourceSource { source, .. } ==> res == Some(source),
            self matches Error::Io(source) ==> res == Some(source),
            self matches Error::RenderSource { source, .. } ==> res == Some(source),
    {
        match self {
            Error::InvalidResourceSource { source, .. } => Some(source),
            Error::Io(source) => Some(source),
            Error::RenderSource { source, .. } => Some(source),
            _ => None,
        }
    }
}

/// Widens a 32-bit size or offset read from a resource.
pub fn usize_from_u32(value: u32) -> (res: Result<usize, Error>)
    ensures
        res matches Ok(v) && v == value,
{
    Ok(value as usize)
}

} // verus!

verus! {

/// The decimal digit character for `d < 10`.
pub open spec fn digit_char(d: int) -> char {
    (48 + d) as char
}

/// The decimal notation of `n`, without leading zeros.
pub open spec fn decimal(n: nat) -> Seq<char>
    decreases n,
{
    if n < 10 {
        seq![digit_char(n as int)]
    } else {
        decimal(n / 10) + seq![digit_char((n % 10) as int)]
    }
}

fn digit_str(d: u64) -> (res: &'static str)
    requires
        d < 10,
    ensures
        res@ == seq![digit_char(d as int)],
{
    proof {
        reveal_strlit("0");
        reveal_strlit("1");
        reveal_strlit("2");
        reveal_strlit("3");
        reveal_strlit("4");
        reveal_strlit("5");
        reveal_strlit("6");
        reveal_strlit("7");
        reveal_strlit("8");
        reveal_strlit("9");
    }
    match d {
        0 => "0",
        1 => "1",
        2 => "2",
        3 => "3",
        4 => "4",
        5 => "5",
        6 => "6",
        7 => "7",
        8 => "8",
        _ => "9",
    }
}

/// Writes `n` in decimal.
pub fn decimal_string(n: u64) -> (res: String)
    ensures
        res@ == decimal(n as nat),
    decreases n,
{
    if n < 10 {
        String::from_str(digit_str(n))
    } else {
        let mut s = decimal_string(n / 10);
        s.append(digit_str(n % 10));
        s
    }
}

} // verus!
