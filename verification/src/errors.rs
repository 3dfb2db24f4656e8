//! Error kinds, error categories and the numeric codes that the library
//! reports to C callers, to processes and to HTTP clients.
use vstd::prelude::*;
use crate::text::{decimal_text, push_decimal_i64};
use crate::flow_error::FlowError;

verus! {

/// The highest-level error enumeration.
/// All errors map to one of these.
#[derive(Debug, PartialEq, Eq, Clone, Copy, Structural)]
pub enum ErrorCategory {
    /// No error
    NoError,
    /// The process was unable to allocate necessary memory
    OutOfMemory,
    /// An invalid parameter was provided
    ArgumentInvalid,
    /// The JSON provided was invalid
    InvalidJson,
    /// Image should have been but could not be decoded
    ImageMalformed,
    /// No support for decoding this type of image (or subtype)
    ImageTypeNotSupported,
    /// Invalid parameters were found in a operation node
    NodeArgumentInvalid,
    /// The graph is invalid; it may have cycles, or have nodes connected in ways they do not support.
    GraphInvalid,
    /// An operation described in the job is not supported
    ActionNotSupported,
    /// An operation is forbidden by the active security policy
    ActionForbidden,
    /// The server requires authorization to complete the request
    AuthorizationRequired,
    /// A valid license is needed for the specified job
    LicenseError,
    /// The primary file/remote resource for this job was not found
    PrimaryResourceNotFound,
    /// A file or remote resource was not found
    SecondaryResourceNotFound,
    /// A request to an upstream server timed out
    UpstreamTimeout,
    /// An upstream server failed to respond correctly
    UpstreamError,
    /// An I/O error of some kind occurred
    IoError,
    /// The graph could not be executed within a reasonable number of passes.
    NoSolutionFound,
    /// Possible bug: an internal error has occurred
    InternalError,
    /// The category of the error is unknown
    Unknown,
    /// A custom error defined by a third-party plugin
    Custom,
}

/// The position of a category in the declaration order (`NoError` is 0, `Custom` is 20).
pub open spec fn category_index(c: ErrorCategory) -> int {
    match c {
        ErrorCategory::NoError => 0,
        ErrorCategory::OutOfMemory => 1,
        ErrorCategory::ArgumentInvalid => 2,
        ErrorCategory::InvalidJson => 3,
        ErrorCategory::ImageMalformed => 4,
        ErrorCategory::ImageTypeNotSupported => 5,
        ErrorCategory::NodeArgumentInvalid => 6,
        ErrorCategory::GraphInvalid => 7,
        ErrorCategory::ActionNotSupported => 8,
        ErrorCategory::ActionForbidden => 9,
        ErrorCategory::AuthorizationRequired => 10,
        ErrorCategory::LicenseError => 11,
        ErrorCategory::PrimaryResourceNotFound => 12,
        ErrorCategory::SecondaryResourceNotFound => 13,
        ErrorCategory::UpstreamTimeout => 14,
        ErrorCategory::UpstreamError => 15,
        ErrorCategory::IoError => 16,
        ErrorCategory::NoSolutionFound => 17,
        ErrorCategory::InternalError => 18,
        ErrorCategory::Unknown => 19,
        ErrorCategory::Custom => 20,
    }
}

/// The category at a given declaration position, for positions `0..=19` (up to `Unknown`).
pub open spec fn category_at(v: int) -> Option<ErrorCategory> {
    if 0 <= v <= 19 {
        Some(choose|c: ErrorCategory| category_index(c) == v)
    } else {
        None
    }
}

/// The code that C callers see for a category.
pub open spec fn spec_c_error_code(c: ErrorCategory) -> int {
    match c {
        ErrorCategory::NoError => 0,
        ErrorCategory::Custom => 1025,
        ErrorCategory::Unknown => 1024,
        ErrorCategory::OutOfMemory => 10,
        ErrorCategory::IoError => 20,
        ErrorCategory::InternalError => 30,
        ErrorCategory::ImageMalformed => 60,
        other => 200 + category_index(other),
    }
}

/// The category denoted by a C status code, if any.
pub open spec fn spec_from_c_error_code(status: int) -> Option<ErrorCategory> {
    if 0 <= status - 200 <= 19 {
        category_at(status - 200)
    } else if status == 0 {
        Some(ErrorCategory::NoError)
    } else if status == 10 {
        Some(ErrorCategory::OutOfMemory)
    } else if status == 20 {
        Some(ErrorCategory::IoError)
    } else if status == 30 || status == 40 || status == 50 || status == 51 || status == 52
        || status == 53 || status == 54 || status == 61 {
        Some(ErrorCategory::InternalError)
    } else if status == 60 {
        Some(ErrorCategory::ImageMalformed)
    } else {
        None
    }
}

/// The process exit code (sysexits.h style) for a category.
pub open spec fn spec_process_exit_code(c: ErrorCategory) -> int {
    match c {
        ErrorCategory::ArgumentInvalid | ErrorCategory::GraphInvalid
        | ErrorCategory::ActionNotSupported | ErrorCategory::NodeArgumentInvalid => 64,
        ErrorCategory::InvalidJson | ErrorCategory::ImageMalformed
        | ErrorCategory::ImageTypeNotSupported => 65,
        ErrorCategory::SecondaryResourceNotFound | ErrorCategory::PrimaryResourceNotFound => 66,
        ErrorCategory::UpstreamError | ErrorCategory::UpstreamTimeout => 69,
        ErrorCategory::InternalError | ErrorCategory::NoSolutionFound | ErrorCategory::Custom
        | ErrorCategory::Unknown => 70,
        ErrorCategory::OutOfMemory => 71,
        ErrorCategory::IoError => 74,
        ErrorCategory::ActionForbidden => 77,
        ErrorCategory::LicenseError => 402,
        ErrorCategory::AuthorizationRequired => 401,
        ErrorCategory::NoError => 0,
    }
}

/// The HTTP status code for a category.
pub open spec fn spec_http_status_code(c: ErrorCategory) -> int {
    match c {
        ErrorCategory::NoError => 200,
        ErrorCategory::ArgumentInvalid | ErrorCategory::GraphInvalid
        | ErrorCategory::NodeArgumentInvalid | ErrorCategory::ActionNotSupported
        | ErrorCategory::InvalidJson | ErrorCategory::ImageMalformed
        | ErrorCategory::ImageTypeNotSupported => 400,
        ErrorCategory::AuthorizationRequired => 401,
        ErrorCategory::LicenseError => 402,
        ErrorCategory::ActionForbidden => 403,
        ErrorCategory::PrimaryResourceNotFound => 404,
        ErrorCategory::SecondaryResourceNotFound | ErrorCategory::InternalError
        | ErrorCategory::Unknown | ErrorCategory::NoSolutionFound | ErrorCategory::Custom
        | ErrorCategory::IoError => 500,
        ErrorCategory::UpstreamError => 502,
        ErrorCategory::OutOfMemory => 503,
        ErrorCategory::UpstreamTimeout => 504,
    }
}

impl ErrorCategory {
    /// The last category that `from_i32` can produce.
    pub fn last() -> (r: ErrorCategory)
        ensures
            r == ErrorCategory::Unknown,
    {
        ErrorCategory::Unknown
    }

    /// The category at position `v` of the declaration, for `0 <= v <= last()`.
    pub fn from_i32(v: i32) -> (r: Option<ErrorCategory>)
        ensures
            r == category_at(v as int),
            r matches Some(c) ==> category_index(c) == v,
    {
        let r = match v {
            0 => Some(ErrorCategory::NoError),
            1 => Some(ErrorCategory::OutOfMemory),
            2 => Some(ErrorCategory::ArgumentInvalid),
            3 => Some(ErrorCategory::InvalidJson),
            4 => Some(ErrorCategory::ImageMalformed),
            5 => Some(ErrorCategory::ImageTypeNotSupported),
            6 => Some(ErrorCategory::NodeArgumentInvalid),
            7 => Some(ErrorCategory::GraphInvalid),
            8 => Some(ErrorCategory::ActionNotSupported),
            9 => Some(ErrorCategory::ActionForbidden),
            10 => Some(ErrorCategory::AuthorizationRequired),
            11 => Some(ErrorCategory::LicenseError),
            12 => Some(ErrorCategory::PrimaryResourceNotFound),
            13 => Some(ErrorCategory::SecondaryResourceNotFound),
            14 => Some(ErrorCategory::UpstreamTimeout),
            15 => Some(ErrorCategory::UpstreamError),
            16 => Some(ErrorCategory::IoError),
            17 => Some(ErrorCategory::NoSolutionFound),
            18 => Some(ErrorCategory::InternalError),
            19 => Some(ErrorCategory::Unknown),
            _ => None,
        };
        proof {
            if 0 <= v <= 19 {
                let c = r.unwrap();
                assert(category_index(c) == v);
                lemma_category_index_injective(c, category_at(v as int).unwrap());
            }
        }
        r
    }

    /// The position of the category in the declaration order.
    pub fn to_i32(&self) -> (r: i32)
        ensures
            r == category_index(*self),
    {
        match *self {
            ErrorCategory::NoError => 0,
            ErrorCategory::OutOfMemory => 1,
            ErrorCategory::ArgumentInvalid => 2,
            ErrorCategory::InvalidJson => 3,
            ErrorCategory::ImageMalformed => 4,
            ErrorCategory::ImageTypeNotSupported => 5,
            ErrorCategory::NodeArgumentInvalid => 6,
            ErrorCategory::GraphInvalid => 7,
            ErrorCategory::ActionNotSupported => 8,
            ErrorCategory::ActionForbidden => 9,
            ErrorCategory::AuthorizationRequired => 10,
            ErrorCategory::LicenseError => 11,
            ErrorCategory::PrimaryResourceNotFound => 12,
            ErrorCategory::SecondaryResourceNotFound => 13,
            ErrorCategory::UpstreamTimeout => 14,
            ErrorCategory::UpstreamError => 15,
            ErrorCategory::IoError => 16,
            ErrorCategory::NoSolutionFound => 17,
            ErrorCategory::InternalError => 18,
            ErrorCategory::Unknown => 19,
            ErrorCategory::Custom => 20,
        }
    }

    /// The code reported outward for this category (its declaration position).
    pub fn to_outward_error_code(&self) -> (r: i32)
        ensures
            r == category_index(*self),
    {
        self.to_i32()
    }

    /// Interprets a C status code: codes `200..=219` denote the category at position `code - 200`;
    /// a few legacy codes map to fixed categories; anything else is `None`.
    pub fn from_c_error_code(status: i32) -> (r: Option<ErrorCategory>)
        ensures
            r == spec_from_c_error_code(status as int),
    {
        if let Some(v) = ErrorCategory::from_i32(status.wrapping_sub(200)) {
            proof {
                assert(0 <= status - 200 <= 19) by {
                    if !(0 <= status - 200 <= 19) {
                        assert(status.wrapping_sub(200) as int == status - 200
                            || status.wrapping_sub(200) as int == status - 200 + 0x1_0000_0000);
                    }
                }
            }
            Some(v)
        } else {
            match status {
                0 => Some(ErrorCategory::NoError),
                10 => Some(ErrorCategory::OutOfMemory),
                20 => Some(ErrorCategory::IoError),
                30 | 40 | 50 | 51 | 52 | 53 | 54 | 61 => Some(ErrorCategory::InternalError),
                60 => Some(ErrorCategory::ImageMalformed),
                _ => None,
            }
        }
    }

    /// The code that C callers see for this category.
    pub fn to_c_error_code(&self) -> (r: i32)
        ensures
            r == spec_c_error_code(*self),
    {
        match *self {
            ErrorCategory::NoError => 0,
            ErrorCategory::Custom => 1025,
            ErrorCategory::Unknown => 1024,
            ErrorCategory::OutOfMemory => 10,
            ErrorCategory::IoError => 20,
            ErrorCategory::InternalError => 30,
            ErrorCategory::ImageMalformed => 60,
            _ => 200 + self.to_i32(),
        }
    }

    /// The process exit code (sysexits.h style) for this category.
    pub fn process_exit_code(&self) -> (r: i32)
        ensures
            r == spec_process_exit_code(*self),
    {
        match *self {
            ErrorCategory::ArgumentInvalid | ErrorCategory::GraphInvalid
            | ErrorCategory::ActionNotSupported | ErrorCategory::NodeArgumentInvalid => 64,
            ErrorCategory::InvalidJson | ErrorCategory::ImageMalformed
            | ErrorCategory::ImageTypeNotSupported => 65,
            ErrorCategory::SecondaryResourceNotFound
            | ErrorCategory::PrimaryResourceNotFound => 66,
            ErrorCategory::UpstreamError | ErrorCategory::UpstreamTimeout => 69,
            ErrorCategory::InternalError | ErrorCategory::NoSolutionFound
            | ErrorCategory::Custom | ErrorCategory::Unknown => 70,
            ErrorCategory::OutOfMemory => 71,
            ErrorCategory::IoError => 74,
            ErrorCategory::ActionForbidden => 77,
            ErrorCategory::LicenseError => 402,
            ErrorCategory::AuthorizationRequired => 401,
            ErrorCategory::NoError => 0,
        }
    }

    /// The HTTP status code for this category.
    pub fn http_status_code(&self) -> (r: i32)
        ensures
            r == spec_http_status_code(*self),
    {
        match *self {
            ErrorCategory::NoError => 200,
            ErrorCategory::ArgumentInvalid | ErrorCategory::GraphInvalid
            | ErrorCategory::NodeArgumentInvalid | ErrorCategory::ActionNotSupported
            | ErrorCategory::InvalidJson | ErrorCategory::ImageMalformed
            | ErrorCategory::ImageTypeNotSupported => 400,
            ErrorCategory::AuthorizationRequired => 401,
            ErrorCategory::LicenseError => 402,
            ErrorCategory::ActionForbidden => 403,
            ErrorCategory::PrimaryResourceNotFound => 404,
            ErrorCategory::SecondaryResourceNotFound | ErrorCategory::InternalError
            | ErrorCategory::Unknown | ErrorCategory::NoSolutionFound | ErrorCategory::Custom
            | ErrorCategory::IoError => 500,
            ErrorCategory::UpstreamError => 502,
            ErrorCategory::OutOfMemory => 503,
            ErrorCategory::UpstreamTimeout => 504,
        }
    }

    /// The category code used by the library's own outward interfaces (its declaration position).
    pub fn to_imageflow_category_code(&self) -> (r: i32)
        ensures
            r == category_index(*self),
    {
        self.to_i32()
    }
}

/// Distinct categories have distinct declaration positions.
pub proof fn lemma_category_index_injective(a: ErrorCategory, b: ErrorCategory)
    ensures
        category_index(a) == category_index(b) ==> a == b,
{
}

/// Every category other than `Custom` and `Unknown` survives the trip through its C code:
/// `from_c_error_code(to_c_error_code(c)) == Some(c)`.
pub proof fn lemma_c_error_code_roundtrip(c: ErrorCategory)
    requires
        c != ErrorCategory::Custom,
        c != ErrorCategory::Unknown,
    ensures
        spec_from_c_error_code(spec_c_error_code(c)) == Some(c),
{
    let code = spec_c_error_code(c);
    if 0 <= code - 200 <= 19 {
        let d = category_at(code - 200).unwrap();
        assert(category_index(d) == code - 200);
        lemma_category_index_injective(c, d);
    }
}

/// The HTTP status and the process exit code of a category tell the same story: bad input
/// (usage or data errors, exit 64 or 65) is 400 Bad Request; authorization and licensing are 401
/// and 402 on both; a forbidden action (exit 77) is 403; a resource that is not found (exit 66)
/// is 404 Not Found when it is the job's primary resource, and a server-side failure otherwise;
/// an upstream failure (exit 69) is 502 or 504; running out of memory (exit 71) is 503 Service
/// Unavailable; internal and I/O failures (exit 70 and 74) are 500. No other category is 404.
pub proof fn lemma_http_status_agrees_with_exit_code(c: ErrorCategory)
    ensures
        (spec_http_status_code(c) == 400) <==> (spec_process_exit_code(c) == 64 || spec_process_exit_code(c) == 65),
        (spec_http_status_code(c) == 401) <==> (spec_process_exit_code(c) == 401),
        (spec_http_status_code(c) == 402) <==> (spec_process_exit_code(c) == 402),
        (spec_http_status_code(c) == 403) <==> (spec_process_exit_code(c) == 77),
        (spec_http_status_code(c) == 404) <==> (spec_process_exit_code(c) == 66 && c == ErrorCategory::PrimaryResourceNotFound),
        (spec_process_exit_code(c) == 66 && c != ErrorCategory::PrimaryResourceNotFound) ==> spec_http_status_code(c) == 500,
        (spec_http_status_code(c) == 502 || spec_http_status_code(c) == 504) <==> (spec_process_exit_code(c) == 69),
        (spec_http_status_code(c) == 503) <==> (spec_process_exit_code(c) == 71),
        (spec_process_exit_code(c) == 70 || spec_process_exit_code(c) == 74) ==> spec_http_status_code(c) == 500,
{
}

/// Only `NoError` maps to HTTP 200 and to process exit code 0; every other category is reported as a failure.
pub proof fn lemma_ok_is_only_success(c: ErrorCategory)
    ensures
        (spec_http_status_code(c) == 200) <==> (c == ErrorCategory::NoError),
        (spec_process_exit_code(c) == 0) <==> (c == ErrorCategory::NoError),
        spec_http_status_code(c) >= 400 <==> c != ErrorCategory::NoError,
{
}

} // verus!

verus! {

/// The name of a category, as its variant is written.
pub open spec fn category_name(c: ErrorCategory) -> Seq<char> {
    match c {
        ErrorCategory::NoError => "Ok"@,
        ErrorCategory::OutOfMemory => "OutOfMemory"@,
        ErrorCategory::ArgumentInvalid => "ArgumentInvalid"@,
        ErrorCategory::InvalidJson => "InvalidJson"@,
        ErrorCategory::ImageMalformed => "ImageMalformed"@,
        ErrorCategory::ImageTypeNotSupported => "ImageTypeNotSupported"@,
        ErrorCategory::NodeArgumentInvalid => "NodeArgumentInvalid"@,
        ErrorCategory::GraphInvalid => "GraphInvalid"@,
        ErrorCategory::ActionNotSupported => "ActionNotSupported"@,
        ErrorCategory::ActionForbidden => "ActionForbidden"@,
        ErrorCategory::AuthorizationRequired => "AuthorizationRequired"@,
        ErrorCategory::LicenseError => "LicenseError"@,
        ErrorCategory::PrimaryResourceNotFound => "PrimaryResourceNotFound"@,
        ErrorCategory::SecondaryResourceNotFound => "SecondaryResourceNotFound"@,
        ErrorCategory::UpstreamTimeout => "UpstreamTimeout"@,
        ErrorCategory::UpstreamError => "UpstreamError"@,
        ErrorCategory::IoError => "IoError"@,
        ErrorCategory::NoSolutionFound => "NoSolutionFound"@,
        ErrorCategory::InternalError => "InternalError"@,
        ErrorCategory::Unknown => "Unknown"@,
        ErrorCategory::Custom => "Custom"@,
    }
}

impl ErrorCategory {
    /// The name of this category, as its variant is written (the `Debug` text of the category).
    pub fn name(&self) -> (r: &'static str)
        ensures
            r@ == category_name(*self),
    {
        match *self {
            ErrorCategory::NoError => "Ok",
            ErrorCategory::OutOfMemory => "OutOfMemory",
            ErrorCategory::ArgumentInvalid => "ArgumentInvalid",
            ErrorCategory::InvalidJson => "InvalidJson",
            ErrorCategory::ImageMalformed => "ImageMalformed",
            ErrorCategory::ImageTypeNotSupported => "ImageTypeNotSupported",
            ErrorCategory::NodeArgumentInvalid => "NodeArgumentInvalid",
            ErrorCategory::GraphInvalid => "GraphInvalid",
            ErrorCategory::ActionNotSupported => "ActionNotSupported",
            ErrorCategory::ActionForbidden => "ActionForbidden",
            ErrorCategory::AuthorizationRequired => "AuthorizationRequired",
            ErrorCategory::LicenseError => "LicenseError",
            ErrorCategory::PrimaryResourceNotFound => "PrimaryResourceNotFound",
            ErrorCategory::SecondaryResourceNotFound => "SecondaryResourceNotFound",
            ErrorCategory::UpstreamTimeout => "UpstreamTimeout",
            ErrorCategory::UpstreamError => "UpstreamError",
            ErrorCategory::IoError => "IoError",
            ErrorCategory::NoSolutionFound => "NoSolutionFound",
            ErrorCategory::InternalError => "InternalError",
            ErrorCategory::Unknown => "Unknown",
            ErrorCategory::Custom => "Custom",
        }
    }
}

} // verus!

verus! {

/// The internal error kind. `ErrorCategory` is the externally provided enumeration.
#[derive(Debug, Clone, PartialEq, Eq, Structural)]
pub enum ErrorKind {
    InternalError,
    AllocationFailed,
    GifDecodingError,
    GifEncodingError,
    ImageDecodingError,
    ImageEncodingError,
    JpegDecodingError,
    QuantizationError,
    LodePngEncodingError,
    MozjpegEncodingError,
    CodecDisabledError,
    NoEnabledDecoderFound,
    DecodingIoError,
    ColorProfileError,
    EncodingIoError,
    GraphCyclic,
    InvalidNodeConnections,
    LayoutError,
    DuplicateIoId,
    GraphInvalid,
    NullArgument,
    InvalidArgument,
    InvalidCoordinates,
    InvalidNodeParams,
    InvalidMessageEndpoint,
    IoIdNotFound,
    ItemNotFound,
    FailedBorrow,
    NodeParamsMismatch,
    BitmapPointerNull,
    MethodNotImplemented,
    ValidationNotImplemented,
    InvalidOperation,
    InvalidState,
    FetchError,
    SizeLimitExceeded,
    Category(ErrorCategory),
    CError(CStatus),
}

/// The status of an error raised through the C interface.
#[derive(Debug, Copy, Clone, PartialEq, Eq, Structural)]
pub enum CStatus {
    Custom(i32),
    Unknown(i32),
    ErrorMismatch,
    Cat(ErrorCategory),
}

/// The category of a C status.
pub open spec fn cstatus_category(s: CStatus) -> ErrorCategory {
    match s {
        CStatus::Custom(_) => ErrorCategory::Custom,
        CStatus::Unknown(_) => ErrorCategory::Unknown,
        CStatus::ErrorMismatch => ErrorCategory::InternalError,
        CStatus::Cat(c) => c,
    }
}

/// The C status that a raw C code denotes.
pub open spec fn spec_cstatus_from(v: int) -> CStatus {
    if let Some(cat) = spec_from_c_error_code(v) {
        CStatus::Cat(cat)
    } else if v > 1024 {
        CStatus::Custom(v as i32)
    } else if v == 90 {
        CStatus::ErrorMismatch
    } else {
        CStatus::Unknown(v as i32)
    }
}

/// The raw C code of a C status.
pub open spec fn spec_cstatus_to_i32(s: CStatus) -> int {
    match s {
        CStatus::Custom(v) => v as int,
        CStatus::Unknown(v) => v as int,
        CStatus::ErrorMismatch => 90,
        CStatus::Cat(c) => spec_c_error_code(c),
    }
}

/// The category of an error kind.
pub open spec fn kind_category(k: ErrorKind) -> ErrorCategory {
    match k {
        ErrorKind::AllocationFailed => ErrorCategory::OutOfMemory,
        ErrorKind::GraphCyclic | ErrorKind::InvalidNodeConnections | ErrorKind::GraphInvalid => ErrorCategory::GraphInvalid,
        ErrorKind::CodecDisabledError | ErrorKind::LayoutError | ErrorKind::DuplicateIoId | ErrorKind::NullArgument | ErrorKind::InvalidArgument | ErrorKind::InvalidCoordinates | ErrorKind::InvalidNodeParams | ErrorKind::InvalidMessageEndpoint | ErrorKind::IoIdNotFound | ErrorKind::ItemNotFound | ErrorKind::SizeLimitExceeded => ErrorCategory::ArgumentInvalid,
        ErrorKind::InternalError | ErrorKind::GifEncodingError | ErrorKind::ImageEncodingError | ErrorKind::QuantizationError | ErrorKind::LodePngEncodingError | ErrorKind::MozjpegEncodingError | ErrorKind::FailedBorrow | ErrorKind::NodeParamsMismatch | ErrorKind::BitmapPointerNull | ErrorKind::MethodNotImplemented | ErrorKind::ValidationNotImplemented | ErrorKind::InvalidOperation | ErrorKind::InvalidState => ErrorCategory::InternalError,
        ErrorKind::GifDecodingError | ErrorKind::ImageDecodingError | ErrorKind::JpegDecodingError | ErrorKind::NoEnabledDecoderFound | ErrorKind::ColorProfileError => ErrorCategory::ImageMalformed,
        ErrorKind::DecodingIoError | ErrorKind::EncodingIoError | ErrorKind::FetchError => ErrorCategory::IoError,
        ErrorKind::CError(s) => cstatus_category(s),
        ErrorKind::Category(c) => c,
    }
}

/// The `Debug` text of an error kind without a payload, or of the variant name for one with a payload.
pub open spec fn kind_variant_name(k: ErrorKind) -> Seq<char> {
    match k {
        ErrorKind::InternalError => "InternalError"@,
        ErrorKind::AllocationFailed => "AllocationFailed"@,
        ErrorKind::GifDecodingError => "GifDecodingError"@,
        ErrorKind::GifEncodingError => "GifEncodingError"@,
        ErrorKind::ImageDecodingError => "ImageDecodingError"@,
        ErrorKind::ImageEncodingError => "ImageEncodingError"@,
        ErrorKind::JpegDecodingError => "JpegDecodingError"@,
        ErrorKind::QuantizationError => "QuantizationError"@,
        ErrorKind::LodePngEncodingError => "LodePngEncodingError"@,
        ErrorKind::MozjpegEncodingError => "MozjpegEncodingError"@,
        ErrorKind::CodecDisabledError => "CodecDisabledError"@,
        ErrorKind::NoEnabledDecoderFound => "NoEnabledDecoderFound"@,
        ErrorKind::DecodingIoError => "DecodingIoError"@,
        ErrorKind::ColorProfileError => "ColorProfileError"@,
        ErrorKind::EncodingIoError => "EncodingIoError"@,
        ErrorKind::GraphCyclic => "GraphCyclic"@,
        ErrorKind::InvalidNodeConnections => "InvalidNodeConnections"@,
        ErrorKind::LayoutError => "LayoutError"@,
        ErrorKind::DuplicateIoId => "DuplicateIoId"@,
        ErrorKind::GraphInvalid => "GraphInvalid"@,
        ErrorKind::NullArgument => "NullArgument"@,
        ErrorKind::InvalidArgument => "InvalidArgument"@,
        ErrorKind::InvalidCoordinates => "InvalidCoordinates"@,
        ErrorKind::InvalidNodeParams => "InvalidNodeParams"@,
        ErrorKind::InvalidMessageEndpoint => "InvalidMessageEndpoint"@,
        ErrorKind::IoIdNotFound => "IoIdNotFound"@,
        ErrorKind::ItemNotFound => "ItemNotFound"@,
        ErrorKind::FailedBorrow => "FailedBorrow"@,
        ErrorKind::NodeParamsMismatch => "NodeParamsMismatch"@,
        ErrorKind::BitmapPointerNull => "BitmapPointerNull"@,
        ErrorKind::MethodNotImplemented => "MethodNotImplemented"@,
        ErrorKind::ValidationNotImplemented => "ValidationNotImplemented"@,
        ErrorKind::InvalidOperation => "InvalidOperation"@,
        ErrorKind::InvalidState => "InvalidState"@,
        ErrorKind::FetchError => "FetchError"@,
        ErrorKind::SizeLimitExceeded => "SizeLimitExceeded"@,
        ErrorKind::Category(_) => "Category"@,
        ErrorKind::CError(_) => "CError"@,
    }
}

/// The `Debug` text of a C status, such as `Cat(OutOfMemory)` or `Custom(1025)`.
pub open spec fn cstatus_text(s: CStatus) -> Seq<char> {
    match s {
        CStatus::Custom(v) => "Custom("@ + decimal_text(v as int) + ")"@,
        CStatus::Unknown(v) => "Unknown("@ + decimal_text(v as int) + ")"@,
        CStatus::ErrorMismatch => "ErrorMismatch"@,
        CStatus::Cat(c) => "Cat("@ + category_name(c) + ")"@,
    }
}

/// The `Debug` text of an error kind, such as `InvalidArgument` or `Category(InvalidJson)`.
pub open spec fn kind_text(k: ErrorKind) -> Seq<char> {
    match k {
        ErrorKind::Category(c) => "Category("@ + category_name(c) + ")"@,
        ErrorKind::CError(s) => "CError("@ + cstatus_text(s) + ")"@,
        other => kind_variant_name(other),
    }
}

/// Types of errors that can be mapped to an `ErrorCategory`.
pub trait CategorizedError {
    /// The category, as a mathematical function of the value.
    spec fn spec_category(&self) -> ErrorCategory;

    /// The category of this error.
    fn category(&self) -> (c: ErrorCategory)
        ensures
            c == self.spec_category();
}

impl CategorizedError for CStatus {
    open spec fn spec_category(&self) -> ErrorCategory {
        cstatus_category(*self)
    }

    fn category(&self) -> (c: ErrorCategory) {
        match *self {
            CStatus::Custom(_) => ErrorCategory::Custom,
            CStatus::Unknown(_) => ErrorCategory::Unknown,
            CStatus::ErrorMismatch => ErrorCategory::InternalError,
            CStatus::Cat(c) => c,
        }
    }
}

impl CategorizedError for ErrorKind {
    open spec fn spec_category(&self) -> ErrorCategory {
        kind_category(*self)
    }

    fn category(&self) -> (c: ErrorCategory) {
        match self {
            ErrorKind::AllocationFailed => ErrorCategory::OutOfMemory,
            ErrorKind::GraphCyclic | ErrorKind::InvalidNodeConnections | ErrorKind::GraphInvalid => ErrorCategory::GraphInvalid,
            ErrorKind::CodecDisabledError | ErrorKind::LayoutError | ErrorKind::DuplicateIoId | ErrorKind::NullArgument | ErrorKind::InvalidArgument | ErrorKind::InvalidCoordinates | ErrorKind::InvalidNodeParams | ErrorKind::InvalidMessageEndpoint | ErrorKind::IoIdNotFound | ErrorKind::ItemNotFound | ErrorKind::SizeLimitExceeded => ErrorCategory::ArgumentInvalid,
            ErrorKind::InternalError | ErrorKind::GifEncodingError | ErrorKind::ImageEncodingError | ErrorKind::QuantizationError | ErrorKind::LodePngEncodingError | ErrorKind::MozjpegEncodingError | ErrorKind::FailedBorrow | ErrorKind::NodeParamsMismatch | ErrorKind::BitmapPointerNull | ErrorKind::MethodNotImplemented | ErrorKind::ValidationNotImplemented | ErrorKind::InvalidOperation | ErrorKind::InvalidState => ErrorCategory::InternalError,
            ErrorKind::GifDecodingError | ErrorKind::ImageDecodingError | ErrorKind::JpegDecodingError | ErrorKind::NoEnabledDecoderFound | ErrorKind::ColorProfileError => ErrorCategory::ImageMalformed,
            ErrorKind::DecodingIoError | ErrorKind::EncodingIoError | ErrorKind::FetchError => ErrorCategory::IoError,
            ErrorKind::CError(e) => e.category(),
            ErrorKind::Category(c) => *c,
        }
    }
}

impl ErrorKind {
    /// The category of this kind.
    pub fn cat(&self) -> (c: ErrorCategory)
        ensures
            c == kind_category(*self),
    {
        self.category()
    }

    /// Whether this kind reports an out-of-memory condition.
    pub fn is_oom(&self) -> (r: bool)
        ensures
            r == (kind_category(*self) == ErrorCategory::OutOfMemory),
    {
        self.category() == ErrorCategory::OutOfMemory
    }

    /// Appends the `Debug` text of this kind to `s`.
    pub fn push_text(&self, s: &mut String)
        ensures
            final(s)@ == old(s)@ + kind_text(*self),
    {
        match self {
            ErrorKind::Category(c) => {
                proof { reveal_strlit("Category("); reveal_strlit(")"); }
                s.append("Category(");
                s.append(c.name());
                s.append(")");
                proof {
                    assert(final(s)@ =~= old(s)@ + kind_text(*self));
                }
            },
            ErrorKind::CError(st) => {
                s.append("CError(");
                st.push_text(s);
                s.append(")");
                proof {
                    assert(final(s)@ =~= old(s)@ + kind_text(*self));
                }
            },
            ErrorKind::InternalError => s.append("InternalError"),
            ErrorKind::AllocationFailed => s.append("AllocationFailed"),
            ErrorKind::GifDecodingError => s.append("GifDecodingError"),
            ErrorKind::GifEncodingError => s.append("GifEncodingError"),
            ErrorKind::ImageDecodingError => s.append("ImageDecodingError"),
            ErrorKind::ImageEncodingError => s.append("ImageEncodingError"),
            ErrorKind::JpegDecodingError => s.append("JpegDecodingError"),
            ErrorKind::QuantizationError => s.append("QuantizationError"),
            ErrorKind::LodePngEncodingError => s.append("LodePngEncodingError"),
            ErrorKind::MozjpegEncodingError => s.append("MozjpegEncodingError"),
            ErrorKind::CodecDisabledError => s.append("CodecDisabledError"),
            ErrorKind::NoEnabledDecoderFound => s.append("NoEnabledDecoderFound"),
            ErrorKind::DecodingIoError => s.append("DecodingIoError"),
            ErrorKind::ColorProfileError => s.append("ColorProfileError"),
            ErrorKind::EncodingIoError => s.append("EncodingIoError"),
            ErrorKind::GraphCyclic => s.append("GraphCyclic"),
            ErrorKind::InvalidNodeConnections => s.append("InvalidNodeConnections"),
            ErrorKind::LayoutError => s.append("LayoutError"),
            ErrorKind::DuplicateIoId => s.append("DuplicateIoId"),
            ErrorKind::GraphInvalid => s.append("GraphInvalid"),
            ErrorKind::NullArgument => s.append("NullArgument"),
            ErrorKind::InvalidArgument => s.append("InvalidArgument"),
            ErrorKind::InvalidCoordinates => s.append("InvalidCoordinates"),
            ErrorKind::InvalidNodeParams => s.append("InvalidNodeParams"),
            ErrorKind::InvalidMessageEndpoint => s.append("InvalidMessageEndpoint"),
            ErrorKind::IoIdNotFound => s.append("IoIdNotFound"),
            ErrorKind::ItemNotFound => s.append("ItemNotFound"),
            ErrorKind::FailedBorrow => s.append("FailedBorrow"),
            ErrorKind::NodeParamsMismatch => s.append("NodeParamsMismatch"),
            ErrorKind::BitmapPointerNull => s.append("BitmapPointerNull"),
            ErrorKind::MethodNotImplemented => s.append("MethodNotImplemented"),
            ErrorKind::ValidationNotImplemented => s.append("ValidationNotImplemented"),
            ErrorKind::InvalidOperation => s.append("InvalidOperation"),
            ErrorKind::InvalidState => s.append("InvalidState"),
            ErrorKind::FetchError => s.append("FetchError"),
            ErrorKind::SizeLimitExceeded => s.append("SizeLimitExceeded"),
        }
    }
}

impl CStatus {
    /// The raw C code of this status.
    pub fn to_i32(&self) -> (r: i32)
        ensures
            r == spec_cstatus_to_i32(*self),
    {
        match *self {
            CStatus::Custom(v) | CStatus::Unknown(v) => v,
            CStatus::ErrorMismatch => 90,
            CStatus::Cat(c) => c.to_c_error_code(),
        }
    }

    /// The status that a raw C code denotes: a category code, a custom code (above 1024),
    /// the error-mismatch code (90), or an unknown code.
    pub fn from(v: i32) -> (r: CStatus)
        ensures
            r == spec_cstatus_from(v as int),
    {
        if let Some(cat) = ErrorCategory::from_c_error_code(v) {
            CStatus::Cat(cat)
        } else if v > 1024 {
            CStatus::Custom(v)
        } else if v == 90 {
            CStatus::ErrorMismatch
        } else {
            CStatus::Unknown(v)
        }
    }

    /// Appends the `Debug` text of this status to `s`.
    pub fn push_text(&self, s: &mut String)
        ensures
            final(s)@ == old(s)@ + cstatus_text(*self),
    {
        match *self {
            CStatus::Custom(v) => {
                s.append("Custom(");
                push_decimal_i64(s, v as i64);
                s.append(")");
            },
            CStatus::Unknown(v) => {
                s.append("Unknown(");
                push_decimal_i64(s, v as i64);
                s.append(")");
            },
            CStatus::ErrorMismatch => {
                s.append("ErrorMismatch");
            },
            CStatus::Cat(c) => {
                s.append("Cat(");
                s.append(c.name());
                s.append(")");
            },
        }
        proof {
            assert(final(s)@ =~= old(s)@ + cstatus_text(*self));
        }
    }
}

/// A C status survives the trip through its raw code, except `Unknown` codes that happen
/// to be category codes, custom codes or the mismatch code, and the `Custom`/`Unknown` categories.
pub proof fn lemma_cstatus_roundtrip(s: CStatus)
    requires
        match s {
            CStatus::Custom(v) => v > 1024,
            CStatus::Unknown(v) => v <= 1024 && v != 90 && spec_from_c_error_code(v as int) is None,
            CStatus::ErrorMismatch => true,
            CStatus::Cat(c) => c != ErrorCategory::Custom && c != ErrorCategory::Unknown,
        },
    ensures
        spec_cstatus_from(spec_cstatus_to_i32(s)) == s,
{
    if let CStatus::Cat(c) = s {
        lemma_c_error_code_roundtrip(c);
    }
}

} // verus!

verus! {

/// A recorded source location: file, line and column.
#[derive(Debug, Copy, Clone, PartialEq)]
pub struct CodeLocation {
    file: &'static str,
    line: u32,
    column: u32,
}

impl CodeLocation {
    /// The file of this location, as a spec value.
    pub closed spec fn spec_file(self) -> &'static str {
        self.file
    }

    /// The line of this location, as a spec value.
    pub closed spec fn spec_line(self) -> u32 {
        self.line
    }

    /// The column of this location, as a spec value.
    pub closed spec fn spec_column(self) -> u32 {
        self.column
    }

    pub fn new(file: &'static str, line: u32, column: u32) -> (r: CodeLocation)
        ensures
            r.spec_file() == file,
            r.spec_line() == line,
            r.spec_column() == column,
    {
        CodeLocation { file, line, column }
    }

    pub fn col(&self) -> (r: u32)
        ensures
            r == self.spec_column(),
    {
        self.column
    }

    pub fn line(&self) -> (r: u32)
        ensures
            r == self.spec_line(),
    {
        self.line
    }

    pub fn file(&self) -> (r: &'static str)
        ensures
            r == self.spec_file(),
    {
        self.file
    }
}

/// The text `file:line:col` of a location.
pub open spec fn location_text(c: CodeLocation) -> Seq<char> {
    c.spec_file()@ + ":"@ + decimal_text(c.spec_line() as int) + ":"@ + decimal_text(
        c.spec_column() as int,
    )
}

/// An error raised through the C interface: its status and its message (with stack).
#[derive(Debug, Clone, PartialEq)]
pub struct CError {
    status: CStatus,
    message_and_stack: String,
}

impl CError {
    /// The status of this error, as a spec value.
    pub closed spec fn spec_status(&self) -> CStatus {
        self.status
    }

    /// The message of this error, as a spec value.
    pub closed spec fn spec_message(&self) -> Seq<char> {
        self.message_and_stack@
    }

    pub fn status(&self) -> (r: CStatus)
        ensures
            r == self.spec_status(),
    {
        self.status
    }

    pub fn into_string(self) -> (r: String)
        ensures
            r@ == self.spec_message(),
    {
        self.message_and_stack
    }

    pub fn new(status: CStatus, message_and_stack: String) -> (r: CError)
        ensures
            r.spec_status() == status,
            r.spec_message() == message_and_stack@,
    {
        CError { status, message_and_stack }
    }

    pub fn from_status(status: CStatus) -> (r: CError)
        ensures
            r.spec_status() == status,
            r.spec_message() == Seq::<char>::empty(),
    {
        CError { status, message_and_stack: String::new() }
    }

    /// Whether the status is the out-of-memory category.
    pub fn is_oom(&self) -> (r: bool)
        ensures
            r == (self.spec_status() == CStatus::Cat(ErrorCategory::OutOfMemory)),
    {
        self.status == CStatus::Cat(ErrorCategory::OutOfMemory)
    }
}

impl CategorizedError for CError {
    open spec fn spec_category(&self) -> ErrorCategory {
        cstatus_category(self.spec_status())
    }

    fn category(&self) -> (c: ErrorCategory) {
        self.status().category()
    }
}

/// The last error that a C context reports: its raw reason code, and its message with the
/// call stack, as read from the context.
pub struct CErrorProxy {
    reason: i32,
    message_and_stack: String,
}

impl CErrorProxy {
    pub closed spec fn spec_reason(&self) -> i32 {
        self.reason
    }

    pub closed spec fn spec_message(&self) -> Seq<char> {
        self.message_and_stack@
    }

    /// The report of a context whose last error has code `reason` and text `message_and_stack`.
    pub fn new(reason: i32, message_and_stack: String) -> (r: CErrorProxy)
        ensures
            r.spec_reason() == reason,
            r.spec_message() == message_and_stack@,
    {
        CErrorProxy { reason, message_and_stack }
    }

    /// The report of no context: no error.
    pub fn null() -> (r: CErrorProxy)
        ensures
            r.spec_reason() == 0,
            r.spec_message() == Seq::<char>::empty(),
    {
        CErrorProxy { reason: 0, message_and_stack: String::new() }
    }

    /// The status of the last error.
    pub fn error(&self) -> (r: CStatus)
        ensures
            r == spec_cstatus_from(self.spec_reason() as int),
    {
        CStatus::from(self.reason)
    }

    /// Whether an error is reported.
    pub fn has_error(&self) -> (r: bool)
        ensures
            r == (self.spec_reason() != 0),
    {
        self.reason != 0
    }

    /// The last error. Success and out-of-memory carry no message; any other status carries the
    /// message with the call stack.
    pub fn get(&self) -> (r: CError)
        ensures
            r.spec_status() == spec_cstatus_from(self.spec_reason() as int),
            r.spec_message() == (if r.spec_status() == CStatus::Cat(ErrorCategory::OutOfMemory)
                || r.spec_status() == CStatus::Cat(ErrorCategory::NoError) {
                Seq::<char>::empty()
            } else {
                self.spec_message()
            }),
    {
        let status = self.error();
        match status {
            CStatus::Cat(ErrorCategory::OutOfMemory) | CStatus::Cat(ErrorCategory::NoError) => CError::from_status(status),
            other => CError::new(other, self.message_and_stack.clone()),
        }
    }

    /// The last error, which is expected to exist: where none is reported, the error is the
    /// error-mismatch status.
    pub fn require(&self) -> (r: CError)
        ensures
            spec_cstatus_from(self.spec_reason() as int) == CStatus::Cat(ErrorCategory::NoError) ==> {
                &&& r.spec_status() == CStatus::ErrorMismatch
                &&& r.spec_message() == Seq::<char>::empty()
            },
            spec_cstatus_from(self.spec_reason() as int) != CStatus::Cat(ErrorCategory::NoError) ==> {
                &&& r.spec_status() == spec_cstatus_from(self.spec_reason() as int)
                &&& r.spec_message() == (if r.spec_status() == CStatus::Cat(ErrorCategory::OutOfMemory) {
                    Seq::<char>::empty()
                } else {
                    self.spec_message()
                })
            },
    {
        let e = self.get();
        if e.status() == CStatus::Cat(ErrorCategory::NoError) {
            CError::from_status(CStatus::ErrorMismatch)
        } else {
            e
        }
    }
}

} // verus!

verus! {

/// What a caught panic carried, as far as it can be shown: its text, when the panic's payload
/// was a string.
pub struct CaughtPanic {
    pub text: Option<String>,
}

/// The error state reported outward through the C interface: a category, the first panic
/// caught and the first error recorded. The earliest of each is kept, as it is likely the root
/// problem.
pub struct OutwardErrorBuffer {
    category: ErrorCategory,
    last_panic: Option<CaughtPanic>,
    last_error: Option<FlowError>,
}

/// The text of a caught panic's payload, if it is known.
pub open spec fn panic_text(p: CaughtPanic) -> Option<Seq<char>> {
    match p.text {
        Some(t) => Some(t@),
        None => None,
    }
}

impl OutwardErrorBuffer {
    /// The reported category.
    pub closed spec fn spec_category(&self) -> ErrorCategory {
        self.category
    }

    /// The caught panic, if any: `Some(text)`, where the text is known only for string payloads.
    pub closed spec fn spec_panic(&self) -> Option<Option<Seq<char>>> {
        match self.last_panic {
            Some(p) => Some(panic_text(p)),
            None => None,
        }
    }

    /// The recorded error, if any.
    pub closed spec fn spec_error(&self) -> Option<FlowError> {
        self.last_error
    }

    /// The text of the buffer's `Display` form: the category and `": "` unless it is the
    /// no-error category; `"2 errors:\n"` when both a panic and an error are held; the panic's
    /// text as `panicked: <text>` and a newline; the error's `Debug` form and a newline.
    pub open spec fn display_text(&self) -> Seq<char> {
        (if self.spec_category() != ErrorCategory::NoError {
            category_name(self.spec_category()) + ": "@
        } else {
            Seq::empty()
        }) + (if self.spec_error() is Some && self.spec_panic() is Some {
            "2 errors:\n"@
        } else {
            Seq::empty()
        }) + (match self.spec_panic() {
            Some(Some(t)) => "panicked: "@ + t + "\n"@,
            _ => Seq::empty(),
        }) + (match self.spec_error() {
            Some(e) => e.debug_text() + "\n"@,
            None => Seq::empty(),
        })
    }

    /// A buffer holding no error.
    pub fn new() -> (r: OutwardErrorBuffer)
        ensures
            r.spec_category() == ErrorCategory::NoError,
            r.spec_panic() is None,
            r.spec_error() is None,
    {
        OutwardErrorBuffer { category: ErrorCategory::NoError, last_panic: None, last_error: None }
    }

    /// Records a caught panic, unless one is already held; the category becomes the internal
    /// error. Returns whether it was recorded.
    pub fn try_set_panic_error(&mut self, value: CaughtPanic) -> (r: bool)
        ensures
            r == (old(self).spec_panic() is None),
            r ==> final(self).spec_panic() == Some(panic_text(value))
                && final(self).spec_category() == ErrorCategory::InternalError
                && final(self).spec_error() == old(self).spec_error(),
            !r ==> *final(self) == *old(self),
    {
        if self.last_panic.is_none() {
            self.category = ErrorCategory::InternalError;
            self.last_panic = Some(value);
            true
        } else {
            false
        }
    }

    /// Records an error, unless one is already held; the category becomes the error's. Returns
    /// whether it was recorded.
    pub fn try_set_error(&mut self, error: FlowError) -> (r: bool)
        ensures
            r == (old(self).spec_error() is None),
            r ==> final(self).spec_error() == Some(error)
                && final(self).spec_category() == kind_category(error.kind)
                && final(self).spec_panic() == old(self).spec_panic(),
            !r ==> *final(self) == *old(self),
    {
        if self.last_error.is_none() {
            self.category = error.category();
            self.last_error = Some(error);
            true
        } else {
            false
        }
    }

    /// Whether the category reports an error.
    pub fn has_error(&self) -> (r: bool)
        ensures
            r == (self.spec_category() != ErrorCategory::NoError),
    {
        self.category != ErrorCategory::NoError
    }

    /// The reported category.
    pub fn category(&self) -> (r: ErrorCategory)
        ensures
            r == self.spec_category(),
    {
        self.category
    }

    /// Whether the state can be cleared: only while no error is held, as recorded errors are
    /// never recoverable.
    pub fn recoverable(&self) -> (r: bool)
        ensures
            r == (self.spec_error() is None),
    {
        match &self.last_error {
            Some(e) => self.last_panic.is_none() && e.recoverable(),
            None => true,
        }
    }

    /// Clears the state if it is recoverable: the category becomes the no-error category (a
    /// caught panic stays). Returns whether it was cleared.
    pub fn try_clear(&mut self) -> (r: bool)
        ensures
            r == (old(self).spec_error() is None),
            r ==> final(self).spec_category() == ErrorCategory::NoError
                && final(self).spec_error() is None
                && final(self).spec_panic() == old(self).spec_panic(),
            !r ==> *final(self) == *old(self),
    {
        if self.recoverable() {
            self.last_error = None;
            self.category = ErrorCategory::NoError;
            true
        } else {
            false
        }
    }

    /// Renders the `Display` form of the buffer.
    pub fn to_display_string(&self) -> (r: String)
        ensures
            r@ == self.display_text(),
    {
        let mut s = String::new();
        if self.category != ErrorCategory::NoError {
            s.append(self.category.name());
            s.append(": ");
        }
        if self.last_error.is_some() && self.last_panic.is_some() {
            s.append("2 errors:\n");
        }
        if let Some(p) = &self.last_panic {
            if let Some(t) = &p.text {
                s.append("panicked: ");
                s.append(t.as_str());
                s.append("\n");
            }
        }
        if let Some(e) = &self.last_error {
            let d = e.to_debug_string();
            s.append(d.as_str());
            s.append("\n");
        }
        proof {
            assert(s@ =~= self.display_text());
        }
        s
    }
}

impl Default for OutwardErrorBuffer {
    fn default() -> (r: OutwardErrorBuffer)
        ensures
            r.spec_category() == ErrorCategory::NoError,
            r.spec_panic() is None,
            r.spec_error() is None,
    {
        OutwardErrorBuffer::new()
    }
}

} // verus!
