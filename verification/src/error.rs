//! The error type of the library and the mapping from BASS error codes.

use std::path::PathBuf;
use vstd::prelude::*;
use vstd::std_specs::convert::FromSpecImpl;
use vstd::string::*;
use crate::path::path_text;
use crate::text::{hex_string, hex_text, signed_decimal_string, signed_decimal_text};

verus! {

/// An error code reported by `BASS_ErrorGetCode`.
#[derive(Debug, Clone, Copy, PartialEq, Eq, Structural)]
pub enum ErrorCode {
    NoError,
    Mem,
    FileOpen,
    Driver,
    BufLost,
    Handle,
    Format,
    Position,
    Init,
    Start,
    Ssl,
    Reinit,
    Track,
    Already,
    NotAudio,
    NoChan,
    IllType,
    IllParam,
    No3d,
    NoEax,
    Device,
    NoPlay,
    Freq,
    NotFile,
    NoHw,
    Empty,
    NoNet,
    Create,
    NoFx,
    NotAvail,
    Decode,
    Dx,
    Timeout,
    FileForm,
    Speaker,
    Version,
    Codec,
    Ended,
    Busy,
    Unstreamable,
    Protocol,
    Denied,
    Freeing,
    Cancel,
    Unknown(i32),
}

/// The error code that a raw BASS error number stands for: the named code of
/// the official header, or `Unknown` carrying the number itself.
pub open spec fn error_code_of(value: i32) -> ErrorCode {
    if value == 0 { ErrorCode::NoError }
    else if value == 1 { ErrorCode::Mem }
    else if value == 2 { ErrorCode::FileOpen }
    else if value == 3 { ErrorCode::Driver }
    else if value == 4 { ErrorCode::BufLost }
    else if value == 5 { ErrorCode::Handle }
    else if value == 6 { ErrorCode::Format }
    else if value == 7 { ErrorCode::Position }
    else if value == 8 { ErrorCode::Init }
    else if value == 9 { ErrorCode::Start }
    else if value == 10 { ErrorCode::Ssl }
    else if value == 11 { ErrorCode::Reinit }
    else if value == 13 { ErrorCode::Track }
    else if value == 14 { ErrorCode::Already }
    else if value == 17 { ErrorCode::NotAudio }
    else if value == 18 { ErrorCode::NoChan }
    else if value == 19 { ErrorCode::IllType }
    else if value == 20 { ErrorCode::IllParam }
    else if value == 21 { ErrorCode::No3d }
    else if value == 22 { ErrorCode::NoEax }
    else if value == 23 { ErrorCode::Device }
    else if value == 24 { ErrorCode::NoPlay }
    else if value == 25 { ErrorCode::Freq }
    else if value == 27 { ErrorCode::NotFile }
    else if value == 29 { ErrorCode::NoHw }
    else if value == 31 { ErrorCode::Empty }
    else if value == 32 { ErrorCode::NoNet }
    else if value == 33 { ErrorCode::Create }
    else if value == 34 { ErrorCode::NoFx }
    else if value == 37 { ErrorCode::NotAvail }
    else if value == 38 { ErrorCode::Decode }
    else if value == 39 { ErrorCode::Dx }
    else if value == 40 { ErrorCode::Timeout }
    else if value == 41 { ErrorCode::FileForm }
    else if value == 42 { ErrorCode::Speaker }
    else if value == 43 { ErrorCode::Version }
    else if value == 44 { ErrorCode::Codec }
    else if value == 45 { ErrorCode::Ended }
    else if value == 46 { ErrorCode::Busy }
    else if value == 47 { ErrorCode::Unstreamable }
    else if value == 48 { ErrorCode::Protocol }
    else if value == 49 { ErrorCode::Denied }
    else if value == 50 { ErrorCode::Freeing }
    else if value == 51 { ErrorCode::Cancel }
    else { ErrorCode::Unknown(value) }
}

/// The raw BASS error number that an error code stands for.
pub open spec fn error_number_of(code: ErrorCode) -> i32 {
    match code {
        ErrorCode::NoError => 0,
        ErrorCode::Mem => 1,
        ErrorCode::FileOpen => 2,
        ErrorCode::Driver => 3,
        ErrorCode::BufLost => 4,
        ErrorCode::Handle => 5,
        ErrorCode::Format => 6,
        ErrorCode::Position => 7,
        ErrorCode::Init => 8,
        ErrorCode::Start => 9,
        ErrorCode::Ssl => 10,
        ErrorCode::Reinit => 11,
        ErrorCode::Track => 13,
        ErrorCode::Already => 14,
        ErrorCode::NotAudio => 17,
        ErrorCode::NoChan => 18,
        ErrorCode::IllType => 19,
        ErrorCode::IllParam => 20,
        ErrorCode::No3d => 21,
        ErrorCode::NoEax => 22,
        ErrorCode::Device => 23,
        ErrorCode::NoPlay => 24,
        ErrorCode::Freq => 25,
        ErrorCode::NotFile => 27,
        ErrorCode::NoHw => 29,
        ErrorCode::Empty => 31,
        ErrorCode::NoNet => 32,
        ErrorCode::Create => 33,
        ErrorCode::NoFx => 34,
        ErrorCode::NotAvail => 37,
        ErrorCode::Decode => 38,
        ErrorCode::Dx => 39,
        ErrorCode::Timeout => 40,
        ErrorCode::FileForm => 41,
        ErrorCode::Speaker => 42,
        ErrorCode::Version => 43,
        ErrorCode::Codec => 44,
        ErrorCode::Ended => 45,
        ErrorCode::Busy => 46,
        ErrorCode::Unstreamable => 47,
        ErrorCode::Protocol => 48,
        ErrorCode::Denied => 49,
        ErrorCode::Freeing => 50,
        ErrorCode::Cancel => 51,
        ErrorCode::Unknown(value) => value,
    }
}

impl From<i32> for ErrorCode {
    fn from(value: i32) -> (code: Self) {
        match value {
            0 => ErrorCode::NoError,
            1 => ErrorCode::Mem,
            2 => ErrorCode::FileOpen,
            3 => ErrorCode::Driver,
            4 => ErrorCode::BufLost,
            5 => ErrorCode::Handle,
            6 => ErrorCode::Format,
            7 => ErrorCode::Position,
            8 => ErrorCode::Init,
            9 => ErrorCode::Start,
            10 => ErrorCode::Ssl,
            11 => ErrorCode::Reinit,
            13 => ErrorCode::Track,
            14 => ErrorCode::Already,
            17 => ErrorCode::NotAudio,
            18 => ErrorCode::NoChan,
            19 => ErrorCode::IllType,
            20 => ErrorCode::IllParam,
            21 => ErrorCode::No3d,
            22 => ErrorCode::NoEax,
            23 => ErrorCode::Device,
            24 => ErrorCode::NoPlay,
            25 => ErrorCode::Freq,
            27 => ErrorCode::NotFile,
            29 => ErrorCode::NoHw,
            31 => ErrorCode::Empty,
            32 => ErrorCode::NoNet,
            33 => ErrorCode::Create,
            34 => ErrorCode::NoFx,
            37 => ErrorCode::NotAvail,
            38 => ErrorCode::Decode,
            39 => ErrorCode::Dx,
            40 => ErrorCode::Timeout,
            41 => ErrorCode::FileForm,
            42 => ErrorCode::Speaker,
            43 => ErrorCode::Version,
            44 => ErrorCode::Codec,
            45 => ErrorCode::Ended,
            46 => ErrorCode::Busy,
            47 => ErrorCode::Unstreamable,
            48 => ErrorCode::Protocol,
            49 => ErrorCode::Denied,
            50 => ErrorCode::Freeing,
            51 => ErrorCode::Cancel,
            other => ErrorCode::Unknown(other),
        }
    }
}

impl FromSpecImpl<i32> for ErrorCode {
    open spec fn obeys_from_spec() -> bool {
        true
    }

    open spec fn from_spec(v: i32) -> ErrorCode {
        error_code_of(v)
    }
}

/// The conversion from raw error numbers loses nothing: the number can be
/// recovered from every code, so distinct numbers give distinct codes.
pub proof fn lemma_error_code_round_trip(value: i32)
    ensures
        error_number_of(error_code_of(value)) == value,
{
}

/// Two raw error numbers convert to the same code only when they are equal.
pub proof fn lemma_error_code_injective(a: i32, b: i32)
    requires
        error_code_of(a) == error_code_of(b),
    ensures
        a == b,
{
    lemma_error_code_round_trip(a);
    lemma_error_code_round_trip(b);
}

/// The text of an error code in messages: the name of the code in the
/// official header's terms (`Ok` for no error), or `Unknown` with the
/// number.
pub open spec fn error_code_text(code: ErrorCode) -> Seq<char> {
    match code {
        ErrorCode::NoError => "Ok"@,
        ErrorCode::Mem => "Mem"@,
        ErrorCode::FileOpen => "FileOpen"@,
        ErrorCode::Driver => "Driver"@,
        ErrorCode::BufLost => "BufLost"@,
        ErrorCode::Handle => "Handle"@,
        ErrorCode::Format => "Format"@,
        ErrorCode::Position => "Position"@,
        ErrorCode::Init => "Init"@,
        ErrorCode::Start => "Start"@,
        ErrorCode::Ssl => "Ssl"@,
        ErrorCode::Reinit => "Reinit"@,
        ErrorCode::Track => "Track"@,
        ErrorCode::Already => "Already"@,
        ErrorCode::NotAudio => "NotAudio"@,
        ErrorCode::NoChan => "NoChan"@,
        ErrorCode::IllType => "IllType"@,
        ErrorCode::IllParam => "IllParam"@,
        ErrorCode::No3d => "No3d"@,
        ErrorCode::NoEax => "NoEax"@,
        ErrorCode::Device => "Device"@,
        ErrorCode::NoPlay => "NoPlay"@,
        ErrorCode::Freq => "Freq"@,
        ErrorCode::NotFile => "NotFile"@,
        ErrorCode::NoHw => "NoHw"@,
        ErrorCode::Empty => "Empty"@,
        ErrorCode::NoNet => "NoNet"@,
        ErrorCode::Create => "Create"@,
        ErrorCode::NoFx => "NoFx"@,
        ErrorCode::NotAvail => "NotAvail"@,
        ErrorCode::Decode => "Decode"@,
        ErrorCode::Dx => "Dx"@,
        ErrorCode::Timeout => "Timeout"@,
        ErrorCode::FileForm => "FileForm"@,
        ErrorCode::Speaker => "Speaker"@,
        ErrorCode::Version => "Version"@,
        ErrorCode::Codec => "Codec"@,
        ErrorCode::Ended => "Ended"@,
        ErrorCode::Busy => "Busy"@,
        ErrorCode::Unstreamable => "Unstreamable"@,
        ErrorCode::Protocol => "Protocol"@,
        ErrorCode::Denied => "Denied"@,
        ErrorCode::Freeing => "Freeing"@,
        ErrorCode::Cancel => "Cancel"@,
        ErrorCode::Unknown(value) => "Unknown("@ + signed_decimal_text(value as int) + ")"@,
    }
}

impl ErrorCode {
    /// The text of this code in messages: its name (`Ok` for no error), or
    /// `Unknown` with the number.
    pub fn describe(self) -> (text: String)
        ensures
            text@ == error_code_text(self),
    {
        match self {
            ErrorCode::NoError => String::from_str("Ok"),
            ErrorCode::Mem => String::from_str("Mem"),
            ErrorCode::FileOpen => String::from_str("FileOpen"),
            ErrorCode::Driver => String::from_str("Driver"),
            ErrorCode::BufLost => String::from_str("BufLost"),
            ErrorCode::Handle => String::from_str("Handle"),
            ErrorCode::Format => String::from_str("Format"),
            ErrorCode::Position => String::from_str("Position"),
            ErrorCode::Init => String::from_str("Init"),
            ErrorCode::Start => String::from_str("Start"),
            ErrorCode::Ssl => String::from_str("Ssl"),
            ErrorCode::Reinit => String::from_str("Reinit"),
            ErrorCode::Track => String::from_str("Track"),
            ErrorCode::Already => String::from_str("Already"),
            ErrorCode::NotAudio => String::from_str("NotAudio"),
            ErrorCode::NoChan => String::from_str("NoChan"),
            ErrorCode::IllType => String::from_str("IllType"),
            ErrorCode::IllParam => String::from_str("IllParam"),
            ErrorCode::No3d => String::from_str("No3d"),
            ErrorCode::NoEax => String::from_str("NoEax"),
            ErrorCode::Device => String::from_str("Device"),
            ErrorCode::NoPlay => String::from_str("NoPlay"),
            ErrorCode::Freq => String::from_str("Freq"),
            ErrorCode::NotFile => String::from_str("NotFile"),
            ErrorCode::NoHw => String::from_str("NoHw"),
            ErrorCode::Empty => String::from_str("Empty"),
            ErrorCode::NoNet => String::from_str("NoNet"),
            ErrorCode::Create => String::from_str("Create"),
            ErrorCode::NoFx => String::from_str("NoFx"),
            ErrorCode::NotAvail => String::from_str("NotAvail"),
            ErrorCode::Decode => String::from_str("Decode"),
            ErrorCode::Dx => String::from_str("Dx"),
            ErrorCode::Timeout => String::from_str("Timeout"),
            ErrorCode::FileForm => String::from_str("FileForm"),
            ErrorCode::Speaker => String::from_str("Speaker"),
            ErrorCode::Version => String::from_str("Version"),
            ErrorCode::Codec => String::from_str("Codec"),
            ErrorCode::Ended => String::from_str("Ended"),
            ErrorCode::Busy => String::from_str("Busy"),
            ErrorCode::Unstreamable => String::from_str("Unstreamable"),
            ErrorCode::Protocol => String::from_str("Protocol"),
            ErrorCode::Denied => String::from_str("Denied"),
            ErrorCode::Freeing => String::from_str("Freeing"),
            ErrorCode::Cancel => String::from_str("Cancel"),
            ErrorCode::Unknown(value) => {
                let text = String::from_str("Unknown(");
                let text = text.concat(signed_decimal_string(value).as_str());
                text.concat(")")
            },
        }
    }
}

/// Errors returned by the safe BASS wrapper.
#[derive(Debug)]
pub enum BassError {
    LibraryLoad { library: PathBuf, message: String },
    MissingSymbol { library: PathBuf, symbol: String },
    Api { operation: &'static str, code: ErrorCode },
    VersionMismatch { expected: u16, actual: u16 },
    FxUnavailable,
    AddonUnavailable { name: &'static str },
    InvalidInput { kind: &'static str, message: String },
    Unsupported { operation: &'static str },
    CallbackPanicked,
}

/// The message of an error, where `library_text` stands for the displayed
/// form of the library path that the loading errors carry.
pub open spec fn error_message(error: BassError, library_text: Seq<char>) -> Seq<char> {
    match error {
        BassError::LibraryLoad { message, .. } => "could not load "@ + library_text + ": "@
            + message@,
        BassError::MissingSymbol { symbol, .. } => "missing symbol "@ + symbol@ + " in "@
            + library_text,
        BassError::Api { operation, code } => "BASS operation "@ + operation@
            + " failed with error "@ + error_code_text(code),
        BassError::VersionMismatch { expected, actual } => "BASS version mismatch: expected API 0x"@
            + hex_text(expected as nat) + ", got 0x"@ + hex_text(actual as nat),
        BassError::FxUnavailable => "BASS_FX is not loaded"@,
        BassError::AddonUnavailable { name } => "add-on "@ + name@
            + " is unavailable; provide its official DLL through the documented path"@,
        BassError::InvalidInput { kind, message } => "invalid "@ + kind@ + ": "@ + message@,
        BassError::Unsupported { operation } => "operation "@ + operation@
            + " is not supported on this platform"@,
        BassError::CallbackPanicked => "a callback panicked while handling a BASS event"@,
    }
}

/// Whether an error carries a library path.
pub open spec fn names_library(error: BassError) -> bool {
    error is LibraryLoad || error is MissingSymbol
}

impl BassError {
    /// The message of this error. The displayed form of a library path is
    /// that of `Path::display`, which the message holds as it is.
    pub fn message(&self) -> (text: String)
        ensures
            !names_library(*self) ==> text@ == error_message(*self, Seq::empty()),
            exists|library_text: Seq<char>| text@ == error_message(*self, library_text),
    {
        let text = match self {
            BassError::LibraryLoad { library, message } => {
                let library_text = path_text(library);
                let text = String::from_str("could not load ");
                let text = text.concat(library_text.as_str());
                let text = text.concat(": ");
                let text = text.concat(message.as_str());
                assert(text@ == error_message(*self, library_text@));
                text
            },
            BassError::MissingSymbol { library, symbol } => {
                let library_text = path_text(library);
                let text = String::from_str("missing symbol ");
                let text = text.concat(symbol.as_str());
                let text = text.concat(" in ");
                let text = text.concat(library_text.as_str());
                assert(text@ == error_message(*self, library_text@));
                text
            },
            BassError::Api { operation, code } => {
                let text = String::from_str("BASS operation ");
                let text = text.concat(operation);
                let text = text.concat(" failed with error ");
                text.concat(code.describe().as_str())
            },
            BassError::VersionMismatch { expected, actual } => {
                let text = String::from_str("BASS version mismatch: expected API 0x");
                let text = text.concat(hex_string(*expected as u32).as_str());
                let text = text.concat(", got 0x");
                text.concat(hex_string(*actual as u32).as_str())
            },
            BassError::FxUnavailable => String::from_str("BASS_FX is not loaded"),
            BassError::AddonUnavailable { name } => {
                let text = String::from_str("add-on ");
                let text = text.concat(name);
                text.concat(" is unavailable; provide its official DLL through the documented path")
            },
            BassError::InvalidInput { kind, message } => {
                let text = String::from_str("invalid ");
                let text = text.concat(kind);
                let text = text.concat(": ");
                text.concat(message.as_str())
            },
            BassError::Unsupported { operation } => {
                let text = String::from_str("operation ");
                let text = text.concat(operation);
                text.concat(" is not supported on this platform")
            },
            BassError::CallbackPanicked => String::from_str(
                "a callback panicked while handling a BASS event",
            ),
        };
        proof {
            if !names_library(*self) {
                assert(text@ == error_message(*self, Seq::<char>::empty()));
            }
        }
        text
    }
}

/// Result alias used throughout the crate.
pub type Result<T> = std::result::Result<T, BassError>;

/// The error for a failed BASS operation that reported `code`.
pub fn api_error(operation: &'static str, code: i32) -> (error: BassError)
    ensures
        error == (BassError::Api { operation, code: error_code_of(code) }),
{
    BassError::Api { operation, code: ErrorCode::from(code) }
}

/// Turns a BASS `BOOL` result into a `Result`: success for any nonzero
/// value, otherwise the API error for `error_code`.
pub fn check_bool(operation: &'static str, value: i32, error_code: i32) -> (result: Result<()>)
    ensures
        value != 0 ==> result == Ok::<(), BassError>(()),
        value == 0 ==> result == Err::<(), BassError>(
            BassError::Api { operation, code: error_code_of(error_code) },
        ),
{
    if value != 0 {
        Ok(())
    } else {
        Err(api_error(operation, error_code))
    }
}

} // verus!
