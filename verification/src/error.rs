//! Why reading or writing a clip failed.

use vstd::prelude::*;
use vstd::string::StringExecFns;

verus! {

/// `midi2`'s error for a word that is not the message asked for. Its text is
/// not visible to proofs: it is carried from the classifier to the caller.
#[verifier::external_type_specification]
#[verifier::external_body]
pub struct ExInvalidData(midi2::error::InvalidData);

/// A failure of the byte source itself.
#[derive(Debug, Clone, Copy, PartialEq, Eq, Structural)]
pub enum IoFailure {
    /// The source ended before the bytes asked for were read.
    UnexpectedEof,
}

/// Every way in which decoding or encoding a clip fails. The first failure
/// ends the operation, and no clip is produced.
#[derive(Debug)]
pub enum Error {
    /// The first eight bytes are missing, or are not the clip marker.
    IncorrectHeader,
    /// A word is well formed but breaks a rule of the clip format.
    Parse(&'static str),
    /// A word is not the Universal MIDI Packet message that its place asks for.
    Ump(midi2::error::InvalidData),
    /// The byte source failed.
    Io(IoFailure),
}

/// What opens the message of an incorrect header or a parse error.
pub const PARSE_PREFIX: &'static str = "Parsing Error occurred: ";

/// What opens the message of a format error.
pub const UMP_PREFIX: &'static str = "Ump formatarsing Error occurred: ";

/// What opens the message of a failure of the byte source.
pub const IO_PREFIX: &'static str = "IO Error occurred: ";

/// The reason given for an incorrect header.
pub const INCORRECT_HEADER: &'static str = "Incorrect clip header";

/// The reason given for a source that ended early.
pub const UNEXPECTED_EOF: &'static str = "failed to fill whole buffer";

/// Trusted: the text that `midi2` gives an `InvalidData` through its
/// `Display` impl. Nothing is claimed of that text.
#[verifier::external_body]
fn invalid_data_text(invalid: &midi2::error::InvalidData) -> (text: String) {
    format!("{invalid}")
}

impl IoFailure {
    /// The reason that `message` gives for this failure.
    pub open spec fn reason(&self) -> Seq<char> {
        match self {
            IoFailure::UnexpectedEof => UNEXPECTED_EOF@,
        }
    }
}

impl Error {
    /// Whether `text` is the message of this error. A format error's message
    /// ends in what `midi2` says of the word, which is left open here.
    pub open spec fn has_message(&self, text: Seq<char>) -> bool {
        match self {
            Error::IncorrectHeader => text == PARSE_PREFIX@ + INCORRECT_HEADER@,
            Error::Parse(reason) => text == PARSE_PREFIX@ + reason@,
            Error::Ump(_) => text.len() >= UMP_PREFIX@.len() && text.take(
                UMP_PREFIX@.len() as int,
            ) == UMP_PREFIX@,
            Error::Io(failure) => text == IO_PREFIX@ + failure.reason(),
        }
    }

    /// The error as a line of text for a person to read.
    pub fn message(&self) -> (text: String)
        ensures
            self.has_message(text@),
    {
        match self {
            Error::IncorrectHeader => String::from_str(PARSE_PREFIX).concat(INCORRECT_HEADER),
            Error::Parse(reason) => String::from_str(PARSE_PREFIX).concat(reason),
            Error::Ump(invalid) => {
                let detail = invalid_data_text(invalid);
                let text = String::from_str(UMP_PREFIX).concat(detail.as_str());
                assert(text@.take(UMP_PREFIX@.len() as int) =~= UMP_PREFIX@);
                text
            },
            Error::Io(failure) => match failure {
                IoFailure::UnexpectedEof => String::from_str(IO_PREFIX).concat(UNEXPECTED_EOF),
            },
        }
    }
}

impl From<midi2::error::InvalidData> for Error {
    /// A classifier's refusal is a format error of the clip.
    fn from(value: midi2::error::InvalidData) -> (error: Self)
        ensures
            error == Error::Ump(value),
    {
        Error::Ump(value)
    }
}

impl vstd::std_specs::convert::FromSpecImpl<midi2::error::InvalidData> for Error {
    open spec fn obeys_from_spec() -> bool {
        true
    }

    open spec fn from_spec(value: midi2::error::InvalidData) -> Self {
        Error::Ump(value)
    }
}

impl From<IoFailure> for Error {
    /// A failure of the byte source is an I/O error of the clip.
    fn from(value: IoFailure) -> (error: Self)
        ensures
            error == Error::Io(value),
    {
        Error::Io(value)
    }
}

impl vstd::std_specs::convert::FromSpecImpl<IoFailure> for Error {
    open spec fn obeys_from_spec() -> bool {
        true
    }

    open spec fn from_spec(value: IoFailure) -> Self {
        Error::Io(value)
    }
}

} // verus!
