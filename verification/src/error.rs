//! Error types of the library.

use vstd::prelude::*;

verus! {

/// A structural failure while interpreting an address or a response.
///
/// Where a variant stands for a failure reported by a parser outside this
/// library, it holds that parser's message.
#[derive(Debug, PartialEq, Eq)]
pub enum ParseError {
    /// The feed document could not be read.
    RSS(String),
    /// A text is not an absolute URL.
    URL(String),
    /// A response is not UTF-8.
    UTF8(String),
    /// A response is not JSON.
    Json(String),
    /// Something that was looked for is not there.
    MissingElement,
}

/// Which of the structural failures a [`ParseError`] is, without its message.
#[derive(Debug, Clone, Copy, PartialEq, Eq)]
pub enum ParseErrorKind {
    RSS,
    URL,
    UTF8,
    Json,
    MissingElement,
}

impl ParseError {
    /// Which failure this is.
    pub open spec fn spec_kind(&self) -> ParseErrorKind {
        match self {
            ParseError::RSS(_) => ParseErrorKind::RSS,
            ParseError::URL(_) => ParseErrorKind::URL,
            ParseError::UTF8(_) => ParseErrorKind::UTF8,
            ParseError::Json(_) => ParseErrorKind::Json,
            ParseError::MissingElement => ParseErrorKind::MissingElement,
        }
    }

    /// Which failure this is.
    #[verifier::when_used_as_spec(spec_kind)]
    pub fn kind(&self) -> (res: ParseErrorKind)
        ensures
            res == self.spec_kind(),
    {
        match self {
            ParseError::RSS(_) => ParseErrorKind::RSS,
            ParseError::URL(_) => ParseErrorKind::URL,
            ParseError::UTF8(_) => ParseErrorKind::UTF8,
            ParseError::Json(_) => ParseErrorKind::Json,
            ParseError::MissingElement => ParseErrorKind::MissingElement,
        }
    }
}

/// Any failure that the program reports.
#[derive(Debug, PartialEq, Eq)]
pub enum Error {
    /// A transfer failed; holds the transport's message.
    Download(String),
    /// Reading or writing failed; holds the system's message.
    IO(String),
    /// The logger could not be installed; holds its message.
    InitLogging(String),
    /// A response could not be interpreted.
    Parse(ParseError),
    /// The output template could not be applied.
    StringFormat,
    /// No path could be built.
    Path,
    /// The file for the episode with this title is already there.
    FileExists(String),
    /// The file of this kind could not be written.
    WriteToFile(&'static str),
    /// `value` is absent from `from`.
    ValueMissing { value: &'static str, from: &'static str },
}

impl ParseError {
    /// The text that describes the failure.
    pub open spec fn spec_to_string(&self) -> Seq<char> {
        match self {
            ParseError::RSS(_) => "Failed to parse rss: $0"@,
            ParseError::URL(_) => "Failed to parse input url: $0"@,
            ParseError::UTF8(_) => "Parsing bytes as utf8"@,
            ParseError::Json(_) => "Json"@,
            ParseError::MissingElement => "Missing element"@,
        }
    }

    /// The text that describes the failure.
    pub fn to_string(&self) -> (res: String)
        ensures
            res@ == self.spec_to_string(),
    {
        match self {
            ParseError::RSS(_) => String::from_str("Failed to parse rss: $0"),
            ParseError::URL(_) => String::from_str("Failed to parse input url: $0"),
            ParseError::UTF8(_) => String::from_str("Parsing bytes as utf8"),
            ParseError::Json(_) => String::from_str("Json"),
            ParseError::MissingElement => String::from_str("Missing element"),
        }
    }
}

impl Error {
    /// The text that describes the failure.
    pub open spec fn spec_to_string(&self) -> Seq<char> {
        match self {
            Error::Download(_) => "Failed to download: $0"@,
            Error::IO(_) => "IO Error"@,
            Error::InitLogging(_) => "Logging"@,
            Error::Parse(_) => "Parsing"@,
            Error::StringFormat => "Format string"@,
            Error::Path => "Failed to create path"@,
            Error::FileExists(_) => "File aldready exists"@,
            Error::WriteToFile(kind) => "Could not write "@ + kind@ + " file"@,
            Error::ValueMissing { value, from } => "Missing "@ + value@ + " from "@ + from@,
        }
    }

    /// The text that describes the failure.
    pub fn to_string(&self) -> (res: String)
        ensures
            res@ == self.spec_to_string(),
    {
        match self {
            Error::Download(_) => String::from_str("Failed to download: $0"),
            Error::IO(_) => String::from_str("IO Error"),
            Error::InitLogging(_) => String::from_str("Logging"),
            Error::Parse(_) => String::from_str("Parsing"),
            Error::StringFormat => String::from_str("Format string"),
            Error::Path => String::from_str("Failed to create path"),
            Error::FileExists(_) => String::from_str("File aldready exists"),
            Error::WriteToFile(kind) => {
                let mut text = String::from_str("Could not write ");
                text.append(kind);
                text.append(" file");
                text
            },
            Error::ValueMissing { value, from } => {
                let mut text = String::from_str("Missing ");
                text.append(value);
                text.append(" from ");
                text.append(from);
                text
            },
        }
    }
}

} // verus!
