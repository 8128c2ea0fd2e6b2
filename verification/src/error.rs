//! What can go wrong while a release is resolved, fetched or unpacked.

use vstd::prelude::*;
use crate::text::{decimal, decimal_spec};

verus! {

/// The kinds of file error that this library itself raises.
#[derive(Clone, Copy, Debug, PartialEq, Eq, Structural)]
pub enum IoErrorKind {
    NotFound,
    InvalidInput,
    Other,
}

/// Each failure that comes from another library carries that library's own
/// words for it.
#[derive(Clone, Debug, PartialEq, Eq)]
pub enum Error {
    CannotParseFilenameFromUrl,
    /// The registry answered with this status, which is no success.
    CratesIoResponseError(u16),
    /// A timestamp of a release could not be read.
    DateTimeParseError(String),
    HeaderLinksToStrError,
    /// A file error: its kind and its message.
    Io(IoErrorKind, String),
    /// A response body is no JSON document.
    JsonError(String),
    /// No release was found for the artifact of this name.
    LatestReleaseNotFound(String),
    MalformedLatestReleaseResponse,
    PlatformNotSupported(String),
    RegexError,
    /// A failure of the HTTP transport, by its message.
    ReqwestError(String),
    /// Nothing is published at this URL.
    ReleaseBinaryNotFound(String),
    /// A version is not written as semantic versioning asks.
    SemVerError(String),
    TagNameVersionParsingFailed,
    UrlIsNotArchive,
    /// A failure to read a zip archive, by its message.
    ZipError(String),
}

impl Error {
    /// What the error says of itself.
    pub open spec fn message_spec(self) -> Seq<char> {
        match self {
            Error::CannotParseFilenameFromUrl => "Cannot parse file name from the URL"@,
            Error::CratesIoResponseError(status) => "Unexpected response from crates.io: "@
                + decimal_spec(status as nat),
            Error::DateTimeParseError(message) => message@,
            Error::HeaderLinksToStrError =>
                "Could not convert API response header links to string"@,
            Error::Io(_, message) => message@,
            Error::JsonError(message) => message@,
            Error::LatestReleaseNotFound(name) => "Latest release not found for "@ + name@,
            Error::MalformedLatestReleaseResponse => "The latest release response has no tag name"@,
            Error::PlatformNotSupported(message) => message@,
            Error::RegexError => "Could not compile the regex statement"@,
            Error::ReqwestError(message) => message@,
            Error::ReleaseBinaryNotFound(url) => "Release binary "@ + url@ + " was not found"@,
            Error::SemVerError(message) => message@,
            Error::TagNameVersionParsingFailed => "Could not parse version from tag name"@,
            Error::UrlIsNotArchive => "The URL must point to a zip or gzipped tar archive"@,
            Error::ZipError(message) => message@,
        }
    }

    /// The error in words.
    pub fn to_string(&self) -> (text: String)
        ensures
            text@ == self.message_spec(),
    {
        match self {
            Error::CannotParseFilenameFromUrl => String::from_str(
                "Cannot parse file name from the URL",
            ),
            Error::CratesIoResponseError(status) => {
                let mut text = String::from_str("Unexpected response from crates.io: ");
                text.append(decimal(*status as u64).as_str());
                text
            },
            Error::DateTimeParseError(message) => message.clone(),
            Error::HeaderLinksToStrError => String::from_str(
                "Could not convert API response header links to string",
            ),
            Error::Io(_, message) => message.clone(),
            Error::JsonError(message) => message.clone(),
            Error::LatestReleaseNotFound(name) => {
                let mut text = String::from_str("Latest release not found for ");
                text.append(name.as_str());
                text
            },
            Error::MalformedLatestReleaseResponse => String::from_str(
                "The latest release response has no tag name",
            ),
            Error::PlatformNotSupported(message) => message.clone(),
            Error::RegexError => String::from_str("Could not compile the regex statement"),
            Error::ReqwestError(message) => message.clone(),
            Error::ReleaseBinaryNotFound(url) => {
                let mut text = String::from_str("Release binary ");
                text.append(url.as_str());
                text.append(" was not found");
                text
            },
            Error::SemVerError(message) => message.clone(),
            Error::TagNameVersionParsingFailed => String::from_str(
                "Could not parse version from tag name",
            ),
            Error::UrlIsNotArchive => String::from_str(
                "The URL must point to a zip or gzipped tar archive",
            ),
            Error::ZipError(message) => message.clone(),
        }
    }
}

} // verus!
