//! Semantic versions: three numbers, with an optional pre-release tag and
//! optional build metadata.

use vstd::prelude::*;
use crate::error::Error;
use crate::text::{decimal, decimal_spec};

verus! {

/// A semantic version as this library holds it. The tag and the metadata are
/// empty where the version has none.
#[derive(Clone, Debug, PartialEq, Eq)]
pub struct Version {
    pub major: u64,
    pub minor: u64,
    pub patch: u64,
    pub pre: String,
    pub build: String,
}

/// The mathematical value of a `Version`.
pub struct VersionModel {
    pub major: nat,
    pub minor: nat,
    pub patch: nat,
    pub pre: Seq<char>,
    pub build: Seq<char>,
}

impl VersionModel {
    /// The version in writing: the three numbers separated by dots, then the
    /// pre-release tag after a hyphen and the build metadata after a plus
    /// sign, each only where it is not empty.
    pub open spec fn text(self) -> Seq<char> {
        decimal_spec(self.major) + seq!['.'] + decimal_spec(self.minor) + seq!['.'] + decimal_spec(
            self.patch,
        ) + (if self.pre.len() > 0 {
            seq!['-'] + self.pre
        } else {
            Seq::empty()
        }) + (if self.build.len() > 0 {
            seq!['+'] + self.build
        } else {
            Seq::empty()
        })
    }
}

impl View for Version {
    type V = VersionModel;

    open spec fn view(&self) -> VersionModel {
        VersionModel {
            major: self.major as nat,
            minor: self.minor as nat,
            patch: self.patch as nat,
            pre: self.pre@,
            build: self.build@,
        }
    }
}

/// What `semver::Version::parse` makes of a text: the version that the text
/// writes, or `None` where the text writes none.
pub uninterp spec fn semver_parse(text: Seq<char>) -> Option<VersionModel>;

/// Calls `semver::Version::parse` and copies the fields of the version that
/// it returns. The contract names the outcome and adds one fact of it: the
/// parser takes a text only where the text is the version in writing, with
/// no leading zero in a number and nothing before or after it.
#[verifier::external_body]
fn parse_semver(text: &str) -> (parsed: Result<Version, String>)
    ensures
        parsed is Ok <==> semver_parse(text@) is Some,
        parsed matches Ok(version) ==> semver_parse(text@) == Some(version@),
        parsed matches Ok(version) ==> version@.text() == text@,
{
    match semver::Version::parse(text) {
        Ok(parsed) => Ok(
            Version {
                major: parsed.major,
                minor: parsed.minor,
                patch: parsed.patch,
                pre: parsed.pre.as_str().to_string(),
                build: parsed.build.as_str().to_string(),
            },
        ),
        Err(cause) => Err(cause.to_string()),
    }
}

/// Whether `parsed` is what reading `text` as a version comes to: the
/// version that the text writes, which in writing is the text again, or
/// `SemVerError` where it writes none.
pub open spec fn is_parse_of(text: Seq<char>, parsed: Result<Version, Error>) -> bool {
    match parsed {
        Ok(version) => semver_parse(text) == Some(version@) && version@.text() == text,
        Err(error) => semver_parse(text) is None && error is SemVerError,
    }
}

impl Version {
    /// A version of three numbers, with no pre-release tag and no build
    /// metadata.
    pub fn new(major: u64, minor: u64, patch: u64) -> (version: Version)
        ensures
            version@ == (VersionModel {
                major: major as nat,
                minor: minor as nat,
                patch: patch as nat,
                pre: Seq::empty(),
                build: Seq::empty(),
            }),
    {
        Version { major, minor, patch, pre: String::new(), build: String::new() }
    }

    /// Reads a version. It is an error, `SemVerError`, exactly where the text
    /// writes no semantic version.
    pub fn parse(text: &str) -> (parsed: Result<Version, Error>)
        ensures
            is_parse_of(text@, parsed),
    {
        match parse_semver(text) {
            Ok(version) => Ok(version),
            Err(message) => Err(Error::SemVerError(message)),
        }
    }

    /// The version in writing.
    pub fn to_string(&self) -> (text: String)
        ensures
            text@ == self@.text(),
    {
        let mut text = decimal(self.major);
        proof {
            reveal_strlit(".");
            reveal_strlit("-");
            reveal_strlit("+");
        }
        text.append(".");
        text.append(decimal(self.minor).as_str());
        text.append(".");
        text.append(decimal(self.patch).as_str());
        let ghost numbers = text@;
        assert(numbers =~= decimal_spec(self@.major) + seq!['.'] + decimal_spec(self@.minor)
            + seq!['.'] + decimal_spec(self@.patch));
        if self.pre.as_str().unicode_len() > 0 {
            text.append("-");
            text.append(self.pre.as_str());
        }
        let ghost tagged = text@;
        assert(tagged =~= numbers + (if self@.pre.len() > 0 {
            seq!['-'] + self@.pre
        } else {
            Seq::empty()
        }));
        if self.build.as_str().unicode_len() > 0 {
            text.append("+");
            text.append(self.build.as_str());
        }
        assert(text@ =~= tagged + (if self@.build.len() > 0 {
            seq!['+'] + self@.build
        } else {
            Seq::empty()
        }));
        text
    }
}

} // verus!
