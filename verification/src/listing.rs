//! What the release host and the registry answer: a page of a release
//! listing, the latest release of a repository, and the registry's record of
//! a package.

use vstd::prelude::*;
use crate::error::Error;
use crate::http::{is_success, status_is_success};
use crate::json::{json_length_at, json_parse, json_text_at, parse_json, JsonModel};
use crate::resolver::{release_models, ReleaseCandidate, ReleaseModel};
use crate::tag::{strip_leading_v, without_leading_v};
use crate::text::{decimal, decimal_spec};
use crate::timestamp::{parse_timestamp, timestamp_parse};
use crate::version::{is_parse_of, Version};

verus! {

/// The JSON Pointer to a field of the entry at `index` of a listing.
pub open spec fn entry_pointer(index: nat, field: Seq<char>) -> Seq<char> {
    seq!['/'] + decimal_spec(index) + seq!['/'] + field
}

/// The number of entries of a listing: the length of the array that the
/// document is, and zero for a document that is no array.
pub open spec fn listing_length(document: JsonModel) -> nat {
    if document.lengths.contains_key(Seq::empty()) {
        document.lengths[Seq::empty()]
    } else {
        0
    }
}

/// Whether the entry at `index` is a release: it holds a tag name and a time
/// of creation, both as strings.
pub open spec fn is_listed(document: JsonModel, index: nat) -> bool {
    &&& document.texts.contains_key(entry_pointer(index, "tag_name"@))
    &&& document.texts.contains_key(entry_pointer(index, "created_at"@))
}

/// The releases among the first `count` entries of a listing, in order.
/// Entries that are no releases are passed over. `None` where the time of
/// creation of one of the releases cannot be read.
pub open spec fn listed_releases(document: JsonModel, count: nat) -> Option<Seq<ReleaseModel>>
    decreases count,
{
    if count == 0 {
        Some(Seq::empty())
    } else {
        let index = (count - 1) as nat;
        match listed_releases(document, index) {
            None => None,
            Some(before) => if is_listed(document, index) {
                match timestamp_parse(document.texts[entry_pointer(index, "created_at"@)]) {
                    None => None,
                    Some(seconds) => Some(
                        before.push(
                            ReleaseModel {
                                tag_name: document.texts[entry_pointer(index, "tag_name"@)],
                                created_at: seconds as int,
                            },
                        ),
                    ),
                }
            } else {
                Some(before)
            },
        }
    }
}

/// The releases of a page of a listing, in order: `None` for a body that is
/// no JSON document or holds a release whose time cannot be read.
pub open spec fn page_releases(body: Seq<char>) -> Option<Seq<ReleaseModel>> {
    match json_parse(body) {
        None => None,
        Some(document) => listed_releases(document, listing_length(document)),
    }
}

/// Whether `outcome` is what reading a page of a listing comes to:
/// `JsonError` for a body that is no JSON document, `DateTimeParseError`
/// where the time of a release cannot be read, and else the releases of the
/// page in order.
pub open spec fn is_page_of(body: Seq<char>, outcome: Result<Vec<ReleaseCandidate>, Error>) -> bool {
    match json_parse(body) {
        None => outcome is Err && outcome->Err_0 is JsonError,
        Some(document) => match listed_releases(document, listing_length(document)) {
            None => outcome is Err && outcome->Err_0 is DateTimeParseError,
            Some(releases) => outcome is Ok && release_models(outcome->Ok_0@) == releases,
        },
    }
}

proof fn lemma_unreadable_stays_unreadable(document: JsonModel, count: nat, more: nat)
    requires
        count <= more,
        listed_releases(document, count) is None,
    ensures
        listed_releases(document, more) is None,
    decreases more,
{
    if count < more {
        lemma_unreadable_stays_unreadable(document, count, (more - 1) as nat);
    }
}

fn entry_pointer_text(index: usize, field: &str) -> (pointer: String)
    ensures
        pointer@ == entry_pointer(index as nat, field@),
{
    proof {
        reveal_strlit("/");
    }
    let mut pointer = String::from_str("/");
    pointer.append(decimal(index as u64).as_str());
    pointer.append("/");
    pointer.append(field);
    assert(pointer@ =~= entry_pointer(index as nat, field@));
    pointer
}

/// Reads the releases of one page of a release listing.
pub fn releases_of_page(body: &str) -> (outcome: Result<Vec<ReleaseCandidate>, Error>)
    ensures
        is_page_of(body@, outcome),
{
    let document = match parse_json(body) {
        Ok(document) => document,
        Err(message) => {
            return Err(Error::JsonError(message));
        },
    };
    let ghost model = json_parse(body@)->0;
    let length: usize = match json_length_at(&document, "") {
        Some(length) => length,
        None => 0,
    };
    proof {
        reveal_strlit("");
        assert(""@ =~= Seq::<char>::empty());
    }
    let mut releases: Vec<ReleaseCandidate> = Vec::new();
    let mut index: usize = 0;
    while index < length
        invariant
            index <= length,
            length == listing_length(model),
            json_parse(body@) == Some(model),
            model == crate::json::json_model(document),
            listed_releases(model, index as nat) == Some(release_models(releases@)),
        decreases length - index,
    {
        let tag_pointer = entry_pointer_text(index, "tag_name");
        let created_pointer = entry_pointer_text(index, "created_at");
        let tag_name = json_text_at(&document, tag_pointer.as_str());
        let created_at = json_text_at(&document, created_pointer.as_str());
        let ghost before = release_models(releases@);
        match (tag_name, created_at) {
            (Some(tag_name), Some(created_at)) => {
                match parse_timestamp(created_at.as_str()) {
                    Ok(seconds) => {
                        releases.push(ReleaseCandidate { tag_name, created_at: seconds });
                        assert(release_models(releases@) =~= before.push(
                            ReleaseModel { tag_name: tag_name@, created_at: seconds as int },
                        ));
                    },
                    Err(message) => {
                        proof {
                            assert(listed_releases(model, (index + 1) as nat) is None);
                            lemma_unreadable_stays_unreadable(
                                model,
                                (index + 1) as nat,
                                length as nat,
                            );
                        }
                        return Err(Error::DateTimeParseError(message));
                    },
                }
            },
            _ => {
                assert(!is_listed(model, index as nat));
            },
        }
        index += 1;
    }
    Ok(releases)
}

/// Whether `outcome` is what reading the latest release of a repository
/// comes to: `JsonError` for a body that is no JSON document,
/// `MalformedLatestReleaseResponse` where the document holds no tag name,
/// and else what reading the tag name, less one leading `v`, as a version
/// gives.
pub open spec fn is_latest_release_of(body: Seq<char>, outcome: Result<Version, Error>) -> bool {
    match json_parse(body) {
        None => outcome is Err && outcome->Err_0 is JsonError,
        Some(document) => if document.texts.contains_key("/tag_name"@) {
            is_parse_of(without_leading_v(document.texts["/tag_name"@]), outcome)
        } else {
            outcome == Err::<Version, Error>(Error::MalformedLatestReleaseResponse)
        },
    }
}

/// Reads the version of the latest release of a repository that releases a
/// single artifact.
pub fn version_of_latest_release(body: &str) -> (outcome: Result<Version, Error>)
    ensures
        is_latest_release_of(body@, outcome),
{
    let document = match parse_json(body) {
        Ok(document) => document,
        Err(message) => {
            return Err(Error::JsonError(message));
        },
    };
    match json_text_at(&document, "/tag_name") {
        Some(tag_name) => Version::parse(strip_leading_v(tag_name.as_str()).as_str()),
        None => Err(Error::MalformedLatestReleaseResponse),
    }
}

/// Whether `outcome` is what the registry's answer for the package of the
/// artifact `name` comes to: `CratesIoResponseError` with the status where
/// it reports no success, `JsonError` for a body that is no JSON document,
/// `LatestReleaseNotFound` with the artifact's name where the document names
/// no newest version, and else what reading the newest version gives.
pub open spec fn is_registry_version_of(
    status: u16,
    body: Seq<char>,
    name: Seq<char>,
    outcome: Result<Version, Error>,
) -> bool {
    if !is_success(status) {
        outcome == Err::<Version, Error>(Error::CratesIoResponseError(status))
    } else {
        match json_parse(body) {
            None => outcome is Err && outcome->Err_0 is JsonError,
            Some(document) => if document.texts.contains_key("/crate/newest_version"@) {
                is_parse_of(document.texts["/crate/newest_version"@], outcome)
            } else {
                &&& outcome is Err
                &&& outcome->Err_0 is LatestReleaseNotFound
                &&& outcome->Err_0->LatestReleaseNotFound_0@ == name
            },
        }
    }
}

/// Reads the newest version of a package from the registry's answer.
pub fn version_of_registry_response(status: u16, body: &str, name: &str) -> (outcome: Result<
    Version,
    Error,
>)
    ensures
        is_registry_version_of(status, body@, name@, outcome),
{
    if !status_is_success(status) {
        return Err(Error::CratesIoResponseError(status));
    }
    let document = match parse_json(body) {
        Ok(document) => document,
        Err(message) => {
            return Err(Error::JsonError(message));
        },
    };
    match json_text_at(&document, "/crate/newest_version") {
        Some(newest) => Version::parse(newest.as_str()),
        None => Err(Error::LatestReleaseNotFound(String::from_str(name))),
    }
}

} // verus!
