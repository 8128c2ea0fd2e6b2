//! Release tags. A tag names an artifact and a version: the artifact's key,
//! a hyphen, and the version, which may follow a `v`.

use vstd::prelude::*;
use crate::error::Error;
use crate::text::{chars_of, equal, find_first, first_pos, lemma_first_pos, lemma_first_pos_unique};
use crate::version::{is_parse_of, Version};

verus! {

/// The first segment of a tag: what stands before its first hyphen, or the
/// whole tag where it has none.
pub open spec fn tag_key(tag: Seq<char>) -> Seq<char> {
    tag.subrange(0, first_pos(tag, '-'))
}

/// Whether a tag belongs to the artifact with this key: its first segment is
/// the key, character for character.
pub open spec fn tag_matches_spec(tag: Seq<char>, key: Seq<char>) -> bool {
    tag_key(tag) == key
}

/// Whether a tag has a second segment, that is, holds a hyphen.
pub open spec fn tag_has_version(tag: Seq<char>) -> bool {
    first_pos(tag, '-') < tag.len()
}

/// A text less one leading `v`.
pub open spec fn without_leading_v(text: Seq<char>) -> Seq<char> {
    if text.len() > 0 && text[0] == 'v' {
        text.drop_first()
    } else {
        text
    }
}

/// The version that a tag writes: what follows its first hyphen, less one
/// leading `v`. It has a meaning only for a tag with a second segment.
pub open spec fn tag_version_text(tag: Seq<char>) -> Seq<char>
    recommends
        tag_has_version(tag),
{
    without_leading_v(tag.subrange(first_pos(tag, '-') + 1, tag.len() as int))
}

/// Decides whether a tag belongs to the artifact with the given key.
pub fn tag_matches(tag: &str, key: &str) -> (hit: bool)
    ensures
        hit == tag_matches_spec(tag@, key@),
{
    let chars = chars_of(tag);
    let split = find_first(&chars, '-');
    proof {
        lemma_first_pos(tag@, '-');
    }
    equal(tag.substring_char(0, split), key)
}

/// Removes one leading `v` from a text.
pub fn strip_leading_v(text: &str) -> (rest: String)
    ensures
        rest@ == without_leading_v(text@),
{
    let length = text.unicode_len();
    if length > 0 && text.get_char(0) == 'v' {
        String::from_str(text.substring_char(1, length))
    } else {
        String::from_str(text)
    }
}

/// Extracts the version that a tag writes, as text. A tag without a second
/// segment has none: `TagNameVersionParsingFailed`.
pub fn version_text_of_tag(tag: &str) -> (extracted: Result<String, Error>)
    ensures
        match extracted {
            Ok(text) => tag_has_version(tag@) && text@ == tag_version_text(tag@),
            Err(error) => !tag_has_version(tag@) && error == Error::TagNameVersionParsingFailed,
        },
{
    let chars = chars_of(tag);
    let split = find_first(&chars, '-');
    if split >= chars.len() {
        return Err(Error::TagNameVersionParsingFailed);
    }
    Ok(strip_leading_v(tag.substring_char(split + 1, chars.len())))
}

/// Whether `extracted` is what extracting the version of `tag` comes to. A
/// tag without a second segment gives `TagNameVersionParsingFailed`; any
/// other gives what reading its version text gives.
pub open spec fn is_version_of_tag(tag: Seq<char>, extracted: Result<Version, Error>) -> bool {
    if tag_has_version(tag) {
        is_parse_of(tag_version_text(tag), extracted)
    } else {
        extracted == Err::<Version, Error>(Error::TagNameVersionParsingFailed)
    }
}

/// Extracts the version that a tag writes.
pub fn version_of_tag(tag: &str) -> (extracted: Result<Version, Error>)
    ensures
        is_version_of_tag(tag@, extracted),
{
    match version_text_of_tag(tag) {
        Ok(text) => Version::parse(text.as_str()),
        Err(error) => Err(error),
    }
}

/// A tag made of a key without hyphen, `-v` and a version belongs to exactly
/// the artifact with that key, and the version it writes is exactly the one
/// it was made of.
pub proof fn lemma_tag_of_key_and_version(key: Seq<char>, version: Seq<char>, target: Seq<char>)
    requires
        !key.contains('-'),
    ensures
        tag_matches_spec(key + seq!['-', 'v'] + version, target) <==> key == target,
        tag_has_version(key + seq!['-', 'v'] + version),
        tag_version_text(key + seq!['-', 'v'] + version) == version,
{
    let tag = key + seq!['-', 'v'] + version;
    let split = key.len() as int;
    assert(tag[split] == '-');
    assert forall|j: int| 0 <= j < split implies tag[j] != '-' by {
        assert(tag[j] == key[j]);
        assert(key.contains(key[j]));
    }
    lemma_first_pos_unique(tag, '-', split);
    assert(tag.subrange(0, split) =~= key);
    let rest = tag.subrange(split + 1, tag.len() as int);
    assert(rest[0] == 'v');
    assert(rest.drop_first() =~= version);
}

} // verus!
