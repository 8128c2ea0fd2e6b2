//! Planning the extraction of an archive: how the archive is to be read, and
//! where its first entry lands. Only the first entry of an archive is ever
//! extracted.

use vstd::prelude::*;
use crate::download::{join_path, join_spec};
use crate::error::{Error, IoErrorKind};
use crate::release::ArchiveType;
use crate::text::{
    chars_of,
    ends_with,
    equal,
    find_last,
    last_pos,
    lemma_last_pos,
    lemma_last_pos_unique,
};

verus! {

/// A path less what may follow its last component: trailing slashes, and
/// trailing components that are a single dot.
pub open spec fn without_trailing_separators(path: Seq<char>) -> Seq<char>
    decreases path.len(),
{
    if path.len() > 0 && path.last() == '/' {
        without_trailing_separators(path.drop_last())
    } else if path.len() >= 2 && path[path.len() - 2] == '/' && path.last() == '.' {
        without_trailing_separators(path.subrange(0, path.len() - 2))
    } else {
        path
    }
}

/// The last component of a path: what follows the last slash of the path
/// once it is taken without trailing separators. It is empty for a path
/// that names no component, such as `/`.
pub open spec fn last_component(path: Seq<char>) -> Seq<char> {
    let trimmed = without_trailing_separators(path);
    trimmed.subrange(last_pos(trimmed, '/') + 1, trimmed.len() as int)
}

/// The extension of a path: what follows the last dot of its last
/// component. `None` where that component holds no dot, or none but a
/// leading one, and for the component `..`.
pub open spec fn extension_spec(path: Seq<char>) -> Option<Seq<char>> {
    let name = last_component(path);
    let dot = last_pos(name, '.');
    if dot <= 0 || name == seq!['.', '.'] {
        None
    } else {
        Some(name.subrange(dot + 1, name.len() as int))
    }
}

/// How the archive at a path is to be read, by the path's extension: `gz`
/// is a gzipped tar archive and `zip` a zip archive. No other extension is
/// supported.
pub open spec fn archive_type_spec(path: Seq<char>) -> Option<ArchiveType> {
    if extension_spec(path) == Some("gz"@) {
        Some(ArchiveType::TarGz)
    } else if extension_spec(path) == Some("zip"@) {
        Some(ArchiveType::Zip)
    } else {
        None
    }
}

/// A slash after a path, or a slash and a dot, changes neither the last
/// component of the path, nor its extension, nor how the archive at it is
/// to be read.
pub proof fn lemma_trailing_separator_is_ignored(path: Seq<char>)
    ensures
        last_component(path + seq!['/']) == last_component(path),
        last_component(path + seq!['/', '.']) == last_component(path),
        extension_spec(path + seq!['/']) == extension_spec(path),
        extension_spec(path + seq!['/', '.']) == extension_spec(path),
        archive_type_spec(path + seq!['/']) == archive_type_spec(path),
        archive_type_spec(path + seq!['/', '.']) == archive_type_spec(path),
{
    let slashed = path + seq!['/'];
    assert(slashed.drop_last() =~= path);
    let dotted = path + seq!['/', '.'];
    assert(dotted.subrange(0, dotted.len() - 2) =~= path);
}

/// A path that ends in a name, a dot and an extension has that extension:
/// the name is not empty, and neither the name nor the extension holds a
/// slash, nor the extension a dot. What stands before the name ends in a
/// slash or is empty.
pub proof fn lemma_named_file_has_its_extension(
    before: Seq<char>,
    name: Seq<char>,
    extension: Seq<char>,
)
    requires
        before.len() == 0 || before.last() == '/',
        name.len() > 0,
        !name.contains('/'),
        extension.len() > 0,
        !extension.contains('/'),
        !extension.contains('.'),
    ensures
        last_component(before + name + seq!['.'] + extension) == name + seq!['.'] + extension,
        extension_spec(before + name + seq!['.'] + extension) == Some(extension),
{
    let file = name + seq!['.'] + extension;
    let path = before + name + seq!['.'] + extension;
    assert(path =~= before + file);
    assert(path.last() == extension.last());
    assert(extension.contains(extension.last()));
    assert(without_trailing_separators(path) == path);
    assert forall|j: int| before.len() <= j < path.len() implies path[j] != '/' by {
        let k = j - before.len();
        if k < name.len() {
            assert(path[j] == name[k]);
            assert(name.contains(name[k]));
        } else if k > name.len() {
            assert(path[j] == extension[k - name.len() - 1]);
            assert(extension.contains(extension[k - name.len() - 1]));
        }
    }
    lemma_last_pos_unique(path, '/', before.len() - 1);
    assert(path.subrange(before.len() as int, path.len() as int) =~= file);
    assert forall|j: int| name.len() < j < file.len() implies file[j] != '.' by {
        assert(file[j] == extension[j - name.len() - 1]);
        assert(extension.contains(extension[j - name.len() - 1]));
    }
    lemma_last_pos_unique(file, '.', name.len() as int);
    assert(file.subrange(name.len() as int + 1, file.len() as int) =~= extension);
    assert(file.len() > 2);
}

/// Takes the last component of a path.
pub fn last_component_of_path(path: &str) -> (name: String)
    ensures
        name@ == last_component(path@),
{
    let chars = chars_of(path);
    let mut end: usize = chars.len();
    assert(path@.subrange(0, end as int) =~= path@);
    while (end > 0 && chars[end - 1] == '/') || (end >= 2 && chars[end - 2] == '/' && chars[end
        - 1] == '.')
        invariant
            end <= chars.len(),
            chars@ == path@,
            without_trailing_separators(path@) == without_trailing_separators(
                path@.subrange(0, end as int),
            ),
        decreases end,
    {
        let ghost kept = path@.subrange(0, end as int);
        if chars[end - 1] == '/' {
            assert(kept.drop_last() =~= path@.subrange(0, end - 1));
            end -= 1;
        } else {
            assert(kept.subrange(0, kept.len() - 2) =~= path@.subrange(0, end - 2));
            end -= 2;
        }
    }
    let trimmed = path.substring_char(0, end);
    assert(without_trailing_separators(trimmed@) == trimmed@);
    let kept = chars_of(trimmed);
    proof {
        lemma_last_pos(trimmed@, '/');
    }
    match find_last(&kept, '/') {
        Some(slash) => {
            assert(slash < kept.len());
            String::from_str(trimmed.substring_char(slash + 1, kept.len()))
        },
        None => {
            assert(trimmed@.subrange(0, trimmed@.len() as int) =~= trimmed@);
            String::from_str(trimmed)
        },
    }
}

/// Takes the extension of a path.
pub fn extension_of_path(path: &str) -> (extension: Option<String>)
    ensures
        match extension {
            Some(text) => extension_spec(path@) == Some(text@),
            None => extension_spec(path@) is None,
        },
{
    let component = last_component_of_path(path);
    let name = component.as_str();
    let letters = chars_of(name);
    proof {
        lemma_last_pos(name@, '.');
        reveal_strlit("..");
        assert(".."@ =~= seq!['.', '.']);
    }
    match find_last(&letters, '.') {
        Some(dot) => {
            assert(dot < letters.len());
            if dot == 0 || equal(name, "..") {
                None
            } else {
                Some(String::from_str(name.substring_char(dot + 1, letters.len())))
            }
        },
        None => None,
    }
}

/// Decides how the archive at a path is to be read.
pub fn archive_type_of_path(path: &str) -> (archive_type: Option<ArchiveType>)
    ensures
        archive_type == archive_type_spec(path@),
{
    match extension_of_path(path) {
        Some(extension) => {
            if equal(extension.as_str(), "gz") {
                Some(ArchiveType::TarGz)
            } else if equal(extension.as_str(), "zip") {
                Some(ArchiveType::Zip)
            } else {
                None
            }
        },
        None => None,
    }
}

/// How `std::path::Path` writes the path of this text when it is formatted
/// with `{:?}`: the path as a reader is to see it, between double quotes and
/// with escapes.
pub uninterp spec fn path_debug(path: Seq<char>) -> Seq<char>;

/// Formats `std::path::Path::new(path)` with `{:?}`. The contract names the
/// result and says no more of it: it depends on the text of the path alone.
#[verifier::external_body]
fn debug_of_path(path: &str) -> (written: String)
    ensures
        written@ == path_debug(path@),
{
    format!("{:?}", std::path::Path::new(path))
}

/// What the error says of an archive that is not there, of a path as it is
/// written for a reader.
pub open spec fn not_found_message(written: Seq<char>) -> Seq<char> {
    "Archive not found at: "@ + written
}

/// What the error says of an archive that is not there.
pub open spec fn archive_not_found_message(path: Seq<char>) -> Seq<char> {
    not_found_message(path_debug(path))
}

/// The error of an archive that is not there. `written` is the archive's
/// path as it is written for a reader.
pub fn archive_not_found(written: &str) -> (error: Error)
    ensures
        error is Io,
        error->Io_0 == IoErrorKind::NotFound,
        error->Io_1@ == not_found_message(written@),
{
    let mut message = String::from_str("Archive not found at: ");
    message.append(written);
    Error::Io(IoErrorKind::NotFound, message)
}

/// Whether `outcome` is what planning the extraction of the archive at
/// `path` comes to. An archive that does not exist is not found; one whose
/// extension is neither `gz` nor `zip` is invalid input; any other is read
/// as its extension says.
pub open spec fn is_extraction_plan_of(
    path: Seq<char>,
    exists: bool,
    outcome: Result<ArchiveType, Error>,
) -> bool {
    if !exists {
        &&& outcome is Err
        &&& outcome->Err_0 is Io
        &&& outcome->Err_0->Io_0 == IoErrorKind::NotFound
        &&& outcome->Err_0->Io_1@ == archive_not_found_message(path)
    } else {
        match archive_type_spec(path) {
            Some(archive_type) => outcome == Ok::<ArchiveType, Error>(archive_type),
            None => {
                &&& outcome is Err
                &&& outcome->Err_0 is Io
                &&& outcome->Err_0->Io_0 == IoErrorKind::InvalidInput
                &&& outcome->Err_0->Io_1@ == "Unsupported archive format"@
            },
        }
    }
}

/// Plans the extraction of the archive at `path`, of which the caller says
/// whether it exists.
pub fn plan_extraction(path: &str, exists: bool) -> (outcome: Result<ArchiveType, Error>)
    ensures
        is_extraction_plan_of(path@, exists, outcome),
{
    if !exists {
        return Err(archive_not_found(debug_of_path(path).as_str()));
    }
    match archive_type_of_path(path) {
        Some(archive_type) => Ok(archive_type),
        None => Err(
            Error::Io(IoErrorKind::InvalidInput, String::from_str("Unsupported archive format")),
        ),
    }
}

/// What is to be done with the first entry of an archive.
#[derive(Clone, Copy, Debug, PartialEq, Eq, Structural)]
pub enum EntryAction {
    /// The entry of a tar archive is unpacked to the path.
    Unpack,
    /// The entry of a zip archive is a directory, which is created.
    CreateDirectory,
    /// The entry of a zip archive is a file, whose bytes are copied.
    CopyFile,
}

/// Where the first entry of an archive lands, and how.
#[derive(Clone, Debug, PartialEq, Eq)]
pub struct ExtractionPlan {
    /// The path of what is extracted.
    pub path: String,
    pub action: EntryAction,
}

/// What is done with an entry of this name: an entry of a tar archive is
/// unpacked; an entry of a zip archive whose name ends in a slash is a
/// directory, and any other a file.
pub open spec fn entry_action_spec(archive_type: ArchiveType, name: Seq<char>) -> EntryAction {
    match archive_type {
        ArchiveType::TarGz => EntryAction::Unpack,
        ArchiveType::Zip => if seq!['/'].is_suffix_of(name) {
            EntryAction::CreateDirectory
        } else {
            EntryAction::CopyFile
        },
    }
}

/// Whether `outcome` is what placing the first entry of an archive comes
/// to. An archive without entries cannot be extracted; else the entry lands
/// under the directory, by its own name.
pub open spec fn is_placement_of(
    archive_type: ArchiveType,
    directory: Seq<char>,
    first_entry: Option<&str>,
    outcome: Result<ExtractionPlan, Error>,
) -> bool {
    match first_entry {
        Some(name) => {
            &&& outcome is Ok
            &&& outcome->Ok_0.path@ == join_spec(directory, name@)
            &&& outcome->Ok_0.action == entry_action_spec(archive_type, name@)
        },
        None => {
            &&& outcome is Err
            &&& outcome->Err_0 is Io
            &&& outcome->Err_0->Io_0 == IoErrorKind::Other
            &&& outcome->Err_0->Io_1@ == "Failed to extract archive"@
        },
    }
}

/// The error of an archive that has no entry, or whose first entry could
/// not be extracted.
pub fn extraction_failure() -> (error: Error)
    ensures
        error is Io,
        error->Io_0 == IoErrorKind::Other,
        error->Io_1@ == "Failed to extract archive"@,
{
    Error::Io(IoErrorKind::Other, String::from_str("Failed to extract archive"))
}

/// Places the first entry of an archive under a directory. `first_entry` is
/// the name of the entry, `None` for an archive without entries.
pub fn place_first_entry(archive_type: &ArchiveType, directory: &str, first_entry: Option<&str>) -> (outcome:
    Result<ExtractionPlan, Error>)
    ensures
        is_placement_of(*archive_type, directory@, first_entry, outcome),
{
    match first_entry {
        Some(name) => {
            proof {
                reveal_strlit("/");
                assert("/"@ =~= seq!['/']);
            }
            let action = match archive_type {
                ArchiveType::TarGz => EntryAction::Unpack,
                ArchiveType::Zip => if ends_with(name, "/") {
                    EntryAction::CreateDirectory
                } else {
                    EntryAction::CopyFile
                },
            };
            Ok(ExtractionPlan { path: join_path(directory, name), action })
        },
        None => Err(extraction_failure()),
    }
}

} // verus!
