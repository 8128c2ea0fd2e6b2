//! Planning a download and following its progress: which URL is fetched,
//! where the archive is written, what a response means, and how far the
//! transfer has come.

use vstd::prelude::*;
use crate::error::Error;
use crate::http::{is_success, status_is_success};
use crate::release::{ArchiveType, Platform, ReleaseType};
use crate::repository::{archive_name, archive_name_spec, SafeReleaseRepository};
use crate::text::{
    chars_of,
    ends_with,
    find_last,
    last_pos,
    lemma_last_pos,
    parse_decimal,
    parse_decimal_spec,
    starts_with,
};
use crate::version::Version;

verus! {

/// Whether a URL names an archive: it ends in `.tar.gz` or in `.zip`.
pub open spec fn is_archive_url(url: Seq<char>) -> bool {
    ".tar.gz"@.is_suffix_of(url) || ".zip"@.is_suffix_of(url)
}

/// The file name of a URL: what follows its last slash, or the whole URL
/// where it has none.
pub open spec fn file_name_spec(url: Seq<char>) -> Seq<char> {
    url.subrange(last_pos(url, '/') + 1, url.len() as int)
}

/// A directory joined with a name. A name that starts with a slash stands
/// for itself, as does any name under the empty directory; else the name
/// follows the directory, after a slash unless the directory ends in one.
pub open spec fn join_spec(directory: Seq<char>, name: Seq<char>) -> Seq<char> {
    if seq!['/'].is_prefix_of(name) || directory.len() == 0 {
        name
    } else if seq!['/'].is_suffix_of(directory) {
        directory + name
    } else {
        directory + seq!['/'] + name
    }
}

/// A download that has been decided on.
#[derive(Clone, Debug, PartialEq, Eq)]
pub struct DownloadPlan {
    /// The URL to fetch.
    pub url: String,
    /// The path of the file to which the archive is written.
    pub destination: String,
}

/// Takes the file name of a URL.
pub fn file_name_of_url(url: &str) -> (name: String)
    ensures
        name@ == file_name_spec(url@),
{
    let chars = chars_of(url);
    proof {
        lemma_last_pos(url@, '/');
    }
    match find_last(&chars, '/') {
        Some(slash) => {
            assert(slash < chars.len());
            String::from_str(url.substring_char(slash + 1, chars.len()))
        },
        None => {
            assert(url@.subrange(0, url@.len() as int) =~= url@);
            String::from_str(url)
        },
    }
}

/// Joins a directory with a name.
pub fn join_path(directory: &str, name: &str) -> (path: String)
    ensures
        path@ == join_spec(directory@, name@),
{
    proof {
        reveal_strlit("/");
        assert("/"@ =~= seq!['/']);
    }
    if starts_with(name, "/") || directory.unicode_len() == 0 {
        return String::from_str(name);
    }
    let mut path = String::from_str(directory);
    if !ends_with(directory, "/") {
        path.append("/");
    }
    path.append(name);
    path
}

/// Plans the download of an archive from a URL into a directory. A URL that
/// names no archive is refused with `UrlIsNotArchive`, before anything is
/// fetched; any other URL is fetched as it stands, into the file of its own
/// name under the directory.
pub fn plan_download(url: &str, directory: &str) -> (plan: Result<DownloadPlan, Error>)
    ensures
        match plan {
            Ok(download) => {
                &&& is_archive_url(url@)
                &&& download.url@ == url@
                &&& download.destination@ == join_spec(directory@, file_name_spec(url@))
            },
            Err(error) => !is_archive_url(url@) && error == Error::UrlIsNotArchive,
        },
{
    if !ends_with(url, ".tar.gz") && !ends_with(url, ".zip") {
        return Err(Error::UrlIsNotArchive);
    }
    let name = file_name_of_url(url);
    Ok(DownloadPlan { url: String::from_str(url), destination: join_path(directory, name.as_str()) })
}

impl SafeReleaseRepository {
    /// Plans the download of the archive of an artifact for a version and a
    /// platform into a directory: from its distribution URL, into the file
    /// of the archive's name under the directory.
    pub fn plan_distribution_download(
        &self,
        release_type: &ReleaseType,
        version: &Version,
        platform: &Platform,
        archive_type: &ArchiveType,
        directory: &str,
    ) -> (download: DownloadPlan)
        ensures
            download.url@ == self.distribution_url_spec(
                *release_type,
                version@,
                *platform,
                *archive_type,
            ),
            download.destination@ == join_spec(
                directory@,
                archive_name_spec(*release_type, version@, *platform, *archive_type),
            ),
    {
        let name = archive_name(release_type, version, platform, archive_type);
        DownloadPlan {
            url: self.distribution_url(release_type, version, platform, archive_type),
            destination: join_path(directory, name.as_str()),
        }
    }
}

/// Whether `outcome` is what the status of the response to a download comes
/// to: nothing is wrong where it reports success, and else nothing is
/// published at the URL, `ReleaseBinaryNotFound` with that URL.
pub open spec fn is_response_check_of(url: Seq<char>, status: u16, outcome: Result<(), Error>) -> bool {
    if is_success(status) {
        outcome is Ok
    } else {
        &&& outcome is Err
        &&& outcome->Err_0 is ReleaseBinaryNotFound
        &&& outcome->Err_0->ReleaseBinaryNotFound_0@ == url
    }
}

/// Judges the status of the response to a download.
pub fn check_download_response(url: &str, status: u16) -> (outcome: Result<(), Error>)
    ensures
        is_response_check_of(url@, status, outcome),
{
    if status_is_success(status) {
        Ok(())
    } else {
        Err(Error::ReleaseBinaryNotFound(String::from_str(url)))
    }
}

/// Where the archive of an artifact for a version and a platform is not
/// published, what the response to its planned download comes to is
/// `ReleaseBinaryNotFound` with exactly the distribution URL.
pub proof fn lemma_unpublished_distribution_names_its_url(
    repository: SafeReleaseRepository,
    release_type: ReleaseType,
    version: Version,
    platform: Platform,
    archive_type: ArchiveType,
    status: u16,
    outcome: Result<(), Error>,
)
    requires
        !is_success(status),
        is_response_check_of(
            repository.distribution_url_spec(release_type, version@, platform, archive_type),
            status,
            outcome,
        ),
    ensures
        outcome is Err,
        outcome->Err_0 is ReleaseBinaryNotFound,
        outcome->Err_0->ReleaseBinaryNotFound_0@ == repository.base_url_spec(release_type) + seq![
            '/',
        ] + archive_name_spec(release_type, version@, platform, archive_type),
{
}

/// The size that a `content-length` header announces: zero where there is
/// no header or it writes no number.
pub open spec fn content_length_spec(header: Option<&str>) -> u64 {
    match header {
        Some(text) => match parse_decimal_spec(text@) {
            Some(size) => size,
            None => 0,
        },
        None => 0,
    }
}

/// Reads the size that a `content-length` header announces.
pub fn content_length(header: Option<&str>) -> (size: u64)
    ensures
        size == content_length_spec(header),
{
    match header {
        Some(text) => match parse_decimal(text) {
            Some(size) => size,
            None => 0,
        },
        None => 0,
    }
}

/// How far a download has come.
#[derive(Clone, Copy, Debug, PartialEq, Eq, Structural)]
pub struct DownloadProgress {
    /// The number of bytes received so far.
    pub downloaded: u64,
    /// The size that the response announced; zero where it announced none.
    pub total_size: u64,
}

impl DownloadProgress {
    /// A download of which nothing has been received yet.
    pub fn new(total_size: u64) -> (progress: DownloadProgress)
        ensures
            progress == (DownloadProgress { downloaded: 0, total_size }),
    {
        DownloadProgress { downloaded: 0, total_size }
    }

    /// Counts a chunk of `length` bytes and returns what is reported of the
    /// download after it: the bytes received so far, and the total size.
    pub fn accept_chunk(&mut self, length: usize) -> (report: (u64, u64))
        requires
            old(self).downloaded + length <= u64::MAX,
        ensures
            final(self).downloaded == old(self).downloaded + length,
            final(self).total_size == old(self).total_size,
            report == (final(self).downloaded, final(self).total_size),
    {
        self.downloaded = self.downloaded + length as u64;
        (self.downloaded, self.total_size)
    }
}

} // verus!
