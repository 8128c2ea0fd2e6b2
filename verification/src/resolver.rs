//! Finding the latest version of an artifact in what a release host answers.
//!
//! A shared release stream lists the releases of many artifacts, newest first
//! and page by page. The search keeps the most recent release whose tag
//! belongs to the artifact, and gives up paging once it has seen a release
//! older than the cutoff window.

use vstd::prelude::*;
use crate::error::Error;
use crate::listing::{is_page_of, page_releases, releases_of_page};
use crate::tag::{is_version_of_tag, tag_matches, tag_matches_spec, version_of_tag};
use crate::text::{contains, occurs_in};
use crate::version::Version;

verus! {

/// The cutoff window, in seconds: fourteen days.
pub const CUTOFF_SECONDS: i64 = 1_209_600;

/// A release as a listing gives it: its tag, and the time of its creation in
/// seconds since the Unix epoch.
#[derive(Clone, Debug, PartialEq, Eq)]
pub struct ReleaseCandidate {
    pub tag_name: String,
    pub created_at: i64,
}

/// The mathematical value of a `ReleaseCandidate`.
pub struct ReleaseModel {
    pub tag_name: Seq<char>,
    pub created_at: int,
}

impl View for ReleaseCandidate {
    type V = ReleaseModel;

    open spec fn view(&self) -> ReleaseModel {
        ReleaseModel { tag_name: self.tag_name@, created_at: self.created_at as int }
    }
}

impl ReleaseCandidate {
    /// A copy of the release.
    pub fn duplicate(&self) -> (copy: ReleaseCandidate)
        ensures
            copy == *self,
    {
        ReleaseCandidate { tag_name: self.tag_name.clone(), created_at: self.created_at }
    }
}

/// The values of a list of releases.
pub open spec fn release_models(releases: Seq<ReleaseCandidate>) -> Seq<ReleaseModel> {
    releases.map_values(|release: ReleaseCandidate| release@)
}

/// The value of a candidate that may be missing.
pub open spec fn candidate_model(candidate: Option<ReleaseCandidate>) -> Option<ReleaseModel> {
    match candidate {
        Some(release) => Some(release@),
        None => None,
    }
}

/// Whether a release created at `created_at` lies outside the cutoff window
/// at the time `now`: it is more than fourteen days old.
pub open spec fn is_stale(created_at: int, now: int) -> bool {
    now - created_at > CUTOFF_SECONDS
}

/// Whether some release of the list lies outside the cutoff window.
pub open spec fn any_stale(releases: Seq<ReleaseModel>, now: int) -> bool {
    exists|i: int| 0 <= i < releases.len() && is_stale(#[trigger] releases[i].created_at, now)
}

/// The candidate after a list of releases has been scanned in order,
/// starting from `best`: a release replaces the candidate where its tag
/// belongs to `key` and it was created later than the candidate, or there is
/// no candidate yet.
pub open spec fn best_after(best: Option<ReleaseModel>, releases: Seq<ReleaseModel>, key: Seq<char>)
    -> Option<ReleaseModel>
    decreases releases.len(),
{
    if releases.len() == 0 {
        best
    } else {
        let before = best_after(best, releases.drop_last(), key);
        let release = releases.last();
        if tag_matches_spec(release.tag_name, key) && (before is None || release.created_at
            > before->0.created_at) {
            Some(release)
        } else {
            before
        }
    }
}

/// What one page of a listing did to a search.
pub struct PageScan {
    /// The candidate after the page.
    pub best: Option<ReleaseCandidate>,
    /// Whether the page held a release outside the cutoff window.
    pub stale_seen: bool,
}

/// Decides whether a release lies outside the cutoff window.
pub fn release_is_stale(created_at: i64, now: i64) -> (stale: bool)
    ensures
        stale == is_stale(created_at as int, now as int),
{
    now as i128 - created_at as i128 > CUTOFF_SECONDS as i128
}

/// Scans one page of a listing, from its first release to its last. Every
/// release of the page is examined, whatever its age.
pub fn scan_page(
    best: Option<ReleaseCandidate>,
    releases: &Vec<ReleaseCandidate>,
    key: &str,
    now: i64,
) -> (scan: PageScan)
    ensures
        candidate_model(scan.best) == best_after(
            candidate_model(best),
            release_models(releases@),
            key@,
        ),
        scan.stale_seen == any_stale(release_models(releases@), now as int),
{
    let mut best = best;
    let mut stale_seen = false;
    let ghost start = candidate_model(best);
    let ghost models = release_models(releases@);
    let mut i: usize = 0;
    while i < releases.len()
        invariant
            i <= releases.len(),
            models == release_models(releases@),
            candidate_model(best) == best_after(start, models.subrange(0, i as int), key@),
            stale_seen == any_stale(models.subrange(0, i as int), now as int),
        decreases releases.len() - i,
    {
        let release = &releases[i];
        let ghost scanned = models.subrange(0, i as int);
        let ghost extended = models.subrange(0, i + 1);
        proof {
            assert(extended.drop_last() =~= scanned);
            assert(extended.last() == release@);
        }
        let replaces = match &best {
            None => true,
            Some(current) => release.created_at > current.created_at,
        };
        if tag_matches(release.tag_name.as_str(), key) && replaces {
            best = Some(release.duplicate());
        }
        let stale = release_is_stale(release.created_at, now);
        proof {
            if stale {
                assert(is_stale(extended[i as int].created_at, now as int));
            }
            if any_stale(scanned, now as int) {
                let j = choose|j: int|
                    0 <= j < scanned.len() && is_stale(#[trigger] scanned[j].created_at, now as int);
                assert(is_stale(extended[j].created_at, now as int));
            }
            if any_stale(extended, now as int) && !stale {
                let j = choose|j: int|
                    0 <= j < extended.len() && is_stale(
                        #[trigger] extended[j].created_at,
                        now as int,
                    );
                assert(is_stale(scanned[j].created_at, now as int));
            }
        }
        stale_seen = stale_seen || stale;
        i += 1;
    }
    assert(models.subrange(0, i as int) =~= models);
    PageScan { best, stale_seen }
}

/// Whether some release of the list has a tag that belongs to `key`.
pub open spec fn has_match(releases: Seq<ReleaseModel>, key: Seq<char>) -> bool {
    exists|i: int| 0 <= i < releases.len() && tag_matches_spec((#[trigger] releases[i]).tag_name, key)
}

/// Whether the release at `i` is the latest of those whose tag belongs to
/// `key`: none of them was created later, and none that stands before it was
/// created at the same time.
pub open spec fn is_latest_match(releases: Seq<ReleaseModel>, key: Seq<char>, i: int) -> bool {
    &&& 0 <= i < releases.len()
    &&& tag_matches_spec(releases[i].tag_name, key)
    &&& forall|j: int|
        0 <= j < releases.len() && tag_matches_spec((#[trigger] releases[j]).tag_name, key)
            ==> releases[j].created_at <= releases[i].created_at
    &&& forall|j: int|
        0 <= j < i && tag_matches_spec((#[trigger] releases[j]).tag_name, key)
            ==> releases[j].created_at < releases[i].created_at
}

/// Whether a list of releases stands newest first.
pub open spec fn newest_first(releases: Seq<ReleaseModel>) -> bool {
    forall|a: int, b: int|
        0 <= a <= b < releases.len() ==> (#[trigger] releases[a]).created_at
            >= (#[trigger] releases[b]).created_at
}

/// Scanning two lists one after the other is scanning them joined.
pub proof fn lemma_best_after_concat(
    best: Option<ReleaseModel>,
    first: Seq<ReleaseModel>,
    second: Seq<ReleaseModel>,
    key: Seq<char>,
)
    ensures
        best_after(best_after(best, first, key), second, key) == best_after(
            best,
            first + second,
            key,
        ),
    decreases second.len(),
{
    if second.len() == 0 {
        assert(first + second =~= first);
    } else {
        lemma_best_after_concat(best, first, second.drop_last(), key);
        assert((first + second).drop_last() =~= first + second.drop_last());
        assert((first + second).last() == second.last());
    }
}

/// A search that starts without a candidate ends without one exactly where no
/// tag of the list belongs to the key. Otherwise it ends with the release
/// that was created most recently among those whose tag belongs to the key,
/// and with the first of them in the list where several share that time.
pub proof fn lemma_best_is_latest_match(releases: Seq<ReleaseModel>, key: Seq<char>)
    ensures
        match best_after(None, releases, key) {
            None => !has_match(releases, key),
            Some(release) => exists|i: int|
                is_latest_match(releases, key, i) && #[trigger] releases[i] == release,
        },
    decreases releases.len(),
{
    if releases.len() > 0 {
        let shorter = releases.drop_last();
        let last = releases.last();
        let end = releases.len() - 1;
        lemma_best_is_latest_match(shorter, key);
        assert forall|j: int| 0 <= j < shorter.len() implies shorter[j] == releases[j] by {}
        match best_after(None, shorter, key) {
            None => {
                assert forall|j: int| 0 <= j < end implies !tag_matches_spec(
                    (#[trigger] releases[j]).tag_name,
                    key,
                ) by {
                    assert(shorter[j] == releases[j]);
                }
                if tag_matches_spec(last.tag_name, key) {
                    assert(is_latest_match(releases, key, end));
                    assert(releases[end] == last);
                }
            },
            Some(before) => {
                let i = choose|i: int|
                    is_latest_match(shorter, key, i) && #[trigger] shorter[i] == before;
                assert(releases[i] == before);
                assert forall|j: int|
                    0 <= j < end && tag_matches_spec(
                        (#[trigger] releases[j]).tag_name,
                        key,
                    ) implies releases[j].created_at <= before.created_at by {
                    assert(shorter[j] == releases[j]);
                }
                assert forall|j: int|
                    0 <= j < i && tag_matches_spec(
                        (#[trigger] releases[j]).tag_name,
                        key,
                    ) implies releases[j].created_at < before.created_at by {
                    assert(shorter[j] == releases[j]);
                }
                if tag_matches_spec(last.tag_name, key) && last.created_at > before.created_at {
                    assert(is_latest_match(releases, key, end));
                    assert(releases[end] == last);
                } else {
                    assert(is_latest_match(releases, key, i));
                }
            },
        }
    }
}

/// Over a list that stands newest first, a search that starts without a
/// candidate ends with the first release whose tag belongs to the key.
pub proof fn lemma_newest_first_picks_first_match(
    releases: Seq<ReleaseModel>,
    key: Seq<char>,
    first: int,
)
    requires
        newest_first(releases),
        0 <= first < releases.len(),
        tag_matches_spec(releases[first].tag_name, key),
        forall|j: int| 0 <= j < first ==> !tag_matches_spec((#[trigger] releases[j]).tag_name, key),
    ensures
        best_after(None, releases, key) == Some(releases[first]),
{
    lemma_best_is_latest_match(releases, key);
    let found = best_after(None, releases, key);
    assert(has_match(releases, key));
    let i = choose|i: int| is_latest_match(releases, key, i) && #[trigger] releases[i] == found->0;
    if i < first {
        assert(!tag_matches_spec(releases[i].tag_name, key));
    } else if i > first {
        assert(releases[first].created_at < releases[i].created_at);
        assert(releases[first].created_at >= releases[i].created_at);
    }
}

/// Whether a `Link` header announces a further page: it holds `rel="next"`.
/// A response without the header announces none.
pub open spec fn announces_next(links: Option<&str>) -> bool {
    match links {
        Some(text) => occurs_in("rel=\"next\""@, text@),
        None => false,
    }
}

/// Decides whether a `Link` header announces a further page.
pub fn has_next_page(links: Option<&str>) -> (next: bool)
    ensures
        next == announces_next(links),
{
    match links {
        Some(text) => contains(text, "rel=\"next\""),
        None => false,
    }
}

/// Whether a search goes on to a further page after a page with these
/// releases: none of them lies outside the cutoff window, and the host
/// announced a further page.
pub open spec fn search_continues(releases: Seq<ReleaseModel>, now: int, next_announced: bool) -> bool {
    !any_stale(releases, now) && next_announced
}

/// A release outside the cutoff window ends the search, whether or not the
/// host announced a further page.
pub proof fn lemma_stale_release_ends_search(
    releases: Seq<ReleaseModel>,
    now: int,
    next_announced: bool,
)
    requires
        any_stale(releases, now),
    ensures
        !search_continues(releases, now, next_announced),
{
}

/// A search through a shared release stream for the latest release of one
/// artifact. The caller fetches the page that `next_page` asks for and hands
/// what came back to `accept_page` or `accept_response`, until no page is
/// asked for; `into_version` then gives the version that was found.
#[derive(Debug)]
pub struct VersionSearch {
    /// The key of the artifact that is searched for.
    pub key: String,
    /// The time at which the search began, in seconds since the Unix epoch.
    pub now: i64,
    /// The number of the page that is to be fetched next, counted from 1.
    pub page: u64,
    /// The latest release found so far whose tag belongs to the key.
    pub best: Option<ReleaseCandidate>,
    /// Whether the search has ended.
    pub finished: bool,
}

impl VersionSearch {
    /// A search that has fetched nothing yet.
    pub fn new(key: &str, now: i64) -> (search: VersionSearch)
        ensures
            search.key@ == key@,
            search.now == now,
            search.page == 1,
            search.best is None,
            !search.finished,
    {
        VersionSearch { key: String::from_str(key), now, page: 1, best: None, finished: false }
    }

    /// The number of the page to fetch; `None` once the search has ended.
    pub fn next_page(&self) -> (page: Option<u64>)
        ensures
            page == (if self.finished {
                None
            } else {
                Some(self.page)
            }),
    {
        if self.finished {
            None
        } else {
            Some(self.page)
        }
    }

    /// Whether `after` is the search `self` once it has taken in a page with
    /// these releases. Every release of the page is scanned. The search goes
    /// on to the next page where `search_continues` holds, and has ended
    /// otherwise.
    pub open spec fn takes_in(
        self,
        releases: Seq<ReleaseModel>,
        next_announced: bool,
        after: VersionSearch,
    ) -> bool {
        &&& after.key == self.key
        &&& after.now == self.now
        &&& candidate_model(after.best) == best_after(candidate_model(self.best), releases, self.key@)
        &&& after.finished == !search_continues(releases, self.now as int, next_announced)
        &&& after.page == (if after.finished {
            self.page as int
        } else {
            self.page + 1
        })
    }

    /// Takes in the releases of the page that was fetched, and the `Link`
    /// header that came with it.
    pub fn accept_page(&mut self, releases: &Vec<ReleaseCandidate>, links: Option<&str>)
        requires
            old(self).page < u64::MAX,
        ensures
            old(self).takes_in(release_models(releases@), announces_next(links), *final(self)),
            any_stale(release_models(releases@), old(self).now as int) ==> final(self).finished,
    {
        let scan = scan_page(self.best.take(), releases, self.key.as_str(), self.now);
        self.best = scan.best;
        if !scan.stale_seen && has_next_page(links) {
            self.page = self.page + 1;
            self.finished = false;
        } else {
            self.finished = true;
        }
    }

    /// Takes in the body of the page that was fetched, and the `Link` header
    /// that came with it. Where the body cannot be read the search is left
    /// as it was and the error is returned.
    pub fn accept_response(&mut self, body: &str, links: Option<&str>) -> (outcome: Result<
        (),
        Error,
    >)
        requires
            old(self).page < u64::MAX,
        ensures
            match outcome {
                Ok(()) => page_releases(body@) is Some && old(self).takes_in(
                    page_releases(body@)->0,
                    announces_next(links),
                    *final(self),
                ),
                Err(error) => *final(self) == *old(self) && is_page_of(
                    body@,
                    Err::<Vec<ReleaseCandidate>, Error>(error),
                ),
            },
    {
        match releases_of_page(body) {
            Ok(releases) => {
                self.accept_page(&releases, links);
                Ok(())
            },
            Err(error) => Err(error),
        }
    }

    /// The version that the search has found: that of the tag of the latest
    /// release whose tag belongs to the key. Where no tag belonged to the
    /// key, `LatestReleaseNotFound` with the artifact's name.
    pub fn into_version(self, name: &str) -> (outcome: Result<Version, Error>)
        ensures
            is_resolution_of(candidate_model(self.best), name@, outcome),
    {
        resolve_candidate(self.best, name)
    }
}

/// Whether `outcome` is what a search that ended with the candidate `best`
/// comes to for the artifact `name`: `LatestReleaseNotFound` with the name
/// where there is no candidate, and else what extracting the version of the
/// candidate's tag gives.
pub open spec fn is_resolution_of(
    best: Option<ReleaseModel>,
    name: Seq<char>,
    outcome: Result<Version, Error>,
) -> bool {
    match best {
        Some(release) => is_version_of_tag(release.tag_name, outcome),
        None => {
            &&& outcome is Err
            &&& outcome->Err_0 is LatestReleaseNotFound
            &&& outcome->Err_0->LatestReleaseNotFound_0@ == name
        },
    }
}

/// Turns the candidate with which a search ended into a version.
pub fn resolve_candidate(best: Option<ReleaseCandidate>, name: &str) -> (outcome: Result<
    Version,
    Error,
>)
    ensures
        is_resolution_of(candidate_model(best), name@, outcome),
{
    match best {
        Some(release) => version_of_tag(release.tag_name.as_str()),
        None => Err(Error::LatestReleaseNotFound(String::from_str(name))),
    }
}

} // verus!
