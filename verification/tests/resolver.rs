use sn_releases::error::Error;
use sn_releases::resolver::{
    has_next_page, release_is_stale, resolve_candidate, scan_page, ReleaseCandidate,
    VersionSearch, CUTOFF_SECONDS,
};
use sn_releases::version::Version;

const NOW: i64 = 1_700_000_000;
const DAY: i64 = 86_400;
const NEXT: &str = "<https://api.github.com/repositories/1/releases?page=2>; rel=\"next\", <https://api.github.com/repositories/1/releases?page=9>; rel=\"last\"";
const LAST_ONLY: &str = "<https://api.github.com/repositories/1/releases?page=1>; rel=\"prev\", <https://api.github.com/repositories/1/releases?page=1>; rel=\"first\"";

fn release(tag_name: &str, created_at: i64) -> ReleaseCandidate {
    ReleaseCandidate { tag_name: tag_name.to_string(), created_at }
}

#[test]
fn cutoff_is_fourteen_days() {
    assert_eq!(CUTOFF_SECONDS, 14 * 24 * 60 * 60);
}

#[test]
fn release_is_stale_when_more_than_fourteen_days_old() {
    assert!(!release_is_stale(NOW, NOW));
    assert!(!release_is_stale(NOW - 13 * DAY, NOW));
    assert!(!release_is_stale(NOW - 14 * DAY, NOW));
    assert!(release_is_stale(NOW - 14 * DAY - 1, NOW));
    assert!(release_is_stale(NOW - 15 * DAY, NOW));
    assert!(!release_is_stale(NOW + DAY, NOW));
    assert!(release_is_stale(i64::MIN, i64::MAX));
    assert!(!release_is_stale(i64::MAX, i64::MIN));
}

#[test]
fn duplicate_copies_a_release() {
    let first = release("sn_node-v0.83.51", NOW);
    assert_eq!(first.duplicate(), first);
}

#[test]
fn scan_keeps_the_latest_release_of_the_key() {
    let page = vec![
        release("sn_cli-v0.77.37", NOW - 1),
        release("sn_node-v0.83.51", NOW - 2),
        release("sn_node-v0.83.50", NOW - 3),
        release("sn_cli-v0.77.36", NOW - 4),
    ];
    let scan = scan_page(None, &page, "sn_node", NOW);
    assert_eq!(scan.best, Some(release("sn_node-v0.83.51", NOW - 2)));
    assert!(!scan.stale_seen);
    let scan = scan_page(None, &page, "sn_cli", NOW);
    assert_eq!(scan.best, Some(release("sn_cli-v0.77.37", NOW - 1)));
    let scan = scan_page(None, &page, "sn_testnet", NOW);
    assert_eq!(scan.best, None);
}

#[test]
fn scan_keeps_the_later_release_whatever_the_order() {
    let page = vec![
        release("sn_node-v0.1.0", NOW - 30),
        release("sn_node-v0.3.0", NOW - 10),
        release("sn_node-v0.2.0", NOW - 20),
    ];
    let scan = scan_page(None, &page, "sn_node", NOW);
    assert_eq!(scan.best, Some(release("sn_node-v0.3.0", NOW - 10)));
}

#[test]
fn scan_keeps_the_first_of_two_releases_of_the_same_time() {
    let page = vec![
        release("sn_node-v0.2.0", NOW - 10),
        release("sn_node-v0.1.0", NOW - 10),
    ];
    let scan = scan_page(None, &page, "sn_node", NOW);
    assert_eq!(scan.best, Some(release("sn_node-v0.2.0", NOW - 10)));
    let scan = scan_page(Some(release("sn_node-v0.3.0", NOW - 10)), &page, "sn_node", NOW);
    assert_eq!(scan.best, Some(release("sn_node-v0.3.0", NOW - 10)));
}

#[test]
fn scan_starts_from_the_candidate_it_is_given() {
    let page = vec![release("sn_node-v0.1.0", NOW - 30)];
    let scan = scan_page(Some(release("sn_node-v0.2.0", NOW - 20)), &page, "sn_node", NOW);
    assert_eq!(scan.best, Some(release("sn_node-v0.2.0", NOW - 20)));
    let scan = scan_page(Some(release("sn_node-v0.0.9", NOW - 40)), &page, "sn_node", NOW);
    assert_eq!(scan.best, Some(release("sn_node-v0.1.0", NOW - 30)));
    let scan = scan_page(Some(release("sn_cli-v0.0.9", NOW - 40)), &vec![], "sn_node", NOW);
    assert_eq!(scan.best, Some(release("sn_cli-v0.0.9", NOW - 40)));
    assert!(!scan.stale_seen);
}

#[test]
fn scan_examines_the_whole_page_even_past_a_stale_release() {
    let page = vec![
        release("sn_cli-v0.77.37", NOW - 20 * DAY),
        release("sn_node-v0.83.51", NOW - 21 * DAY),
    ];
    let scan = scan_page(None, &page, "sn_node", NOW);
    assert!(scan.stale_seen);
    assert_eq!(scan.best, Some(release("sn_node-v0.83.51", NOW - 21 * DAY)));
}

#[test]
fn scan_sees_a_stale_release_of_any_artifact() {
    let page = vec![
        release("sn_node-v0.83.51", NOW - DAY),
        release("other-v1.0.0", NOW - 14 * DAY - 1),
    ];
    assert!(scan_page(None, &page, "sn_node", NOW).stale_seen);
    let page = vec![
        release("sn_node-v0.83.51", NOW - DAY),
        release("other-v1.0.0", NOW - 14 * DAY),
    ];
    assert!(!scan_page(None, &page, "sn_node", NOW).stale_seen);
}

#[test]
fn link_header_announces_a_next_page() {
    assert!(has_next_page(Some(NEXT)));
    assert!(has_next_page(Some("<u>; rel=\"next\"")));
    assert!(!has_next_page(Some(LAST_ONLY)));
    assert!(!has_next_page(Some("")));
    assert!(!has_next_page(Some("<u>; rel=next")));
    assert!(!has_next_page(None));
}

#[test]
fn search_starts_at_page_one() {
    let search = VersionSearch::new("sn_node", NOW);
    assert_eq!(search.key, "sn_node");
    assert_eq!(search.now, NOW);
    assert_eq!(search.page, 1);
    assert_eq!(search.best, None);
    assert!(!search.finished);
    assert_eq!(search.next_page(), Some(1));
}

#[test]
fn search_goes_on_while_pages_are_fresh_and_announced() {
    let mut search = VersionSearch::new("sn_node", NOW);
    search.accept_page(&vec![release("sn_cli-v0.77.37", NOW - DAY)], Some(NEXT));
    assert_eq!(search.next_page(), Some(2));
    assert_eq!(search.best, None);
    search.accept_page(&vec![release("sn_node-v0.83.51", NOW - 2 * DAY)], Some(NEXT));
    assert_eq!(search.next_page(), Some(3));
    assert_eq!(search.best, Some(release("sn_node-v0.83.51", NOW - 2 * DAY)));
    search.accept_page(&vec![release("sn_node-v0.83.50", NOW - 3 * DAY)], Some(LAST_ONLY));
    assert_eq!(search.next_page(), None);
    assert!(search.finished);
    assert_eq!(search.page, 3);
    assert_eq!(search.into_version("safenode"), Ok(Version::new(0, 83, 51)));
}

#[test]
fn search_stops_at_a_stale_release_even_if_a_next_page_is_announced() {
    let mut search = VersionSearch::new("sn_node", NOW);
    search.accept_page(
        &vec![release("sn_cli-v0.77.37", NOW - DAY), release("sn_cli-v0.77.36", NOW - 15 * DAY)],
        Some(NEXT),
    );
    assert_eq!(search.next_page(), None);
    assert!(search.finished);
    assert_eq!(search.page, 1);
    assert_eq!(
        search.into_version("safenode"),
        Err(Error::LatestReleaseNotFound("safenode".to_string()))
    );
}

#[test]
fn search_examines_a_first_page_that_is_wholly_stale() {
    let mut search = VersionSearch::new("sn_node", NOW);
    search.accept_page(
        &vec![
            release("sn_cli-v0.77.37", NOW - 100 * DAY),
            release("sn_node-v0.83.51", NOW - 101 * DAY),
            release("sn_node-v0.83.50", NOW - 102 * DAY),
        ],
        Some(NEXT),
    );
    assert_eq!(search.next_page(), None);
    assert_eq!(search.into_version("safenode"), Ok(Version::new(0, 83, 51)));
}

#[test]
fn search_stops_without_a_link_header() {
    let mut search = VersionSearch::new("sn_node", NOW);
    search.accept_page(&vec![release("sn_node-v0.83.51", NOW - DAY)], None);
    assert_eq!(search.next_page(), None);
    assert_eq!(search.into_version("safenode"), Ok(Version::new(0, 83, 51)));
}

#[test]
fn search_over_an_empty_page_finds_nothing() {
    let mut search = VersionSearch::new("sn_node", NOW);
    search.accept_page(&vec![], None);
    assert!(search.finished);
    assert_eq!(
        search.into_version("safenode"),
        Err(Error::LatestReleaseNotFound("safenode".to_string()))
    );
}

#[test]
fn search_over_a_newest_first_listing_returns_the_first_match() {
    let mut search = VersionSearch::new("sn_cli", NOW);
    search.accept_page(
        &vec![
            release("sn_node-v0.83.51", NOW - 1),
            release("sn_cli-v0.77.38", NOW - 2),
            release("sn_cli-v0.77.37", NOW - 2),
        ],
        Some(NEXT),
    );
    search.accept_page(
        &vec![release("sn_cli-v0.77.36", NOW - 3), release("sn_cli-v0.77.35", NOW - 20 * DAY)],
        Some(NEXT),
    );
    assert!(search.finished);
    assert_eq!(search.into_version("safe"), Ok(Version::new(0, 77, 38)));
}

#[test]
fn search_takes_pages_as_the_host_sends_them() {
    let mut search = VersionSearch::new("sn_node", 1696118400 + DAY);
    let first = r#"[
        {"tag_name": "sn_cli-v0.77.37", "created_at": "2023-10-01T12:00:00Z"},
        {"tag_name": "sn_node-v0.83.51", "created_at": "2023-10-01T00:00:00Z"}
    ]"#;
    assert_eq!(search.accept_response(first, Some(NEXT)), Ok(()));
    assert_eq!(search.next_page(), Some(2));
    assert_eq!(search.best, Some(release("sn_node-v0.83.51", 1696118400)));
    let second = r#"[
        {"tag_name": "sn_node-v0.83.50", "created_at": "2023-09-01T00:00:00Z"}
    ]"#;
    assert_eq!(search.accept_response(second, Some(NEXT)), Ok(()));
    assert_eq!(search.next_page(), None);
    assert_eq!(search.into_version("safenode"), Ok(Version::new(0, 83, 51)));
}

#[test]
fn search_is_left_as_it_was_by_a_body_it_cannot_read() {
    let mut search = VersionSearch::new("sn_node", NOW);
    search.accept_page(&vec![release("sn_node-v0.83.51", NOW - DAY)], Some(NEXT));
    assert!(matches!(search.accept_response("oops", Some(NEXT)), Err(Error::JsonError(_))));
    assert_eq!(search.next_page(), Some(2));
    assert_eq!(search.best, Some(release("sn_node-v0.83.51", NOW - DAY)));
    let body = r#"[{"tag_name": "sn_node-v0.83.52", "created_at": "soon"}]"#;
    assert!(matches!(
        search.accept_response(body, Some(NEXT)),
        Err(Error::DateTimeParseError(_))
    ));
    assert_eq!(search.next_page(), Some(2));
    assert_eq!(search.best, Some(release("sn_node-v0.83.51", NOW - DAY)));
}

#[test]
fn resolve_candidate_reads_the_tag_of_the_winner() {
    assert_eq!(
        resolve_candidate(Some(release("sn_node-v0.83.51", NOW)), "safenode"),
        Ok(Version::new(0, 83, 51))
    );
    assert_eq!(
        resolve_candidate(None, "safenode"),
        Err(Error::LatestReleaseNotFound("safenode".to_string()))
    );
    assert_eq!(
        resolve_candidate(Some(release("sn_node", NOW)), "safenode"),
        Err(Error::TagNameVersionParsingFailed)
    );
    assert!(matches!(
        resolve_candidate(Some(release("sn_node-vnext", NOW)), "safenode"),
        Err(Error::SemVerError(_))
    ));
}
