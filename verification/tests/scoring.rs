use scraper::data::{
    GeneratedCrateInfo, InputCrateInfo, ManualCrateInfo, PackageLinks, PackageMetadata, RepoData,
    Topic,
};
use scraper::time::Timestamp;

const DAY: i64 = 86_400;
const NOW: i64 = 1_700_000_000;

fn links() -> PackageLinks {
    PackageLinks {
        owner_team: "t".to_string(),
        owner_user: "u".to_string(),
        owners: "o".to_string(),
        reverse_dependencies: "r".to_string(),
        version_downloads: "v".to_string(),
        versions: None,
    }
}

fn package(name: &str, recent: Option<u64>, updated: i64) -> PackageMetadata {
    PackageMetadata {
        id: "7".to_string(),
        name: name.to_string(),
        description: None,
        license: None,
        documentation: None,
        homepage: None,
        repository: None,
        downloads: 5,
        recent_downloads: recent,
        categories: None,
        keywords: None,
        versions: Some(vec![1, 2]),
        max_stable_version: None,
        max_version: "1.0.0".to_string(),
        links: links(),
        created_at: Timestamp::new(0, 0),
        updated_at: Timestamp::new(updated, 0),
        exact_match: Some(true),
    }
}

fn repo(last_commit: i64) -> RepoData {
    RepoData {
        name: "owner/repo".to_string(),
        stargazers_count: 3,
        last_commit: Timestamp::new(last_commit, 0),
        contributor_count: None,
        open_issues_count: Some(1),
    }
}

fn entry(krate: Option<PackageMetadata>, repo: Option<RepoData>) -> GeneratedCrateInfo {
    GeneratedCrateInfo { topics: vec![Topic::Drones], score: None, krate, repo }
}

fn score_at(e: &mut GeneratedCrateInfo) -> Option<u64> {
    e.update_score_at(Timestamp::new(NOW, 0));
    e.score
}

#[test]
fn manual_entry_updated_forty_days_ago_scores_all_downloads() {
    let input = InputCrateInfo::Manual(ManualCrateInfo {
        topics: vec![Topic::Category("x".to_string())],
        score: None,
        krate: Some(package("foo", Some(1000), NOW - 40 * DAY)),
        repo: None,
    });
    let mut merged = GeneratedCrateInfo::try_from(input, None);
    assert_eq!(merged.krate.as_ref().unwrap().name, "foo");
    assert!(merged.repo.is_none());
    assert!(merged.score.is_none());
    merged.update_score_at(Timestamp::new(NOW, 0));
    assert_eq!(merged.score, Some(1000));
    assert_eq!(merged.krate.as_ref().unwrap().name, "foo");
    assert!(merged.repo.is_none());
    assert_eq!(merged.topics.len(), 1);
}

#[test]
fn empty_entry_scores_zero() {
    let mut e = entry(None, None);
    assert_eq!(score_at(&mut e), Some(0));
    let mut e = entry(None, None);
    e.update_score();
    assert_eq!(e.score, Some(0));
}

#[test]
fn repository_alone_scores_zero() {
    let mut e = entry(None, Some(repo(NOW - DAY)));
    assert_eq!(score_at(&mut e), Some(0));
    assert!(e.krate.is_none());
    assert_eq!(e.repo.as_ref().unwrap().stargazers_count, 3);
}

#[test]
fn score_at_exactly_180_days_is_all_downloads() {
    let mut e = entry(Some(package("a", Some(1001), NOW - 180 * DAY)), None);
    assert_eq!(score_at(&mut e), Some(1001));
    let mut e = entry(Some(package("a", Some(1001), NOW - 181 * DAY + 1)), None);
    assert_eq!(score_at(&mut e), Some(1001));
}

#[test]
fn score_at_exactly_181_days_is_half() {
    let mut e = entry(Some(package("a", Some(1001), NOW - 181 * DAY)), None);
    assert_eq!(score_at(&mut e), Some(500));
    let mut e = entry(Some(package("a", Some(1001), NOW - 365 * DAY)), None);
    assert_eq!(score_at(&mut e), Some(500));
}

#[test]
fn score_at_exactly_366_days_is_a_tenth() {
    let mut e = entry(Some(package("a", Some(1001), NOW - 366 * DAY)), None);
    assert_eq!(score_at(&mut e), Some(100));
    let mut e = entry(Some(package("a", Some(9), NOW - 366 * DAY)), None);
    assert_eq!(score_at(&mut e), Some(0));
}

#[test]
fn unknown_recent_downloads_count_as_zero() {
    let mut e = entry(Some(package("a", None, NOW)), None);
    assert_eq!(score_at(&mut e), Some(0));
}

#[test]
fn later_of_update_and_push_decides() {
    let mut e = entry(Some(package("a", Some(800), NOW - 400 * DAY)), Some(repo(NOW - 10 * DAY)));
    assert_eq!(e.last_activity(), Some(Timestamp::new(NOW - 10 * DAY, 0)));
    assert_eq!(score_at(&mut e), Some(800));
    let mut e = entry(Some(package("a", Some(800), NOW - 200 * DAY)), Some(repo(NOW - 400 * DAY)));
    assert_eq!(e.last_activity(), Some(Timestamp::new(NOW - 200 * DAY, 0)));
    assert_eq!(score_at(&mut e), Some(400));
    let e = entry(None, None);
    assert_eq!(e.last_activity(), None);
}

#[test]
fn activity_in_the_future_counts_as_recent() {
    let mut e = entry(Some(package("a", Some(77), NOW + 1000 * DAY)), None);
    assert_eq!(score_at(&mut e), Some(77));
}

#[test]
fn score_by_the_clock() {
    let mut old = entry(Some(package("a", Some(1000), 0)), None);
    old.update_score();
    assert_eq!(old.score, Some(100));
    let mut fresh = entry(Some(package("a", Some(1000), i64::MAX / 2_000_000_000)), None);
    fresh.update_score();
    assert_eq!(fresh.score, Some(1000));
    assert_eq!(fresh.krate.as_ref().unwrap().name, "a");
}

#[test]
fn whole_days_round_toward_zero() {
    let t = Timestamp::new(1000, 500);
    assert_eq!(t.inactive_days(&Timestamp::new(1000 + DAY, 499)), 0);
    assert_eq!(t.inactive_days(&Timestamp::new(1000 + DAY, 500)), 1);
    assert_eq!(t.inactive_days(&Timestamp::new(1000 - DAY, 501)), 0);
    assert_eq!(t.inactive_days(&Timestamp::new(1000 - DAY, 500)), -1);
    assert_eq!(Timestamp::new(i64::MIN, 0).inactive_days(&Timestamp::new(i64::MAX, 0)), 213_503_982_334_601);
    assert!(Timestamp::new(5, 1).later_than(&Timestamp::new(5, 0)));
    assert!(!Timestamp::new(5, 0).later_than(&Timestamp::new(5, 0)));
    assert!(!Timestamp::new(4, 999_999_999).later_than(&Timestamp::new(5, 0)));
}

#[test]
fn attaching_a_repository_keeps_the_rest() {
    let mut e = entry(Some(package("a", Some(1), NOW)), None);
    e.attach_repo(None);
    assert!(e.repo.is_none());
    e.attach_repo(Some(repo(NOW)));
    assert_eq!(e.repo.as_ref().unwrap().name, "owner/repo");
    e.attach_repo(None);
    assert!(e.repo.is_some());
    assert_eq!(e.krate.as_ref().unwrap().name, "a");
}
