use scraper::data::Topic;
use scraper::index::{
    category_labels, decimal, discover, discovered_crates, entry_for, find_crate, find_label,
    is_requested, must_update, synthesize_entry, CategoryIndex, CategoryRow, CrateRow, IndexError, LinkRow,
    SnapshotAge,
};
use scraper::time::Timestamp;

const WINTER_MORNING: i64 = 1_610_697_600;
const SUMMER_NOON_LOCAL: i64 = 1_625_140_800;
const SUMMER_NOON_UTC: i64 = 1_625_137_200;
const SKIPPED_HOUR: i64 = 1_616_895_000;
const REPEATED_HOUR: i64 = 1_635_643_800;

fn category(id: u32, label: &str, description: &str) -> CategoryRow {
    CategoryRow { id, category: label.to_string(), description: description.to_string() }
}

fn krate(id: u32, name: &str) -> CrateRow {
    CrateRow {
        id,
        name: name.to_string(),
        description: format!("about {}", name),
        documentation: Some(format!("https://docs.example/{}", name)),
        homepage: None,
        repository: Some(format!("https://github.com/x/{}", name)),
        downloads: 100 + id as u64,
        created_at: Timestamp::new(WINTER_MORNING, 5),
        updated_at: Timestamp::new(SUMMER_NOON_LOCAL, 9),
    }
}

fn link(category_id: u32, crate_id: u32) -> LinkRow {
    LinkRow { category_id, crate_id }
}

fn categories() -> Vec<CategoryRow> {
    vec![
        category(1, "aerospace", "Aerospace"),
        category(2, "aerospace::drones", "Drones"),
        category(3, "science", "Science"),
    ]
}

fn crates() -> Vec<CrateRow> {
    vec![krate(10, "alpha"), krate(11, "beta"), krate(12, "gamma")]
}

fn links() -> Vec<LinkRow> {
    vec![link(1, 10), link(3, 10), link(2, 11), link(1, 12), link(3, 12), link(2, 12)]
}

fn names(list: &[&str]) -> Vec<String> {
    list.iter().map(|s| s.to_string()).collect()
}

fn labels(topics: &[Topic]) -> Vec<String> {
    topics
        .iter()
        .map(|t| match t {
            Topic::Category(l) => l.clone(),
            _ => panic!("a curated topic among category labels"),
        })
        .collect()
}

#[test]
fn index_holds_both_directions_in_table_order() {
    let index = CategoryIndex::build(&links());
    assert_eq!(index.crates_of(1), vec![10, 12]);
    assert_eq!(index.crates_of(2), vec![11, 12]);
    assert_eq!(index.crates_of(3), vec![10, 12]);
    assert_eq!(index.crates_of(4), Vec::<u32>::new());
    assert_eq!(index.categories_of(10), vec![1, 3]);
    assert_eq!(index.categories_of(12), vec![1, 3, 2]);
    assert_eq!(index.categories_of(99), Vec::<u32>::new());
    assert_eq!(index.crates_by_category.len(), 3);
    assert_eq!(index.categories_by_crate.len(), 3);
    let empty = CategoryIndex::build(&vec![]);
    assert!(empty.crates_by_category.is_empty());
}

#[test]
fn only_requested_categories_are_expanded() {
    let index = CategoryIndex::build(&links());
    assert_eq!(discovered_crates(&names(&["aerospace"]), &categories(), &index), vec![10, 12]);
    assert_eq!(
        discovered_crates(&names(&["science", "aerospace::drones"]), &categories(), &index),
        vec![11, 12, 10, 12]
    );
    assert_eq!(discovered_crates(&names(&["Aerospace"]), &categories(), &index), Vec::<u32>::new());
    assert_eq!(discovered_crates(&names(&[]), &categories(), &index), Vec::<u32>::new());
    assert!(is_requested(&names(&["a", "b"]), &"b".to_string()));
    assert!(!is_requested(&names(&["a", "b"]), &"c".to_string()));
}

#[test]
fn discovered_entry_carries_all_labels_of_its_package() {
    let out = discover(&names(&["aerospace::drones"]), &categories(), &crates(), &links()).unwrap();
    assert_eq!(out.len(), 2);
    assert_eq!(labels(&out[0].topics), vec!["Drones"]);
    assert_eq!(labels(&out[1].topics), vec!["Aerospace", "Science", "Drones"]);
    let k = out[1].krate.as_ref().unwrap();
    assert_eq!(k.id, "12");
    assert_eq!(k.name, "gamma");
    assert_eq!(k.keywords, None);
    assert_eq!(k.versions, None);
    assert_eq!(k.max_stable_version, None);
    assert_eq!(k.exact_match, None);
    assert_eq!(k.description.as_deref(), Some("about gamma"));
    assert_eq!(k.license, None);
    assert_eq!(k.documentation.as_deref(), Some("https://docs.example/gamma"));
    assert_eq!(k.homepage, None);
    assert_eq!(k.repository.as_deref(), Some("https://github.com/x/gamma"));
    assert_eq!(k.downloads, 112);
    assert_eq!(k.recent_downloads, None);
    assert_eq!(k.categories, Some(names(&["Aerospace", "Science", "Drones"])));
    assert_eq!(k.max_version, "unknown");
    assert_eq!(k.links.owner_team, "unknown");
    assert_eq!(k.links.owner_user, "unknown");
    assert_eq!(k.links.owners, "unknown");
    assert_eq!(k.links.reverse_dependencies, "unknown");
    assert_eq!(k.links.version_downloads, "unknown");
    assert_eq!(k.links.versions, None);
    assert!(out[1].score.is_none());
    assert!(out[1].repo.is_none());
    assert_eq!(out[0].krate.as_ref().unwrap().name, "beta");
}

#[test]
fn local_times_are_read_in_london() {
    let entry = synthesize_entry(&krate(1, "a"), vec![]).unwrap();
    let k = entry.krate.unwrap();
    assert_eq!(k.created_at, Timestamp::new(WINTER_MORNING, 5));
    assert_eq!(k.updated_at, Timestamp::new(SUMMER_NOON_UTC, 9));
}

#[test]
fn local_time_that_is_skipped_or_repeated_is_an_error() {
    let mut row = krate(1, "a");
    row.created_at = Timestamp::new(SKIPPED_HOUR, 0);
    assert_eq!(synthesize_entry(&row, vec![]).err(), Some(IndexError::UnresolvableLocalTime));
    let mut row = krate(1, "a");
    row.updated_at = Timestamp::new(REPEATED_HOUR, 0);
    assert_eq!(synthesize_entry(&row, vec![]).err(), Some(IndexError::UnresolvableLocalTime));
    let mut all = crates();
    all[1].updated_at = Timestamp::new(SKIPPED_HOUR, 0);
    assert_eq!(
        discover(&names(&["aerospace::drones"]), &categories(), &all, &links()).err(),
        Some(IndexError::UnresolvableLocalTime)
    );
    assert!(discover(&names(&["aerospace"]), &categories(), &all, &links()).is_ok());
}

#[test]
fn link_to_a_missing_package_is_an_error() {
    let mut l = links();
    l.push(link(3, 77));
    assert_eq!(
        discover(&names(&["science"]), &categories(), &crates(), &l).err(),
        Some(IndexError::MissingCrate)
    );
    assert_eq!(discover(&names(&["aerospace"]), &categories(), &crates(), &l).unwrap().len(), 2);
    assert_eq!(find_crate(&crates(), 11), Some(1));
    assert_eq!(find_crate(&crates(), 77), None);
}

#[test]
fn link_to_a_missing_category_is_an_error() {
    let mut l = links();
    l.push(link(9, 11));
    assert_eq!(
        discover(&names(&["aerospace::drones"]), &categories(), &crates(), &l).err(),
        Some(IndexError::MissingCategory)
    );
    let index = CategoryIndex::build(&l);
    assert_eq!(entry_for(&categories(), &crates(), &index, 11).err(), Some(IndexError::MissingCategory));
    assert!(entry_for(&categories(), &crates(), &index, 10).is_ok());
    assert_eq!(entry_for(&categories(), &crates(), &index, 5).err(), Some(IndexError::MissingCrate));
    assert_eq!(category_labels(&categories(), &vec![3, 1]), Ok(names(&["Science", "Aerospace"])));
    assert_eq!(category_labels(&categories(), &vec![3, 9, 1]), Err(IndexError::MissingCategory));
    assert_eq!(category_labels(&categories(), &vec![]), Ok(vec![]));
    assert_eq!(find_label(&categories(), 2).as_deref(), Some("Drones"));
    assert_eq!(find_label(&categories(), 9), None);
}

#[test]
fn nothing_requested_gives_nothing() {
    let out = discover(&names(&[]), &categories(), &crates(), &links()).unwrap();
    assert!(out.is_empty());
    let out = discover(&names(&["science"]), &categories(), &crates(), &vec![]).unwrap();
    assert!(out.is_empty());
}

#[test]
fn snapshot_is_renewed_after_a_day() {
    assert!(must_update(SnapshotAge::NoFile));
    assert!(!must_update(SnapshotAge::NoCreationTime));
    assert!(must_update(SnapshotAge::ClockError));
    assert!(!must_update(SnapshotAge::Seconds(0)));
    assert!(!must_update(SnapshotAge::Seconds(86_399)));
    assert!(must_update(SnapshotAge::Seconds(86_400)));
    assert!(must_update(SnapshotAge::Seconds(u64::MAX)));
}

#[test]
fn numbers_are_written_in_decimal() {
    assert_eq!(decimal(0), "0");
    assert_eq!(decimal(7), "7");
    assert_eq!(decimal(10), "10");
    assert_eq!(decimal(1234567890), "1234567890");
    assert_eq!(decimal(u32::MAX), "4294967295");
}

#[test]
fn first_row_stands_where_a_key_occurs_twice() {
    let mut cats = categories();
    cats.push(category(2, "aerospace::drones", "Drones again"));
    assert_eq!(find_label(&cats, 2).as_deref(), Some("Drones"));
    let mut rows = crates();
    rows.push(krate(11, "beta-again"));
    assert_eq!(find_crate(&rows, 11), Some(1));
    let index = CategoryIndex::build(&links());
    let entry = entry_for(&cats, &rows, &index, 11).unwrap();
    assert_eq!(entry.krate.unwrap().name, "beta");
    assert_eq!(labels(&entry.topics), vec!["Drones"]);
}

#[test]
fn both_directions_of_the_index_agree() {
    let index = CategoryIndex::build(&links());
    for category in 0..5u32 {
        for id in 9..14u32 {
            assert_eq!(
                index.crates_of(category).contains(&id),
                index.categories_of(id).contains(&category)
            );
        }
    }
}
