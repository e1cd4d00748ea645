//! Discovery of packages by category from the three tables of a registry
//! snapshot: the index over the link table, and the entries made from it.

use std::collections::HashMap;
use vstd::prelude::*;
use vstd::string::StringExecFns;
use crate::data::{ManualCrateInfo, PackageLinks, PackageMetadata, Topic};
use crate::github::texts;
use crate::time::{time_of_parts, time_parts, Timestamp};

verus! {

broadcast use vstd::std_specs::hash::group_hash_axioms;

/// A row of the category table: its key, its label and its description.
#[derive(Clone, Debug)]
pub struct CategoryRow {
    pub id: u32,
    pub category: String,
    pub description: String,
}

/// A row of the package table. Its two times are local times of the
/// snapshot's time zone, written as if they were UTC.
#[derive(Clone, Debug)]
pub struct CrateRow {
    pub id: u32,
    pub name: String,
    pub description: String,
    pub documentation: Option<String>,
    pub homepage: Option<String>,
    pub repository: Option<String>,
    pub downloads: u64,
    pub created_at: Timestamp,
    pub updated_at: Timestamp,
}

/// A row of the link table: one package in one category.
#[derive(Clone, Copy, Debug)]
pub struct LinkRow {
    pub category_id: u32,
    pub crate_id: u32,
}

/// Why the snapshot could not be turned into entries.
#[derive(Clone, Copy, Debug, PartialEq, Eq, Structural)]
pub enum IndexError {
    /// A link names a package that the package table lacks.
    MissingCrate,
    /// A link names a category that the category table lacks.
    MissingCategory,
    /// A local time of a package does not denote one point in time.
    UnresolvableLocalTime,
}

/// Both directions of the link table.
pub struct CategoryIndex {
    pub crates_by_category: HashMap<u32, Vec<u32>>,
    pub categories_by_crate: HashMap<u32, Vec<u32>>,
    /// The link table that the index was built from.
    pub links: Ghost<Seq<LinkRow>>,
}

/// The far ends of the links that start at `key`, in the order of the
/// table: packages of a category where `by_category`, else categories of a
/// package.
pub open spec fn linked(links: Seq<LinkRow>, key: u32, by_category: bool) -> Seq<u32>
    decreases links.len(),
{
    if links.len() == 0 {
        Seq::<u32>::empty()
    } else {
        let before = linked(links.drop_last(), key, by_category);
        let l = links.last();
        if by_category && l.category_id == key {
            before.push(l.crate_id)
        } else if !by_category && l.crate_id == key {
            before.push(l.category_id)
        } else {
            before
        }
    }
}

pub open spec fn crates_linked_to(links: Seq<LinkRow>, category: u32) -> Seq<u32> {
    linked(links, category, true)
}

pub open spec fn categories_linked_to(links: Seq<LinkRow>, krate: u32) -> Seq<u32> {
    linked(links, krate, false)
}

/// A map holds exactly `expected` for `key`: no entry where that is empty.
pub open spec fn holds_for(m: Map<u32, Vec<u32>>, key: u32, expected: Seq<u32>) -> bool {
    &&& m.contains_key(key) <==> expected.len() > 0
    &&& m.contains_key(key) ==> m[key]@ == expected
}

pub open spec fn mirrors(m: Map<u32, Vec<u32>>, links: Seq<LinkRow>, by_category: bool) -> bool {
    forall|key: u32| #[trigger] holds_for(m, key, linked(links, key, by_category))
}

/// The position of the category with the given key, if the table has
/// it. Rows are keyed by id: should one occur twice, the first row stands.
pub open spec fn category_position(categories: Seq<CategoryRow>, id: u32) -> Option<int>
    decreases categories.len(),
{
    if categories.len() == 0 {
        None
    } else {
        match category_position(categories.drop_last(), id) {
            Some(at) => Some(at),
            None => if categories.last().id == id {
                Some(categories.len() - 1)
            } else {
                None
            },
        }
    }
}

/// The description of the category with the given key, if the table has it.
pub open spec fn label_of(categories: Seq<CategoryRow>, id: u32) -> Option<Seq<char>> {
    match category_position(categories, id) {
        Some(at) => Some(categories[at].description@),
        None => None,
    }
}

/// The position of the package with the given key, if the table has it;
/// the first row stands where a key occurs twice.
pub open spec fn crate_position(crates: Seq<CrateRow>, id: u32) -> Option<int>
    decreases crates.len(),
{
    if crates.len() == 0 {
        None
    } else {
        match crate_position(crates.drop_last(), id) {
            Some(at) => Some(at),
            None => if crates.last().id == id {
                Some(crates.len() - 1)
            } else {
                None
            },
        }
    }
}

/// The position of a package is that of the first row with its key, and
/// there is none exactly when no row has the key.
pub proof fn lemma_crate_position_is_first(crates: Seq<CrateRow>, id: u32)
    ensures
        match crate_position(crates, id) {
            Some(at) => 0 <= at < crates.len() && crates[at].id == id && forall|j: int|
                0 <= j < at ==> (#[trigger] crates[j]).id != id,
            None => forall|j: int| 0 <= j < crates.len() ==> (#[trigger] crates[j]).id != id,
        },
    decreases crates.len(),
{
    if crates.len() > 0 {
        let before = crates.drop_last();
        lemma_crate_position_is_first(before, id);
        assert forall|j: int| 0 <= j < before.len() implies before[j] == crates[j] by {}
    }
}

/// The position of a category is that of the first row with its key, and
/// there is none exactly when no row has the key.
pub proof fn lemma_category_position_is_first(categories: Seq<CategoryRow>, id: u32)
    ensures
        match category_position(categories, id) {
            Some(at) => 0 <= at < categories.len() && categories[at].id == id && forall|j: int|
                0 <= j < at ==> (#[trigger] categories[j]).id != id,
            None => forall|j: int|
                0 <= j < categories.len() ==> (#[trigger] categories[j]).id != id,
        },
    decreases categories.len(),
{
    if categories.len() > 0 {
        let before = categories.drop_last();
        lemma_category_position_is_first(before, id);
        assert forall|j: int| 0 <= j < before.len() implies before[j] == categories[j] by {}
    }
}

proof fn lemma_push_contains(s: Seq<u32>, x: u32, y: u32)
    ensures
        s.push(x).contains(y) <==> (s.contains(y) || x == y),
{
    let t = s.push(x);
    if s.contains(y) {
        let i = choose|i: int| 0 <= i < s.len() && s[i] == y;
        assert(t[i] == y);
    }
    if x == y {
        assert(t[s.len() as int] == y);
    }
    if t.contains(y) {
        let i = choose|i: int| 0 <= i < t.len() && t[i] == y;
        if i < s.len() {
            assert(s[i] == y);
        }
    }
}

/// The two directions of the link table agree: a package is among those of
/// a category exactly when the category is among those of the package.
pub proof fn lemma_links_go_both_ways(links: Seq<LinkRow>, category: u32, krate: u32)
    ensures
        crates_linked_to(links, category).contains(krate) <==> categories_linked_to(
            links,
            krate,
        ).contains(category),
    decreases links.len(),
{
    if links.len() > 0 {
        let before = links.drop_last();
        let l = links.last();
        lemma_links_go_both_ways(before, category, krate);
        lemma_push_contains(linked(before, category, true), l.crate_id, krate);
        lemma_push_contains(linked(before, krate, false), l.category_id, category);
    }
}

/// The descriptions of the categories with the given keys, in order; none
/// where the table lacks one of them.
pub open spec fn labels_of(categories: Seq<CategoryRow>, ids: Seq<u32>) -> Option<Seq<Seq<char>>>
    decreases ids.len(),
{
    if ids.len() == 0 {
        Some(Seq::<Seq<char>>::empty())
    } else {
        match (labels_of(categories, ids.drop_last()), label_of(categories, ids.last())) {
            (Some(before), Some(label)) => Some(before.push(label)),
            _ => None,
        }
    }
}

/// The packages to make entries for, in order: for each row of the
/// category table whose label was asked for, the packages linked to it.
pub open spec fn discovered_ids(
    categories: Seq<CategoryRow>,
    requested: Seq<Seq<char>>,
    links: Seq<LinkRow>,
) -> Seq<u32>
    decreases categories.len(),
{
    if categories.len() == 0 {
        Seq::<u32>::empty()
    } else {
        let before = discovered_ids(categories.drop_last(), requested, links);
        if requested.contains(categories.last().category@) {
            before + crates_linked_to(links, categories.last().id)
        } else {
            before
        }
    }
}

/// The point in time that a local time of the zone Europe/London denotes,
/// as `chrono_tz` resolves it: none where the local time does not exist or
/// occurs twice, and none where `chrono` cannot hold the local time at all.
/// Both sides are seconds and nanoseconds.
pub uninterp spec fn london_to_utc(secs: i64, nanos: u32) -> Option<(i64, u32)>;

pub open spec fn resolved_time(local: Timestamp) -> Option<Timestamp> {
    time_of_parts(london_to_utc(local.secs, local.nanos))
}

/// The character of a decimal digit.
pub open spec fn digit_char(d: int) -> char {
    if d == 0 {
        '0'
    } else if d == 1 {
        '1'
    } else if d == 2 {
        '2'
    } else if d == 3 {
        '3'
    } else if d == 4 {
        '4'
    } else if d == 5 {
        '5'
    } else if d == 6 {
        '6'
    } else if d == 7 {
        '7'
    } else if d == 8 {
        '8'
    } else {
        '9'
    }
}

/// A number written in decimal digits, without leading zeros.
pub open spec fn decimal_text(n: nat) -> Seq<char>
    decreases n,
{
    if n < 10 {
        seq![digit_char(n as int)]
    } else {
        decimal_text(n / 10).push(digit_char((n % 10) as int))
    }
}

/// Reads a local time in Europe/London with
/// `chrono::TimeZone::from_local_datetime` on `chrono_tz::Europe::London`
/// and gives the point in time it denotes where that is a single one. The
/// outcome depends on the arguments alone and is known here by its name.
#[verifier::external_body]
pub(crate) fn london_local_to_utc(local: Timestamp) -> (utc: Option<Timestamp>)
    ensures
        time_parts(utc) == london_to_utc(local.secs, local.nanos),
{
    let naive = chrono::DateTime::from_timestamp(local.secs, local.nanos)?.naive_utc();
    match chrono::TimeZone::from_local_datetime(&chrono_tz::Europe::London, &naive) {
        chrono::LocalResult::Single(t) => Some(
            Timestamp { secs: t.timestamp(), nanos: t.timestamp_subsec_nanos() },
        ),
        _ => None,
    }
}

/// What a package row and the labels of its categories make: a manual
/// entry with the labels as topics and as categories, the row's own fields
/// carried over, the times resolved, and "unknown" wherever the snapshot
/// has nothing to say.
pub open spec fn synthesized(
    row: CrateRow,
    labels: Seq<Seq<char>>,
    created: Timestamp,
    updated: Timestamp,
    entry: ManualCrateInfo,
) -> bool {
    &&& entry.score is None
    &&& entry.repo is None
    &&& entry.topics@.len() == labels.len()
    &&& forall|i: int|
        0 <= i < labels.len() ==> (#[trigger] entry.topics@[i]) is Category
            && entry.topics@[i]->Category_0@ == labels[i]
    &&& entry.krate is Some
    &&& {
        let k = entry.krate->0;
        &&& k.id@ == decimal_text(row.id as nat)
        &&& k.name == row.name
        &&& k.description == Some(row.description)
        &&& k.license is None
        &&& k.documentation == row.documentation
        &&& k.homepage == row.homepage
        &&& k.repository == row.repository
        &&& k.downloads == row.downloads
        &&& k.recent_downloads is None
        &&& k.categories is Some
        &&& texts(k.categories->0@) == labels
        &&& k.keywords is None
        &&& k.versions is None
        &&& k.max_stable_version is None
        &&& k.exact_match is None
        &&& k.max_version@ == "unknown"@
        &&& k.links.owner_team@ == "unknown"@
        &&& k.links.owner_user@ == "unknown"@
        &&& k.links.owners@ == "unknown"@
        &&& k.links.reverse_dependencies@ == "unknown"@
        &&& k.links.version_downloads@ == "unknown"@
        &&& k.links.versions is None
        &&& k.created_at == created
        &&& k.updated_at == updated
    }
}

/// What stands in the way of an entry for the package `id`: its row, one
/// of its categories, or one of its times; none where the entry can be made.
pub open spec fn entry_error(
    categories: Seq<CategoryRow>,
    crates: Seq<CrateRow>,
    links: Seq<LinkRow>,
    id: u32,
) -> Option<IndexError> {
    match crate_position(crates, id) {
        None => Some(IndexError::MissingCrate),
        Some(at) => if labels_of(categories, categories_linked_to(links, id)) is None {
            Some(IndexError::MissingCategory)
        } else if resolved_time(crates[at].created_at) is None || resolved_time(
            crates[at].updated_at,
        ) is None {
            Some(IndexError::UnresolvableLocalTime)
        } else {
            None
        },
    }
}

/// Whether `entry` is the entry for the package `id`.
pub open spec fn entry_matches(
    categories: Seq<CategoryRow>,
    crates: Seq<CrateRow>,
    links: Seq<LinkRow>,
    id: u32,
    entry: ManualCrateInfo,
) -> bool {
    &&& entry_error(categories, crates, links, id) is None
    &&& {
        let row = crates[crate_position(crates, id)->0];
        synthesized(
            row,
            labels_of(categories, categories_linked_to(links, id))->0,
            resolved_time(row.created_at)->0,
            resolved_time(row.updated_at)->0,
            entry,
        )
    }
}

/// The first obstacle over a list of packages, none where every entry can
/// be made.
pub open spec fn first_error(
    categories: Seq<CategoryRow>,
    crates: Seq<CrateRow>,
    links: Seq<LinkRow>,
    ids: Seq<u32>,
) -> Option<IndexError>
    decreases ids.len(),
{
    if ids.len() == 0 {
        None
    } else {
        match first_error(categories, crates, links, ids.drop_last()) {
            Some(e) => Some(e),
            None => entry_error(categories, crates, links, ids.last()),
        }
    }
}

fn append_to(m: &mut HashMap<u32, Vec<u32>>, key: u32, value: u32)
    ensures
        final(m)@.contains_key(key),
        final(m)@[key]@ == (if old(m)@.contains_key(key) {
            old(m)@[key]@
        } else {
            Seq::<u32>::empty()
        }).push(value),
        forall|k: u32|
            k != key ==> (#[trigger] final(m)@.contains_key(k)) == old(m)@.contains_key(k),
        forall|k: u32|
            k != key && old(m)@.contains_key(k) ==> (#[trigger] final(m)@[k]) == old(m)@[k],
{
    let mut list: Vec<u32> = match m.remove(&key) {
        Some(v) => v,
        None => Vec::new(),
    };
    list.push(value);
    m.insert(key, list);
}

fn digit_text(d: u32) -> (text: &'static str)
    requires
        d < 10,
    ensures
        text@ == seq![digit_char(d as int)],
{
    proof {
        reveal_strlit("0");
        reveal_strlit("1");
        reveal_strlit("2");
        reveal_strlit("3");
        reveal_strlit("4");
        reveal_strlit("5");
        reveal_strlit("6");
        reveal_strlit("7");
        reveal_strlit("8");
        reveal_strlit("9");
    }
    let text = if d == 0 {
        "0"
    } else if d == 1 {
        "1"
    } else if d == 2 {
        "2"
    } else if d == 3 {
        "3"
    } else if d == 4 {
        "4"
    } else if d == 5 {
        "5"
    } else if d == 6 {
        "6"
    } else if d == 7 {
        "7"
    } else if d == 8 {
        "8"
    } else {
        "9"
    };
    assert(text@ =~= seq![digit_char(d as int)]);
    text
}

/// Writes a number in decimal digits.
pub fn decimal(n: u32) -> (text: String)
    ensures
        text@ == decimal_text(n as nat),
    decreases n,
{
    if n < 10 {
        String::from_str(digit_text(n))
    } else {
        let head = decimal(n / 10);
        let last = digit_text(n % 10);
        proof {
            assert(head@ + last@ =~= head@.push(digit_char((n % 10) as int)));
        }
        head.concat(last)
    }
}

fn clone_optional(text: &Option<String>) -> (copy: Option<String>)
    ensures
        copy == *text,
{
    match text {
        Some(t) => Some(t.clone()),
        None => None,
    }
}

impl CategoryIndex {
    /// The index holds, for every category, its packages in the order of
    /// the link table, and for every package its categories.
    pub open spec fn represents(&self, links: Seq<LinkRow>) -> bool {
        &&& mirrors(self.crates_by_category@, links, true)
        &&& mirrors(self.categories_by_crate@, links, false)
    }

    /// The index is that of its own link table.
    pub open spec fn well_formed(&self) -> bool {
        self.represents(self.links@)
    }

    /// Builds both directions in one pass over the link table.
    pub fn build(links: &Vec<LinkRow>) -> (index: CategoryIndex)
        ensures
            index.well_formed(),
            index.links@ == links@,
    {
        let mut by_category: HashMap<u32, Vec<u32>> = HashMap::new();
        let mut by_crate: HashMap<u32, Vec<u32>> = HashMap::new();
        let mut i: usize = 0;
        while i < links.len()
            invariant
                i <= links.len(),
                mirrors(by_category@, links@.take(i as int), true),
                mirrors(by_crate@, links@.take(i as int), false),
            decreases links.len() - i,
        {
            let link = links[i];
            let ghost before = links@.take(i as int);
            let ghost after = links@.take(i as int + 1);
            let ghost old_by_category = by_category@;
            let ghost old_by_crate = by_crate@;
            append_to(&mut by_category, link.category_id, link.crate_id);
            append_to(&mut by_crate, link.crate_id, link.category_id);
            proof {
                assert(after.drop_last() =~= before);
                assert(after.last() == link);
                assert forall|key: u32| #[trigger]
                    holds_for(by_category@, key, linked(after, key, true)) by {
                    assert(holds_for(old_by_category, key, linked(before, key, true)));
                    assert(linked(before, key, true).len() == 0 ==> linked(before, key, true)
                        =~= Seq::<u32>::empty());
                }
                assert forall|key: u32| #[trigger]
                    holds_for(by_crate@, key, linked(after, key, false)) by {
                    assert(holds_for(old_by_crate, key, linked(before, key, false)));
                    assert(linked(before, key, false).len() == 0 ==> linked(before, key, false)
                        =~= Seq::<u32>::empty());
                }
            }
            i = i + 1;
        }
        proof {
            assert(links@.take(links@.len() as int) =~= links@);
        }
        CategoryIndex {
            crates_by_category: by_category,
            categories_by_crate: by_crate,
            links: Ghost(links@),
        }
    }

    /// The packages of a category, in the order of the link table.
    pub fn crates_of(&self, category: u32) -> (ids: Vec<u32>)
        requires
            self.well_formed(),
        ensures
            ids@ == crates_linked_to(self.links@, category),
    {
        proof {
            assert(holds_for(self.crates_by_category@, category, linked(self.links@, category, true)));
        }
        copy_of(self.crates_by_category.get(&category))
    }

    /// The categories of a package, in the order of the link table.
    pub fn categories_of(&self, krate: u32) -> (ids: Vec<u32>)
        requires
            self.well_formed(),
        ensures
            ids@ == categories_linked_to(self.links@, krate),
    {
        proof {
            assert(holds_for(self.categories_by_crate@, krate, linked(self.links@, krate, false)));
        }
        copy_of(self.categories_by_crate.get(&krate))
    }
}

fn copy_of(list: Option<&Vec<u32>>) -> (copy: Vec<u32>)
    ensures
        copy@ =~= (match list {
            Some(l) => l@,
            None => Seq::<u32>::empty(),
        }),
{
    let mut copy: Vec<u32> = Vec::new();
    match list {
        Some(l) => {
            let mut i: usize = 0;
            while i < l.len()
                invariant
                    i <= l.len(),
                    copy@ =~= l@.take(i as int),
                decreases l.len() - i,
            {
                copy.push(l[i]);
                i = i + 1;
            }
        },
        None => {},
    }
    copy
}

/// Whether a category label is one of those asked for.
pub fn is_requested(requested: &Vec<String>, label: &String) -> (found: bool)
    ensures
        found == texts(requested@).contains(label@),
{
    let mut i: usize = 0;
    while i < requested.len()
        invariant
            i <= requested.len(),
            forall|j: int| 0 <= j < i ==> texts(requested@)[j] != label@,
        decreases requested.len() - i,
    {
        if requested[i] == *label {
            assert(texts(requested@)[i as int] == label@);
            return true;
        }
        i = i + 1;
    }
    false
}

/// Finds the row of a package by its key: the first that has it.
pub fn find_crate(crates: &Vec<CrateRow>, id: u32) -> (found: Option<usize>)
    ensures
        found is Some <==> crate_position(crates@, id) is Some,
        found is Some ==> found->0 < crates@.len() && crate_position(crates@, id) == Some(
            found->0 as int,
        ),
{
    let mut found: Option<usize> = None;
    let mut i: usize = 0;
    while i < crates.len()
        invariant
            i <= crates.len(),
            found is Some <==> crate_position(crates@.take(i as int), id) is Some,
            found is Some ==> found->0 < i && crate_position(crates@.take(i as int), id) == Some(
                found->0 as int,
            ),
        decreases crates.len() - i,
    {
        proof {
            assert(crates@.take(i as int + 1).drop_last() =~= crates@.take(i as int));
        }
        if found.is_none() && crates[i].id == id {
            found = Some(i);
        }
        i = i + 1;
    }
    proof {
        assert(crates@.take(crates@.len() as int) =~= crates@);
    }
    found
}

/// Finds the description of a category by its key, in the first row that
/// has it.
pub fn find_label(categories: &Vec<CategoryRow>, id: u32) -> (found: Option<String>)
    ensures
        optional_label(found) == label_of(categories@, id),
{
    let mut found: Option<usize> = None;
    let mut i: usize = 0;
    while i < categories.len()
        invariant
            i <= categories.len(),
            found is Some <==> category_position(categories@.take(i as int), id) is Some,
            found is Some ==> found->0 < i && category_position(categories@.take(i as int), id)
                == Some(found->0 as int),
        decreases categories.len() - i,
    {
        proof {
            assert(categories@.take(i as int + 1).drop_last() =~= categories@.take(i as int));
        }
        if found.is_none() && categories[i].id == id {
            found = Some(i);
        }
        i = i + 1;
    }
    proof {
        assert(categories@.take(categories@.len() as int) =~= categories@);
    }
    match found {
        Some(at) => Some(categories[at].description.clone()),
        None => None,
    }
}

pub open spec fn optional_label(label: Option<String>) -> Option<Seq<char>> {
    match label {
        Some(l) => Some(l@),
        None => None,
    }
}

/// The descriptions of the categories with the given keys, in order.
pub fn category_labels(categories: &Vec<CategoryRow>, ids: &Vec<u32>) -> (out: Result<
    Vec<String>,
    IndexError,
>)
    ensures
        match labels_of(categories@, ids@) {
            Some(labels) => out is Ok && texts(out->Ok_0@) == labels,
            None => out == Err::<Vec<String>, IndexError>(IndexError::MissingCategory),
        },
{
    let mut labels: Vec<String> = Vec::new();
    let mut missing = false;
    let mut i: usize = 0;
    proof {
        assert(texts(labels@) =~= Seq::<Seq<char>>::empty());
    }
    while i < ids.len()
        invariant
            i <= ids.len(),
            match labels_of(categories@, ids@.take(i as int)) {
                Some(l) => !missing && texts(labels@) == l,
                None => missing,
            },
        decreases ids.len() - i,
    {
        proof {
            assert(ids@.take(i as int + 1).drop_last() =~= ids@.take(i as int));
        }
        match find_label(categories, ids[i]) {
            Some(label) => {
                if !missing {
                    proof {
                        assert(texts(labels@.push(label)) =~= texts(labels@).push(label@));
                    }
                    labels.push(label);
                }
            },
            None => {
                missing = true;
            },
        }
        i = i + 1;
    }
    proof {
        assert(ids@.take(ids@.len() as int) =~= ids@);
    }
    if missing {
        Err(IndexError::MissingCategory)
    } else {
        Ok(labels)
    }
}

/// Makes the manual entry for one package row from the row and the labels
/// of the package's categories.
pub fn synthesize_entry(row: &CrateRow, labels: Vec<String>) -> (out: Result<
    ManualCrateInfo,
    IndexError,
>)
    ensures
        match (resolved_time(row.created_at), resolved_time(row.updated_at)) {
            (Some(created), Some(updated)) => out is Ok && synthesized(
                *row,
                texts(labels@),
                created,
                updated,
                out->Ok_0,
            ),
            _ => out == Err::<ManualCrateInfo, IndexError>(IndexError::UnresolvableLocalTime),
        },
{
    let created = london_local_to_utc(row.created_at);
    let updated = london_local_to_utc(row.updated_at);
    match (created, updated) {
        (Some(created_at), Some(updated_at)) => {
            let mut topics: Vec<Topic> = Vec::new();
            let mut i: usize = 0;
            while i < labels.len()
                invariant
                    i <= labels.len(),
                    topics@.len() == i,
                    forall|j: int|
                        0 <= j < i ==> (#[trigger] topics@[j]) is Category
                            && topics@[j]->Category_0@ == labels@[j]@,
                decreases labels.len() - i,
            {
                topics.push(Topic::Category(labels[i].clone()));
                i = i + 1;
            }
            let krate = PackageMetadata {
                id: decimal(row.id),
                name: row.name.clone(),
                description: Some(row.description.clone()),
                license: None,
                documentation: clone_optional(&row.documentation),
                homepage: clone_optional(&row.homepage),
                repository: clone_optional(&row.repository),
                downloads: row.downloads,
                recent_downloads: None,
                categories: Some(labels),
                keywords: None,
                versions: None,
                max_version: String::from_str("unknown"),
                max_stable_version: None,
                links: PackageLinks {
                    owner_team: String::from_str("unknown"),
                    owner_user: String::from_str("unknown"),
                    owners: String::from_str("unknown"),
                    reverse_dependencies: String::from_str("unknown"),
                    version_downloads: String::from_str("unknown"),
                    versions: None,
                },
                created_at,
                updated_at,
                exact_match: None,
            };
            Ok(ManualCrateInfo { topics, score: None, krate: Some(krate), repo: None })
        },
        _ => Err(IndexError::UnresolvableLocalTime),
    }
}

/// Makes the entry for the package with the given key.
pub fn entry_for(
    categories: &Vec<CategoryRow>,
    crates: &Vec<CrateRow>,
    index: &CategoryIndex,
    id: u32,
) -> (out: Result<ManualCrateInfo, IndexError>)
    requires
        index.well_formed(),
    ensures
        match entry_error(categories@, crates@, index.links@, id) {
            Some(e) => out == Err::<ManualCrateInfo, IndexError>(e),
            None => out is Ok && entry_matches(categories@, crates@, index.links@, id, out->Ok_0),
        },
{
    match find_crate(crates, id) {
        None => Err(IndexError::MissingCrate),
        Some(at) => {
            let category_ids = index.categories_of(id);
            match category_labels(categories, &category_ids) {
                Err(e) => Err(e),
                Ok(labels) => synthesize_entry(&crates[at], labels),
            }
        },
    }
}

/// The keys of the packages to make entries for.
pub fn discovered_crates(
    requested: &Vec<String>,
    categories: &Vec<CategoryRow>,
    index: &CategoryIndex,
) -> (ids: Vec<u32>)
    requires
        index.well_formed(),
    ensures
        ids@ == discovered_ids(categories@, texts(requested@), index.links@),
{
    let mut ids: Vec<u32> = Vec::new();
    let mut i: usize = 0;
    while i < categories.len()
        invariant
            i <= categories.len(),
            index.well_formed(),
            ids@ =~= discovered_ids(categories@.take(i as int), texts(requested@), index.links@),
        decreases categories.len() - i,
    {
        proof {
            assert(categories@.take(i as int + 1).drop_last() =~= categories@.take(i as int));
        }
        if is_requested(requested, &categories[i].category) {
            let list = index.crates_of(categories[i].id);
            let ghost base = ids@;
            let mut j: usize = 0;
            while j < list.len()
                invariant
                    j <= list.len(),
                    ids@ =~= base + list@.take(j as int),
                decreases list.len() - j,
            {
                ids.push(list[j]);
                j = j + 1;
            }
            proof {
                assert(list@.take(list@.len() as int) =~= list@);
            }
        }
        i = i + 1;
    }
    proof {
        assert(categories@.take(categories@.len() as int) =~= categories@);
    }
    ids
}

/// Makes a manual entry for every package under a requested category, from
/// the three tables of the snapshot. The entries come in the order of the
/// category table and, within a category, of the link table; the first
/// obstacle met in that order is the error.
pub fn discover(
    requested: &Vec<String>,
    categories: &Vec<CategoryRow>,
    crates: &Vec<CrateRow>,
    links: &Vec<LinkRow>,
) -> (out: Result<Vec<ManualCrateInfo>, IndexError>)
    ensures
        ({
            let ids = discovered_ids(categories@, texts(requested@), links@);
            match first_error(categories@, crates@, links@, ids) {
                Some(e) => out == Err::<Vec<ManualCrateInfo>, IndexError>(e),
                None => out is Ok && out->Ok_0@.len() == ids.len() && forall|k: int|
                    0 <= k < ids.len() ==> entry_matches(
                        categories@,
                        crates@,
                        links@,
                        ids[k],
                        #[trigger] out->Ok_0@[k],
                    ),
            }
        }),
{
    let index = CategoryIndex::build(links);
    let ids = discovered_crates(requested, categories, &index);
    let mut entries: Vec<ManualCrateInfo> = Vec::new();
    let mut failure: Option<IndexError> = None;
    let mut k: usize = 0;
    while k < ids.len()
        invariant
            k <= ids.len(),
            index.well_formed(),
            index.links@ == links@,
            match first_error(categories@, crates@, links@, ids@.take(k as int)) {
                Some(e) => failure == Some(e),
                None => failure is None && entries@.len() == k && forall|j: int|
                    0 <= j < k ==> entry_matches(
                        categories@,
                        crates@,
                        links@,
                        ids@[j],
                        #[trigger] entries@[j],
                    ),
            },
        decreases ids.len() - k,
    {
        proof {
            assert(ids@.take(k as int + 1).drop_last() =~= ids@.take(k as int));
        }
        if failure.is_none() {
            match entry_for(categories, crates, &index, ids[k]) {
                Ok(entry) => {
                    entries.push(entry);
                },
                Err(e) => {
                    failure = Some(e);
                },
            }
        }
        k = k + 1;
    }
    proof {
        assert(ids@.take(ids@.len() as int) =~= ids@);
    }
    match failure {
        Some(e) => Err(e),
        None => Ok(entries),
    }
}

/// What is known of the age of the snapshot file on disk.
#[derive(Clone, Copy, Debug, PartialEq, Eq, Structural)]
pub enum SnapshotAge {
    /// The file, or its metadata, cannot be read.
    NoFile,
    /// The file is there, but the time of its creation is not recorded.
    NoCreationTime,
    /// The time of creation lies after the current time.
    ClockError,
    /// The file was created this many seconds ago.
    Seconds(u64),
}

/// Whether the snapshot has to be downloaded anew: where the file is
/// missing, where its age cannot be computed, and where it is a day old;
/// not where only its creation time is unknown.
pub open spec fn spec_must_update(age: SnapshotAge) -> bool {
    match age {
        SnapshotAge::NoFile => true,
        SnapshotAge::NoCreationTime => false,
        SnapshotAge::ClockError => true,
        SnapshotAge::Seconds(s) => s >= 86_400,
    }
}

pub fn must_update(age: SnapshotAge) -> (update: bool)
    ensures
        update == spec_must_update(age),
{
    match age {
        SnapshotAge::NoFile => true,
        SnapshotAge::NoCreationTime => false,
        SnapshotAge::ClockError => true,
        SnapshotAge::Seconds(s) => s >= 24 * 60 * 60,
    }
}

} // verus!
