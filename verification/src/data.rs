//! Input entries, merged entries, the override merge and the activity score.

use vstd::prelude::*;
use vstd::string::StringExecFns;
use crate::time::{later_of, utc_now, Timestamp};

verus! {

/// A topic tag of an entry: one of the curated topics, or a category label
/// taken from the registry.
#[derive(Clone, Debug)]
pub enum Topic {
    Communication,
    Drones,
    Category(String),
}

/// Links of a package record to related registry resources.
#[derive(Clone, Debug)]
pub struct PackageLinks {
    pub owner_team: String,
    pub owner_user: String,
    pub owners: String,
    pub reverse_dependencies: String,
    pub version_downloads: String,
    pub versions: Option<String>,
}

/// What the registry knows about one package.
#[derive(Clone, Debug)]
pub struct PackageMetadata {
    pub id: String,
    pub name: String,
    pub description: Option<String>,
    pub license: Option<String>,
    pub documentation: Option<String>,
    pub homepage: Option<String>,
    pub repository: Option<String>,
    pub downloads: u64,
    pub recent_downloads: Option<u64>,
    pub categories: Option<Vec<String>>,
    pub keywords: Option<Vec<String>>,
    pub versions: Option<Vec<u64>>,
    pub max_version: String,
    pub max_stable_version: Option<String>,
    pub links: PackageLinks,
    pub created_at: Timestamp,
    pub updated_at: Timestamp,
    pub exact_match: Option<bool>,
}

/// Activity figures of one repository on the source-hosting platform.
#[derive(Clone, Debug)]
pub struct RepoData {
    pub name: String,
    pub stargazers_count: u32,
    pub last_commit: Timestamp,
    pub contributor_count: Option<u32>,
    pub open_issues_count: Option<u32>,
}

/// A hand-curated entry: everything is supplied, nothing is fetched.
#[derive(Clone, Debug)]
pub struct ManualCrateInfo {
    pub topics: Vec<Topic>,
    pub score: Option<u64>,
    pub krate: Option<PackageMetadata>,
    pub repo: Option<RepoData>,
}

/// An entry resolved through the registry, with fields that fill in what
/// the registry leaves out.
#[derive(Clone, Debug)]
pub struct CratesIoInputCrateInfo {
    pub name: Option<String>,
    pub topics: Vec<Topic>,
    pub documentation: Option<String>,
    pub repository: Option<String>,
    pub license: Option<String>,
    pub description: Option<String>,
}

/// One entry of the input: resolved through the registry, or supplied
/// whole.
#[derive(Clone, Debug)]
pub enum InputCrateInfo {
    CratesIo(CratesIoInputCrateInfo),
    Manual(ManualCrateInfo),
}

/// One merged entry of the output.
#[derive(Clone, Debug)]
pub struct GeneratedCrateInfo {
    pub topics: Vec<Topic>,
    pub score: Option<u64>,
    pub krate: Option<PackageMetadata>,
    pub repo: Option<RepoData>,
}

/// Left-biased choice: the primary value when present, else the fallback.
pub open spec fn spec_coalesce<T>(primary: Option<T>, fallback: Option<T>) -> Option<T> {
    match primary {
        Some(_) => primary,
        None => fallback,
    }
}

/// The primary value where there is one, else the fallback.
pub fn coalesce<T>(primary: Option<T>, fallback: Option<T>) -> (r: Option<T>)
    ensures
        r == spec_coalesce(primary, fallback),
{
    match primary {
        Some(v) => Some(v),
        None => fallback,
    }
}

/// The documentation address synthesized for a package that has none.
pub open spec fn default_documentation(name: Seq<char>) -> Seq<char> {
    "https://docs.rs/crate/"@ + name
}

/// How the registry record and the overrides of an entry combine: every
/// field of the record that is present stays, an absent one takes the
/// override, and documentation that is still absent is synthesized from the
/// package name. All other fields are those of the record.
pub open spec fn overrides_applied(
    data: PackageMetadata,
    overrides: CratesIoInputCrateInfo,
    merged: PackageMetadata,
) -> bool {
    &&& merged.license == spec_coalesce(data.license, overrides.license)
    &&& merged.repository == spec_coalesce(data.repository, overrides.repository)
    &&& merged.description == spec_coalesce(data.description, overrides.description)
    &&& match spec_coalesce(data.documentation, overrides.documentation) {
        Some(d) => merged.documentation == Some(d),
        None => merged.documentation is Some && merged.documentation->0@
            == default_documentation(data.name@),
    }
    &&& merged.id == data.id
    &&& merged.name == data.name
    &&& merged.homepage == data.homepage
    &&& merged.downloads == data.downloads
    &&& merged.recent_downloads == data.recent_downloads
    &&& merged.categories == data.categories
    &&& merged.keywords == data.keywords
    &&& merged.versions == data.versions
    &&& merged.max_version == data.max_version
    &&& merged.max_stable_version == data.max_stable_version
    &&& merged.exact_match == data.exact_match
    &&& merged.links == data.links
    &&& merged.created_at == data.created_at
    &&& merged.updated_at == data.updated_at
}

/// The divisor that the time since the last activity puts on the download
/// count: 1 up to 180 days (coefficient 1.0), 2 up to 365 days (0.5), 10
/// beyond that or when no activity is known (0.1).
pub open spec fn activity_divisor(last_activity: Option<Timestamp>, now: Timestamp) -> int {
    match last_activity {
        None => 10,
        Some(t) => {
            let days = t.days_until(now);
            if days <= 180 {
                1
            } else if days <= 365 {
                2
            } else {
                10
            }
        },
    }
}

/// The text that stands for a registry entry with neither a name nor a
/// repository: a fixed opening, the entry as `detail`, and an empty source.
pub open spec fn invalid_entry_text(detail: Seq<char>) -> Seq<char> {
    "Invalid entry: "@ + detail + " from "@ + ""@
}

/// Formats a registry entry with std's `format!` and the pretty form of its
/// derived `Debug`. What that text is, is left to std.
#[verifier::external_body]
fn debug_text(entry: &CratesIoInputCrateInfo) -> (text: String) {
    format!("{:#?}", entry)
}

impl ManualCrateInfo {
    /// The name a manual entry goes by: that of its package, else that of
    /// its repository, else a fixed text.
    pub open spec fn display_name(&self) -> Seq<char> {
        match self.krate {
            Some(k) => k.name@,
            None => match self.repo {
                Some(r) => r.name@,
                None => "unknown crate name"@,
            },
        }
    }
}

impl InputCrateInfo {
    /// What `describe` says of an entry: its name, the word "from", and
    /// where it comes from.
    pub open spec fn described_by(&self, text: Seq<char>) -> bool {
        match self {
            InputCrateInfo::CratesIo(c) => match c.name {
                Some(n) => text == n@ + " from "@ + "crates.io"@,
                None => match c.repository {
                    Some(r) => text == r@ + " from "@ + "source code repository"@,
                    None => exists|detail: Seq<char>| text == #[trigger] invalid_entry_text(detail),
                },
            },
            InputCrateInfo::Manual(m) => text == m.display_name() + " from "@
                + "populated manually"@,
        }
    }

    /// A one-line description of the entry for diagnostics.
    pub fn describe(&self) -> (text: String)
        ensures
            self.described_by(text@),
    {
        let (name, from): (String, &str) = match self {
            InputCrateInfo::CratesIo(c) => match &c.name {
                Some(n) => (n.clone(), "crates.io"),
                None => match &c.repository {
                    Some(r) => (r.clone(), "source code repository"),
                    None => {
                        let detail = debug_text(c);
                        proof {
                            assert(("Invalid entry: "@ + detail@) + " from "@ + ""@
                                == invalid_entry_text(detail@));
                        }
                        (String::from_str("Invalid entry: ").concat(detail.as_str()), "")
                    },
                },
            },
            InputCrateInfo::Manual(m) => {
                let name = match &m.krate {
                    Some(k) => k.name.clone(),
                    None => match &m.repo {
                        Some(r) => r.name.clone(),
                        None => String::from_str("unknown crate name"),
                    },
                };
                (name, "populated manually")
            },
        };
        name.concat(" from ").concat(from)
    }

    /// The package name to look up in the registry before merging, if the
    /// entry asks for a lookup at all.
    pub open spec fn spec_registry_name(&self) -> Option<String> {
        match self {
            InputCrateInfo::CratesIo(c) => c.name,
            InputCrateInfo::Manual(_) => None,
        }
    }

    /// The package name to look up in the registry, if any.
    pub fn registry_name(&self) -> (name: Option<&String>)
        ensures
            name is Some <==> self.spec_registry_name() is Some,
            name is Some ==> *name->0 == self.spec_registry_name()->0,
    {
        match self {
            InputCrateInfo::CratesIo(c) => c.name.as_ref(),
            InputCrateInfo::Manual(_) => None,
        }
    }
}

impl GeneratedCrateInfo {
    /// Merges one input entry. `fetched` is the registry's record for the
    /// entry's package, absent when none was asked for or the lookup failed.
    pub fn try_from(input: InputCrateInfo, fetched: Option<PackageMetadata>) -> (out: Self)
        ensures
            match input {
                InputCrateInfo::CratesIo(c) => Self::merged_from_registry(c, fetched, out),
                InputCrateInfo::Manual(m) => Self::filled_manually(m, out),
            },
    {
        match input {
            InputCrateInfo::CratesIo(c) => GeneratedCrateInfo::from_crates_io(c, fetched),
            InputCrateInfo::Manual(m) => GeneratedCrateInfo::fill_manually(m),
        }
    }

    /// A manual entry passes through unchanged: topics, score, package and
    /// repository data are the input's.
    pub open spec fn filled_manually(krate: ManualCrateInfo, out: Self) -> bool {
        &&& out.topics == krate.topics
        &&& out.score == krate.score
        &&& out.repo == krate.repo
        &&& out.krate == krate.krate
    }

    /// Takes a manual entry over as it stands.
    pub fn fill_manually(krate: ManualCrateInfo) -> (out: Self)
        ensures
            Self::filled_manually(krate, out),
    {
        GeneratedCrateInfo {
            topics: krate.topics,
            score: krate.score,
            repo: krate.repo,
            krate: krate.krate,
        }
    }

    /// A registry entry keeps its topics and has neither score nor
    /// repository data; it has package data exactly when it names a package
    /// and the registry answered, and then the overrides are applied to it.
    pub open spec fn merged_from_registry(
        krate: CratesIoInputCrateInfo,
        fetched: Option<PackageMetadata>,
        out: Self,
    ) -> bool {
        &&& out.topics == krate.topics
        &&& out.score is None
        &&& out.repo is None
        &&& out.krate is Some <==> (krate.name is Some && fetched is Some)
        &&& out.krate is Some ==> overrides_applied(fetched->0, krate, out.krate->0)
    }

    /// Merges a registry entry with what the registry answered for it.
    pub fn from_crates_io(
        krate: CratesIoInputCrateInfo,
        fetched: Option<PackageMetadata>,
    ) -> (out: Self)
        ensures
            Self::merged_from_registry(krate, fetched, out),
    {
        let CratesIoInputCrateInfo { name, topics, documentation, repository, license, description } =
            krate;
        let merged = match (name, fetched) {
            (Some(_), Some(data)) => {
                let mut data = data;
                data.license = coalesce(data.license, license);
                data.documentation = coalesce(data.documentation, documentation);
                if data.documentation.is_none() {
                    let docs = String::from_str("https://docs.rs/crate/").concat(data.name.as_str());
                    data.documentation = Some(docs);
                }
                data.repository = coalesce(data.repository, repository);
                data.description = coalesce(data.description, description);
                Some(data)
            },
            _ => None,
        };
        GeneratedCrateInfo { topics, score: None, krate: merged, repo: None }
    }

    /// The later of the package's last update and the repository's last
    /// push, each counted only where its record is present.
    pub open spec fn spec_last_activity(&self) -> Option<Timestamp> {
        later_of(
            match self.krate {
                Some(k) => Some(k.updated_at),
                None => None,
            },
            match self.repo {
                Some(r) => Some(r.last_commit),
                None => None,
            },
        )
    }

    /// The windowed download count of the package, 0 where it is unknown.
    pub open spec fn spec_recent_downloads(&self) -> int {
        match self.krate {
            Some(k) => match k.recent_downloads {
                Some(d) => d as int,
                None => 0,
            },
            None => 0,
        }
    }

    /// The score of the entry as seen at `now`: the recent downloads scaled
    /// by the activity coefficient, rounded down.
    pub open spec fn spec_score(&self, now: Timestamp) -> int {
        self.spec_recent_downloads() / activity_divisor(self.spec_last_activity(), now)
    }

    /// Whether `self` is `before` with its score set to what it is worth at
    /// `now`, and nothing else changed.
    pub open spec fn scored_from(&self, before: Self, now: Timestamp) -> bool {
        &&& self.score is Some
        &&& self.score->0 as int == before.spec_score(now)
        &&& self.topics == before.topics
        &&& self.krate == before.krate
        &&& self.repo == before.repo
    }

    /// The last sign of life of the entry, if there is any.
    pub fn last_activity(&self) -> (last: Option<Timestamp>)
        ensures
            last == self.spec_last_activity(),
    {
        let mut last_activity: Option<Timestamp> = match &self.krate {
            Some(k) => Some(k.updated_at),
            None => None,
        };
        match &self.repo {
            Some(r) => {
                let newer = match last_activity {
                    Some(t) => r.last_commit.later_than(&t),
                    None => true,
                };
                if newer {
                    last_activity = Some(r.last_commit);
                }
            },
            None => {},
        }
        last_activity
    }

    /// Attaches what the platform answered for the entry's repository; an
    /// entry whose lookup failed stays as it is.
    pub fn attach_repo(&mut self, fetched: Option<RepoData>)
        ensures
            final(self).repo == (if fetched is Some {
                fetched
            } else {
                old(self).repo
            }),
            final(self).topics == old(self).topics,
            final(self).score == old(self).score,
            final(self).krate == old(self).krate,
    {
        match fetched {
            Some(data) => {
                self.repo = Some(data);
            },
            None => {},
        }
    }

    /// Sets the score to what the entry is worth at `now` and leaves
    /// everything else as it was.
    pub fn update_score_at(&mut self, now: Timestamp)
        ensures
            final(self).scored_from(*old(self), now),
    {
        if self.krate.is_none() {
            self.score = Some(0);
        }
        let divisor: u64 = match self.last_activity() {
            None => 10,
            Some(last_activity) => {
                let inactive_days: i64 = last_activity.inactive_days(&now);
                if inactive_days <= 180 {
                    1
                } else if inactive_days <= 365 {
                    2
                } else {
                    10
                }
            },
        };
        let recent_downloads: u64 = match &self.krate {
            Some(k) => match k.recent_downloads {
                Some(d) => d,
                None => 0,
            },
            None => 0,
        };
        self.score = Some(recent_downloads / divisor);
    }

    /// Scores the entry as of the current time of the system clock. The
    /// clock is not known beforehand, so the score is stated for whatever
    /// time it showed; without package data it is 0 at any time.
    pub fn update_score(&mut self)
        ensures
            exists|now: Timestamp|
                now.secs >= 0 && now.nanos < 1_000_000_000 && #[trigger] final(self).scored_from(
                    *old(self),
                    now,
                ),
            old(self).krate is None ==> final(self).score == Some(0u64),
            final(self).topics == old(self).topics,
            final(self).krate == old(self).krate,
            final(self).repo == old(self).repo,
    {
        let now = utc_now();
        self.update_score_at(now);
    }
}

/// An entry without package data scores 0 at every time, with or without
/// repository data.
pub proof fn lemma_unpublished_scores_zero(entry: GeneratedCrateInfo, now: Timestamp)
    requires
        entry.krate is None,
    ensures
        entry.spec_score(now) == 0,
{
}

/// The score does not depend on an earlier score: entries with the same
/// package and repository data are worth the same at the same time.
pub proof fn lemma_score_ignores_earlier_score(
    a: GeneratedCrateInfo,
    b: GeneratedCrateInfo,
    now: Timestamp,
)
    requires
        a.krate == b.krate,
        a.repo == b.repo,
    ensures
        a.spec_score(now) == b.spec_score(now),
{
}

/// At exactly 180 days of inactivity the score is the full recent download
/// count, at exactly 181 days half of it, and at exactly 366 days a tenth,
/// each rounded down.
pub proof fn lemma_score_at_day_boundaries(entry: GeneratedCrateInfo, now: Timestamp)
    requires
        entry.spec_last_activity() is Some,
    ensures
        entry.spec_last_activity()->0.days_until(now) == 180 ==> entry.spec_score(now)
            == entry.spec_recent_downloads(),
        entry.spec_last_activity()->0.days_until(now) == 181 ==> entry.spec_score(now)
            == entry.spec_recent_downloads() / 2,
        entry.spec_last_activity()->0.days_until(now) == 366 ==> entry.spec_score(now)
            == entry.spec_recent_downloads() / 10,
{
}

/// Where the registry's record has a field, the merged record has the
/// registry's value, whatever the override says.
pub proof fn lemma_registry_value_wins(
    data: PackageMetadata,
    overrides: CratesIoInputCrateInfo,
    merged: PackageMetadata,
)
    requires
        overrides_applied(data, overrides, merged),
    ensures
        data.license is Some ==> merged.license == data.license,
        data.documentation is Some ==> merged.documentation == data.documentation,
        data.repository is Some ==> merged.repository == data.repository,
        data.description is Some ==> merged.description == data.description,
{
}

/// Where the registry's record lacks a field and the entry overrides it,
/// the merged record has the override.
pub proof fn lemma_override_fills_absence(
    data: PackageMetadata,
    overrides: CratesIoInputCrateInfo,
    merged: PackageMetadata,
)
    requires
        overrides_applied(data, overrides, merged),
    ensures
        data.license is None && overrides.license is Some ==> merged.license == overrides.license,
        data.documentation is None && overrides.documentation is Some ==> merged.documentation
            == overrides.documentation,
        data.repository is None && overrides.repository is Some ==> merged.repository
            == overrides.repository,
        data.description is None && overrides.description is Some ==> merged.description
            == overrides.description,
{
}

} // verus!
