//! Repositories on the source-hosting platform: finding the owner and the
//! repository in an address, the keys and queries built from them, and the
//! reading of the platform's answer.

use vstd::prelude::*;
use vstd::string::{StrSliceExecFns, StringExecFns};
use crate::data::{GeneratedCrateInfo, RepoData};
use crate::time::{time_of_parts, time_parts, Timestamp};

verus! {

/// One error object of the platform's answer.
#[derive(Clone, Debug)]
pub struct GraphqlError {
    pub path: Option<Vec<String>>,
    pub message: Option<String>,
}

/// The owner and the repository that an address names.
#[derive(Clone, Debug)]
pub struct RepoRef {
    pub owner: String,
    pub repo: String,
}

/// The host and the path of a parsed address.
#[derive(Clone, Debug)]
pub struct UrlParts {
    pub host: Option<String>,
    pub path: String,
}

/// Why an address could not be resolved to a repository.
#[derive(Clone, Copy, Debug, PartialEq, Eq, Structural)]
pub enum ResolveError {
    /// The text is no address at all.
    InvalidUrl,
    /// The path has fewer than two segments after the leading empty one.
    TooFewSegments,
}

/// A leaf of the platform's answer, as far as numbers are read from it.
#[derive(Clone, Copy, Debug, PartialEq, Eq, Structural)]
pub enum JsonScalar {
    Null,
    Unsigned(u64),
    Signed(i64),
    Other,
}

/// The four leaves of the platform's answer that describe a repository:
/// `stargazers.totalCount`, `pushedAt` (absent where it is no text),
/// `collaborators.totalCount` and `issues.totalCount`.
#[derive(Clone, Debug)]
pub struct RawRepoFields {
    pub stargazers: JsonScalar,
    pub pushed_at: Option<String>,
    pub collaborators: JsonScalar,
    pub issues: JsonScalar,
}

/// The same four leaves with the time of the last push read (absent where
/// the leaf is no time).
#[derive(Clone, Copy, Debug)]
pub struct RepoLeaves {
    pub stargazers: JsonScalar,
    pub pushed_at: Option<Timestamp>,
    pub collaborators: JsonScalar,
    pub issues: JsonScalar,
}

/// The leaf of the answer that could not be read.
#[derive(Clone, Copy, Debug, PartialEq, Eq, Structural)]
pub enum FieldError {
    Stargazers,
    PushedAt,
    Collaborators,
    Issues,
}

/// The host name of the one platform whose repositories are looked up.
pub open spec fn platform_host() -> Seq<char> {
    "github.com"@
}

pub open spec fn is_separator(c: char) -> bool {
    c == '/' || c == '.'
}

/// The pieces of `s` between its separators, in order. A text without a
/// separator is one piece; every separator starts a new, possibly empty one.
pub open spec fn split_segments(s: Seq<char>) -> Seq<Seq<char>>
    decreases s.len(),
{
    if s.len() == 0 {
        seq![Seq::<char>::empty()]
    } else {
        let before = split_segments(s.drop_last());
        if is_separator(s.last()) {
            before.push(Seq::<char>::empty())
        } else {
            before.drop_last().push(before.last().push(s.last()))
        }
    }
}

/// A path with three pieces or more names the same owner and repository
/// with and without a trailing `.git`.
pub proof fn lemma_git_suffix_ignored(host: Option<Seq<char>>, path: Seq<char>)
    requires
        split_segments(path).len() >= 3,
    ensures
        spec_resolve(host, path + ".git"@) == spec_resolve(host, path),
{
    reveal_strlit(".git");
    let pieces = split_segments(path);
    let p1 = path.push('.');
    let p2 = p1.push('g');
    let p3 = p2.push('i');
    let p4 = p3.push('t');
    assert(p1.drop_last() =~= path);
    assert(p2.drop_last() =~= p1);
    assert(p3.drop_last() =~= p2);
    assert(p4.drop_last() =~= p3);
    assert(p4 =~= path + ".git"@);
    assert(split_segments(p1) == pieces.push(Seq::<char>::empty()));
    assert(split_segments(p2).len() == pieces.len() + 1);
    assert(split_segments(p2)[1] == pieces[1] && split_segments(p2)[2] == pieces[2]);
    assert(split_segments(p3).len() == pieces.len() + 1);
    assert(split_segments(p3)[1] == pieces[1] && split_segments(p3)[2] == pieces[2]);
    assert(split_segments(p4).len() == pieces.len() + 1);
    assert(split_segments(p4)[1] == pieces[1] && split_segments(p4)[2] == pieces[2]);
}

/// The texts of a list of strings.
pub open spec fn texts(v: Seq<String>) -> Seq<Seq<char>> {
    v.map_values(|s: String| s@)
}

pub open spec fn optional_text(s: Option<String>) -> Option<Seq<char>> {
    match s {
        Some(t) => Some(t@),
        None => None,
    }
}

/// Owner and repository named by an address with the given host and path:
/// none for a foreign host; else the second and third piece of the path,
/// and an error where the path has fewer than three pieces.
pub open spec fn spec_resolve(host: Option<Seq<char>>, path: Seq<char>) -> Result<
    Option<(Seq<char>, Seq<char>)>,
    ResolveError,
> {
    if host == Some(platform_host()) {
        let parts = split_segments(path);
        if parts.len() >= 3 {
            Ok(Some((parts[1], parts[2])))
        } else {
            Err(ResolveError::TooFewSegments)
        }
    } else {
        Ok(None)
    }
}

/// Whether an outcome carries exactly the owner and repository, or the
/// error, that `expected` gives.
pub open spec fn resolved_as(
    out: Result<Option<RepoRef>, ResolveError>,
    expected: Result<Option<(Seq<char>, Seq<char>)>, ResolveError>,
) -> bool {
    match expected {
        Ok(Some((owner, repo))) => out is Ok && out->Ok_0 is Some && out->Ok_0->0.owner@ == owner
            && out->Ok_0->0.repo@ == repo,
        Ok(None) => out is Ok && out->Ok_0 is None,
        Err(e) => out == Err::<Option<RepoRef>, ResolveError>(e),
    }
}

/// What `url::Url::parse` makes of a text: nothing where it rejects the
/// text, else the host (if the address has one) and the path of the address.
pub uninterp spec fn parsed_url(text: Seq<char>) -> Option<(Option<Seq<char>>, Seq<char>)>;

pub open spec fn url_parts_text(parts: Option<UrlParts>) -> Option<(Option<Seq<char>>, Seq<char>)> {
    match parts {
        Some(p) => Some((optional_text(p.host), p.path@)),
        None => None,
    }
}

/// Parses an address with `url::Url::parse` and reads its host with
/// `Url::host_str` and its path with `Url::path`. The outcome is a function
/// of the text alone and is known here only by its name, `parsed_url`.
#[verifier::external_body]
pub(crate) fn parse_url(text: &str) -> (parts: Option<UrlParts>)
    ensures
        url_parts_text(parts) == parsed_url(text@),
{
    match url::Url::parse(text) {
        Ok(u) => Some(UrlParts { host: u.host_str().map(|h| h.to_string()), path: u.path().to_string() }),
        Err(_) => None,
    }
}

/// Splits a path at every `/` and every `.`.
pub fn split_path(path: &str) -> (parts: Vec<String>)
    ensures
        texts(parts@) == split_segments(path@),
{
    let n: usize = path.unicode_len();
    let mut parts: Vec<String> = Vec::new();
    let mut start: usize = 0;
    let mut i: usize = 0;
    proof {
        assert(path@.take(0).len() == 0);
        assert(path@.subrange(0, 0) =~= Seq::<char>::empty());
        assert(texts(parts@).push(path@.subrange(0, 0)) =~= seq![Seq::<char>::empty()]);
    }
    while i < n
        invariant
            n == path@.len(),
            start <= i <= n,
            split_segments(path@.take(i as int)) == texts(parts@).push(
                path@.subrange(start as int, i as int),
            ),
        decreases n - i,
    {
        let c = path.get_char(i);
        proof {
            let t = path@.take(i as int + 1);
            assert(t.drop_last() =~= path@.take(i as int));
            assert(t.last() == c);
        }
        if c == '/' || c == '.' {
            let seg = String::from_str(path.substring_char(start, i));
            proof {
                assert(texts(parts@.push(seg)) =~= texts(parts@).push(seg@));
                assert(path@.subrange(i as int + 1, i as int + 1) =~= Seq::<char>::empty());
            }
            parts.push(seg);
            start = i + 1;
        } else {
            proof {
                let before = texts(parts@).push(path@.subrange(start as int, i as int));
                assert(before.drop_last() =~= texts(parts@));
                assert(before.last().push(c) =~= path@.subrange(start as int, i as int + 1));
            }
        }
        i = i + 1;
    }
    let seg = String::from_str(path.substring_char(start, n));
    proof {
        assert(path@.take(n as int) =~= path@);
        assert(texts(parts@.push(seg)) =~= texts(parts@).push(seg@));
    }
    parts.push(seg);
    parts
}

/// Finds the owner and the repository in a parsed address.
pub fn resolve_repository(parts: &UrlParts) -> (out: Result<Option<RepoRef>, ResolveError>)
    ensures
        resolved_as(out, spec_resolve(optional_text(parts.host), parts.path@)),
{
    let on_platform = match &parts.host {
        Some(h) => *h == String::from_str("github.com"),
        None => false,
    };
    if !on_platform {
        return Ok(None);
    }
    let pieces = split_path(parts.path.as_str());
    if pieces.len() < 3 {
        return Err(ResolveError::TooFewSegments);
    }
    assert(texts(pieces@)[1] == pieces@[1]@ && texts(pieces@)[2] == pieces@[2]@);
    Ok(Some(RepoRef { owner: pieces[1].clone(), repo: pieces[2].clone() }))
}

/// Finds the owner and the repository in the text of an address.
pub fn locate_repository(url: &str) -> (out: Result<Option<RepoRef>, ResolveError>)
    ensures
        match parsed_url(url@) {
            Some((host, path)) => resolved_as(out, spec_resolve(host, path)),
            None => out == Err::<Option<RepoRef>, ResolveError>(ResolveError::InvalidUrl),
        },
{
    match parse_url(url) {
        Some(parts) => resolve_repository(&parts),
        None => Err(ResolveError::InvalidUrl),
    }
}

/// The repository to look up for a merged entry: none where the entry has
/// no package data or the package names no repository.
pub fn repository_of(entry: &GeneratedCrateInfo) -> (out: Result<Option<RepoRef>, ResolveError>)
    ensures
        match entry.krate {
            Some(k) => match k.repository {
                Some(r) => match parsed_url(r@) {
                    Some((host, path)) => resolved_as(out, spec_resolve(host, path)),
                    None => out == Err::<Option<RepoRef>, ResolveError>(ResolveError::InvalidUrl),
                },
                None => out == Ok::<Option<RepoRef>, ResolveError>(None),
            },
            None => out == Ok::<Option<RepoRef>, ResolveError>(None),
        },
{
    match &entry.krate {
        Some(k) => match &k.repository {
            Some(r) => locate_repository(r.as_str()),
            None => Ok(None),
        },
        None => Ok(None),
    }
}

impl RepoRef {
    /// The key under which the platform's answer is cached: owner, two
    /// hyphens, repository.
    pub fn cache_key(&self) -> (key: String)
        ensures
            key@ == self.owner@ + "--"@ + self.repo@,
    {
        self.owner.clone().concat("--").concat(self.repo.as_str())
    }

    /// The canonical name: owner, a slash, repository.
    pub fn full_name(&self) -> (name: String)
        ensures
            name@ == self.owner@ + "/"@ + self.repo@,
    {
        self.owner.clone().concat("/").concat(self.repo.as_str())
    }
}

/// The text before the owner in the query for a repository's figures.
pub open spec fn query_opening() -> Seq<char> {
    "query {\n              repository(owner:\""@
}

/// The text between the owner and the repository in that query.
pub open spec fn query_middle() -> Seq<char> {
    "\", name:\""@
}

/// The text after the repository in that query: the four figures asked for.
pub open spec fn query_closing() -> Seq<char> {
    "\") {\n                stargazers {\n                  totalCount\n                }\n                collaborators {\n                    totalCount\n                }\n                issues(states: OPEN) {\n                    totalCount\n                }\n                pushedAt\n              }\n            }"@
}

impl RepoRef {
    /// The one query that asks the platform for the stars, the
    /// collaborators, the open issues and the last push of the repository.
    pub fn graphql_query(&self) -> (query: String)
        ensures
            query@ == query_opening() + self.owner@ + query_middle() + self.repo@ + query_closing(),
    {
        String::from_str("query {\n              repository(owner:\"").concat(
            self.owner.as_str(),
        ).concat("\", name:\"").concat(self.repo.as_str()).concat(
            "\") {\n                stargazers {\n                  totalCount\n                }\n                collaborators {\n                    totalCount\n                }\n                issues(states: OPEN) {\n                    totalCount\n                }\n                pushedAt\n              }\n            }",
        )
    }
}

/// The place of a cached answer below the cache's root: the namespace as a
/// directory, the key as a file with the extension `json`.
pub fn cache_file(namespace: &str, key: &str) -> (path: String)
    ensures
        path@ == namespace@ + "/"@ + key@ + ".json"@,
{
    String::from_str(namespace).concat("/").concat(key).concat(".json")
}

/// The message of the first error that the platform reported, if it
/// reported one with a message.
pub fn first_error_message(errors: &Vec<GraphqlError>) -> (message: Option<String>)
    ensures
        message == (if errors@.len() > 0 {
            errors@[0].message
        } else {
            None
        }),
{
    if errors.len() > 0 {
        match &errors[0].message {
            Some(m) => Some(m.clone()),
            None => None,
        }
    } else {
        None
    }
}

impl JsonScalar {
    /// The leaf as a 32-bit count: a whole number in range, nothing else.
    pub open spec fn spec_count(self) -> Option<u32> {
        match self {
            JsonScalar::Unsigned(u) => if u <= u32::MAX {
                Some(u as u32)
            } else {
                None
            },
            JsonScalar::Signed(i) => if 0 <= i <= u32::MAX {
                Some(i as u32)
            } else {
                None
            },
            _ => None,
        }
    }

    /// The leaf as an optional count: absent for null, else as `spec_count`;
    /// the outer option is empty where the leaf is neither.
    pub open spec fn spec_optional_count(self) -> Option<Option<u32>> {
        match self {
            JsonScalar::Null => Some(None),
            _ => match self.spec_count() {
                Some(n) => Some(Some(n)),
                None => None,
            },
        }
    }

    pub fn count(&self) -> (n: Option<u32>)
        ensures
            n == self.spec_count(),
    {
        match *self {
            JsonScalar::Unsigned(u) => if u <= 0xffff_ffff {
                Some(u as u32)
            } else {
                None
            },
            JsonScalar::Signed(i) => if 0 <= i && i <= 0xffff_ffff {
                Some(i as u32)
            } else {
                None
            },
            _ => None,
        }
    }

    pub fn optional_count(&self) -> (n: Option<Option<u32>>)
        ensures
            n == self.spec_optional_count(),
    {
        match *self {
            JsonScalar::Null => Some(None),
            _ => match self.count() {
                Some(n) => Some(Some(n)),
                None => None,
            },
        }
    }
}

/// The point in time that a text denotes, as `chrono` reads a
/// `DateTime<Utc>` from text; none where it rejects the text.
pub uninterp spec fn parsed_time(text: Seq<char>) -> Option<(i64, u32)>;

/// Reads a point in time from text with the `FromStr` of
/// `chrono::DateTime<chrono::Utc>`, which is also how that type is read
/// from a text leaf. The outcome depends on the text alone and is known
/// here by its name.
#[verifier::external_body]
pub(crate) fn parse_time(text: &str) -> (t: Option<Timestamp>)
    ensures
        time_parts(t) == parsed_time(text@),
{
    match text.parse::<chrono::DateTime<chrono::Utc>>() {
        Ok(t) => Some(Timestamp { secs: t.timestamp(), nanos: t.timestamp_subsec_nanos() }),
        Err(_) => None,
    }
}

/// A document of the platform, as `serde_json` holds it.
#[verifier::external_type_specification]
#[verifier::external_body]
pub struct ExJsonValue(serde_json::Value);

/// The number that a document holds where its members are followed by the
/// keys of `path` in turn; a key that leads nowhere leads to null.
pub uninterp spec fn json_number_at(doc: serde_json::Value, path: Seq<Seq<char>>) -> JsonScalar;

/// The text that a document holds at the end of `path`, none where what is
/// there is no text.
pub uninterp spec fn json_text_at(doc: serde_json::Value, path: Seq<Seq<char>>) -> Option<
    Seq<char>,
>;

/// Indexes a document by a key, as `serde_json::Value` does for `&str`: the
/// member of an object, null for anything else. What the member holds at a
/// path is what the document holds at the key followed by that path.
#[verifier::external_body]
pub(crate) fn member(doc: &serde_json::Value, key: &str) -> (inner: serde_json::Value)
    ensures
        forall|path: Seq<Seq<char>>| #[trigger]
            json_number_at(inner, path) == json_number_at(*doc, seq![key@] + path),
        forall|path: Seq<Seq<char>>| #[trigger]
            json_text_at(inner, path) == json_text_at(*doc, seq![key@] + path),
{
    doc[key].clone()
}

/// Reads a document as a number with `serde_json::Number::as_u64` and
/// `as_i64`: null and whole numbers as themselves, all else as `Other`.
#[verifier::external_body]
pub(crate) fn number_of(doc: &serde_json::Value) -> (n: JsonScalar)
    ensures
        n == json_number_at(*doc, Seq::<Seq<char>>::empty()),
{
    match doc {
        serde_json::Value::Null => JsonScalar::Null,
        serde_json::Value::Number(n) => match (n.as_u64(), n.as_i64()) {
            (Some(u), _) => JsonScalar::Unsigned(u),
            (None, Some(i)) => JsonScalar::Signed(i),
            (None, None) => JsonScalar::Other,
        },
        _ => JsonScalar::Other,
    }
}

/// Reads a document as text with `serde_json::Value::as_str`.
#[verifier::external_body]
pub(crate) fn text_of(doc: &serde_json::Value) -> (text: Option<String>)
    ensures
        optional_text(text) == json_text_at(*doc, Seq::<Seq<char>>::empty()),
{
    doc.as_str().map(|s| s.to_string())
}

pub open spec fn stargazers_path() -> Seq<Seq<char>> {
    seq!["data"@, "repository"@, "stargazers"@, "totalCount"@]
}

pub open spec fn pushed_at_path() -> Seq<Seq<char>> {
    seq!["data"@, "repository"@, "pushedAt"@]
}

pub open spec fn collaborators_path() -> Seq<Seq<char>> {
    seq!["data"@, "repository"@, "collaborators"@, "totalCount"@]
}

pub open spec fn issues_path() -> Seq<Seq<char>> {
    seq!["data"@, "repository"@, "issues"@, "totalCount"@]
}

/// Whether `fields` are the four leaves of the document.
pub open spec fn fields_of(doc: serde_json::Value, fields: RawRepoFields) -> bool {
    &&& fields.stargazers == json_number_at(doc, stargazers_path())
    &&& optional_text(fields.pushed_at) == json_text_at(doc, pushed_at_path())
    &&& fields.collaborators == json_number_at(doc, collaborators_path())
    &&& fields.issues == json_number_at(doc, issues_path())
}

/// The four leaves of the document with the time of the last push read.
pub open spec fn document_leaves(doc: serde_json::Value) -> RepoLeaves {
    RepoLeaves {
        stargazers: json_number_at(doc, stargazers_path()),
        pushed_at: match json_text_at(doc, pushed_at_path()) {
            Some(text) => time_of_parts(parsed_time(text)),
            None => None,
        },
        collaborators: json_number_at(doc, collaborators_path()),
        issues: json_number_at(doc, issues_path()),
    }
}

fn count_below(repo: &serde_json::Value, key: &str) -> (n: JsonScalar)
    ensures
        n == json_number_at(*repo, seq![key@, "totalCount"@]),
{
    let inner = member(repo, key);
    let leaf = member(&inner, "totalCount");
    proof {
        let nowhere = Seq::<Seq<char>>::empty();
        assert(seq![key@] + (seq!["totalCount"@] + nowhere) =~= seq![key@, "totalCount"@]);
    }
    number_of(&leaf)
}

/// Picks the four leaves out of the platform's answer.
pub fn read_fields(val: &serde_json::Value) -> (fields: RawRepoFields)
    ensures
        fields_of(*val, fields),
        fields.leaves() == document_leaves(*val),
{
    let data = member(val, "data");
    let repo = member(&data, "repository");
    let pushed = member(&repo, "pushedAt");
    proof {
        let nowhere = Seq::<Seq<char>>::empty();
        assert(seq!["data"@] + (seq!["repository"@] + seq!["stargazers"@, "totalCount"@])
            =~= stargazers_path());
        assert(seq!["data"@] + (seq!["repository"@] + seq!["collaborators"@, "totalCount"@])
            =~= collaborators_path());
        assert(seq!["data"@] + (seq!["repository"@] + seq!["issues"@, "totalCount"@])
            =~= issues_path());
        assert(seq!["data"@] + (seq!["repository"@] + (seq!["pushedAt"@] + nowhere))
            =~= pushed_at_path());
    }
    RawRepoFields {
        stargazers: count_below(&repo, "stargazers"),
        pushed_at: text_of(&pushed),
        collaborators: count_below(&repo, "collaborators"),
        issues: count_below(&repo, "issues"),
    }
}

impl RawRepoFields {
    /// The leaves with the time of the last push read from its text.
    pub open spec fn leaves(self) -> RepoLeaves {
        RepoLeaves {
            stargazers: self.stargazers,
            pushed_at: match self.pushed_at {
                Some(text) => time_of_parts(parsed_time(text@)),
                None => None,
            },
            collaborators: self.collaborators,
            issues: self.issues,
        }
    }

    pub fn read_time(&self) -> (leaves: RepoLeaves)
        ensures
            leaves == self.leaves(),
    {
        RepoLeaves {
            stargazers: self.stargazers,
            pushed_at: match &self.pushed_at {
                Some(text) => parse_time(text.as_str()),
                None => None,
            },
            collaborators: self.collaborators,
            issues: self.issues,
        }
    }
}

impl RepoLeaves {
    /// The first leaf, in the order stars, last push, collaborators, open
    /// issues, that cannot be read; none where all four can.
    pub open spec fn first_failure(self) -> Option<FieldError> {
        if self.stargazers.spec_count() is None {
            Some(FieldError::Stargazers)
        } else if self.pushed_at is None {
            Some(FieldError::PushedAt)
        } else if self.collaborators.spec_optional_count() is None {
            Some(FieldError::Collaborators)
        } else if self.issues.spec_optional_count() is None {
            Some(FieldError::Issues)
        } else {
            None
        }
    }
}

/// Whether `out` is what the leaves give for the repository `name`:
/// success exactly when every leaf can be read, and then every figure is
/// that of its leaf; else the first leaf that cannot.
pub open spec fn read_as(name: Seq<char>, leaves: RepoLeaves, out: Result<RepoData, FieldError>) -> bool {
    match out {
        Ok(d) => {
            &&& leaves.first_failure() is None
            &&& d.name@ == name
            &&& Some(d.stargazers_count) == leaves.stargazers.spec_count()
            &&& Some(d.last_commit) == leaves.pushed_at
            &&& Some(d.contributor_count) == leaves.collaborators.spec_optional_count()
            &&& Some(d.open_issues_count) == leaves.issues.spec_optional_count()
        },
        Err(e) => leaves.first_failure() == Some(e),
    }
}

impl RepoData {
    /// Reads the repository's figures from the leaves of the platform's
    /// answer.
    pub fn from_leaves(name: &str, leaves: RepoLeaves) -> (out: Result<RepoData, FieldError>)
        ensures
            read_as(name@, leaves, out),
    {
        let stargazers_count: u32 = match leaves.stargazers.count() {
            Some(n) => n,
            None => {
                return Err(FieldError::Stargazers);
            },
        };
        let last_commit = match leaves.pushed_at {
            Some(t) => t,
            None => {
                return Err(FieldError::PushedAt);
            },
        };
        let contributor_count = match leaves.collaborators.optional_count() {
            Some(n) => n,
            None => {
                return Err(FieldError::Collaborators);
            },
        };
        let open_issues_count = match leaves.issues.optional_count() {
            Some(n) => n,
            None => {
                return Err(FieldError::Issues);
            },
        };
        Ok(
            RepoData {
                name: String::from_str(name),
                stargazers_count,
                last_commit,
                contributor_count,
                open_issues_count,
            },
        )
    }

    /// Reads the repository's figures from the four leaves, the time of the
    /// last push from its text.
    pub fn from_fields(name: &str, fields: &RawRepoFields) -> (out: Result<RepoData, FieldError>)
        ensures
            read_as(name@, fields.leaves(), out),
    {
        RepoData::from_leaves(name, fields.read_time())
    }

    /// Reads the repository's figures from the platform's answer: the
    /// leaves at `data.repository.stargazers.totalCount`,
    /// `data.repository.pushedAt`, `data.repository.collaborators.totalCount`
    /// and `data.repository.issues.totalCount`.
    pub fn from_graphql_data(name: &str, val: &serde_json::Value) -> (out: Result<
        RepoData,
        FieldError,
    >)
        ensures
            read_as(name@, document_leaves(*val), out),
    {
        let fields = read_fields(val);
        RepoData::from_fields(name, &fields)
    }
}

/// Why the figures of a repository could not be had.
#[derive(Clone, Debug)]
pub enum FetchError {
    /// The request did not get through; the text says why.
    Transport(String),
    /// The platform reported errors; this is the message of the first, if
    /// it has one.
    Provider(Option<String>),
    /// The answer lacks a readable leaf.
    Malformed(FieldError),
}

/// How a request to the platform ended.
#[derive(Debug)]
pub enum RemoteAnswer {
    Data(serde_json::Value),
    Errors(Vec<GraphqlError>),
    Failed(String),
}

/// What to do once the cache was asked: the cached answer was read, or the
/// platform is to be asked with this query.
#[derive(Debug)]
pub enum CacheOutcome {
    Cached(Result<RepoData, FieldError>),
    Fetch(String),
}

/// What a request to the platform comes to: the figures or the error, and
/// the answer to put into the cache, if there is one.
#[derive(Debug)]
pub struct FetchOutcome {
    pub result: Result<RepoData, FetchError>,
    pub store: Option<serde_json::Value>,
}

/// Whether `result` is what an answer with these leaves gives.
pub open spec fn fetched_as(
    name: Seq<char>,
    leaves: RepoLeaves,
    result: Result<RepoData, FetchError>,
) -> bool {
    match result {
        Ok(d) => read_as(name, leaves, Ok(d)),
        Err(FetchError::Malformed(field)) => read_as(name, leaves, Err(field)),
        Err(_) => false,
    }
}

impl RepoRef {
    pub open spec fn spec_full_name(&self) -> Seq<char> {
        self.owner@ + "/"@ + self.repo@
    }

    pub open spec fn spec_query(&self) -> Seq<char> {
        query_opening() + self.owner@ + query_middle() + self.repo@ + query_closing()
    }

    /// The step after the cache was asked. A cached answer is read as it
    /// is, readable or not; without one (a miss, or a file that is no
    /// document) the platform is asked.
    pub fn on_cache(&self, cached: Option<&serde_json::Value>) -> (next: CacheOutcome)
        ensures
            match cached {
                Some(doc) => next is Cached && read_as(
                    self.spec_full_name(),
                    document_leaves(*doc),
                    next->Cached_0,
                ),
                None => next is Fetch && next->Fetch_0@ == self.spec_query(),
            },
    {
        match cached {
            Some(doc) => {
                let name = self.full_name();
                CacheOutcome::Cached(RepoData::from_graphql_data(name.as_str(), doc))
            },
            None => CacheOutcome::Fetch(self.graphql_query()),
        }
    }

    /// The step after the platform was asked. An answer with data is to be
    /// cached as it came, before and whether or not its leaves can be read;
    /// reported errors give the first message; nothing but data is cached.
    pub fn on_answer(&self, answer: RemoteAnswer) -> (out: FetchOutcome)
        ensures
            match answer {
                RemoteAnswer::Data(doc) => out.store == Some(doc) && fetched_as(
                    self.spec_full_name(),
                    document_leaves(doc),
                    out.result,
                ),
                RemoteAnswer::Errors(errors) => out.store is None && out.result is Err
                    && out.result->Err_0 is Provider && out.result->Err_0->Provider_0 == (
                    if errors@.len() > 0 {
                        errors@[0].message
                    } else {
                        None
                    }),
                RemoteAnswer::Failed(why) => out.store is None && out.result is Err
                    && out.result->Err_0 is Transport && out.result->Err_0->Transport_0 == why,
            },
    {
        match answer {
            RemoteAnswer::Data(doc) => {
                let name = self.full_name();
                let result = match RepoData::from_graphql_data(name.as_str(), &doc) {
                    Ok(data) => Ok(data),
                    Err(field) => Err(FetchError::Malformed(field)),
                };
                FetchOutcome { result, store: Some(doc) }
            },
            RemoteAnswer::Errors(errors) => FetchOutcome {
                result: Err(FetchError::Provider(first_error_message(&errors))),
                store: None,
            },
            RemoteAnswer::Failed(why) => FetchOutcome {
                result: Err(FetchError::Transport(why)),
                store: None,
            },
        }
    }

    /// The place of the repository's answer in the cache.
    pub fn cache_location(&self) -> (path: String)
        ensures
            path@ == "github"@ + "/"@ + (self.owner@ + "--"@ + self.repo@) + ".json"@,
    {
        let key = self.cache_key();
        cache_file("github", key.as_str())
    }
}

} // verus!
