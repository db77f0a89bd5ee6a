//! Things shared by the engine's modules: errors, traces and the merging
//! of two versions of a text.
use vstd::prelude::*;
use crate::repo_shared::RepoError;
use crate::text::concat_seqs;

verus! {

/// Errors found in the engine.
pub enum FanlingError {
    /// repository-related error
    RepoError(RepoError),
    /// error in engine
    FanlingError(String),
    /// internal IO error
    Io(String),
    /// error from the search database
    Database(String),
    /// error when rendering a template
    Template(String),
    /// internal time error
    Time(String),
    /// error in YAML data
    Yaml(String),
    /// error in JSON data
    Json(String),
    /// error in UTF-8 data
    Utf8(String),
    /// error in a regular expression
    Regex(String),
    /// error when converting between integer types
    TryInto(String),
    /// error when parsing an integer
    ParseInt(String),
    /// error when parsing a date
    DateTime(String),
    /// error when reading an environment variable
    Var(String),
    /// any other error
    Gen(String),
}

impl FanlingError {
    /// An engine error with the message `txt`.
    pub fn new(txt: &str) -> (r: FanlingError)
        ensures
            r matches FanlingError::FanlingError(m) && m@ == txt@,
    {
        FanlingError::FanlingError(txt.to_owned())
    }
}

impl FanlingError {
    /// The text that the error carries (for a repository error, that of
    /// the repository error).
    pub open spec fn spec_message(&self) -> Seq<char> {
        match self {
            FanlingError::RepoError(e) => e.spec_message(),
            FanlingError::FanlingError(m) | FanlingError::Io(m) | FanlingError::Database(m)
            | FanlingError::Template(m) | FanlingError::Time(m) | FanlingError::Yaml(m) | FanlingError::Json(m)
            | FanlingError::Utf8(m) | FanlingError::Regex(m) | FanlingError::TryInto(m) | FanlingError::ParseInt(m)
            | FanlingError::DateTime(m) | FanlingError::Var(m) | FanlingError::Gen(m) => m@,
        }
    }

    /// The text that the error carries.
    pub fn message(&self) -> (r: String)
        ensures
            r@ == self.spec_message(),
    {
        match self {
            FanlingError::RepoError(e) => e.message(),
            FanlingError::FanlingError(m) | FanlingError::Io(m) | FanlingError::Database(m)
            | FanlingError::Template(m) | FanlingError::Time(m) | FanlingError::Yaml(m) | FanlingError::Json(m)
            | FanlingError::Utf8(m) | FanlingError::Regex(m) | FanlingError::TryInto(m) | FanlingError::ParseInt(m)
            | FanlingError::DateTime(m) | FanlingError::Var(m) | FanlingError::Gen(m) => m.clone(),
        }
    }

    /// Report the error found at `file`:`line`:`col` (in the trace); the error itself.
    pub fn dump(&self, file: &str, line: u32, col: u32) -> (r: &Self)
        ensures
            r == self,
    {
        self
    }
}

impl From<RepoError> for FanlingError {
    fn from(e: RepoError) -> (r: FanlingError) {
        FanlingError::RepoError(e)
    }
}

impl vstd::std_specs::convert::FromSpecImpl<RepoError> for FanlingError {
    open spec fn obeys_from_spec() -> bool {
        true
    }

    open spec fn from_spec(v: RepoError) -> FanlingError {
        FanlingError::RepoError(v)
    }
}

/// Result type of the engine.
pub type FLResult<T> = Result<T, FanlingError>;

/// A result with no payload.
pub type NullResult = Result<(), FanlingError>;

/// Outputs start and end messages for an operation.
pub struct Tracer {
    pub descr: String,
}

impl Tracer {
    /// A tracer for the operation `descr` at `loc`.
    pub fn new(descr: &str, loc: &str) -> (r: Self)
        ensures
            r.descr@ == descr@,
    {
        Self { descr: descr.to_owned() }
    }
}

/// The kind of a part of a difference between two texts.
pub enum DiffKind {
    /// in both texts
    Same,
    /// only in the second text
    Add,
    /// only in the first text
    Rem,
}

/// The parts of the difference between `orig` and `edit`, split at `split`,
/// as computed by the `difference` crate (a longest-common-subsequence diff).
pub uninterp spec fn changeset_diffs(orig: Seq<char>, edit: Seq<char>, split: Seq<char>) -> Seq<(DiffKind, Seq<char>)>;

/// The views of the parts of a difference.
pub open spec fn diff_parts_view(v: Seq<(DiffKind, String)>) -> Seq<(DiffKind, Seq<char>)> {
    v.map_values(|p: (DiffKind, String)| (p.0, p.1@))
}

/// The texts of the parts of a difference.
pub open spec fn diff_texts(d: Seq<(DiffKind, Seq<char>)>) -> Seq<Seq<char>> {
    d.map_values(|p: (DiffKind, Seq<char>)| p.1)
}

/// Calls `difference::Changeset::new(orig, edit, split)` and returns its
/// `diffs`, each as its kind and its text. The parts are named by
/// `changeset_diffs`, a function of the three arguments alone.
#[verifier::external_body]
fn changeset(orig: &str, edit: &str, split: &str) -> (r: Vec<(DiffKind, String)>)
    ensures
        diff_parts_view(r@) == changeset_diffs(orig@, edit@, split@),
{
    difference::Changeset::new(orig, edit, split).diffs.into_iter().map(|d| match d {
        difference::Difference::Same(s) => (DiffKind::Same, s),
        difference::Difference::Add(s) => (DiffKind::Add, s),
        difference::Difference::Rem(s) => (DiffKind::Rem, s),
    }).collect()
}

/// Merge two strings into one: the texts of all the parts of their
/// word-by-word difference (common, added and removed), in order.
pub fn merge_strings(sa: &str, sb: &str) -> (r: String)
    ensures
        r@ == concat_seqs(diff_texts(changeset_diffs(sa@, sb@, " "@))),
{
    let parts = changeset(sa, sb, " ");
    let ghost d = changeset_diffs(sa@, sb@, " "@);
    let mut r = String::new();
    let mut i: usize = 0;
    while i < parts.len()
        invariant
            i <= parts.len(),
            diff_parts_view(parts@) == d,
            r@ == concat_seqs(diff_texts(d).subrange(0, i as int)),
        decreases parts.len() - i,
    {
        r.append(parts[i].1.as_str());
        proof {
            assert(d[i as int] == (parts@[i as int].0, parts@[i as int].1@));
            assert(diff_texts(d).subrange(0, i + 1).drop_last() =~= diff_texts(d).subrange(0, i as int));
        }
        i = i + 1;
    }
    proof {
        assert(diff_texts(d).subrange(0, i as int) =~= diff_texts(d));
    }
    r
}

} // verus!
