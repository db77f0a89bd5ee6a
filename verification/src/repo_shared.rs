//! Data shared by the git repository layer: options, blob identifiers,
//! changes and errors.
use vstd::prelude::*;
use std::time::SystemTime;

verus! {

/// Name of the SSH key file.
pub const SSL_KEY_FILE: &'static str = "id_rsa";

/// Errors found during repository management.
pub enum RepoError {
    /// error found by git
    Git(String),
    /// error found by git control
    Repo(String),
    /// internal IO error
    Io(String),
    /// internal string error
    Utf8(String),
    /// internal time error
    Time(String),
    /// internal conversion error
    Convert(String),
}

impl RepoError {
    /// A repository error with the message `text`.
    pub fn new(text: &str) -> (r: RepoError)
        ensures
            r matches RepoError::Repo(m) && m@ == text@,
    {
        RepoError::Repo(text.to_owned())
    }
}

impl RepoError {
    /// The text that the error carries.
    pub open spec fn spec_message(&self) -> Seq<char> {
        match self {
            RepoError::Git(m) | RepoError::Repo(m) | RepoError::Io(m) | RepoError::Utf8(m) | RepoError::Time(m)
            | RepoError::Convert(m) => m@,
        }
    }

    /// The text that the error carries.
    pub fn message(&self) -> (r: String)
        ensures
            r@ == self.spec_message(),
    {
        match self {
            RepoError::Git(m) | RepoError::Repo(m) | RepoError::Io(m) | RepoError::Utf8(m) | RepoError::Time(m)
            | RepoError::Convert(m) => m.clone(),
        }
    }

    /// Report the error found at `file`:`line`:`col` (in the trace); the error itself.
    pub fn dump(&self, file: &str, line: u32, col: u32) -> (r: &Self)
        ensures
            r == self,
    {
        self
    }
}

/// A result with payload.
pub type RepoResult<T> = Result<T, RepoError>;

/// A result with no payload.
pub type NullResult = RepoResult<()>;

/// Data for creating a new repository.
pub struct RepoOptions {
    /// path for repository location
    pub path: String,
    /// name for git commits
    pub name: String,
    /// email for git commits
    pub email: String,
    /// URL of remote repository (if required)
    pub url: Option<String>,
    /// remote to pull/push
    pub required_remote: Option<String>,
    /// branch to use
    pub required_branch: Option<String>,
    /// the directory within the repo containing items
    pub item_dir: String,
    /// whether to write to the remote server
    pub write_to_server: bool,
    /// ssh path
    pub ssh_path: String,
    /// whether to slurp ssh files
    pub slurp_ssh: bool,
}

/// The string of `s` as a sequence of characters, for literals.
pub open spec fn opt_view(o: Option<String>) -> Option<Seq<char>> {
    match o {
        Some(s) => Some(s@),
        None => None,
    }
}

impl RepoOptions {
    /// The default options.
    pub open spec fn is_default(self) -> bool {
        &&& self.path@ == "testfiles/test"@
        &&& self.name@ == Seq::<char>::empty()
        &&& self.email@ == Seq::<char>::empty()
        &&& self.url.is_none()
        &&& opt_view(self.required_remote) == Some("origin"@)
        &&& opt_view(self.required_branch) == Some("main"@)
        &&& self.item_dir@ == "items"@
        &&& !self.write_to_server
        &&& self.ssh_path@ == SSL_KEY_FILE@
        &&& !self.slurp_ssh
    }

    /// The default options.
    pub fn new() -> (r: Self)
        ensures
            r.is_default(),
    {
        Self::default()
    }
}

impl Default for RepoOptions {
    fn default() -> (r: Self)
        ensures
            r.is_default(),
    {
        RepoOptions {
            path: "testfiles/test".to_owned(),
            name: String::new(),
            email: String::new(),
            url: None,
            required_remote: Some("origin".to_owned()),
            required_branch: Some("main".to_owned()),
            item_dir: "items".to_owned(),
            write_to_server: false,
            ssh_path: SSL_KEY_FILE.to_owned(),
            slurp_ssh: false,
        }
    }
}

/// An identifier understood to refer to a blob (the 20 bytes of a git object id).
pub struct RepoOid {
    pub bytes: [u8; 20],
}

impl RepoOid {
    /// The identifier whose bytes are all zero (a suitable initial value).
    pub fn new() -> (r: Self)
        ensures
            forall|i: int| 0 <= i < 20 ==> r.bytes@[i] == 0u8,
    {
        Self { bytes: [0u8; 20] }
    }

    /// The identifier with the given bytes.
    pub fn from_bytes(bytes: [u8; 20]) -> (r: Self)
        ensures
            r.bytes == bytes,
    {
        Self { bytes }
    }

    /// A copy of this identifier.
    pub fn copy(&self) -> (r: Self)
        ensures
            r == *self,
    {
        Self { bytes: self.bytes }
    }
}

impl PartialEq for RepoOid {
    fn eq(&self, other: &Self) -> (r: bool) {
        let mut i: usize = 0;
        while i < 20
            invariant
                i <= 20,
                forall|j: int| 0 <= j < i ==> self.bytes@[j] == other.bytes@[j],
            decreases 20 - i,
        {
            if self.bytes[i] != other.bytes[i] {
                return false;
            }
            i = i + 1;
        }
        proof {
            assert(self.bytes@ =~= other.bytes@);
        }
        true
    }
}

impl vstd::std_specs::cmp::PartialEqSpecImpl for RepoOid {
    open spec fn obeys_eq_spec() -> bool {
        true
    }

    open spec fn eq_spec(&self, other: &Self) -> bool {
        self.bytes@ == other.bytes@
    }
}

impl Default for RepoOid {
    fn default() -> (r: Self)
        ensures
            forall|i: int| 0 <= i < 20 ==> r.bytes@[i] == 0u8,
    {
        Self::new()
    }
}

/// State of the structure of a repository.
#[derive(PartialEq, Eq, Structural)]
pub enum StructureStatus {
    Good,
    BadHead,
    HeadNotBranch,
    NoSubTree,
}

/// Kind of operation to apply to an object.
pub enum ObjectOperation {
    /// add an object with this content
    Add(String),
    /// modify an object to have this content
    Modify(String),
    /// delete the object
    Delete,
    /// the object is in conflict
    Conflict { base: Option<RepoOid>, ours: Option<RepoOid>, theirs: Option<RepoOid> },
    /// fix an object to have this content
    Fix(String),
    /// unknown operation
    Unknown,
}

/// A change to an object.
pub struct Change {
    /// operation to be applied to an item
    pub op: ObjectOperation,
    /// the path within the repository of the item
    pub path: String,
    /// description for commit message
    pub descr: String,
}

impl Change {
    /// A change of `op` at `path`, described by `descr`.
    pub fn new(op: ObjectOperation, path: String, descr: String) -> (r: Self)
        ensures
            r.op == op,
            r.path == path,
            r.descr == descr,
    {
        Self { op, path, descr }
    }

    /// The change together with the identifier of its blob.
    pub fn with_oid(self, oid: RepoOid) -> (r: ChangeWithOid)
        ensures
            r.change == self,
            r.oid == oid,
    {
        ChangeWithOid { change: self, oid }
    }
}

/// A change together with the repository identifier of its content (if any).
pub struct ChangeWithOid {
    /// a change
    pub change: Change,
    /// the repository identifier of the content
    pub oid: RepoOid,
}

/// Data about an item as retrieved from git.
pub struct EntryDescr {
    /// the path within the repository to the entry
    pub path: String,
    /// identifier of the entry's object
    pub oid: RepoOid,
    /// kind of the entry's object
    pub kind: String,
    /// content of the entry
    pub blob: String,
}

/// Times an operation: the description and the time at which it started.
pub struct Timer {
    pub start: SystemTime,
    pub descr: String,
}

impl Timer {
    /// A timer for the operation `descr` at `loc`, started at the current time.
    pub fn new(descr: &str, loc: &str) -> (r: Self)
        ensures
            r.descr@ == descr@,
    {
        Self { start: crate::clock::system_now(), descr: descr.to_owned() }
    }
}

/// Outputs start and end messages for an operation.
pub struct Tracer {
    pub descr: String,
}

impl Tracer {
    /// A tracer for the operation `descr` at `loc`.
    pub fn new(descr: &str, loc: &str) -> (r: Self)
        ensures
            r.descr@ == descr@,
    {
        Self { descr: descr.to_owned() }
    }
}

} // verus!
