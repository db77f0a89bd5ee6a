//! The decisions of the git repository layer: how to open a repository,
//! how to repair its structure, what a merge came to, and which edits a
//! list of changes makes to a tree or an index. The git operations
//! themselves are carried out by the caller.
use vstd::prelude::*;
use crate::repo_shared::{
    Change, ChangeWithOid, ObjectOperation, RepoError, RepoOid, RepoOptions, StructureStatus, opt_view,
};
use crate::text::{join_seqs, join_strings, strings_view};

verus! {

/// Whether any further action is required on a newly-opened repo.
pub enum RepoActionRequired {
    NoAction,
    LoadAll,
    ProcessChanges,
}

/// How a repository is to be made available.
pub enum OpenMethod {
    /// open the existing repository
    Open,
    /// initialise a new (bare) repository
    Init,
    /// clone the repository from its URL
    CloneFromUrl,
}

/// How to make the repository available, and what the caller must do
/// afterwards: open it if it can be opened; otherwise initialise it when
/// there is no URL, or clone it when there is one.
pub fn open_plan(can_open: bool, has_url: bool) -> (r: (OpenMethod, RepoActionRequired))
    ensures
        can_open ==> r.0 is Open && r.1 is ProcessChanges,
        !can_open && !has_url ==> r.0 is Init && r.1 is NoAction,
        !can_open && has_url ==> r.0 is CloneFromUrl && r.1 is LoadAll,
{
    if can_open {
        (OpenMethod::Open, RepoActionRequired::ProcessChanges)
    } else if !has_url {
        (OpenMethod::Init, RepoActionRequired::NoAction)
    } else {
        (OpenMethod::CloneFromUrl, RepoActionRequired::LoadAll)
    }
}

/// Whether a repository directory can be opened: it exists, is a
/// directory, has at least one entry and no entry could not be read
/// (`entries_ok[i]` says whether the i-th entry was read).
pub fn can_open_repo(path_exists: bool, is_dir: bool, entries_ok: &Vec<bool>) -> (r: bool)
    ensures
        r == (path_exists && is_dir && entries_ok.len() > 0 && forall|i: int| 0 <= i < entries_ok.len() ==> entries_ok@[i]),
{
    if !path_exists || !is_dir {
        return false;
    }
    let mut i: usize = 0;
    while i < entries_ok.len()
        invariant
            i <= entries_ok.len(),
            forall|j: int| 0 <= j < i ==> entries_ok@[j],
        decreases entries_ok.len() - i,
    {
        if !entries_ok[i] {
            return false;
        }
        i = i + 1;
    }
    entries_ok.len() > 0
}

/// The repairs that a repository with structure `status` needs:
/// `(create_initial_commit, create_structure)`. A repository without a
/// valid head first gets an initial commit; any repository whose
/// structure is not good gets the item directory created.
pub fn structure_repairs(status: &StructureStatus) -> (r: (bool, bool))
    ensures
        r.0 == (*status == StructureStatus::BadHead),
        r.1 == (*status != StructureStatus::Good),
{
    match status {
        StructureStatus::Good => (false, false),
        StructureStatus::BadHead => (true, true),
        StructureStatus::HeadNotBranch => (false, true),
        StructureStatus::NoSubTree => (false, true),
    }
}

/// The settings of a repository under management (everything but the git
/// repository itself).
pub struct RepoSettings {
    /// path for repository location
    path: String,
    /// does the repo have unpushed changes
    needs_push: bool,
    /// URL of remote repository (if required)
    url: Option<String>,
    /// remote of the remote repo
    required_remote: String,
    /// the branch to use
    required_branch: String,
    /// the directory within the repo containing items
    item_dir: String,
    /// whether to write to the remote server
    write_to_server: bool,
    /// ssh path
    ssh_path: String,
    /// whether to slurp ssh files
    slurp_ssh: bool,
}

/// The value of an optional string, or `default` when there is none.
pub open spec fn or_default(o: Option<String>, default: Seq<char>) -> Seq<char> {
    match o {
        Some(s) => s@,
        None => default,
    }
}

impl RepoSettings {
    /// The path of the repository.
    pub closed spec fn spec_path(&self) -> Seq<char> {
        self.path@
    }

    /// The URL of the remote, if any.
    pub closed spec fn spec_url(&self) -> Option<Seq<char>> {
        opt_view(self.url)
    }

    /// Whether the repository has unpushed commits.
    pub closed spec fn spec_needs_push(&self) -> bool {
        self.needs_push
    }

    /// Whether the repository writes to the server.
    pub closed spec fn spec_write_to_server(&self) -> bool {
        self.write_to_server
    }

    /// The remote used.
    pub closed spec fn spec_remote(&self) -> Seq<char> {
        self.required_remote@
    }

    /// The branch used.
    pub closed spec fn spec_branch(&self) -> Seq<char> {
        self.required_branch@
    }

    /// The directory holding the items.
    pub closed spec fn spec_item_dir(&self) -> Seq<char> {
        self.item_dir@
    }

    /// The path of the ssh keys.
    pub closed spec fn spec_ssh_path(&self) -> Seq<char> {
        self.ssh_path@
    }

    /// Whether the ssh keys are read by the library.
    pub closed spec fn spec_slurp_ssh(&self) -> bool {
        self.slurp_ssh
    }

    /// The settings for a newly opened repository: nothing to push; the
    /// remote is `origin` and the branch `main` unless the options say otherwise.
    pub fn from_options(opts: &RepoOptions) -> (r: Self)
        ensures
            r.spec_path() == opts.path@,
            !r.spec_needs_push(),
            r.spec_url() == opt_view(opts.url),
            r.spec_remote() == or_default(opts.required_remote, "origin"@),
            r.spec_branch() == or_default(opts.required_branch, "main"@),
            r.spec_item_dir() == opts.item_dir@,
            r.spec_write_to_server() == opts.write_to_server,
            r.spec_ssh_path() == opts.ssh_path@,
            r.spec_slurp_ssh() == opts.slurp_ssh,
    {
        let url = match &opts.url {
            Some(u) => Some(u.clone()),
            None => None,
        };
        let required_remote = match &opts.required_remote {
            Some(r) => r.clone(),
            None => "origin".to_owned(),
        };
        let required_branch = match &opts.required_branch {
            Some(b) => b.clone(),
            None => "main".to_owned(),
        };
        RepoSettings {
            path: opts.path.clone(),
            needs_push: false,
            url,
            required_remote,
            required_branch,
            item_dir: opts.item_dir.clone(),
            write_to_server: opts.write_to_server,
            ssh_path: opts.ssh_path.clone(),
            slurp_ssh: opts.slurp_ssh,
        }
    }

    /// Whether the repository has a remote.
    pub fn has_remote(&self) -> (r: bool)
        ensures
            r == self.spec_url().is_some(),
    {
        self.url.is_some()
    }

    /// Record that the repository needs to be pushed; this happens only if
    /// there is a remote to push to and writing to the server is allowed.
    pub fn set_needs_push(&mut self)
        ensures
            final(self).spec_needs_push() == (old(self).spec_needs_push() || (old(self).spec_url().is_some()
                && old(self).spec_write_to_server())),
            final(self).same_settings(*old(self)),
    {
        if self.url.is_some() && self.write_to_server {
            self.needs_push = true;
        }
    }

    /// Everything but whether a push is needed is the same in both.
    pub open spec fn same_settings(self, other: Self) -> bool {
        &&& self.spec_path() == other.spec_path()
        &&& self.spec_url() == other.spec_url()
        &&& self.spec_remote() == other.spec_remote()
        &&& self.spec_branch() == other.spec_branch()
        &&& self.spec_item_dir() == other.spec_item_dir()
        &&& self.spec_write_to_server() == other.spec_write_to_server()
        &&& self.spec_ssh_path() == other.spec_ssh_path()
        &&& self.spec_slurp_ssh() == other.spec_slurp_ssh()
    }

    /// Whether the repository needs to be pushed.
    pub fn does_need_pushing(&self) -> (r: bool)
        ensures
            r == self.spec_needs_push(),
    {
        self.needs_push
    }

    /// Record that the repository has been pushed.
    pub fn pushed(&mut self)
        ensures
            !final(self).spec_needs_push(),
            final(self).same_settings(*old(self)),
    {
        self.needs_push = false;
    }

    /// The URL of the remote, if any.
    pub fn url(&self) -> (r: Option<String>)
        ensures
            opt_view(r) == self.spec_url(),
    {
        match &self.url {
            Some(u) => Some(u.clone()),
            None => None,
        }
    }

    /// The path of the repository.
    pub fn path(&self) -> (r: String)
        ensures
            r@ == self.spec_path(),
    {
        self.path.clone()
    }

    /// The name of the remote.
    pub fn remote(&self) -> (r: String)
        ensures
            r@ == self.spec_remote(),
    {
        self.required_remote.clone()
    }

    /// The name of the branch.
    pub fn branch(&self) -> (r: String)
        ensures
            r@ == self.spec_branch(),
    {
        self.required_branch.clone()
    }

    /// The directory holding the items.
    pub fn item_dir(&self) -> (r: String)
        ensures
            r@ == self.spec_item_dir(),
    {
        self.item_dir.clone()
    }

    /// The path of the ssh keys.
    pub fn ssh_path(&self) -> (r: String)
        ensures
            r@ == self.spec_ssh_path(),
    {
        self.ssh_path.clone()
    }

    /// Whether the library reads the ssh keys itself.
    pub fn slurp_ssh(&self) -> (r: bool)
        ensures
            r == self.spec_slurp_ssh(),
    {
        self.slurp_ssh
    }

    /// The git name of the branch: `refs/heads/<branch>`.
    pub fn refname(&self) -> (r: String)
        ensures
            r@ == "refs/heads/"@ + self.spec_branch(),
    {
        let mut r = "refs/heads/".to_owned();
        r.append(self.required_branch.as_str());
        r
    }

    /// The refspec for a push of the branch: `refs/heads/<b>:refs/heads/<b>`,
    /// preceded by `+` when the push is forced.
    pub fn push_refspec(&self, force: bool) -> (r: String)
        ensures
            r@ == (if force { "+"@ } else { Seq::<char>::empty() }) + "refs/heads/"@ + self.spec_branch() + ":"@
                + "refs/heads/"@ + self.spec_branch(),
    {
        let mut r = if force { "+".to_owned() } else { String::new() };
        r.append("refs/heads/");
        r.append(self.required_branch.as_str());
        r.append(":");
        r.append("refs/heads/");
        r.append(self.required_branch.as_str());
        r
    }

    /// A description identifying the repository, for diagnostic traces.
    pub fn trace_descr(&self) -> (r: String)
        ensures
            r@ == "repo with path: "@ + debug_form(self.spec_path()) + ", url: "@ + match self.spec_url() {
                None => "(none)"@,
                Some(u) => u,
            },
    {
        let mut r = "repo with path: ".to_owned();
        let quoted = debug_string(self.path.as_str());
        r.append(quoted.as_str());
        r.append(", url: ");
        match &self.url {
            None => r.append("(none)"),
            Some(u) => r.append(u.as_str()),
        }
        r
    }
}

/// The debug form of a string (what `{:?}` writes for it: the string in
/// double quotes, with special characters escaped).
pub uninterp spec fn debug_form(s: Seq<char>) -> Seq<char>;

/// Calls `format!("{:?}", ..)` on a string: its debug form, which the
/// standard library defines by the string's characters alone.
#[verifier::external_body]
fn debug_string(s: &str) -> (r: String)
    ensures
        r@ == debug_form(s@),
{
    format!("{:?}", s)
}

/// The outcome of merging the fetched commit into ours.
pub enum MergeOutcomeKind {
    /// both commits are the same
    AlreadyUpToDate,
    /// the commits were merged without conflicts
    Merged,
    /// the merge has conflicts
    Conflict,
}

impl MergeOutcomeKind {
    /// What a merge comes to: up to date when both commits are the same,
    /// otherwise a conflict when the merged index has conflicts, and merged
    /// when it has none.
    pub fn decide(same_commit: bool, index_has_conflicts: bool) -> (r: Self)
        ensures
            same_commit ==> r is AlreadyUpToDate,
            !same_commit && index_has_conflicts ==> r is Conflict,
            !same_commit && !index_has_conflicts ==> r is Merged,
    {
        if same_commit {
            MergeOutcomeKind::AlreadyUpToDate
        } else if index_has_conflicts {
            MergeOutcomeKind::Conflict
        } else {
            MergeOutcomeKind::Merged
        }
    }

    /// Whether there are any conflicts arising out of the merge.
    pub fn has_conflict(&self) -> (r: bool)
        ensures
            r == (*self is Conflict),
    {
        match self {
            MergeOutcomeKind::Conflict => true,
            _ => false,
        }
    }

    /// The message of the commit that records the merge, or `None` when
    /// nothing needs to be committed.
    pub fn commit_message(&self) -> (r: Option<&'static str>)
        ensures
            *self is AlreadyUpToDate ==> r.is_none(),
            *self is Merged ==> (r matches Some(m) && m@ == "merge after fetch (merged)"@),
            *self is Conflict ==> (r matches Some(m) && m@ == "merge after fetch (conflict)"@),
    {
        match self {
            MergeOutcomeKind::AlreadyUpToDate => None,
            MergeOutcomeKind::Merged => Some("merge after fetch (merged)"),
            MergeOutcomeKind::Conflict => Some("merge after fetch (conflict)"),
        }
    }
}

/// The content to store as a blob for an operation: the data of an add, a
/// modification or a fix; no content for the other operations.
pub fn blob_content(op: &ObjectOperation) -> (r: Option<String>)
    ensures
        match *op {
            ObjectOperation::Add(d) | ObjectOperation::Modify(d) | ObjectOperation::Fix(d) => r matches Some(
                s,
            ) && s@ == d@,
            _ => r.is_none(),
        },
{
    match op {
        ObjectOperation::Add(d) | ObjectOperation::Modify(d) | ObjectOperation::Fix(d) => Some(d.clone()),
        _ => None,
    }
}

/// An edit to a tree of items.
pub enum TreeEdit {
    /// insert (or replace) the regular file at `path` with the blob `oid`
    Insert { path: String, oid: RepoOid },
    /// remove the entry at `path`
    Remove { path: String },
}

/// Whether a change can be applied to a tree.
pub open spec fn tree_supported(op: ObjectOperation) -> bool {
    match op {
        ObjectOperation::Add(_) | ObjectOperation::Modify(_) | ObjectOperation::Fix(_) | ObjectOperation::Delete => true,
        _ => false,
    }
}

/// `e` is the tree edit that the change `c` makes.
pub open spec fn is_tree_edit_of(e: TreeEdit, c: ChangeWithOid) -> bool {
    match c.change.op {
        ObjectOperation::Delete => e matches TreeEdit::Remove { path } && path@ == c.change.path@,
        _ => e matches TreeEdit::Insert { path, oid } && path@ == c.change.path@ && oid == c.oid,
    }
}

/// The edits that a list of changes makes to the tree of items, in order:
/// an add, a modification or a fix inserts the change's blob at its path;
/// a deletion removes its path. A change of any other kind is refused.
pub fn tree_edits(changes: &Vec<ChangeWithOid>) -> (r: Result<Vec<TreeEdit>, RepoError>)
    ensures
        r is Ok <==> forall|i: int| 0 <= i < changes.len() ==> tree_supported(#[trigger] changes@[i].change.op),
        r matches Ok(edits) ==> edits.len() == changes.len() && forall|i: int|
            0 <= i < changes.len() ==> is_tree_edit_of(#[trigger] edits@[i], changes@[i]),
        r matches Err(e) ==> e is Repo,
{
    let mut edits: Vec<TreeEdit> = Vec::new();
    let mut i: usize = 0;
    while i < changes.len()
        invariant
            i <= changes.len(),
            edits.len() == i,
            forall|j: int| 0 <= j < i ==> tree_supported(#[trigger] changes@[j].change.op),
            forall|j: int| 0 <= j < i ==> is_tree_edit_of(#[trigger] edits@[j], changes@[j]),
        decreases changes.len() - i,
    {
        let c = &changes[i];
        match &c.change.op {
            ObjectOperation::Add(_) | ObjectOperation::Modify(_) | ObjectOperation::Fix(_) => {
                edits.push(TreeEdit::Insert { path: c.change.path.clone(), oid: c.oid.copy() });
            },
            ObjectOperation::Delete => {
                edits.push(TreeEdit::Remove { path: c.change.path.clone() });
            },
            _ => {
                return Err(RepoError::new("change type not implemented"));
            },
        }
        i = i + 1;
    }
    Ok(edits)
}

/// The commit message for a list of changes: their descriptions joined by spaces.
pub fn commit_message(changes: &Vec<ChangeWithOid>) -> (r: String)
    ensures
        r@ == join_seqs(changes@.map_values(|c: ChangeWithOid| c.change.descr@), " "@),
{
    let mut descrs: Vec<String> = Vec::new();
    let mut i: usize = 0;
    while i < changes.len()
        invariant
            i <= changes.len(),
            strings_view(descrs@) == changes@.subrange(0, i as int).map_values(|c: ChangeWithOid| c.change.descr@),
        decreases changes.len() - i,
    {
        let ghost before = descrs@;
        let d = changes[i].change.descr.clone();
        descrs.push(d);
        proof {
            assert(strings_view(descrs@) =~= strings_view(before).push(changes@[i as int].change.descr@));
            assert(strings_view(descrs@) =~= changes@.subrange(0, i + 1).map_values(|c: ChangeWithOid| c.change.descr@));
        }
        i = i + 1;
    }
    proof {
        assert(changes@.subrange(0, changes.len() as int) =~= changes@);
    }
    join_strings(&descrs, " ")
}

/// An edit to a merge index (to resolve conflicts).
pub enum IndexEdit {
    /// add a regular file at `path` holding `data`
    Add { path: String, data: String },
    /// remove the entry at `path`
    Remove { path: String },
}

/// Whether a change can be applied to an index.
pub open spec fn index_supported(op: ObjectOperation) -> bool {
    match op {
        ObjectOperation::Add(_) | ObjectOperation::Modify(_) | ObjectOperation::Delete => true,
        _ => false,
    }
}

/// `e` is the index edit that the change `c` makes.
pub open spec fn is_index_edit_of(e: IndexEdit, c: Change) -> bool {
    match c.op {
        ObjectOperation::Add(d) | ObjectOperation::Modify(d) => e matches IndexEdit::Add { path, data }
            && path@ == c.path@ && data@ == d@,
        _ => e matches IndexEdit::Remove { path } && path@ == c.path@,
    }
}

/// The edits that a list of changes makes to a merge index, in order: an
/// add or a modification adds its data at its path; a deletion removes its
/// path. A change of any other kind is refused as an invalid operation.
pub fn index_edits(changes: &Vec<Change>) -> (r: Result<Vec<IndexEdit>, RepoError>)
    ensures
        r is Ok <==> forall|i: int| 0 <= i < changes.len() ==> index_supported(#[trigger] changes@[i].op),
        r matches Ok(edits) ==> edits.len() == changes.len() && forall|i: int|
            0 <= i < changes.len() ==> is_index_edit_of(#[trigger] edits@[i], changes@[i]),
        r matches Err(e) ==> e is Repo,
{
    let mut edits: Vec<IndexEdit> = Vec::new();
    let mut i: usize = 0;
    while i < changes.len()
        invariant
            i <= changes.len(),
            edits.len() == i,
            forall|j: int| 0 <= j < i ==> index_supported(#[trigger] changes@[j].op),
            forall|j: int| 0 <= j < i ==> is_index_edit_of(#[trigger] edits@[j], changes@[j]),
        decreases changes.len() - i,
    {
        let c = &changes[i];
        match &c.op {
            ObjectOperation::Add(d) | ObjectOperation::Modify(d) => {
                edits.push(IndexEdit::Add { path: c.path.clone(), data: d.clone() });
            },
            ObjectOperation::Delete => {
                edits.push(IndexEdit::Remove { path: c.path.clone() });
            },
            _ => {
                return Err(RepoError::new("invalid operation"));
            },
        }
        i = i + 1;
    }
    Ok(edits)
}

/// A version of an item, for merging.
pub struct ItemEntry {
    pub path: String,
    pub data: Vec<u8>,
}

/// A conflict that needs to be resolved (from a merge).
pub struct Conflict {
    pub ancestor: Option<ItemEntry>,
    pub our: Option<ItemEntry>,
    pub their: Option<ItemEntry>,
}


/// How to answer a request for credentials when talking to a remote.
pub enum CredentialStep {
    /// use the SSH key files at these paths
    KeyFiles { public_key: String, private_key: String },
    /// read the SSH key files at these paths and use their contents
    KeysInMemory { public_key: String, private_key: String },
    /// let the git credential helper try its next credential
    Helper,
    /// too many credentials were tried: give up
    TooManyTries,
}

/// The most credential requests answered by the git credential helper.
pub const MAX_CREDENTIAL_TRIES: i8 = 5;

/// How to answer a request for credentials: SSH key files when such keys
/// are allowed and the keys are not to be read by the engine itself; the
/// keys' contents when keys in memory are allowed and they are to be read;
/// otherwise the credential helper, counting one more try in `tries`, until
/// more than five tries were made. The private key is at `ssh_path`, the
/// public key beside it with `.pub` added.
pub fn credential_step(ssh_key_allowed: bool, ssh_memory_allowed: bool, slurp_ssh: bool, ssh_path: &str, tries: &mut i8) -> (r: CredentialStep)
    requires
        *old(tries) <= MAX_CREDENTIAL_TRIES,
    ensures
        ssh_key_allowed && !slurp_ssh ==> *final(tries) == *old(tries) && (r matches CredentialStep::KeyFiles {
            public_key: p,
            private_key: k,
        } && p@ == ssh_path@ + ".pub"@ && k@ == ssh_path@),
        !(ssh_key_allowed && !slurp_ssh) && ssh_memory_allowed && slurp_ssh ==> *final(tries) == *old(tries) && (
        r matches CredentialStep::KeysInMemory { public_key: p, private_key: k } && p@ == ssh_path@ + ".pub"@ && k@
            == ssh_path@),
        !(ssh_key_allowed && !slurp_ssh) && !(ssh_memory_allowed && slurp_ssh) ==> {
            &&& *final(tries) == *old(tries) + 1
            &&& (*final(tries) > MAX_CREDENTIAL_TRIES ==> r is TooManyTries)
            &&& (*final(tries) <= MAX_CREDENTIAL_TRIES ==> r is Helper)
        },
{
    if ssh_key_allowed && !slurp_ssh {
        let mut public_key = ssh_path.to_owned();
        public_key.append(".pub");
        return CredentialStep::KeyFiles { public_key, private_key: ssh_path.to_owned() };
    }
    if ssh_memory_allowed && slurp_ssh {
        let mut public_key = ssh_path.to_owned();
        public_key.append(".pub");
        return CredentialStep::KeysInMemory { public_key, private_key: ssh_path.to_owned() };
    }
    *tries = *tries + 1;
    if *tries > MAX_CREDENTIAL_TRIES {
        CredentialStep::TooManyTries
    } else {
        CredentialStep::Helper
    }
}

} // verus!
