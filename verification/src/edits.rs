//! Changes to the items: an item as it is stored (its base and its data),
//! resolving the conflicts of a merge, creating and updating items from
//! requests, reading the store's items back in, and the cross-check of
//! store and search database as a request answers it.
use vstd::prelude::*;
use crate::interface::{Response, ResponseResult, ResponseView, StringMap};
use crate::item::{
    lemma_specials_from_flags, opt_seq, parent_from_serde, valid_ident, Ident, ItemBase, ItemBaseForSerde, ItemKind,
};
use crate::repo_plan::MergeOutcomeKind;
use crate::shared::{changeset_diffs, diff_texts, merge_strings, FLResult, FanlingError};
use crate::repo_shared::{Change, ObjectOperation};
use crate::store::{identifier_for, path_of, Store};
use crate::task::{
    merged_task, set_data_spec, task_value_errors, task_view_from, Task, TaskForSerde, TaskStatus, TaskTypePolicy,
    TaskView,
};
use crate::convert::{parsed_i8, parsed_utc_millis};
use crate::task::{date_format, without};
use crate::engine::Action;
use crate::text::{concat_seqs, join_seqs, str_eq, strings_view};
use crate::world::{item_kind_of, spec_item_kind, ActionResponse};

verus! {

/// The data of a simple item (a page).
pub struct SimpleData {
    /// the name of the page
    pub name: String,
    /// the text of the page in Markdown format
    pub text: String,
}

/// The data of an item, by its kind.
pub enum ItemValues {
    /// a simple item's name and text
    Simple(SimpleData),
    /// a task's data
    Task(TaskForSerde),
}

/// An item as it is stored: its base fields and its data.
pub struct ItemDoc {
    /// the base fields (the same for all kinds of item)
    pub base: ItemBaseForSerde,
    /// the data of its kind
    pub values: ItemValues,
}

/// The versions of an item in a merge conflict, as read from the
/// repository: the common ancestor's, ours and theirs, each when present,
/// and the path of our version.
pub struct ConflictParts {
    /// the path of the item within the repository
    pub path: String,
    /// the common ancestor's version
    pub ancestor: Option<ItemDoc>,
    /// our version
    pub our: Option<ItemDoc>,
    /// their version
    pub their: Option<ItemDoc>,
}

/// An item that resolves a conflict: it is written at `path` in place of
/// the conflicting versions.
pub struct Resolution {
    /// the path of the item within the repository
    pub path: String,
    /// the merged item
    pub doc: ItemDoc,
}

/// Two texts merged word by word: the texts of all the parts of their
/// difference (common, added and removed), in order.
pub open spec fn merged_text(ours: Seq<char>, theirs: Seq<char>) -> Seq<char> {
    concat_seqs(diff_texts(changeset_diffs(ours, theirs, " "@)))
}

/// The type name of a version, if it is present.
pub open spec fn doc_type(d: Option<ItemDoc>) -> Option<Seq<char>> {
    match d {
        Some(x) => Some(x.base.type_ident@),
        None => None,
    }
}

/// Two optional type names agree when both are present and the same, or
/// either is absent.
pub open spec fn types_agree(a: Option<Seq<char>>, b: Option<Seq<char>>) -> bool {
    match (a, b) {
        (Some(x), Some(y)) => x == y,
        _ => true,
    }
}

/// The data of a version is that of the kind its type names.
pub open spec fn values_fit(d: Option<ItemDoc>) -> bool {
    match d {
        Some(x) => match spec_item_kind(x.base.type_ident@) {
            Some(ItemKind::Simple) => x.values is Simple,
            Some(ItemKind::Task) => x.values is Task,
            None => false,
        },
        None => true,
    }
}

/// The versions of a conflict can be resolved: the versions present name
/// the same type, a kind of item, and each holds the data of that kind.
pub open spec fn parts_consistent(c: ConflictParts) -> bool {
    &&& types_agree(doc_type(c.ancestor), doc_type(c.our))
    &&& types_agree(doc_type(c.ancestor), doc_type(c.their))
    &&& types_agree(doc_type(c.our), doc_type(c.their))
    &&& values_fit(c.ancestor)
    &&& values_fit(c.our)
    &&& values_fit(c.their)
}

/// A conflict is resolved by merging when all three versions are present.
pub open spec fn needs_merge(c: ConflictParts) -> bool {
    c.ancestor is Some && c.our is Some && c.their is Some
}

/// The serialised task `t` holds the task `v`.
pub open spec fn task_serde_of(t: TaskForSerde, v: TaskView) -> bool {
    &&& t.name@ == v.name
    &&& t.text@ == v.text
    &&& Some(t.context@) == v.context
    &&& t.status == v.status
    &&& t.priority == v.priority
    &&& t.when_closed == v.when_closed
    &&& t.project@ == v.project
    &&& t.deadline == v.deadline
    &&& t.show_after_date == v.show_after_date
    &&& strings_view(t.blockedby@) == v.blockedby
    &&& !t.closed
}

/// `merged` is the merge of their version into ours: our base fields, and
/// the data of the kind merged (a task's as [`merged_task`] says; a simple
/// item's name and text each merged word by word).
pub open spec fn merged_doc(merged: ItemDoc, ours: ItemDoc, theirs: ItemDoc) -> bool {
    &&& merged.base == ours.base
    &&& match (ours.values, theirs.values) {
        (ItemValues::Task(o), ItemValues::Task(t)) => merged.values matches ItemValues::Task(m) && task_serde_of(
            m,
            merged_task(task_view_from(o), task_view_from(t)),
        ),
        (ItemValues::Simple(o), ItemValues::Simple(t)) => merged.values matches ItemValues::Simple(m) && m.name@
            == merged_text(o.name@, t.name@) && m.text@ == merged_text(o.text@, t.text@),
        _ => false,
    }
}

impl ItemBaseForSerde {
    /// A copy of the base.
    pub fn copy(&self) -> (r: Self)
        ensures
            r == *self,
    {
        ItemBaseForSerde {
            ident: self.ident.clone(),
            type_ident: self.type_ident.clone(),
            parent: match &self.parent {
                Some(p) => Some(p.clone()),
                None => None,
            },
            can_be_parent: self.can_be_parent,
            can_be_context: self.can_be_context,
            sort: self.sort.clone(),
            classify: self.classify.clone(),
            targeted: self.targeted,
            when_created: self.when_created,
            when_modified: self.when_modified,
            closed: self.closed,
        }
    }
}

/// Whether a version's data is that of the kind its type names.
fn check_values_fit(d: &Option<ItemDoc>) -> (r: bool)
    ensures
        r == values_fit(*d),
{
    match d {
        Some(x) => match item_kind_of(x.base.type_ident.as_str()) {
            Some(ItemKind::Simple) => matches!(x.values, ItemValues::Simple(_)),
            Some(ItemKind::Task) => matches!(x.values, ItemValues::Task(_)),
            None => false,
        },
        None => true,
    }
}

/// Whether two optional versions name the same type (when both are present).
fn check_types_agree(a: &Option<ItemDoc>, b: &Option<ItemDoc>) -> (r: bool)
    ensures
        r == types_agree(doc_type(*a), doc_type(*b)),
{
    match (a, b) {
        (Some(x), Some(y)) => str_eq(x.base.type_ident.as_str(), y.base.type_ident.as_str()),
        _ => true,
    }
}

/// Merge their version of an item into ours (both of the same kind).
fn merge_versions(ours: &ItemDoc, theirs: &ItemDoc) -> (r: ItemDoc)
    requires
        (ours.values is Task && theirs.values is Task) || (ours.values is Simple && theirs.values is Simple),
    ensures
        merged_doc(r, *ours, *theirs),
{
    let base = ours.base.copy();
    match (&ours.values, &theirs.values) {
        (ItemValues::Task(o), ItemValues::Task(t)) => {
            let policy = TaskTypePolicy::new();
            let task = policy.resolve_conflict_both(o, t);
            match TaskForSerde::try_from_task(&task) {
                Ok(m) => ItemDoc { base, values: ItemValues::Task(m) },
                Err(_) => {
                    proof {
                        assert(task@.context is Some);
                    }
                    ItemDoc { base, values: ItemValues::Simple(SimpleData { name: String::new(), text: String::new() }) }
                },
            }
        },
        (ItemValues::Simple(o), ItemValues::Simple(t)) => {
            let name = merge_strings(o.name.as_str(), t.name.as_str());
            let text = merge_strings(o.text.as_str(), t.text.as_str());
            ItemDoc { base, values: ItemValues::Simple(SimpleData { name, text }) }
        },
        _ => {
            proof {
                assert(false);
            }
            ItemDoc { base, values: ItemValues::Simple(SimpleData { name: String::new(), text: String::new() }) }
        },
    }
}

/// Resolve the conflicts of a merge. A merge that is up to date or that
/// merged without conflicts needs nothing. For a merge with conflicts,
/// each conflict whose three versions are all present is resolved by
/// merging their version into ours, as the item's type does (see
/// [`merged_doc`]), and written at the conflict's path; the others need
/// nothing. The result lists, for each conflict in order, its resolution
/// if it has one. It is an error when the versions of a conflict name
/// different types, a type that is no kind of item, or hold data of
/// another kind than their type's; then the first such conflict is named.
pub fn resolve_conflicts(kind: MergeOutcomeKind, conflicts: &Vec<ConflictParts>) -> (r: FLResult<
    Vec<Option<Resolution>>,
>)
    ensures
        !(kind is Conflict) ==> (r matches Ok(v) && v@.len() == 0),
        kind is Conflict ==> (r is Ok <==> forall|i: int| 0 <= i < conflicts@.len() ==> parts_consistent(
            #[trigger] conflicts@[i],
        )),
        kind is Conflict ==> (r matches Err(e) ==> exists|i: int|
            0 <= i < conflicts@.len() && !parts_consistent(#[trigger] conflicts@[i]) && (forall|j: int|
                0 <= j < i ==> parts_consistent(#[trigger] conflicts@[j])) && (e matches FanlingError::FanlingError(m)
                && m@ == "inconsistent versions of "@ + conflicts@[i].path@)),
        kind is Conflict ==> (r matches Ok(v) ==> {
            &&& v@.len() == conflicts@.len()
            &&& forall|i: int|
                0 <= i < v@.len() ==> match #[trigger] v@[i] {
                    Some(res) => needs_merge(conflicts@[i]) && res.path@ == conflicts@[i].path@ && merged_doc(
                        res.doc,
                        conflicts@[i].our.unwrap(),
                        conflicts@[i].their.unwrap(),
                    ),
                    None => !needs_merge(conflicts@[i]),
                }
        }),
{
    let mut out: Vec<Option<Resolution>> = Vec::new();
    match kind {
        MergeOutcomeKind::Conflict => {},
        _ => {
            return Ok(out);
        },
    }
    let mut i: usize = 0;
    while i < conflicts.len()
        invariant
            kind is Conflict,
            i <= conflicts.len(),
            out@.len() == i,
            forall|j: int| 0 <= j < i ==> parts_consistent(#[trigger] conflicts@[j]),
            forall|j: int|
                0 <= j < i ==> match #[trigger] out@[j] {
                    Some(res) => needs_merge(conflicts@[j]) && res.path@ == conflicts@[j].path@ && merged_doc(
                        res.doc,
                        conflicts@[j].our.unwrap(),
                        conflicts@[j].their.unwrap(),
                    ),
                    None => !needs_merge(conflicts@[j]),
                },
        decreases conflicts.len() - i,
    {
        let c = &conflicts[i];
        let consistent = check_types_agree(&c.ancestor, &c.our) && check_types_agree(&c.ancestor, &c.their)
            && check_types_agree(&c.our, &c.their) && check_values_fit(&c.ancestor) && check_values_fit(&c.our)
            && check_values_fit(&c.their);
        if !consistent {
            let mut msg = "inconsistent versions of ".to_owned();
            msg.append(c.path.as_str());
            proof {
                assert(!parts_consistent(conflicts@[i as int]));
            }
            return Err(FanlingError::FanlingError(msg));
        }
        match (&c.ancestor, &c.our, &c.their) {
            (Some(_), Some(o), Some(t)) => {
                let doc = merge_versions(o, t);
                out.push(Some(Resolution { path: c.path.clone(), doc }));
            },
            _ => {
                out.push(None);
            },
        }
        i = i + 1;
    }
    Ok(out)
}

/// How many of the first `k` conflicts are resolved by merging.
pub open spec fn merge_count(conflicts: Seq<ConflictParts>, k: int) -> nat
    decreases k,
{
    if k <= 0 {
        0
    } else {
        merge_count(conflicts, k - 1) + if needs_merge(conflicts[k - 1]) { 1nat } else { 0nat }
    }
}

/// `c` writes at `path` a serialised item, made by `serialise`, that merges
/// their version into ours.
pub open spec fn resolves_with<F: Fn(&ItemDoc) -> FLResult<String>>(
    c: Change,
    path: Seq<char>,
    ours: ItemDoc,
    theirs: ItemDoc,
    serialise: F,
) -> bool {
    &&& c.path@ == path
    &&& c.descr@ == "resolve conflict"@
    &&& c.op matches ObjectOperation::Modify(blob) && exists|d: ItemDoc|
        #[trigger] merged_doc(d, ours, theirs) && serialise.ensures((&d,), Ok::<String, FanlingError>(blob))
}

/// The changes that resolve the conflicts of a merge (see
/// [`resolve_conflicts`]): for each conflict resolved by merging, in
/// order, the merged item serialised by `serialise`, written at the
/// conflict's path. A failure to resolve or to serialise fails the whole.
pub fn resolve_conflict_changes<F: Fn(&ItemDoc) -> FLResult<String>>(
    kind: MergeOutcomeKind,
    conflicts: &Vec<ConflictParts>,
    serialise: &F,
) -> (r: FLResult<Vec<Change>>)
    requires
        forall|d: &ItemDoc| serialise.requires((d,)),
    ensures
        !(kind is Conflict) ==> (r matches Ok(v) && v@.len() == 0),
        kind is Conflict && (exists|i: int| 0 <= i < conflicts@.len() && !parts_consistent(#[trigger] conflicts@[i]))
            ==> r is Err,
        kind is Conflict ==> (r matches Ok(v) ==> {
            &&& forall|i: int| 0 <= i < conflicts@.len() ==> parts_consistent(#[trigger] conflicts@[i])
            &&& v@.len() == merge_count(conflicts@, conflicts@.len() as int)
            &&& forall|i: int|
                0 <= i < conflicts@.len() && needs_merge(#[trigger] conflicts@[i]) ==> resolves_with(
                    v@[merge_count(conflicts@, i) as int],
                    conflicts@[i].path@,
                    conflicts@[i].our.unwrap(),
                    conflicts@[i].their.unwrap(),
                    *serialise,
                )
        }),
{
    let resolutions = resolve_conflicts(kind, conflicts)?;
    let mut changes: Vec<Change> = Vec::new();
    if resolutions.len() == 0 {
        proof {
            if kind is Conflict {
                assert(conflicts@.len() == 0);
                assert(merge_count(conflicts@, 0) == 0);
            }
        }
        return Ok(changes);
    }
    let mut i: usize = 0;
    while i < resolutions.len()
        invariant
            kind is Conflict,
            resolutions@.len() == conflicts@.len(),
            i <= resolutions.len(),
            forall|d: &ItemDoc| serialise.requires((d,)),
            forall|j: int|
                0 <= j < resolutions@.len() ==> match #[trigger] resolutions@[j] {
                    Some(res) => needs_merge(conflicts@[j]) && res.path@ == conflicts@[j].path@ && merged_doc(
                        res.doc,
                        conflicts@[j].our.unwrap(),
                        conflicts@[j].their.unwrap(),
                    ),
                    None => !needs_merge(conflicts@[j]),
                },
            changes@.len() == merge_count(conflicts@, i as int),
            forall|j: int|
                0 <= j < i && needs_merge(#[trigger] conflicts@[j]) ==> resolves_with(
                    changes@[merge_count(conflicts@, j) as int],
                    conflicts@[j].path@,
                    conflicts@[j].our.unwrap(),
                    conflicts@[j].their.unwrap(),
                    *serialise,
                ),
        decreases resolutions.len() - i,
    {
        proof {
            assert(merge_count(conflicts@, i + 1) == merge_count(conflicts@, i as int) + if needs_merge(conflicts@[i as int]) { 1nat } else { 0nat });
        }
        match &resolutions[i] {
            Some(res) => {
                let blob = serialise(&res.doc)?;
                let ghost before = changes@;
                let ghost b = blob;
                changes.push(Change::new(ObjectOperation::Modify(blob), res.path.clone(), "resolve conflict".to_owned()));
                proof {
                    reveal_strlit("resolve conflict");
                    assert(changes@[merge_count(conflicts@, i as int) as int].op == ObjectOperation::Modify(b));
                    assert(merged_doc(res.doc, conflicts@[i as int].our.unwrap(), conflicts@[i as int].their.unwrap()));
                    assert forall|j: int| 0 <= j < i && needs_merge(#[trigger] conflicts@[j]) implies merge_count(conflicts@, j) < merge_count(conflicts@, i as int) by {
                        lemma_merge_count_grows(conflicts@, j, i as int);
                    }
                    assert forall|j: int| 0 <= j < i + 1 && needs_merge(#[trigger] conflicts@[j]) implies resolves_with(
                        changes@[merge_count(conflicts@, j) as int],
                        conflicts@[j].path@,
                        conflicts@[j].our.unwrap(),
                        conflicts@[j].their.unwrap(),
                        *serialise,
                    ) by {
                        if j < i {
                            lemma_merge_count_grows(conflicts@, j, i as int);
                            assert(changes@[merge_count(conflicts@, j) as int] == before[merge_count(conflicts@, j) as int]);
                        }
                    }
                }
            },
            None => {
                proof {
                    assert forall|j: int| 0 <= j < i + 1 && needs_merge(#[trigger] conflicts@[j]) implies resolves_with(
                        changes@[merge_count(conflicts@, j) as int],
                        conflicts@[j].path@,
                        conflicts@[j].our.unwrap(),
                        conflicts@[j].their.unwrap(),
                        *serialise,
                    ) by {
                        assert(j != i);
                    }
                }
            },
        }
        i = i + 1;
    }
    Ok(changes)
}

/// A conflict resolved by merging comes before the later ones in the count.
proof fn lemma_merge_count_grows(conflicts: Seq<ConflictParts>, j: int, i: int)
    requires
        0 <= j < i <= conflicts.len(),
        needs_merge(conflicts[j]),
    ensures
        merge_count(conflicts, j) < merge_count(conflicts, i),
    decreases i - j,
{
    if i > j + 1 {
        lemma_merge_count_grows(conflicts, j, i - 1);
    }
}

/// The user errors in the values for an item of kind `kind`: a task's as
/// the task type finds them; a simple item's name must not be blank.
pub open spec fn value_errors(kind: ItemKind, vals: Map<Seq<char>, Seq<char>>) -> Seq<(Seq<char>, Seq<char>)> {
    match kind {
        ItemKind::Task => task_value_errors(vals),
        ItemKind::Simple => if value_or_empty(vals, "name"@).len() == 0 {
            seq![("name-error"@, "Name must be non-blank."@)]
        } else {
            Seq::empty()
        },
    }
}

/// The values pass their check and (for a task) the context they name was
/// found: the request goes on to make or change the item.
pub open spec fn values_accepted(
    check_kind: ItemKind,
    data_kind: ItemKind,
    vals: Map<Seq<char>, Seq<char>>,
    context_lookup: FLResult<()>,
) -> bool {
    &&& value_errors(check_kind, vals).len() == 0
    &&& !(data_kind is Task && vals.contains_key("context"@) && context_lookup is Err)
}

/// The values hold the fields that checking them reads: for a task, its
/// name, priority, deadline and show-after date.
pub open spec fn checked_keys_present(kind: ItemKind, vals: Map<Seq<char>, Seq<char>>) -> bool {
    kind is Task ==> {
        &&& vals.contains_key("name"@)
        &&& vals.contains_key("priority"@)
        &&& vals.contains_key("deadline"@)
        &&& vals.contains_key("show_after_date"@)
    }
}

/// The response to values with user errors `errs`: their messages joined
/// by spaces under the tag `message`, then each error under its area.
pub open spec fn rejection_view(errs: Seq<(Seq<char>, Seq<char>)>) -> ResponseView {
    ResponseView {
        tags: seq![("message"@, join_seqs(errs.map_values(|p: (Seq<char>, Seq<char>)| p.1), " "@))] + errs,
        shutdown_required: false,
        error: false,
        test_data: Map::empty(),
    }
}

/// A value of the map, or the empty text when it has none.
pub open spec fn value_or_empty(vals: Map<Seq<char>, Seq<char>>, key: Seq<char>) -> Seq<char> {
    if vals.contains_key(key) { vals[key] } else { Seq::empty() }
}

/// The task that a new task's values give (once they have passed the check).
pub open spec fn new_task_view() -> TaskView {
    TaskView {
        name: Seq::empty(),
        text: Seq::empty(),
        context: None,
        status: TaskStatus::Open,
        priority: 10,
        when_closed: 0,
        project: Seq::empty(),
        deadline: 0,
        show_after_date: 0,
        blockedby: Seq::empty(),
    }
}

/// `v` is the data of an item of kind `kind` set from the values `vals`
/// over the task `prev` (for a task): a task's data as [`set_data_spec`]
/// sets them; a simple item's name and text (empty when absent).
pub open spec fn values_set(v: ItemValues, kind: ItemKind, prev: TaskView, vals: Map<Seq<char>, Seq<char>>) -> bool {
    match kind {
        ItemKind::Task => v matches ItemValues::Task(t) && task_serde_of(t, set_data_spec(prev, vals).0),
        ItemKind::Simple => v matches ItemValues::Simple(s) && s.name@ == value_or_empty(vals, "name"@) && s.text@
            == value_or_empty(vals, "text"@),
    }
}

/// `b` is the base stored for an item with identifier `ident` and kind
/// `kind`, set from the request's base `req` at time `now`: the parent
/// (none when absent or empty), the flags, the sort key and the
/// classification are the request's; it is not targeted; it was modified
/// at `now` and created at `created`.
pub open spec fn base_set(
    b: ItemBaseForSerde,
    req: ItemBaseForSerde,
    ident: Seq<char>,
    kind: ItemKind,
    created: i64,
    now: i64,
) -> bool {
    &&& b.ident@ == ident
    &&& b.type_ident@ == kind.spec_name()
    &&& opt_seq(b.parent) == parent_from_serde(req.parent)
    &&& b.can_be_parent == req.can_be_parent
    &&& b.can_be_context == req.can_be_context
    &&& b.sort@ == req.sort@
    &&& b.classify@ == req.classify@
    &&& !b.targeted
    &&& b.when_created == created
    &&& b.when_modified == now
    &&& !b.closed
}

/// What a request to create an item comes to.
pub enum CreateOutcome {
    /// the values have user errors: answer with this response; no item is made
    Rejected(Response),
    /// the item to store (its base holds its new identifier)
    Created(ItemDoc),
}

/// Check the values for an item of kind `kind`: a task's as the task
/// type checks them; a simple item's name must not be blank.
pub fn check_values(kind: ItemKind, vals: &StringMap) -> (r: ActionResponse)
    requires
        checked_keys_present(kind, vals@),
    ensures
        (r is Success) == (value_errors(kind, vals@).len() == 0),
        r.spec_errors() == value_errors(kind, vals@),
        r.spec_messages() == value_errors(kind, vals@).map_values(|p: (Seq<char>, Seq<char>)| p.1),
        r.spec_test_data() == Map::<Seq<char>, Seq<char>>::empty(),
{
    match kind {
        ItemKind::Task => TaskTypePolicy::new().check_valid(vals),
        ItemKind::Simple => {
            proof {
                reveal_strlit("name");
                reveal_strlit("name-error");
                reveal_strlit("Name must be non-blank.");
            }
            let mut r = ActionResponse::new();
            let name = get_or_empty(vals, "name");
            r.assert_that(!name.as_str().is_empty(), "name-error", "Name must be non-blank.");
            proof {
                assert(r.spec_errors() =~= value_errors(kind, vals@));
                assert(r.spec_messages() =~= value_errors(kind, vals@).map_values(|p: (Seq<char>, Seq<char>)| p.1));
            }
            r
        },
    }
}

/// The response that rejects values with user errors.
fn rejection(ar: &ActionResponse) -> (r: Response)
    requires
        ar.spec_messages() == ar.spec_errors().map_values(|p: (Seq<char>, Seq<char>)| p.1),
        ar.spec_test_data() == Map::<Seq<char>, Seq<char>>::empty(),
    ensures
        r@ == rejection_view(ar.spec_errors()),
{
    match ar.to_response() {
        Ok(resp) => resp,
        Err(_) => Response::new(),
    }
}

/// A value of the map, or the empty text when it has none.
fn get_or_empty(vals: &StringMap, key: &str) -> (r: String)
    ensures
        r@ == value_or_empty(vals@, key@),
{
    match vals.get_opt(key) {
        Some(v) => v,
        None => String::new(),
    }
}

/// Set an item's data from the values, over the task `prev` for a task.
/// A task needs a context.
fn set_values(kind: ItemKind, prev: Task, vals: &StringMap) -> (r: FLResult<ItemValues>)
    ensures
        kind is Task && !set_data_spec(prev@, vals@).1 ==> r is Err,
        kind is Task && set_data_spec(prev@, vals@).1 && set_data_spec(prev@, vals@).0.context is None ==> (r matches Err(e) && e matches FanlingError::FanlingError(m) && m@ == "no context found from task"@),
        kind is Simple || (set_data_spec(prev@, vals@).1 && set_data_spec(prev@, vals@).0.context is Some) ==> (r matches Ok(v) && values_set(v, kind, prev@, vals@)),
{
    match kind {
        ItemKind::Task => {
            let mut task = prev;
            if let Err(e) = task.set_data(vals) {
                return Err(e);
            }
            match TaskForSerde::try_from_task(&task) {
                Ok(t) => Ok(ItemValues::Task(t)),
                Err(e) => Err(e),
            }
        },
        ItemKind::Simple => {
            let name = get_or_empty(vals, "name");
            let text = get_or_empty(vals, "text");
            proof {
                reveal_strlit("name");
                reveal_strlit("text");
            }
            Ok(ItemValues::Simple(SimpleData { name, text }))
        },
    }
}

/// The base to store for an item with identifier `ident` (unless the
/// request's base names one), set from the request's base.
fn stored_base(req: &ItemBaseForSerde, ident: String, kind: ItemKind, created: i64, now: i64) -> (r: ItemBaseForSerde)
    requires
        req.ident@.len() > 0 ==> valid_ident(req.ident@),
        req.ident@.len() == 0 ==> valid_ident(ident@),
    ensures
        base_set(r, *req, if req.ident@.len() > 0 { req.ident@ } else { ident@ }, kind, created, now),
{
    let mut ib = ItemBase::new(kind, created);
    ib.ident = ident;
    let _ = ib.set_from_serde(req);
    proof {
        lemma_specials_from_flags(req.can_be_parent, req.can_be_context);
    }
    ItemBaseForSerde::from_base(&ib, now)
}

/// Create an item of type `item_type` from a request's base and values,
/// at time `now`. The values are checked first: with user errors the
/// request is answered with the check's response and nothing else
/// happens. Then (for a task) the context given must have been found, as
/// `context_lookup` tells. The item's name must not be blank. The store
/// then makes the item's identifier (counting one more identifier made),
/// unless the request's base names one; the item's data are set from the
/// values (a task needs a context) and its base from the request's base.
/// The item is handed back to be stored; the store's known items and
/// pending changes are left as they were.
pub fn create_item(
    store: &mut Store,
    uniq_pfx: &str,
    item_type: &str,
    base: &ItemBaseForSerde,
    vals: &StringMap,
    context_lookup: FLResult<()>,
    now: i64,
) -> (r: FLResult<CreateOutcome>)
    requires
        old(store).wf(),
        old(store).ident_num() < u64::MAX,
        spec_item_kind(item_type@) is Some,
        checked_keys_present(spec_item_kind(item_type@).unwrap(), vals@),
        values_accepted(spec_item_kind(item_type@).unwrap(), spec_item_kind(item_type@).unwrap(), vals@, context_lookup)
            ==> {
            &&& base.ident@.len() > 0 ==> valid_ident(base.ident@)
            &&& base.ident@.len() == 0 && value_or_empty(vals@, "name"@).len() > 0 ==> valid_ident(
                identifier_for(uniq_pfx@, value_or_empty(vals@, "name"@), old(store).ident_num() + 1),
            )
        },
    ensures
        final(store).wf(),
        final(store).known_set() == old(store).known_set(),
        final(store).pending() == old(store).pending(),
        ({
            let kind = spec_item_kind(item_type@).unwrap();
            let errs = value_errors(kind, vals@);
            let name = value_or_empty(vals@, "name"@);
            let n = old(store).ident_num() + 1;
            let ident = if base.ident@.len() > 0 { base.ident@ } else { identifier_for(uniq_pfx@, name, n) };
            let no_context = kind is Task && !vals@.contains_key("context"@);
            let lookup_failed = kind is Task && vals@.contains_key("context"@) && context_lookup is Err;
            &&& errs.len() > 0 ==> (r matches Ok(CreateOutcome::Rejected(resp)) && resp@ == rejection_view(errs)
                && final(store).ident_num() == old(store).ident_num())
            &&& errs.len() == 0 && lookup_failed ==> (r == Err::<CreateOutcome, FanlingError>(context_lookup->Err_0)
                && final(store).ident_num() == old(store).ident_num())
            &&& errs.len() == 0 && !lookup_failed && name.len() == 0 ==> (r matches Err(e) && e matches FanlingError::FanlingError(m)
                && m@ == "description must not be blank"@ && final(store).ident_num() == old(store).ident_num())
            &&& errs.len() == 0 && !lookup_failed && name.len() > 0 ==> final(store).ident_num() == n
            &&& errs.len() == 0 && !lookup_failed && name.len() > 0 && no_context ==> (r matches Err(e)
                && e matches FanlingError::FanlingError(m) && m@ == "no context found from task"@)
            &&& errs.len() == 0 && !lookup_failed && name.len() > 0 && !no_context ==> (r matches Ok(
                CreateOutcome::Created(doc),
            ) && base_set(doc.base, *base, ident, kind, now, now) && values_set(doc.values, kind, new_task_view(), vals@))
        }),
{
    proof {
        reveal_strlit("name");
        reveal_strlit("context");
        reveal_strlit("priority");
        reveal_strlit("deadline");
        reveal_strlit("show_after_date");
    }
    let kind = match item_kind_of(item_type) {
        Some(k) => k,
        None => ItemKind::Simple,
    };
    let ar = check_values(kind, vals);
    if !ar.ok() {
        return Ok(CreateOutcome::Rejected(rejection(&ar)));
    }
    let has_context = vals.get_opt("context").is_some();
    if kind == ItemKind::Task && has_context {
        if let Err(e) = context_lookup {
            return Err(e);
        }
    }
    let name = get_or_empty(vals, "name");
    if name.as_str().is_empty() {
        return Err(FanlingError::new("description must not be blank"));
    }
    let ident = store.make_identifier(uniq_pfx, name.as_str());
    proof {
        if kind is Task {
            let v = vals@;
            assert(task_value_errors(v).len() == 0);
            assert(v["name"@].len() > 0);
            assert(parsed_i8(v["priority"@]) is Some);
            assert(parsed_utc_millis(v["deadline"@], date_format()) is Ok);
            assert(parsed_utc_millis(v["show_after_date"@], date_format()) is Ok);
            assert(set_data_spec(new_task_view(), vals@).1);
        }
    }
    let values = set_values(kind, Task::new(), vals)?;
    let doc_base = stored_base(base, ident, kind, now, now);
    Ok(CreateOutcome::Created(ItemDoc { base: doc_base, values }))
}

/// Create an item as [`create_item`] does and record it in the store:
/// once made, the item is serialised by `serialise` (whose failure fails
/// the request) and recorded as added (which fails when its identifier is
/// already known), the store's pending changes gaining the addition of the
/// serialised item at its path.
pub fn create_and_record<F: Fn(&ItemDoc) -> FLResult<String>>(
    store: &mut Store,
    uniq_pfx: &str,
    item_type: &str,
    base: &ItemBaseForSerde,
    vals: &StringMap,
    context_lookup: FLResult<()>,
    now: i64,
    serialise: &F,
) -> (r: FLResult<CreateOutcome>)
    requires
        old(store).wf(),
        old(store).ident_num() < u64::MAX,
        spec_item_kind(item_type@) is Some,
        checked_keys_present(spec_item_kind(item_type@).unwrap(), vals@),
        values_accepted(spec_item_kind(item_type@).unwrap(), spec_item_kind(item_type@).unwrap(), vals@, context_lookup)
            ==> {
            &&& base.ident@.len() > 0 ==> valid_ident(base.ident@)
            &&& base.ident@.len() == 0 && value_or_empty(vals@, "name"@).len() > 0 ==> valid_ident(
                identifier_for(uniq_pfx@, value_or_empty(vals@, "name"@), old(store).ident_num() + 1),
            )
        },
        forall|d: &ItemDoc| serialise.requires((d,)),
    ensures
        final(store).wf(),
        r matches Ok(CreateOutcome::Rejected(_)) ==> {
            &&& final(store).pending() == old(store).pending()
            &&& final(store).known_set() == old(store).known_set()
            &&& final(store).ident_num() == old(store).ident_num()
        },
        r matches Ok(CreateOutcome::Created(doc)) ==> {
            let ident = if base.ident@.len() > 0 {
                base.ident@
            } else {
                identifier_for(uniq_pfx@, value_or_empty(vals@, "name"@), old(store).ident_num() + 1)
            };
            let kind = spec_item_kind(item_type@).unwrap();
            &&& base_set(doc.base, *base, ident, kind, now, now)
            &&& values_set(doc.values, kind, new_task_view(), vals@)
            &&& !old(store).known_set().contains(ident)
            &&& final(store).known_set() == old(store).known_set().insert(ident)
            &&& final(store).ident_num() == old(store).ident_num() + 1
            &&& final(store).pending().len() == old(store).pending().len() + 1
            &&& final(store).pending().drop_last() == old(store).pending()
            &&& final(store).pending().last().op matches ObjectOperation::Add(blob) && serialise.ensures(
                (&doc,),
                Ok::<String, FanlingError>(blob),
            )
            &&& final(store).pending().last().path@ == path_of(ident)
            &&& final(store).pending().last().descr@ == "add "@ + ident
        },
        r is Err ==> final(store).pending() == old(store).pending(),
        value_errors(spec_item_kind(item_type@).unwrap(), vals@).len() > 0 ==> (r matches Ok(
            CreateOutcome::Rejected(resp),
        ) && resp@ == rejection_view(value_errors(spec_item_kind(item_type@).unwrap(), vals@))),
{
    match create_item(store, uniq_pfx, item_type, base, vals, context_lookup, now) {
        Err(e) => Err(e),
        Ok(CreateOutcome::Rejected(resp)) => Ok(CreateOutcome::Rejected(resp)),
        Ok(CreateOutcome::Created(doc)) => {
            let blob = match serialise(&doc) {
                Ok(b) => b,
                Err(e) => {
                    return Err(e);
                },
            };
            let ghost pend = store.pending();
            match store.add_item(doc.base.ident.as_str(), blob) {
                Ok(()) => {
                    proof {
                        assert(store.pending().drop_last() =~= pend);
                    }
                    Ok(CreateOutcome::Created(doc))
                },
                Err(e) => Err(e),
            }
        },
    }
}

/// The kind of item whose data a stored item holds.
pub open spec fn values_kind(v: ItemValues) -> ItemKind {
    match v {
        ItemValues::Simple(_) => ItemKind::Simple,
        ItemValues::Task(_) => ItemKind::Task,
    }
}

/// The task that an item's data hold (that of a new task for a simple item).
pub open spec fn values_task(v: ItemValues) -> TaskView {
    match v {
        ItemValues::Task(t) => task_view_from(t),
        ItemValues::Simple(_) => new_task_view(),
    }
}

/// What a request to update an item comes to.
pub enum UpdateOutcome {
    /// the values have user errors: answer with this response; the item is unchanged
    Rejected(Response),
    /// the item as updated, to store in place of the old one, and the response
    Updated { doc: ItemDoc, response: Response },
}

/// The kind of item whose data a stored item holds.
fn kind_of_values(v: &ItemValues) -> (r: ItemKind)
    ensures
        r == values_kind(*v),
{
    match v {
        ItemValues::Simple(_) => ItemKind::Simple,
        ItemValues::Task(_) => ItemKind::Task,
    }
}

/// Update the stored item `current` from a request's base and values for
/// an item of type `item_type`, at time `now`. The values are checked
/// first: with user errors the request is answered with the check's
/// response and the item is left as it was. Then (for a task) the context
/// given must have been found, as `context_lookup` tells. The item's base
/// is set from the request's base (keeping its identifier unless the
/// request names one, and its creation time) and its data from the
/// values, over its present data (a task needs a context). The updated
/// item is handed back to be stored, with the check's response: the tag
/// `message` with no text.
pub fn update_item(
    item_type: &str,
    current: &ItemDoc,
    base: &ItemBaseForSerde,
    vals: &StringMap,
    context_lookup: FLResult<()>,
    now: i64,
) -> (r: FLResult<UpdateOutcome>)
    requires
        spec_item_kind(item_type@) is Some,
        checked_keys_present(spec_item_kind(item_type@).unwrap(), vals@),
        checked_keys_present(values_kind(current.values), vals@),
        values_accepted(spec_item_kind(item_type@).unwrap(), values_kind(current.values), vals@, context_lookup) ==> {
            &&& base.ident@.len() > 0 ==> valid_ident(base.ident@)
            &&& valid_ident(current.base.ident@)
        },
    ensures
        ({
            let kind = values_kind(current.values);
            let errs = value_errors(spec_item_kind(item_type@).unwrap(), vals@);
            let ident = if base.ident@.len() > 0 { base.ident@ } else { current.base.ident@ };
            let prev = values_task(current.values);
            let lookup_failed = kind is Task && vals@.contains_key("context"@) && context_lookup is Err;
            let no_context = kind is Task && set_data_spec(prev, vals@).0.context is None;
            &&& errs.len() > 0 ==> (r matches Ok(UpdateOutcome::Rejected(resp)) && resp@ == rejection_view(errs))
            &&& errs.len() == 0 && lookup_failed ==> r == Err::<UpdateOutcome, FanlingError>(context_lookup->Err_0)
            &&& errs.len() == 0 && !lookup_failed && kind is Task && !set_data_spec(prev, vals@).1 ==> r is Err
            &&& errs.len() == 0 && !lookup_failed && set_data_spec(prev, vals@).1 && no_context ==> (r matches Err(e)
                && e matches FanlingError::FanlingError(m) && m@ == "no context found from task"@)
            &&& errs.len() == 0 && !lookup_failed && (kind is Simple || (set_data_spec(prev, vals@).1 && !no_context))
                ==> (r matches Ok(UpdateOutcome::Updated { doc, response }) && base_set(
                doc.base,
                *base,
                ident,
                kind,
                current.base.when_created,
                now,
            ) && values_set(doc.values, kind, prev, vals@) && response@ == rejection_view(Seq::empty()))
        }),
{
    proof {
        reveal_strlit("context");
    }
    let check_kind = match item_kind_of(item_type) {
        Some(k) => k,
        None => ItemKind::Simple,
    };
    let ar = check_values(check_kind, vals);
    if !ar.ok() {
        return Ok(UpdateOutcome::Rejected(rejection(&ar)));
    }
    let response = rejection(&ar);
    let kind = kind_of_values(&current.values);
    let has_context = vals.get_opt("context").is_some();
    if kind == ItemKind::Task && has_context {
        if let Err(e) = context_lookup {
            return Err(e);
        }
    }
    let prev = match &current.values {
        ItemValues::Task(t) => Task::task_from(t),
        ItemValues::Simple(_) => Task::new(),
    };
    let values = set_values(kind, prev, vals)?;
    let doc_base = stored_base(base, current.base.ident.clone(), kind, current.base.when_created, now);
    Ok(UpdateOutcome::Updated { doc: ItemDoc { base: doc_base, values }, response })
}

/// The name of an item's data (from which identifiers are made).
pub open spec fn values_name(v: ItemValues) -> Seq<char> {
    match v {
        ItemValues::Simple(d) => d.name@,
        ItemValues::Task(t) => t.name@,
    }
}

/// `c` is the data of a copy of an item whose data are `v`: a simple item's
/// name and text; a task reopened, with no closing time and no blockers.
pub open spec fn values_copied(c: ItemValues, v: ItemValues) -> bool {
    match v {
        ItemValues::Simple(d) => c matches ItemValues::Simple(e) && e.name@ == d.name@ && e.text@ == d.text@,
        ItemValues::Task(t) => c matches ItemValues::Task(u) && task_serde_of(
            u,
            TaskView { status: TaskStatus::Open, when_closed: 0, blockedby: Seq::empty(), ..task_view_from(t) },
        ),
    }
}

/// Copy the stored item `existing` into a new item, at time `now`: the
/// store makes the copy's identifier from the item's name (counting one
/// more identifier made); the copy has the item's base fields (its type
/// named by its kind, its parent dropped when empty, modified at `now`)
/// and a copy of its data (see [`values_copied`]). The copy is handed back
/// to be stored.
pub fn clone_item(store: &mut Store, uniq_pfx: &str, existing: &ItemDoc, now: i64) -> (r: ItemDoc)
    requires
        old(store).wf(),
        old(store).ident_num() < u64::MAX,
    ensures
        final(store).wf(),
        final(store).known_set() == old(store).known_set(),
        final(store).pending() == old(store).pending(),
        final(store).ident_num() == old(store).ident_num() + 1,
        r.base.ident@ == identifier_for(uniq_pfx@, values_name(existing.values), final(store).ident_num()),
        r.base.type_ident@ == values_kind(existing.values).spec_name(),
        opt_seq(r.base.parent) == parent_from_serde(existing.base.parent),
        r.base.can_be_parent == existing.base.can_be_parent,
        r.base.can_be_context == existing.base.can_be_context,
        r.base.sort@ == existing.base.sort@,
        r.base.classify@ == existing.base.classify@,
        !r.base.targeted,
        r.base.when_created == existing.base.when_created,
        r.base.when_modified == now,
        !r.base.closed,
        values_copied(r.values, existing.values),
{
    let (name, values) = match &existing.values {
        ItemValues::Simple(d) => (
            d.name.clone(),
            ItemValues::Simple(SimpleData { name: d.name.clone(), text: d.text.clone() }),
        ),
        ItemValues::Task(t) => {
            let copy = Task::task_from(t).fanling_clone();
            let values = match TaskForSerde::try_from_task(&copy) {
                Ok(u) => ItemValues::Task(u),
                Err(_) => {
                    proof {
                        assert(copy@.context is Some);
                    }
                    ItemValues::Simple(SimpleData { name: String::new(), text: String::new() })
                },
            };
            (t.name.clone(), values)
        },
    };
    let ident = store.make_identifier(uniq_pfx, name.as_str());
    let kind = kind_of_values(&existing.values);
    let mut base = existing.base.copy();
    base.ident = ident;
    base.type_ident = kind.name();
    base.parent = match &existing.base.parent {
        Some(p) => if p.as_str().is_empty() {
            None
        } else {
            Some(p.clone())
        },
        None => None,
    };
    base.targeted = false;
    base.when_modified = now;
    base.closed = false;
    ItemDoc { base, values }
}

/// Update a stored item as [`update_item`] does and record the change in
/// the store: once updated, the item is serialised by `serialise` (whose
/// failure fails the request) and recorded as modified under its former
/// identifier `ident` (which fails when that identifier is not known), the
/// store's pending changes gaining the modification at its path.
pub fn update_and_record<F: Fn(&ItemDoc) -> FLResult<String>>(
    store: &mut Store,
    ident: &str,
    item_type: &str,
    current: &ItemDoc,
    base: &ItemBaseForSerde,
    vals: &StringMap,
    context_lookup: FLResult<()>,
    now: i64,
    serialise: &F,
) -> (r: FLResult<UpdateOutcome>)
    requires
        old(store).wf(),
        spec_item_kind(item_type@) is Some,
        checked_keys_present(spec_item_kind(item_type@).unwrap(), vals@),
        checked_keys_present(values_kind(current.values), vals@),
        values_accepted(spec_item_kind(item_type@).unwrap(), values_kind(current.values), vals@, context_lookup) ==> {
            &&& base.ident@.len() > 0 ==> valid_ident(base.ident@)
            &&& valid_ident(current.base.ident@)
        },
        forall|d: &ItemDoc| serialise.requires((d,)),
    ensures
        final(store).wf(),
        final(store).known_set() == old(store).known_set(),
        final(store).ident_num() == old(store).ident_num(),
        r matches Ok(UpdateOutcome::Rejected(_)) ==> final(store).pending() == old(store).pending(),
        r matches Ok(UpdateOutcome::Updated { doc, response }) ==> {
            let kind = values_kind(current.values);
            let new_ident = if base.ident@.len() > 0 { base.ident@ } else { current.base.ident@ };
            &&& base_set(doc.base, *base, new_ident, kind, current.base.when_created, now)
            &&& values_set(doc.values, kind, values_task(current.values), vals@)
            &&& response@ == rejection_view(Seq::empty())
            &&& old(store).known_set().contains(ident@)
            &&& final(store).pending().len() == old(store).pending().len() + 1
            &&& final(store).pending().drop_last() == old(store).pending()
            &&& final(store).pending().last().op matches ObjectOperation::Modify(blob) && serialise.ensures(
                (&doc,),
                Ok::<String, FanlingError>(blob),
            )
            &&& final(store).pending().last().path@ == path_of(ident@)
            &&& final(store).pending().last().descr@ == "modify "@ + ident@
        },
        r is Err ==> final(store).pending() == old(store).pending(),
        value_errors(spec_item_kind(item_type@).unwrap(), vals@).len() > 0 ==> (r matches Ok(
            UpdateOutcome::Rejected(resp),
        ) && resp@ == rejection_view(value_errors(spec_item_kind(item_type@).unwrap(), vals@))),
{
    match update_item(item_type, current, base, vals, context_lookup, now) {
        Err(e) => Err(e),
        Ok(UpdateOutcome::Rejected(resp)) => Ok(UpdateOutcome::Rejected(resp)),
        Ok(UpdateOutcome::Updated { doc, response }) => {
            let blob = match serialise(&doc) {
                Ok(b) => b,
                Err(e) => {
                    return Err(e);
                },
            };
            let ghost pend = store.pending();
            match store.mark_item_modified(ident, blob) {
                Ok(()) => {
                    proof {
                        assert(store.pending().drop_last() =~= pend);
                    }
                    Ok(UpdateOutcome::Updated { doc, response })
                },
                Err(e) => Err(e),
            }
        },
    }
}

/// Copy a stored item as [`clone_item`] does and record the copy in the
/// store: the copy is serialised by `serialise` (whose failure fails the
/// request, the identifier's number being used) and recorded as added
/// (which fails when its identifier is already known).
pub fn clone_and_record<F: Fn(&ItemDoc) -> FLResult<String>>(
    store: &mut Store,
    uniq_pfx: &str,
    existing: &ItemDoc,
    now: i64,
    serialise: &F,
) -> (r: FLResult<ItemDoc>)
    requires
        old(store).wf(),
        old(store).ident_num() < u64::MAX,
        forall|d: &ItemDoc| serialise.requires((d,)),
    ensures
        final(store).wf(),
        final(store).ident_num() == old(store).ident_num() + 1,
        r is Err ==> final(store).pending() == old(store).pending(),
        r matches Ok(copy) ==> {
            let ident = identifier_for(uniq_pfx@, values_name(existing.values), final(store).ident_num());
            &&& copy.base.ident@ == ident
            &&& copy.base.type_ident@ == values_kind(existing.values).spec_name()
            &&& opt_seq(copy.base.parent) == parent_from_serde(existing.base.parent)
            &&& copy.base.can_be_parent == existing.base.can_be_parent
            &&& copy.base.can_be_context == existing.base.can_be_context
            &&& copy.base.sort@ == existing.base.sort@
            &&& copy.base.classify@ == existing.base.classify@
            &&& copy.base.when_created == existing.base.when_created
            &&& copy.base.when_modified == now
            &&& values_copied(copy.values, existing.values)
            &&& final(store).known_set() == old(store).known_set().insert(ident)
            &&& final(store).pending().len() == old(store).pending().len() + 1
            &&& final(store).pending().drop_last() == old(store).pending()
            &&& final(store).pending().last().op matches ObjectOperation::Add(blob) && serialise.ensures(
                (&copy,),
                Ok::<String, FanlingError>(blob),
            )
            &&& final(store).pending().last().path@ == path_of(ident)
        },
{
    let copy = clone_item(store, uniq_pfx, existing, now);
    let blob = match serialise(&copy) {
        Ok(b) => b,
        Err(e) => {
            return Err(e);
        },
    };
    let ghost pend = store.pending();
    match store.add_item(copy.base.ident.as_str(), blob) {
        Ok(()) => {
            proof {
                assert(store.pending().drop_last() =~= pend);
            }
            Ok(copy)
        },
        Err(e) => Err(e),
    }
}

/// The task after one of its own actions at time `now` (none for an
/// action that is not a task's): closed, reopened, blocked or unblocked.
pub open spec fn task_acted(t: TaskView, action: Action, now: i64) -> Option<TaskView> {
    match action {
        Action::Close => Some(TaskView { status: TaskStatus::Closed, when_closed: now, ..t }),
        Action::Reopen => Some(TaskView { status: TaskStatus::Open, ..t }),
        Action::BlockBy(i) => Some(TaskView { blockedby: t.blockedby.push(i@), ..t }),
        Action::UnblockBy(i) => Some(TaskView { blockedby: without(t.blockedby, i@), ..t }),
        _ => None,
    }
}

/// Carry out an item's own action on its data at time `now`: a task is
/// closed, reopened, blocked or unblocked (see [`task_acted`]) and handed
/// back with its base modified at `now`; any other action, and any action
/// on a simple item, changes nothing (`None`).
pub fn item_data_action(current: &ItemDoc, action: &Action, now: i64) -> (r: Option<ItemDoc>)
    ensures
        match current.values {
            ItemValues::Task(t) => match task_acted(task_view_from(t), *action, now) {
                Some(v) => r matches Some(d) && d.base == (ItemBaseForSerde { when_modified: now, ..current.base })
                    && (d.values matches ItemValues::Task(u) && task_serde_of(u, v)),
                None => r is None,
            },
            ItemValues::Simple(_) => r is None,
        },
{
    match &current.values {
        ItemValues::Simple(_) => None,
        ItemValues::Task(t) => {
            let mut task = Task::task_from(t);
            if !task.do_action(action, now) {
                return None;
            }
            match TaskForSerde::try_from_task(&task) {
                Ok(u) => {
                    let mut base = current.base.copy();
                    base.when_modified = now;
                    Some(ItemDoc { base, values: ItemValues::Task(u) })
                },
                Err(_) => {
                    proof {
                        assert(task@.context is Some);
                    }
                    None
                },
            }
        },
    }
}

/// What reading the YAML document of a stored item came to.
pub enum BaseRead {
    /// the document is not YAML (with the reader's message)
    NotYaml(String),
    /// the document holds no item base: the entry is skipped
    NoBase,
    /// the identifier that the item's base holds
    Base(Ident),
}

/// The identifiers of the items among the first `k` documents whose base
/// was read.
pub open spec fn based_idents(plan: Seq<(Seq<char>, Seq<char>)>, reads: Seq<BaseRead>, k: int) -> Set<Seq<char>>
    decreases k,
{
    if k <= 0 {
        Set::empty()
    } else {
        let prev = based_idents(plan, reads, k - 1);
        if reads[k - 1] is Base {
            prev.insert(plan[k - 1].0)
        } else {
            prev
        }
    }
}

/// Read every item of the store in again: the known items are forgotten,
/// then, for each document in order (see [`crate::world::items_to_load`]),
/// the item is known when its base was read; a document without a base is
/// skipped. A document that is not YAML stops the reading with its error,
/// the items read before it being known. When all are read, the request
/// is answered with an empty response.
pub fn load_items(store: &mut Store, plan: &Vec<(String, String)>, reads: &Vec<BaseRead>) -> (r: FLResult<Response>)
    requires
        old(store).wf(),
        reads@.len() == plan@.len(),
        forall|i: int| 0 <= i < reads@.len() ==> (#[trigger] reads@[i] matches BaseRead::Base(id) ==> id@ == plan@[i].0@),
    ensures
        final(store).wf(),
        final(store).pending() == old(store).pending(),
        final(store).ident_num() == old(store).ident_num(),
        (forall|i: int| 0 <= i < reads@.len() ==> !(#[trigger] reads@[i] is NotYaml)) ==> (r matches Ok(resp) && resp@
            == Response::new_view() && final(store).known_set() == based_idents(
            crate::kvlist::pairs_view(plan@),
            reads@,
            reads@.len() as int,
        )),
        forall|k: int|
            0 <= k < reads@.len() && #[trigger] reads@[k] is NotYaml && (forall|j: int| 0 <= j < k ==> !(#[trigger] reads@[j] is NotYaml))
                ==> (r matches Err(e) && e matches FanlingError::Yaml(m) && m@ == reads@[k]->NotYaml_0@
                && final(store).known_set() == based_idents(crate::kvlist::pairs_view(plan@), reads@, k)),
{
    let ghost pv = crate::kvlist::pairs_view(plan@);
    store.clear_known();
    let mut i: usize = 0;
    while i < reads.len()
        invariant
            store.wf(),
            store.pending() == old(store).pending(),
            store.ident_num() == old(store).ident_num(),
            i <= reads.len(),
            reads@.len() == plan@.len(),
            pv == crate::kvlist::pairs_view(plan@),
            forall|j: int| 0 <= j < reads@.len() ==> (#[trigger] reads@[j] matches BaseRead::Base(id) ==> id@ == plan@[j].0@),
            forall|j: int| 0 <= j < i ==> !(#[trigger] reads@[j] is NotYaml),
            store.known_set() == based_idents(pv, reads@, i as int),
        decreases reads.len() - i,
    {
        match &reads[i] {
            BaseRead::NotYaml(m) => {
                return Err(FanlingError::Yaml(m.clone()));
            },
            BaseRead::NoBase => {},
            BaseRead::Base(id) => {
                let _ = store.make_known(id.as_str());
                proof {
                    assert(pv[i as int].0 == id@);
                }
            },
        }
        i = i + 1;
    }
    Ok(Response::new())
}

/// Answer a request to cross-check the store and the search database: the
/// check (see [`crate::world::check_data`]) only reports what it finds,
/// and the request is answered with an empty response.
pub fn check_data_request(store: &Store, search_idents: &Vec<String>, store_paths: &Vec<String>) -> (r: (
    crate::world::DataCheck,
    ResponseResult,
))
    requires
        store.wf(),
    ensures
        strings_view(r.0.missing_from_search@).to_set() == crate::world::path_idents(strings_view(store_paths@)).difference(
            strings_view(search_idents@).to_set(),
        ),
        strings_view(r.0.missing_from_store@).to_set() == strings_view(search_idents@).to_set().difference(
            crate::world::path_idents(strings_view(store_paths@)),
        ),
        r.1 matches Ok(resp) && resp@ == Response::new_view(),
{
    let check = crate::world::check_data(store, search_idents, store_paths);
    (check, Ok(Response::new()))
}

} // verus!
