//! The collection of all items: the results of checking a requested
//! change, the kinds of item, and what is decided for each request, for
//! the cross-check of store and search and for merge conflicts.
use vstd::prelude::*;
use crate::engine::{action_kind, Action, ActionKind, BasicRequest};
use crate::interface::{error_response_result, Response, ResponseResult, ResponseView, StringMap};
use crate::item::{opt_seq, Ident, ItemBaseForSerde, ItemKind};
use crate::kvlist::pairs_view;
use crate::repo_plan::Conflict;
use crate::repo_shared::EntryDescr;
use crate::shared::{FLResult, FanlingError, NullResult};
use crate::store::{identifier_for, item_path_ident, path_of, Store};
use crate::text::{contains_ident, join_seqs, join_strings, str_eq, strings_view};

verus! {

/// The result of an update (or new item) request.
pub enum ActionResponse {
    /// the request has user errors
    Failure {
        /// messages to display
        messages: Vec<String>,
        /// (area, message) for each error
        specifics: Vec<(String, String)>,
    },
    /// the request succeeded
    Success {
        /// associated test data
        test_data: StringMap,
    },
}

impl ActionResponse {
    /// The messages of the user errors (none when successful).
    pub open spec fn spec_messages(&self) -> Seq<Seq<char>> {
        match self {
            ActionResponse::Failure { messages, .. } => strings_view(messages@),
            ActionResponse::Success { .. } => Seq::empty(),
        }
    }

    /// The (area, message) pairs of the user errors (none when successful).
    pub open spec fn spec_errors(&self) -> Seq<(Seq<char>, Seq<char>)> {
        match self {
            ActionResponse::Failure { specifics, .. } => pairs_view(specifics@),
            ActionResponse::Success { .. } => Seq::empty(),
        }
    }

    /// The test data (none when there are user errors).
    pub open spec fn spec_test_data(&self) -> Map<Seq<char>, Seq<char>> {
        match self {
            ActionResponse::Failure { .. } => Map::empty(),
            ActionResponse::Success { test_data } => test_data@,
        }
    }

    /// A successful response without test data.
    pub fn new() -> (r: Self)
        ensures
            r is Success,
            r.spec_test_data() == Map::<Seq<char>, Seq<char>>::empty(),
    {
        ActionResponse::Success { test_data: StringMap::new() }
    }

    /// Record a user error with message `m` in area `area`: the response
    /// becomes a failure (dropping any test data) and the error is added
    /// after those already recorded.
    pub fn add_error(&mut self, area: &str, m: &str)
        ensures
            *final(self) is Failure,
            final(self).spec_messages() == old(self).spec_messages().push(m@),
            final(self).spec_errors() == old(self).spec_errors().push((area@, m@)),
    {
        match self {
            ActionResponse::Success { .. } => {
                let mut ss: Vec<(String, String)> = Vec::new();
                ss.push((area.to_owned(), m.to_owned()));
                let mut ms: Vec<String> = Vec::new();
                ms.push(m.to_owned());
                proof {
                    assert(strings_view(ms@) =~= seq![m@]);
                    assert(pairs_view(ss@) =~= seq![(area@, m@)]);
                    assert(old(self).spec_messages().push(m@) =~= seq![m@]);
                    assert(old(self).spec_errors().push((area@, m@)) =~= seq![(area@, m@)]);
                }
                *self = ActionResponse::Failure { messages: ms, specifics: ss };
            },
            ActionResponse::Failure { messages, specifics } => {
                let ghost old_m = messages@;
                let ghost old_s = specifics@;
                messages.push(m.to_owned());
                specifics.push((area.to_owned(), m.to_owned()));
                proof {
                    assert(strings_view(messages@) =~= strings_view(old_m).push(m@));
                    assert(pairs_view(specifics@) =~= pairs_view(old_s).push((area@, m@)));
                }
            },
        }
    }

    /// Check the condition `cond`; when it does not hold, record the user
    /// error `m` in `area`.
    pub fn assert_that(&mut self, cond: bool, area: &str, m: &str)
        ensures
            cond ==> *final(self) == *old(self),
            !cond ==> {
                &&& *final(self) is Failure
                &&& final(self).spec_messages() == old(self).spec_messages().push(m@)
                &&& final(self).spec_errors() == old(self).spec_errors().push((area@, m@))
            },
    {
        if !cond {
            self.add_error(area, m);
        }
    }

    /// Whether there have been no user errors.
    pub fn ok(&self) -> (r: bool)
        ensures
            r == (*self is Success),
    {
        match self {
            ActionResponse::Success { .. } => true,
            ActionResponse::Failure { .. } => false,
        }
    }

    /// The user errors, as (area, message) pairs.
    pub fn errors(&self) -> (r: Vec<(String, String)>)
        ensures
            pairs_view(r@) == self.spec_errors(),
    {
        match self {
            ActionResponse::Success { .. } => {
                let r: Vec<(String, String)> = Vec::new();
                proof {
                    assert(pairs_view(r@) =~= Seq::<(Seq<char>, Seq<char>)>::empty());
                }
                r
            },
            ActionResponse::Failure { specifics, .. } => {
                let mut r: Vec<(String, String)> = Vec::new();
                let mut i: usize = 0;
                while i < specifics.len()
                    invariant
                        i <= specifics.len(),
                        pairs_view(r@) == pairs_view(specifics@).subrange(0, i as int),
                    decreases specifics.len() - i,
                {
                    let (a, m) = &specifics[i];
                    let ghost before = r@;
                    r.push((a.clone(), m.clone()));
                    proof {
                        assert(pairs_view(r@) =~= pairs_view(before).push(pairs_view(specifics@)[i as int]));
                        assert(pairs_view(specifics@).subrange(0, i + 1) =~= pairs_view(specifics@).subrange(0, i as int).push(pairs_view(specifics@)[i as int]));
                    }
                    i = i + 1;
                }
                proof {
                    assert(pairs_view(specifics@).subrange(0, i as int) =~= pairs_view(specifics@));
                }
                r
            },
        }
    }

    /// The overall user error message: all messages joined by spaces.
    pub fn overall_message(&self) -> (r: String)
        ensures
            r@ == join_seqs(self.spec_messages(), " "@),
    {
        match self {
            ActionResponse::Success { .. } => String::new(),
            ActionResponse::Failure { messages, .. } => join_strings(messages, " "),
        }
    }

    /// The response to show the user: the overall message under the tag
    /// `message`, then each error message under its area; with the test data.
    pub fn to_response(&self) -> (r: ResponseResult)
        ensures
            r matches Ok(resp) && {
                &&& resp@.tags == seq![("message"@, join_seqs(self.spec_messages(), " "@))] + self.spec_errors()
                &&& !resp@.error
                &&& !resp@.shutdown_required
                &&& resp@.test_data == self.spec_test_data()
            },
    {
        let msg = self.overall_message();
        let msg_str = msg.as_str();
        let tags = [("message", msg_str)];
        let mut response = Response::new_with_tags(&tags);
        proof {
            reveal_strlit("message");
            assert(tags@.len() == 1);
            assert(tags@[0] == ("message", msg_str));
            assert(response@.tags =~= seq![("message"@, join_seqs(self.spec_messages(), " "@))]);
        }
        let errs = self.errors();
        let mut i: usize = 0;
        while i < errs.len()
            invariant
                i <= errs.len(),
                pairs_view(errs@) == self.spec_errors(),
                response@.tags == seq![("message"@, join_seqs(self.spec_messages(), " "@))] + pairs_view(errs@).subrange(0, i as int),
                !response@.error,
                !response@.shutdown_required,
                response@.test_data == Map::<Seq<char>, Seq<char>>::empty(),
            decreases errs.len() - i,
        {
            let (t, v) = &errs[i];
            response.add_tag(t.as_str(), v.as_str());
            proof {
                assert(pairs_view(errs@)[i as int] == (t@, v@));
                assert(pairs_view(errs@).subrange(0, i + 1) =~= pairs_view(errs@).subrange(0, i as int).push((t@, v@)));
                assert(response@.tags =~= seq![("message"@, join_seqs(self.spec_messages(), " "@))] + pairs_view(errs@).subrange(0, i + 1));
            }
            i = i + 1;
        }
        proof {
            assert(pairs_view(errs@).subrange(0, i as int) =~= pairs_view(errs@));
        }
        let td = self.get_test_data();
        response.set_all_test_data(td.to_pairs());
        Ok(response)
    }

    /// Associate test data with a successful response (a failure keeps none).
    pub fn set_test_data(&mut self, test_data: StringMap)
        ensures
            final(self).spec_messages() == old(self).spec_messages(),
            final(self).spec_errors() == old(self).spec_errors(),
            (*old(self) is Success) == (*final(self) is Success),
            *old(self) is Success ==> final(self).spec_test_data() == test_data@,
            *old(self) is Failure ==> *final(self) == *old(self),
    {
        match self {
            ActionResponse::Success { test_data: td } => {
                *td = test_data;
            },
            ActionResponse::Failure { .. } => {},
        }
    }

    /// The identifier recorded in the test data of a successful response.
    pub fn ident(&self) -> (r: Option<String>)
        requires
            *self is Success ==> self.spec_test_data().contains_key("ident"@),
        ensures
            *self is Failure ==> r.is_none(),
            *self is Success ==> (r matches Some(i) && i@ == self.spec_test_data()["ident"@]),
    {
        match self {
            ActionResponse::Success { test_data } => Some(test_data.get("ident")),
            ActionResponse::Failure { .. } => None,
        }
    }

    /// The test data (none for a failure).
    pub fn get_test_data(&self) -> (r: StringMap)
        ensures
            r@ == self.spec_test_data(),
    {
        match self {
            ActionResponse::Success { test_data } => test_data.copy(),
            ActionResponse::Failure { .. } => StringMap::new(),
        }
    }
}

/// The item kind that a type name denotes, if any: "simple" and "Simple"
/// denote simple items; "task", "Task" and "todo" denote tasks.
pub open spec fn spec_item_kind(type_ident: Seq<char>) -> Option<ItemKind> {
    if type_ident == "simple"@ || type_ident == "Simple"@ {
        Some(ItemKind::Simple)
    } else if type_ident == "task"@ || type_ident == "Task"@ || type_ident == "todo"@ {
        Some(ItemKind::Task)
    } else {
        None
    }
}

/// The item kind that a type name denotes, if any.
pub fn item_kind_of(type_ident: &str) -> (r: Option<ItemKind>)
    ensures
        r == spec_item_kind(type_ident@),
{
    if str_eq(type_ident, "simple") || str_eq(type_ident, "Simple") {
        Some(ItemKind::Simple)
    } else if str_eq(type_ident, "task") || str_eq(type_ident, "Task") || str_eq(type_ident, "todo") {
        Some(ItemKind::Task)
    } else {
        None
    }
}

/// Interpret a type name as an item kind (the name must denote one).
pub fn item_kind(type_ident: &Ident) -> (r: ItemKind)
    requires
        spec_item_kind(type_ident@).is_some(),
    ensures
        Some(r) == spec_item_kind(type_ident@),
{
    match item_kind_of(type_ident.as_str()) {
        Some(k) => k,
        None => ItemKind::Simple,
    }
}


/// Which items a list shows.
#[derive(PartialEq, Eq, Structural, Clone, Copy)]
pub enum ListKind {
    /// open items that are ready
    Ready,
    /// open items
    Open,
    /// all items
    All,
}

/// What the collection of items has decided to do for a request.
pub enum WorldStep {
    /// show the list of items of this kind
    ShowList(ListKind),
    /// check the values and, if they are valid, create an item of the type
    /// (see [`crate::edits::create_item`])
    Create { item_type: String, base: ItemBaseForSerde, vals: StringMap },
    /// check the values and, if they are valid, update the item (see
    /// [`crate::edits::update_item`])
    Update { ident: Ident, item_type: String, base: ItemBaseForSerde, vals: StringMap },
    /// delete the item
    Delete { ident: Ident, item_type: String },
    /// read every item of the store in again (see [`crate::edits::load_items`])
    GetAll,
    /// cross-check the store and the search database (see
    /// [`crate::edits::check_data_request`])
    CheckData,
    /// fetch and merge the server's changes (see [`crate::edits::resolve_conflicts`])
    Pull,
    /// push to the server (forcibly if `force`)
    Push { force: bool },
    /// show a form for a new item of the type
    New { item_type: String },
    /// show a form for a new item of the type with this base (which names the parent)
    NewChild { item_type: String, base: ItemBaseForSerde },
    /// copy the item (see [`crate::edits::clone_item`])
    CloneItem { ident: Ident },
    /// hand the action to the item
    ItemAction { ident: Ident, action: Action },
    /// answer with this response
    Reply(Response),
    /// fail with this error
    Fail(FanlingError),
}

/// The step of failing with an engine error whose message is `msg`.
pub open spec fn fails_with(step: WorldStep, msg: Seq<char>) -> bool {
    step matches WorldStep::Fail(e) && e matches FanlingError::FanlingError(m) && m@ == msg
}

/// The type name taken from a request, kept only when it names a kind of
/// item: any other name fails the request as the engine fails a request it
/// cannot carry out.
fn known_type(item_type: FLResult<String>) -> (r: FLResult<String>)
    ensures
        match item_type {
            Ok(t) => if spec_item_kind(t@) is Some {
                r matches Ok(u) && u@ == t@
            } else {
                fails_with_error(r, "error in execute"@)
            },
            Err(e) => r == Err::<String, FanlingError>(e),
        },
{
    match item_type {
        Ok(t) => match item_kind_of(t.as_str()) {
            Some(_) => Ok(t),
            None => Err(FanlingError::new("error in execute")),
        },
        Err(e) => Err(e),
    }
}

/// The result is an engine error whose message is `msg`.
pub open spec fn fails_with_error<T>(r: FLResult<T>, msg: Seq<char>) -> bool {
    r matches Err(e) && e matches FanlingError::FanlingError(m) && m@ == msg
}

/// What a request's item type comes to: `None` when the request has none
/// ("no type name") or it names no kind of item ("error in execute").
pub open spec fn type_failure(item_type: Option<String>) -> Option<Seq<char>> {
    match item_type {
        None => Some("no type name"@),
        Some(t) => if spec_item_kind(t@) is Some { None } else { Some("error in execute"@) },
    }
}

/// What to do for an action handled by the collection of items. Taking
/// the request's item type or identifier fails when it has none: the
/// identifier is taken first, then the type, which must name a kind of item.
pub fn do_world_action(basic_request: BasicRequest, now: i64) -> (r: WorldStep)
    requires
        action_kind(basic_request.action) == Some(ActionKind::World),
    ensures
        match basic_request.action {
            Action::Start | Action::ListReady => r == WorldStep::ShowList(ListKind::Ready),
            Action::ListOpen => r == WorldStep::ShowList(ListKind::Open),
            Action::ListAll => r == WorldStep::ShowList(ListKind::All),
            Action::Create(base, vals) => match type_failure(basic_request.item_type) {
                Some(m) => fails_with(r, m),
                None => r matches WorldStep::Create { item_type: tn, base: b, vals: v } && Some(tn@) == opt_seq(
                    basic_request.item_type,
                ) && b == base && v == vals,
            },
            Action::Update(base, vals) => match basic_request.ident {
                None => fails_with(r, "no ident"@),
                Some(i) => match type_failure(basic_request.item_type) {
                    Some(m) => fails_with(r, m),
                    None => r matches WorldStep::Update { ident: id, item_type: tn, base: b, vals: v } && id@ == i@
                        && Some(tn@) == opt_seq(basic_request.item_type) && b == base && v == vals,
                },
            },
            Action::Delete => match basic_request.ident {
                None => fails_with(r, "no ident"@),
                Some(i) => match type_failure(basic_request.item_type) {
                    Some(m) => fails_with(r, m),
                    None => r matches WorldStep::Delete { ident: id, item_type: tn } && id@ == i@ && Some(tn@)
                        == opt_seq(basic_request.item_type),
                },
            },
            Action::GetAll => r == WorldStep::GetAll,
            Action::CheckData => r == WorldStep::CheckData,
            Action::Pull => r == WorldStep::Pull,
            Action::Push { force } => r == WorldStep::Push { force },
            Action::New => match type_failure(basic_request.item_type) {
                Some(m) => fails_with(r, m),
                None => r matches WorldStep::New { item_type: tn } && Some(tn@) == opt_seq(basic_request.item_type),
            },
            Action::NewChild(parent) => match type_failure(basic_request.item_type) {
                Some(m) => fails_with(r, m),
                None => r matches WorldStep::NewChild { item_type: tn, base: b } && Some(tn@) == opt_seq(
                    basic_request.item_type,
                ) && b.ident@ == "??"@ && b.type_ident@ == "??"@ && (b.parent matches Some(p) && p@ == parent@)
                    && !b.can_be_parent && !b.can_be_context && b.sort@.len() == 0 && b.classify@ == "normal"@
                    && !b.targeted && b.when_created == now && b.when_modified == now && !b.closed,
            },
            Action::Clone => match basic_request.ident {
                Some(i) => r matches WorldStep::CloneItem { ident: id } && id@ == i@,
                None => fails_with(r, "no ident"@),
            },
            _ => fails_with(r, "test error 2"@),
        },
{
    let item_type = known_type(basic_request.ensure_type_name());
    let ident = basic_request.ensure_ident();
    match basic_request.action {
        Action::Start | Action::ListReady => WorldStep::ShowList(ListKind::Ready),
        Action::ListOpen => WorldStep::ShowList(ListKind::Open),
        Action::ListAll => WorldStep::ShowList(ListKind::All),
        Action::Create(base, vals) => match item_type {
            Ok(t) => WorldStep::Create { item_type: t, base, vals },
            Err(e) => WorldStep::Fail(e),
        },
        Action::Update(base, vals) => match ident {
            Err(e) => WorldStep::Fail(e),
            Ok(i) => match item_type {
                Ok(t) => WorldStep::Update { ident: i, item_type: t, base, vals },
                Err(e) => WorldStep::Fail(e),
            },
        },
        Action::Delete => match ident {
            Err(e) => WorldStep::Fail(e),
            Ok(i) => match item_type {
                Ok(t) => WorldStep::Delete { ident: i, item_type: t },
                Err(e) => WorldStep::Fail(e),
            },
        },
        Action::GetAll => WorldStep::GetAll,
        Action::CheckData => WorldStep::CheckData,
        Action::Pull => WorldStep::Pull,
        Action::Push { force } => WorldStep::Push { force },
        Action::New => match item_type {
            Ok(t) => WorldStep::New { item_type: t },
            Err(e) => WorldStep::Fail(e),
        },
        Action::NewChild(parent) => match item_type {
            Ok(t) => {
                let mut base = ItemBaseForSerde::default_at(now);
                base.parent = Some(parent);
                WorldStep::NewChild { item_type: t, base }
            },
            Err(e) => WorldStep::Fail(e),
        },
        Action::Clone => match ident {
            Ok(i) => WorldStep::CloneItem { ident: i },
            Err(e) => WorldStep::Fail(e),
        },
        _ => WorldStep::Fail(FanlingError::new("test error 2")),
    }
}

/// What to do for a request that reaches the collection of items: an
/// action of the engine is answered with an error response; an action of
/// the collection is decided by [`do_world_action`]; an action of an item
/// needs the item's identifier and goes to that item.
pub fn do_action(basic_request: BasicRequest, now: i64) -> (r: WorldStep)
    requires
        !(basic_request.action is Unknown),
    ensures
        action_kind(basic_request.action) == Some(ActionKind::Engine) ==> (r matches WorldStep::Reply(resp) && resp@
            == (ResponseView {
            tags: seq![("error"@, "should not come here"@)],
            error: true,
            ..Response::new_view()
        })),
        action_kind(basic_request.action) == Some(ActionKind::Item) ==> match basic_request.ident {
            Some(i) => r matches WorldStep::ItemAction { ident: id, action: a } && id@ == i@ && a
                == basic_request.action,
            None => fails_with(r, "need ident here"@),
        },
{
    match basic_request.action.kind() {
        ActionKind::Engine => {
            proof {
                reveal_strlit("error");
                assert("error"@ =~= seq!['e', 'r', 'r', 'o', 'r']);
            }
            match error_response_result("should not come here") {
                Ok(resp) => WorldStep::Reply(resp),
                Err(_) => WorldStep::Reply(Response::new()),
            }
        },
        ActionKind::World => do_world_action(basic_request, now),
        ActionKind::Item => match basic_request.ident {
            Some(i) => WorldStep::ItemAction { ident: i, action: basic_request.action },
            None => WorldStep::Fail(FanlingError::new("need ident here")),
        },
    }
}

/// The base and the values of an item made because it is missing: a
/// simple item can be a context, every such item can be a parent, its
/// name is its identifier, and a task has the default context. Only
/// simple items and tasks can be made this way.
pub fn ensure_item_parts(ident: Ident, item_type: Ident, now: i64) -> (r: FLResult<(ItemBaseForSerde, StringMap)>)
    ensures
        item_type@ == "Simple"@ || item_type@ == "Task"@ ==> (r matches Ok((b, v)) && {
            &&& b.ident@ == ident@
            &&& b.type_ident@ == item_type@
            &&& b.parent.is_none()
            &&& b.can_be_parent
            &&& b.can_be_context == (item_type@ == "Simple"@)
            &&& b.sort@.len() == 0
            &&& b.classify@ == "normal"@
            &&& !b.targeted
            &&& b.when_created == now
            &&& b.when_modified == now
            &&& !b.closed
            &&& v@ == if item_type@ == "Simple"@ {
                map!["name"@ => ident@]
            } else {
                map!["name"@ => ident@, "context"@ => "default_context"@]
            }
        }),
        !(item_type@ == "Simple"@ || item_type@ == "Task"@) ==> (r matches Err(e) && e matches FanlingError::FanlingError(
            m,
        ) && m@ == "invalid type '"@ + item_type@ + "'"@),
{
    let is_simple = str_eq(item_type.as_str(), "Simple");
    let is_task = str_eq(item_type.as_str(), "Task");
    if !is_simple && !is_task {
        let mut msg = "invalid type '".to_owned();
        msg.append(item_type.as_str());
        msg.append("'");
        return Err(FanlingError::FanlingError(msg));
    }
    let mut base = ItemBaseForSerde::default_at(now);
    base.ident = ident.clone();
    base.type_ident = item_type;
    base.can_be_context = is_simple;
    base.can_be_parent = true;
    let mut vals = StringMap::new();
    vals.set("name", ident.as_str());
    if is_task {
        vals.set("context", "default_context");
    }
    proof {
        reveal_strlit("Simple");
        reveal_strlit("Task");
        reveal_strlit("name");
        reveal_strlit("context");
        assert("Simple"@.len() == 6 && "Task"@.len() == 4);
        assert("name"@.len() == 4 && "context"@.len() == 7);
    }
    Ok((base, vals))
}

/// The identifier for a new item with the description `descr`: the
/// description must not be blank.
pub fn new_item_ident(store: &mut Store, uniq_pfx: &str, descr: &str) -> (r: FLResult<Ident>)
    requires
        old(store).wf(),
        old(store).ident_num() < u64::MAX,
    ensures
        final(store).wf(),
        final(store).known_set() == old(store).known_set(),
        final(store).pending() == old(store).pending(),
        descr@.len() == 0 ==> {
            &&& r matches Err(e) && e matches FanlingError::FanlingError(m) && m@ == "description must not be blank"@
            &&& final(store).ident_num() == old(store).ident_num()
        },
        descr@.len() > 0 ==> {
            &&& final(store).ident_num() == old(store).ident_num() + 1
            &&& r matches Ok(i) && i@ == identifier_for(uniq_pfx@, descr@, final(store).ident_num())
        },
{
    if descr.is_empty() {
        return Err(FanlingError::new("description must not be blank"));
    }
    Ok(store.make_identifier(uniq_pfx, descr))
}

/// The YAML document for a blob read from the store: the blob itself
/// when it starts with the document marker `---` and a newline, else the
/// blob after such a marker.
pub open spec fn yaml_document_of(blob: Seq<char>) -> Seq<char> {
    if blob.len() >= 4 && blob.subrange(0, 4) == "---\n"@ {
        blob
    } else {
        "---\n"@ + blob
    }
}

/// The YAML document for a blob read from the store.
pub fn yaml_document(blob: &str) -> (r: String)
    ensures
        r@ == yaml_document_of(blob@),
{
    let n = blob.unicode_len();
    if n >= 4 && str_eq(blob.substring_char(0, 4), "---\n") {
        blob.to_owned()
    } else {
        let mut r = "---\n".to_owned();
        r.append(blob);
        r
    }
}

/// The identifiers that the paths hold.
pub open spec fn path_idents(paths: Seq<Seq<char>>) -> Set<Seq<char>>
    decreases paths.len(),
{
    if paths.len() == 0 {
        Set::empty()
    } else {
        let prev = path_idents(paths.drop_last());
        match item_path_ident(paths.last()) {
            Some(i) => prev.insert(i),
            None => prev,
        }
    }
}

/// The result of cross-checking the store and the search database.
pub struct DataCheck {
    /// identifiers of items in the store that are not in the search database
    pub missing_from_search: Vec<String>,
    /// identifiers of items in the search database that are not in the store
    pub missing_from_store: Vec<String>,
    /// number of entries in the search database
    pub in_search: usize,
    /// number of paths in the store
    pub in_store: usize,
}

/// Cross-check the store and the search database: which items of the
/// store (by their paths) the search lacks, which items of the search the
/// store lacks (each listed once), and how many entries each has.
pub fn check_data(store: &Store, search_idents: &Vec<String>, store_paths: &Vec<String>) -> (r: DataCheck)
    requires
        store.wf(),
    ensures
        strings_view(r.missing_from_search@).no_duplicates(),
        strings_view(r.missing_from_search@).to_set() == path_idents(strings_view(store_paths@)).difference(
            strings_view(search_idents@).to_set(),
        ),
        strings_view(r.missing_from_store@).no_duplicates(),
        strings_view(r.missing_from_store@).to_set() == strings_view(search_idents@).to_set().difference(
            path_idents(strings_view(store_paths@)),
        ),
        r.in_search == search_idents.len(),
        r.in_store == store_paths.len(),
{
    let ghost paths = strings_view(store_paths@);
    let ghost search = strings_view(search_idents@).to_set();
    let mut seen: Vec<String> = Vec::new();
    let mut missing_from_search: Vec<String> = Vec::new();
    let mut i: usize = 0;
    while i < store_paths.len()
        invariant
            store.wf(),
            i <= store_paths.len(),
            paths == strings_view(store_paths@),
            search == strings_view(search_idents@).to_set(),
            strings_view(seen@).no_duplicates(),
            strings_view(seen@).to_set() == path_idents(paths.subrange(0, i as int)),
            strings_view(missing_from_search@).no_duplicates(),
            strings_view(missing_from_search@).to_set() == path_idents(paths.subrange(0, i as int)).difference(
                search,
            ),
        decreases store_paths.len() - i,
    {
        proof {
            assert(paths.subrange(0, i + 1).drop_last() =~= paths.subrange(0, i as int));
            assert(paths.subrange(0, i + 1).last() == store_paths@[i as int]@);
        }
        match store.ident_from_path(store_paths[i].as_str()) {
            None => {},
            Some(id) => {
                if !contains_ident(&seen, id.as_str()) {
                    let ghost before_seen = strings_view(seen@);
                    let ghost before_missing = strings_view(missing_from_search@);
                    let in_search = contains_ident(search_idents, id.as_str());
                    if !in_search {
                        missing_from_search.push(id.clone());
                        proof {
                            assert(strings_view(missing_from_search@) =~= before_missing.push(id@));
                            before_missing.lemma_push_to_set_commute(id@);
                            assert(!before_missing.to_set().contains(id@));
                        }
                    }
                    seen.push(id);
                    proof {
                        assert(strings_view(seen@) =~= before_seen.push(id@));
                        before_seen.lemma_push_to_set_commute(id@);
                    }
                }
            },
        }
        i = i + 1;
        proof {
            assert(strings_view(seen@).to_set() =~= path_idents(paths.subrange(0, i as int)));
            assert(strings_view(missing_from_search@).to_set() =~= path_idents(paths.subrange(0, i as int)).difference(search));
        }
    }
    proof {
        assert(paths.subrange(0, i as int) =~= paths);
    }
    let ghost store_set = path_idents(paths);
    let ghost searched = strings_view(search_idents@);
    let mut missing_from_store: Vec<String> = Vec::new();
    let mut j: usize = 0;
    while j < search_idents.len()
        invariant
            j <= search_idents.len(),
            searched == strings_view(search_idents@),
            strings_view(seen@).to_set() == store_set,
            strings_view(missing_from_store@).no_duplicates(),
            strings_view(missing_from_store@).to_set() == searched.subrange(0, j as int).to_set().difference(store_set),
        decreases search_idents.len() - j,
    {
        let id = &search_idents[j];
        let ghost before = strings_view(missing_from_store@);
        proof {
            assert(searched.subrange(0, j + 1) =~= searched.subrange(0, j as int).push(id@));
            searched.subrange(0, j as int).lemma_push_to_set_commute(id@);
        }
        if !contains_ident(&seen, id.as_str()) && !contains_ident(&missing_from_store, id.as_str()) {
            missing_from_store.push(id.clone());
            proof {
                assert(strings_view(missing_from_store@) =~= before.push(id@));
                before.lemma_push_to_set_commute(id@);
            }
        }
        j = j + 1;
        proof {
            assert(strings_view(missing_from_store@).to_set() =~= searched.subrange(0, j as int).to_set().difference(store_set));
        }
    }
    proof {
        assert(searched.subrange(0, j as int) =~= searched);
    }
    DataCheck {
        missing_from_search,
        missing_from_store,
        in_search: search_idents.len(),
        in_store: store_paths.len(),
    }
}

/// The item type named by the versions in a conflict: that of their
/// version, else of ours, else of the common ancestor; none when no
/// version is present. The versions present must name the same type.
pub fn conflict_type_name(ancestor: &Option<String>, ours: &Option<String>, theirs: &Option<String>) -> (r: Option<
    String,
>)
    requires
        ancestor matches Some(a) && ours matches Some(o) ==> a@ == o@,
        ancestor matches Some(a) && theirs matches Some(t) ==> a@ == t@,
        ours matches Some(o) && theirs matches Some(t) ==> o@ == t@,
    ensures
        match (ancestor, ours, theirs) {
            (_, _, Some(t)) => r matches Some(n) && n@ == t@,
            (_, Some(o), None) => r matches Some(n) && n@ == o@,
            (Some(a), None, None) => r matches Some(n) && n@ == a@,
            (None, None, None) => r is None,
        },
{
    let mut item_type: Option<String> = None;
    if let Some(a) = ancestor {
        item_type = Some(a.clone());
    }
    if let Some(o) = ours {
        item_type = Some(o.clone());
    }
    if let Some(t) = theirs {
        item_type = Some(t.clone());
    }
    item_type
}

/// Whether a conflict is resolved by merging: only when our version,
/// their version and the common ancestor are all present.
pub fn conflict_needs_merge(conflict: &Conflict) -> (r: bool)
    ensures
        r == (conflict.our is Some && conflict.their is Some && conflict.ancestor is Some),
{
    conflict.our.is_some() && conflict.their.is_some() && conflict.ancestor.is_some()
}


/// When the search database holds exactly the items of the store, the
/// cross-check finds nothing missing on either side.
pub proof fn lemma_consistent_check(
    missing_from_search: Seq<Seq<char>>,
    missing_from_store: Seq<Seq<char>>,
    search_idents: Seq<Seq<char>>,
    store_paths: Seq<Seq<char>>,
)
    requires
        missing_from_search.to_set() == path_idents(store_paths).difference(search_idents.to_set()),
        missing_from_store.to_set() == search_idents.to_set().difference(path_idents(store_paths)),
        search_idents.to_set() == path_idents(store_paths),
    ensures
        missing_from_search.len() == 0,
        missing_from_store.len() == 0,
{
    if missing_from_search.len() > 0 {
        assert(missing_from_search.to_set().contains(missing_from_search[0]));
    }
    if missing_from_store.len() > 0 {
        assert(missing_from_store.to_set().contains(missing_from_store[0]));
    }
}


/// The items that reading every item of the store loads, in order: for
/// each entry whose path holds an identifier, that identifier and the
/// YAML document of its blob.
pub open spec fn load_plan(entries: Seq<EntryDescr>) -> Seq<(Seq<char>, Seq<char>)>
    decreases entries.len(),
{
    if entries.len() == 0 {
        Seq::empty()
    } else {
        let prev = load_plan(entries.drop_last());
        match item_path_ident(entries.last().path@) {
            Some(i) => prev.push((i, yaml_document_of(entries.last().blob@))),
            None => prev,
        }
    }
}

/// What reading every item of the store into the search database loads:
/// for each entry of the listing whose path holds an identifier, the
/// identifier and the YAML document to read the item from. Entries whose
/// paths hold no identifier are skipped.
pub fn items_to_load(store: &Store, entries: &Vec<EntryDescr>) -> (r: Vec<(Ident, String)>)
    requires
        store.wf(),
    ensures
        pairs_view(r@) == load_plan(entries@),
{
    let mut r: Vec<(Ident, String)> = Vec::new();
    let mut i: usize = 0;
    while i < entries.len()
        invariant
            store.wf(),
            i <= entries.len(),
            pairs_view(r@) == load_plan(entries@.subrange(0, i as int)),
        decreases entries.len() - i,
    {
        let e = &entries[i];
        proof {
            assert(entries@.subrange(0, i + 1).drop_last() =~= entries@.subrange(0, i as int));
            assert(entries@.subrange(0, i + 1).last() == *e);
        }
        match store.ident_from_path(e.path.as_str()) {
            None => {},
            Some(ident) => {
                let yaml = yaml_document(e.blob.as_str());
                let ghost before = r@;
                r.push((ident, yaml));
                proof {
                    assert(pairs_view(r@) =~= pairs_view(before).push((ident@, yaml@)));
                }
            },
        }
        i = i + 1;
    }
    proof {
        assert(entries@.subrange(0, i as int) =~= entries@);
    }
    r
}

/// Check that an item read from `path` is stored where its identifier
/// says: an error naming both paths and the identifier when it is not.
pub fn check_item_path(store: &Store, ident: &str, path: &str) -> (r: NullResult)
    ensures
        r is Ok <==> path_of(ident@) == path@,
        r matches Err(e) ==> e matches FanlingError::FanlingError(m) && m@ == "bad path "@ + path_of(ident@)
            + " vs "@ + path@ + " for "@ + ident@,
{
    let expected = store.path_from_ident(ident);
    if str_eq(expected.as_str(), path) {
        Ok(())
    } else {
        let mut msg = "bad path ".to_owned();
        msg.append(expected.as_str());
        msg.append(" vs ");
        msg.append(path);
        msg.append(" for ");
        msg.append(ident);
        Err(FanlingError::FanlingError(msg))
    }
}


/// The error that the user interface can ask for, to test how it shows errors.
pub fn test_error() -> (r: FLResult<String>)
    ensures
        r matches Err(e) && e matches FanlingError::FanlingError(m) && m@ == "test error"@,
{
    Err(FanlingError::new("test error"))
}


/// What an item does with an action of its own.
#[derive(PartialEq, Eq, Structural, Clone, Copy)]
pub enum ItemStep {
    /// show the item
    Show,
    /// show a form for editing the item
    Edit,
    /// hand the action to the item's data, then record the change
    DataAction,
}

/// What an item does with an action: show it, show a form for editing it,
/// or let its data (such as a task's) carry the action out.
pub fn item_action_step(action: &Action) -> (r: ItemStep)
    ensures
        *action is Show ==> r == ItemStep::Show,
        *action is Edit ==> r == ItemStep::Edit,
        !(*action is Show) && !(*action is Edit) ==> r == ItemStep::DataAction,
{
    match action {
        Action::Show => ItemStep::Show,
        Action::Edit => ItemStep::Edit,
        _ => ItemStep::DataAction,
    }
}

/// How an item is found by its identifier.
#[derive(PartialEq, Eq, Structural, Clone, Copy)]
pub enum LookupStep {
    /// the item is already known: use it
    Known,
    /// read the item from the store
    Read,
    /// make the missing item, then read it from the store
    MakeThenRead,
}

/// How to find an item: a known item is used as it is; otherwise it is
/// read from the store, after being made when automatic links are on and
/// the store has no file for it.
pub fn lookup_step(known: bool, auto_link: bool, has_file: bool) -> (r: LookupStep)
    ensures
        known ==> r == LookupStep::Known,
        !known && auto_link && !has_file ==> r == LookupStep::MakeThenRead,
        !known && !(auto_link && !has_file) ==> r == LookupStep::Read,
{
    if known {
        LookupStep::Known
    } else if auto_link && !has_file {
        LookupStep::MakeThenRead
    } else {
        LookupStep::Read
    }
}

} // verus!
