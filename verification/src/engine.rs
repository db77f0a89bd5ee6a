//! The engine: the requests that the user interface sends, and what the
//! engine decides to do with each request and each life-cycle event.
use vstd::prelude::*;
use crate::interface::{CycleEvent, Response, ResponseResult, ResponseView, StringMap};
use crate::item::{Ident, ItemBaseForSerde};
use crate::repo_shared::RepoOptions;
use crate::shared::{FLResult, FanlingError, NullResult};

verus! {

/// Actions that can be requested from the user interface.
pub enum Action {
    Start,
    Shutdown,
    DeleteEverything,
    Pull,
    PushAndQuit { force: bool },
    Push { force: bool },
    Show,
    Edit,
    Update(ItemBaseForSerde, StringMap),
    Delete,
    Archive,
    ListReady,
    ListOpen,
    ListAll,
    New,
    NewChild(Ident),
    Create(ItemBaseForSerde, StringMap),
    Clone,
    /// an action that was not understood (an error)
    Unknown,
    Close,
    Reopen,
    GetAll,
    CheckData,
    BlockBy(Ident),
    UnblockBy(Ident),
    TestError1,
    TestError2,
}

/// Overall classification of the kind of an action.
#[derive(PartialEq, Eq, Structural, Clone, Copy)]
pub enum ActionKind {
    /// handled by the engine itself
    Engine,
    /// handled by the collection of all items
    World,
    /// handled by one item
    Item,
}

/// The kind of an action; an unknown action has none.
pub open spec fn action_kind(a: Action) -> Option<ActionKind> {
    match a {
        Action::Shutdown | Action::PushAndQuit { .. } | Action::DeleteEverything | Action::TestError1 => Some(
            ActionKind::Engine,
        ),
        Action::Start | Action::Pull | Action::Create(_, _) | Action::Update(_, _) | Action::ListReady
        | Action::ListOpen | Action::ListAll | Action::Delete | Action::GetAll | Action::CheckData
        | Action::Push { .. } | Action::New | Action::Clone | Action::NewChild(_) | Action::TestError2 => Some(
            ActionKind::World,
        ),
        Action::Show | Action::Edit | Action::Archive | Action::Close | Action::Reopen | Action::BlockBy(_)
        | Action::UnblockBy(_) => Some(ActionKind::Item),
        Action::Unknown => None,
    }
}

impl Action {
    /// The kind of the action (an unknown action has no kind).
    pub fn kind(&self) -> (r: ActionKind)
        requires
            !(*self is Unknown),
        ensures
            action_kind(*self) == Some(r),
    {
        match self {
            Action::Shutdown | Action::PushAndQuit { .. } | Action::DeleteEverything | Action::TestError1 => {
                ActionKind::Engine
            },
            Action::Start | Action::Pull | Action::Create(_, _) | Action::Update(_, _) | Action::ListReady
            | Action::ListOpen | Action::ListAll | Action::Delete | Action::GetAll | Action::CheckData
            | Action::Push { .. } | Action::New | Action::Clone | Action::NewChild(_) | Action::TestError2 => {
                ActionKind::World
            },
            Action::Show | Action::Edit | Action::Archive | Action::Close | Action::Reopen | Action::BlockBy(_)
            | Action::UnblockBy(_) => ActionKind::Item,
            Action::Unknown => ActionKind::Item,
        }
    }
}

impl Default for Action {
    fn default() -> (r: Self)
        ensures
            r is Unknown,
    {
        Action::Unknown
    }
}

/// Options for various modules.
pub struct Options {
    pub repo_path: String,
    pub user_name: String,
    pub user_email: String,
}

/// The fields common to all requests: a request from the user interface
/// is read into a `BasicRequest`.
pub struct BasicRequest {
    /// the action requested
    pub action: Action,
    /// the name of the item type concerned, if any
    pub item_type: Option<String>,
    /// the identifier of the item concerned, if any
    pub ident: Option<String>,
}

impl Default for BasicRequest {
    fn default() -> (r: Self)
        ensures
            r.action is Unknown,
            r.item_type.is_none(),
            r.ident.is_none(),
    {
        BasicRequest { action: Action::Unknown, item_type: None, ident: None }
    }
}

impl BasicRequest {
    /// The item type of the request; an error when it has none.
    pub fn ensure_type_name(&self) -> (r: FLResult<String>)
        ensures
            match self.item_type {
                Some(t) => r matches Ok(s) && s@ == t@,
                None => r matches Err(e) && e matches FanlingError::FanlingError(m) && m@ == "no type name"@,
            },
    {
        match &self.item_type {
            Some(t) => Ok(t.clone()),
            None => Err(FanlingError::new("no type name")),
        }
    }

    /// The item identifier of the request; an error when it has none.
    pub fn ensure_ident(&self) -> (r: FLResult<String>)
        ensures
            match self.ident {
                Some(t) => r matches Ok(s) && s@ == t@,
                None => r matches Err(e) && e matches FanlingError::FanlingError(m) && m@ == "no ident"@,
            },
    {
        match &self.ident {
            Some(t) => Ok(t.clone()),
            None => Err(FanlingError::new("no ident")),
        }
    }
}

/// Options for the search database.
pub struct SearchOptions {
    /// path of the database file
    pub database_path: String,
}

/// Type of user interface that drives the engine.
#[derive(PartialEq, Eq, Structural, Clone, Copy)]
pub enum InterfaceType {
    Android,
    PC,
}

/// Options for an engine; some fields are passed down to components.
pub struct EngineOptions {
    /// options have been specified
    pub correct: bool,
    /// options for the git system
    pub repo_options: RepoOptions,
    /// type of user interface (PC or phone)
    pub interface_type: InterfaceType,
    /// options for the search system
    pub search_options: SearchOptions,
    /// unique prefix for identifiers (different for each instance)
    pub uniq_pfx: String,
    /// automatically make items for missing items in links
    pub auto_link: bool,
    /// file recording the overall status
    pub status_path: String,
    /// path containing all data
    pub root_path: String,
}

/// The recorded state of the data on disk.
#[derive(PartialEq, Eq, Structural, Clone, Copy)]
pub enum WorldStatus {
    /// nothing is recorded
    Unknown,
    /// building the data was started and did not finish
    Bad,
    /// the data was built
    Built,
}

impl WorldStatus {
    /// The name under which the status is recorded.
    pub fn name(&self) -> (r: &'static str)
        ensures
            *self == WorldStatus::Unknown ==> r@ == "Unknown"@,
            *self == WorldStatus::Bad ==> r@ == "Bad"@,
            *self == WorldStatus::Built ==> r@ == "Built"@,
    {
        match self {
            WorldStatus::Unknown => "Unknown",
            WorldStatus::Bad => "Bad",
            WorldStatus::Built => "Built",
        }
    }

    /// The status recorded under a name; an unrecognised name records none.
    pub fn from_name(name: &str) -> (r: WorldStatus)
        ensures
            name@ == "Bad"@ ==> r == WorldStatus::Bad,
            name@ == "Built"@ ==> r == WorldStatus::Built,
            name@ != "Bad"@ && name@ != "Built"@ ==> r == WorldStatus::Unknown,
    {
        proof {
            reveal_strlit("Bad");
            reveal_strlit("Built");
            assert("Bad"@.len() == 3 && "Built"@.len() == 5);
        }
        if crate::text::str_eq(name, "Bad") {
            WorldStatus::Bad
        } else if crate::text::str_eq(name, "Built") {
            WorldStatus::Built
        } else {
            WorldStatus::Unknown
        }
    }
}

/// What the engine has decided to do next.
pub enum EngineStep {
    /// answer with this response
    Respond(Response),
    /// push the store to the server (forcibly if `force`), then answer
    /// with an empty response
    PushThenRespond { force: bool },
    /// delete all the data under `root_path`, then answer with an empty response
    DeleteAll { root_path: String },
    /// hand the request to the collection of items
    ToWorld,
    /// fail with this error
    Fail(FanlingError),
}

/// The step of answering with an empty response.
pub open spec fn responds_empty(step: EngineStep) -> bool {
    step matches EngineStep::Respond(resp) && resp@ == Response::new_view()
}

/// What building the engine has come to, as the program reports it.
pub enum BuildEvent {
    /// the status recorded in the status file was read
    StatusRead(WorldStatus),
    /// the status was written to the status file
    StatusSaved(WorldStatus),
    /// creating the base directory and opening the collection of items
    /// succeeded, or failed with this error
    WorldOpened(NullResult),
    /// writing the status file failed with this error
    SaveFailed(FanlingError),
}

/// What building the engine does next.
pub enum BuildStep {
    /// write this status to the status file, then report it saved
    SaveStatus(WorldStatus),
    /// create the base directory and open the collection of items, then
    /// report the outcome
    OpenWorld,
    /// the engine is built
    Done(FanlingEngine),
    /// building fails with this error; the status file keeps what was
    /// last written to it
    Fail(FanlingError),
}

/// `r` is what the engine does for one of its own actions, with or
/// without a collection of items and with the data under `root_path`: a
/// shutdown answers with a response that asks the user interface to shut
/// down; pushing and quitting pushes (when there is a collection) and
/// answers with an empty response; deleting everything deletes the data;
/// the test error fails with "test error" when there is a collection.
pub open spec fn engine_step_for(action: Action, has_world: bool, root_path: Seq<char>, r: EngineStep) -> bool {
    match action {
        Action::Shutdown => r matches EngineStep::Respond(resp) && resp@ == (ResponseView {
            shutdown_required: true,
            ..Response::new_view()
        }),
        Action::PushAndQuit { force } => if has_world {
            r matches EngineStep::PushThenRespond { force: f } && f == force
        } else {
            responds_empty(r)
        },
        Action::DeleteEverything => r matches EngineStep::DeleteAll { root_path: p } && p@ == root_path,
        _ => if has_world {
            r matches EngineStep::Fail(e) && e matches FanlingError::FanlingError(m) && m@ == "test error"@
        } else {
            responds_empty(r)
        },
    }
}

/// The engine of the application (common across platforms).
pub struct FanlingEngine {
    /// whether the collection of items (the model) has been opened
    world_open: bool,
    /// path containing all data
    root_path: String,
}

impl FanlingEngine {
    /// Whether the engine has a collection of items.
    pub closed spec fn spec_has_world(&self) -> bool {
        self.world_open
    }

    /// The path containing all data.
    pub closed spec fn spec_root_path(&self) -> Seq<char> {
        self.root_path@
    }

    /// Whether the collection of items should be built: the options have
    /// been specified and an earlier build did not fail half way.
    pub fn wants_world(opts: &EngineOptions, status: WorldStatus) -> (r: bool)
        ensures
            r == (opts.correct && status != WorldStatus::Bad),
    {
        opts.correct && status != WorldStatus::Bad
    }

    /// An engine for the options, with or without an opened collection of items.
    pub fn new(opts: &EngineOptions, world_open: bool) -> (r: Self)
        ensures
            r.spec_has_world() == world_open,
            r.spec_root_path() == opts.root_path@,
    {
        FanlingEngine { world_open, root_path: opts.root_path.clone() }
    }

    /// The next step in building the engine for the options. When the
    /// options have been specified and the recorded status is not `Bad`,
    /// the status `Bad` is written first; then the collection of items is
    /// opened; only once it has opened is the status `Built` written, and
    /// the engine is built with the collection. Otherwise the engine is
    /// built without one. A failure to open the collection or to write the
    /// status fails the building, leaving the status `Bad` once it was
    /// written.
    pub fn build_step(opts: &EngineOptions, event: BuildEvent) -> (r: BuildStep)
        ensures
            match event {
                BuildEvent::StatusRead(s) => if opts.correct && s != WorldStatus::Bad {
                    r matches BuildStep::SaveStatus(t) && t == WorldStatus::Bad
                } else {
                    r matches BuildStep::Done(e) && !e.spec_has_world() && e.spec_root_path() == opts.root_path@
                },
                BuildEvent::StatusSaved(s) => match s {
                    WorldStatus::Bad => r is OpenWorld,
                    WorldStatus::Built => r matches BuildStep::Done(e) && e.spec_has_world() && e.spec_root_path()
                        == opts.root_path@,
                    WorldStatus::Unknown => r matches BuildStep::Done(e) && !e.spec_has_world()
                        && e.spec_root_path() == opts.root_path@,
                },
                BuildEvent::WorldOpened(o) => match o {
                    Ok(_) => r matches BuildStep::SaveStatus(t) && t == WorldStatus::Built,
                    Err(e) => r == BuildStep::Fail(e),
                },
                BuildEvent::SaveFailed(e) => r == BuildStep::Fail(e),
            },
    {
        match event {
            BuildEvent::StatusRead(s) => {
                if Self::wants_world(opts, s) {
                    BuildStep::SaveStatus(WorldStatus::Bad)
                } else {
                    BuildStep::Done(Self::new(opts, false))
                }
            },
            BuildEvent::StatusSaved(s) => match s {
                WorldStatus::Bad => BuildStep::OpenWorld,
                WorldStatus::Built => BuildStep::Done(Self::new(opts, true)),
                WorldStatus::Unknown => BuildStep::Done(Self::new(opts, false)),
            },
            BuildEvent::WorldOpened(o) => match o {
                Ok(_) => BuildStep::SaveStatus(WorldStatus::Built),
                Err(e) => BuildStep::Fail(e),
            },
            BuildEvent::SaveFailed(e) => BuildStep::Fail(e),
        }
    }

    /// The page shown when the engine has no collection of items: a request
    /// to set the SSH keys and the preferences.
    pub fn initial_html_without_world() -> (r: String)
        ensures
            r@ == "please set the SSH keys and the preferences"@,
    {
        "please set the SSH keys and the preferences".to_owned()
    }

    /// Whether the engine has a collection of items.
    pub fn has_world(&self) -> (r: bool)
        ensures
            r == self.spec_has_world(),
    {
        self.world_open
    }

    /// Notes that the engine is in use; does nothing else.
    pub fn touch(&self) {
    }

    /// The response telling the user interface to shut down.
    pub fn shutdown(&mut self) -> (r: ResponseResult)
        ensures
            *final(self) == *old(self),
            r matches Ok(resp) && resp@ == (ResponseView { shutdown_required: true, ..Response::new_view() }),
    {
        let mut resp = Response::new();
        resp.set_shutdown_required();
        Ok(resp)
    }

    /// Push the store (if there is one), then answer with an empty response.
    pub fn push_and_shutdown(&mut self, force: bool) -> (r: EngineStep)
        ensures
            *final(self) == *old(self),
            old(self).spec_has_world() ==> (r matches EngineStep::PushThenRespond { force: f } && f == force),
            !old(self).spec_has_world() ==> responds_empty(r),
    {
        if self.world_open {
            EngineStep::PushThenRespond { force }
        } else {
            let _ = self.shutdown();
            EngineStep::Respond(Response::new())
        }
    }

    /// What to do for an action handled by the engine itself.
    pub fn do_engine_action(&mut self, basic_request: &BasicRequest) -> (r: EngineStep)
        requires
            action_kind(basic_request.action) == Some(ActionKind::Engine),
        ensures
            *final(self) == *old(self),
            engine_step_for(basic_request.action, old(self).spec_has_world(), old(self).spec_root_path(), r),
    {
        match &basic_request.action {
            Action::Shutdown => match self.shutdown() {
                Ok(resp) => EngineStep::Respond(resp),
                Err(e) => EngineStep::Respond(Response::new()),
            },
            Action::PushAndQuit { force } => self.push_and_shutdown(*force),
            Action::DeleteEverything => EngineStep::DeleteAll { root_path: self.root_path.clone() },
            _ => {
                if self.world_open {
                    EngineStep::Fail(FanlingError::new("test error"))
                } else {
                    EngineStep::Respond(Response::new())
                }
            },
        }
    }

    /// What to do for a request: an unknown action fails; an action
    /// handled by the engine is decided as [`FanlingEngine::do_engine_action`]
    /// says; any other goes to the collection of items, or is answered
    /// with an empty response when there is none.
    pub fn execute_request(&mut self, basic_request: &BasicRequest) -> (r: EngineStep)
        ensures
            *final(self) == *old(self),
            basic_request.action is Unknown ==> (r matches EngineStep::Fail(e) && e matches FanlingError::FanlingError(
                m,
            ) && m@ == "error in execute"@),
            action_kind(basic_request.action) == Some(ActionKind::Engine) ==> engine_step_for(
                basic_request.action,
                old(self).spec_has_world(),
                old(self).spec_root_path(),
                r,
            ),
            action_kind(basic_request.action) == Some(ActionKind::World) || action_kind(basic_request.action)
                == Some(ActionKind::Item) ==> if old(self).spec_has_world() {
                r is ToWorld
            } else {
                responds_empty(r)
            },
    {
        if let Action::Unknown = basic_request.action {
            return EngineStep::Fail(FanlingError::new("error in execute"));
        }
        match basic_request.action.kind() {
            ActionKind::Engine => self.do_engine_action(basic_request),
            ActionKind::World | ActionKind::Item => {
                if self.world_open {
                    EngineStep::ToWorld
                } else {
                    EngineStep::Respond(Response::new())
                }
            },
        }
    }

    /// What to do for a life-cycle event: a stop pushes the store (if
    /// any) and answers with an empty response; any other event is
    /// answered with an empty response.
    pub fn handle_event(&mut self, event: &CycleEvent) -> (r: EngineStep)
        ensures
            *final(self) == *old(self),
            match *event {
                CycleEvent::Stop | CycleEvent::StopPC => if old(self).spec_has_world() {
                    r matches EngineStep::PushThenRespond { force: f } && !f
                } else {
                    responds_empty(r)
                },
                _ => responds_empty(r),
            },
    {
        match event {
            CycleEvent::Start | CycleEvent::Pause | CycleEvent::Resume | CycleEvent::Destroy => {
                EngineStep::Respond(Response::new())
            },
            CycleEvent::Stop | CycleEvent::StopPC => self.push_and_shutdown(false),
        }
    }
}

} // verus!
