//! The C-friendly interface (used by the Android application): its
//! life-cycle events, its options, and what it reports of a response.
use vstd::prelude::*;
use crate::engine::{EngineOptions, InterfaceType, SearchOptions};
use crate::interface::{CycleEvent, ResponseResult};
use crate::repo_shared::RepoOptions;

verus! {

/// Application life-cycle events as sent through the C interface.
pub enum CCycleEvent {
    /// open the application
    Start,
    /// pause the application; the engine should save state
    Pause,
    /// resume the application with the state saved at the most recent `Pause`
    Resume,
    /// stop the application
    Stop,
    /// stop for the PC interface (probably not used)
    StopPC,
}

/// The C form of an event: both kinds of stop, and the destruction of
/// the application, are sent as a stop.
pub open spec fn spec_for_c(event: CycleEvent) -> CCycleEvent {
    match event {
        CycleEvent::Start => CCycleEvent::Start,
        CycleEvent::Pause => CCycleEvent::Pause,
        CycleEvent::Resume => CCycleEvent::Resume,
        CycleEvent::Stop | CycleEvent::StopPC | CycleEvent::Destroy => CCycleEvent::Stop,
    }
}

/// The event that a C event stands for: both kinds of stop are a stop.
pub open spec fn spec_from_c(event: CCycleEvent) -> CycleEvent {
    match event {
        CCycleEvent::Start => CycleEvent::Start,
        CCycleEvent::Pause => CycleEvent::Pause,
        CCycleEvent::Resume => CycleEvent::Resume,
        CCycleEvent::Stop | CCycleEvent::StopPC => CycleEvent::Stop,
    }
}

/// Sending an event through the C interface keeps it, but for the kinds
/// of stop and the destruction, which all arrive as a stop; and a C event
/// other than the PC stop comes back as itself.
pub proof fn lemma_cycle_round_trip(event: CycleEvent, c: CCycleEvent)
    ensures
        !(event is StopPC || event is Destroy) ==> spec_from_c(spec_for_c(event)) == event,
        (event is StopPC || event is Destroy) ==> spec_from_c(spec_for_c(event)) == CycleEvent::Stop,
        !(c is StopPC) ==> spec_for_c(spec_from_c(c)) == c,
{
}

impl CCycleEvent {
    /// The C form of an event: both kinds of stop, and the destruction of
    /// the application, are sent as a stop.
    pub fn for_c(event: CycleEvent) -> (r: CCycleEvent)
        ensures
            r == spec_for_c(event),
    {
        match event {
            CycleEvent::Start => CCycleEvent::Start,
            CycleEvent::Pause => CCycleEvent::Pause,
            CycleEvent::Resume => CCycleEvent::Resume,
            CycleEvent::Stop | CycleEvent::StopPC | CycleEvent::Destroy => CCycleEvent::Stop,
        }
    }

    /// The event that a C event stands for: both kinds of stop are a stop.
    pub fn from_c(event: CCycleEvent) -> (r: CycleEvent)
        ensures
            r == spec_from_c(event),
    {
        match event {
            CCycleEvent::Start => CycleEvent::Start,
            CCycleEvent::Pause => CycleEvent::Pause,
            CCycleEvent::Resume => CycleEvent::Resume,
            CCycleEvent::Stop | CCycleEvent::StopPC => CycleEvent::Stop,
        }
    }
}

/// The options that the Android application sends (as JSON).
pub struct FanlingOptions {
    pub database_path: String,
    pub git_path: String,
    pub name: String,
    pub email: String,
    pub url: String,
    pub have_url: bool,
    pub branch: String,
    pub unique_prefix: String,
    pub ssh_path: String,
    pub slurp_ssh: bool,
}

/// The engine options for the Android application: the repository at
/// the git path, with the remote URL only when one is given and the
/// requested branch, the other repository options at their defaults; an
/// Android interface; no automatic links. `root_path` and `status_path`
/// say where all the data and the status record are kept.
pub fn engine_options_for_android(fo: FanlingOptions, root_path: String, status_path: String) -> (r: EngineOptions)
    ensures
        r.correct,
        r.repo_options.path@ == fo.git_path@,
        r.repo_options.name@ == fo.name@,
        r.repo_options.email@ == fo.email@,
        fo.have_url ==> (r.repo_options.url matches Some(u) && u@ == fo.url@),
        !fo.have_url ==> r.repo_options.url is None,
        r.repo_options.required_branch matches Some(b) && b@ == fo.branch@,
        r.repo_options.required_remote matches Some(rr) && rr@ == "origin"@,
        r.repo_options.item_dir@ == "items"@,
        !r.repo_options.write_to_server,
        r.repo_options.ssh_path@ == fo.ssh_path@,
        r.repo_options.slurp_ssh == fo.slurp_ssh,
        r.interface_type == InterfaceType::Android,
        r.search_options.database_path@ == fo.database_path@,
        r.uniq_pfx@ == fo.unique_prefix@,
        !r.auto_link,
        r.status_path@ == status_path@,
        r.root_path@ == root_path@,
{
    let defaults = RepoOptions::default();
    let repo_options = RepoOptions {
        path: fo.git_path,
        name: fo.name,
        email: fo.email,
        url: if fo.have_url {
            Some(fo.url)
        } else {
            None
        },
        required_branch: Some(fo.branch),
        ssh_path: fo.ssh_path,
        slurp_ssh: fo.slurp_ssh,
        ..defaults
    };
    EngineOptions {
        correct: true,
        repo_options,
        interface_type: InterfaceType::Android,
        search_options: SearchOptions { database_path: fo.database_path },
        uniq_pfx: fo.unique_prefix,
        auto_link: false,
        status_path,
        root_path,
    }
}

/// Whether the last response is a response (not an error).
pub fn response_ok(last_response: &ResponseResult) -> (r: bool)
    ensures
        r == last_response is Ok,
{
    last_response.is_ok()
}

/// The number of items in the last response (none for an error).
pub fn response_num_items(last_response: &ResponseResult) -> (r: i32)
    requires
        last_response matches Ok(resp) ==> resp@.tags.len() <= i32::MAX,
    ensures
        match last_response {
            Ok(resp) => r == resp@.tags.len(),
            Err(_) => r == 0,
        },
{
    match last_response {
        Ok(resp) => resp.num_tags() as i32,
        Err(_) => 0,
    }
}

/// The item of the last response at index `n` (two empty strings for an error).
pub fn response_item(last_response: &ResponseResult, n: i32) -> (r: (String, String))
    requires
        last_response matches Ok(resp) ==> 0 <= n < resp@.tags.len(),
    ensures
        match last_response {
            Ok(resp) => (r.0@, r.1@) == resp@.tags[n as int],
            Err(_) => r.0@.len() == 0 && r.1@.len() == 0,
        },
{
    match last_response {
        Ok(resp) => resp.get_tag(n as usize),
        Err(_) => (String::new(), String::new()),
    }
}

/// The error message of the last response (empty for a response).
pub fn response_error(last_response: &ResponseResult) -> (r: String)
    ensures
        match last_response {
            Ok(_) => r@.len() == 0,
            Err(e) => r@ == e.message()@,
        },
{
    match last_response {
        Ok(_) => String::new(),
        Err(e) => e.to_string(),
    }
}

/// Whether the last response requires the application to shut down.
pub fn is_shutdown_required(last_response: &ResponseResult) -> (r: bool)
    ensures
        match last_response {
            Ok(resp) => r == resp@.shutdown_required,
            Err(_) => !r,
        },
{
    match last_response {
        Ok(resp) => resp.is_shutdown_required(),
        Err(_) => false,
    }
}

} // verus!
