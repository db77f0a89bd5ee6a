//! Task items (to-do items): their data, their status, whether they are
//! ready, their validation and the merging of two versions of a task.
use vstd::prelude::*;
use crate::engine::Action;
use crate::convert::{
    format_utc_millis, formatted_utc_millis, i8_parse_error_text, lowercase_of, parse_i8, parse_utc_millis, parsed_i8, parsed_utc_millis,
    to_lowercase,
};
use crate::interface::{Response, StringMap};
use crate::item::{opt_seq, Ident};
use crate::shared::{changeset_diffs, diff_texts, merge_strings, FLResult, FanlingError, NullResult};
use crate::text::{concat_seqs, contains_ident, str_eq, strings_view};
use crate::world::ActionResponse;

verus! {

/// Possible values of the status of a task.
#[derive(PartialEq, Eq, Structural, Clone, Copy)]
pub enum TaskStatus {
    Open,
    Closed,
}

/// The status that a serialised status text denotes: "open" (in any case)
/// and the empty text denote open, "closed" denotes closed, and any other
/// text denotes open.
pub open spec fn spec_status_from_name(s: Seq<char>) -> TaskStatus {
    let l = lowercase_of(s);
    if l == "closed"@ {
        TaskStatus::Closed
    } else {
        TaskStatus::Open
    }
}

impl TaskStatus {
    /// Whether the status is the default (open).
    pub fn is_default(&self) -> (r: bool)
        ensures
            r == (*self == TaskStatus::Open),
    {
        *self == Self::default()
    }

    /// The status that a serialised status text denotes.
    pub fn from_name(status: &str) -> (r: TaskStatus)
        ensures
            r == spec_status_from_name(status@),
    {
        let l = to_lowercase(status);
        proof {
            reveal_strlit("open");
            reveal_strlit("");
            reveal_strlit("closed");
        }
        if str_eq(l.as_str(), "open") || str_eq(l.as_str(), "") {
            assert("open"@.len() == 4 && ""@.len() == 0 && "closed"@.len() == 6);
            TaskStatus::Open
        } else if str_eq(l.as_str(), "closed") {
            TaskStatus::Closed
        } else {
            TaskStatus::Open
        }
    }

    /// The name of the status (as it is displayed).
    pub fn name(&self) -> (r: String)
        ensures
            r@ == (if *self == TaskStatus::Open { "Open"@ } else { "Closed"@ }),
    {
        match self {
            TaskStatus::Open => "Open".to_owned(),
            TaskStatus::Closed => "Closed".to_owned(),
        }
    }
}

impl Default for TaskStatus {
    fn default() -> (r: Self)
        ensures
            r == TaskStatus::Open,
    {
        TaskStatus::Open
    }
}

/// The mathematical content of a [`Task`].
pub struct TaskView {
    pub name: Seq<char>,
    pub text: Seq<char>,
    pub context: Option<Seq<char>>,
    pub status: TaskStatus,
    pub priority: i8,
    pub when_closed: i64,
    pub project: Seq<char>,
    pub deadline: i64,
    pub show_after_date: i64,
    pub blockedby: Seq<Seq<char>>,
}

/// The data of a task item.
pub struct Task {
    /// the name of the task
    pub name: String,
    /// the text of the task in Markdown format
    pub text: String,
    /// the identifier of the context of the task (the conditions for carrying it out)
    pub context: Option<Ident>,
    /// status of the task
    pub status: TaskStatus,
    /// priority of the task
    pub priority: i8,
    /// when the task was closed, if it has been (milliseconds since the epoch)
    pub when_closed: i64,
    /// legacy project field
    pub project: String,
    /// the deadline for completion (milliseconds since the epoch; 0 for none)
    pub deadline: i64,
    /// only show the task as ready after this time (0 for always)
    pub show_after_date: i64,
    /// identifiers of the tasks that block this one; it is not ready until
    /// all of them are closed
    pub blockedby: Vec<Ident>,
}

impl View for Task {
    type V = TaskView;

    open spec fn view(&self) -> TaskView {
        TaskView {
            name: self.name@,
            text: self.text@,
            context: opt_seq(self.context),
            status: self.status,
            priority: self.priority,
            when_closed: self.when_closed,
            project: self.project@,
            deadline: self.deadline,
            show_after_date: self.show_after_date,
            blockedby: strings_view(self.blockedby@),
        }
    }
}

/// `s` without any occurrence of `x`.
pub open spec fn without(s: Seq<Seq<char>>, x: Seq<char>) -> Seq<Seq<char>>
    decreases s.len(),
{
    if s.len() == 0 {
        s
    } else if s.last() == x {
        without(s.drop_last(), x)
    } else {
        without(s.drop_last(), x).push(s.last())
    }
}

/// `a` followed by each element of `b` that is not already there.
pub open spec fn append_new(a: Seq<Seq<char>>, b: Seq<Seq<char>>) -> Seq<Seq<char>>
    decreases b.len(),
{
    if b.len() == 0 {
        a
    } else {
        let prefix = append_new(a, b.drop_last());
        if prefix.contains(b.last()) {
            prefix
        } else {
            prefix.push(b.last())
        }
    }
}

/// The smaller of two integers.
pub open spec fn min_i64(a: i64, b: i64) -> i64 {
    if a <= b { a } else { b }
}

/// The result of merging `theirs` into `ours` (both versions of a task):
/// the names and texts are merged word by word; the task is closed if
/// either version is (taking their closing time when only theirs is);
/// the priority, deadline and show-after time are the smaller of the two;
/// the blockers are ours followed by each of theirs that is new.
pub open spec fn merged_task(ours: TaskView, theirs: TaskView) -> TaskView {
    let closes = ours.status == TaskStatus::Open && theirs.status == TaskStatus::Closed;
    TaskView {
        name: concat_seqs(diff_texts(changeset_diffs(ours.name, theirs.name, " "@))),
        text: concat_seqs(diff_texts(changeset_diffs(ours.text, theirs.text, " "@))),
        status: if closes { TaskStatus::Closed } else { ours.status },
        when_closed: if closes { theirs.when_closed } else { ours.when_closed },
        priority: if ours.priority <= theirs.priority { ours.priority } else { theirs.priority },
        deadline: min_i64(ours.deadline, theirs.deadline),
        show_after_date: min_i64(ours.show_after_date, theirs.show_after_date),
        blockedby: append_new(ours.blockedby, theirs.blockedby),
        ..ours
    }
}

/// The task that serialised task data denotes: an empty context means
/// the context `default_context`; the legacy closed flag is not read.
pub open spec fn task_view_from(task: TaskForSerde) -> TaskView {
    TaskView {
        name: task.name@,
        text: task.text@,
        context: Some(if task.context@.len() == 0 { "default_context"@ } else { task.context@ }),
        status: task.status,
        priority: task.priority,
        when_closed: task.when_closed,
        project: task.project@,
        deadline: task.deadline,
        show_after_date: task.show_after_date,
        blockedby: strings_view(task.blockedby@),
    }
}

/// The value of `key`, if any.
pub open spec fn map_get(vals: Map<Seq<char>, Seq<char>>, key: Seq<char>) -> Option<Seq<char>> {
    if vals.contains_key(key) { Some(vals[key]) } else { None }
}

/// The format of dates entered by the user.
pub open spec fn date_format() -> Seq<char> {
    "%F %T"@
}

/// The value of an optional date field: 0 when absent, the time it denotes
/// when present, `None` when it does not denote a time.
pub open spec fn date_field(vals: Map<Seq<char>, Seq<char>>, key: Seq<char>) -> Option<i64> {
    match map_get(vals, key) {
        Some(d) => match parsed_utc_millis(d, date_format()) {
            Ok(t) => Some(t),
            Err(_) => None,
        },
        None => Some(0),
    }
}

/// The value of the optional priority field: 0 when absent, the number it
/// denotes when present, `None` when it does not denote an `i8`.
pub open spec fn priority_field(vals: Map<Seq<char>, Seq<char>>) -> Option<i8> {
    match map_get(vals, "priority"@) {
        Some(x) => parsed_i8(x),
        None => Some(0i8),
    }
}

/// The result of setting a task's data from a map of values, and whether
/// it succeeded. The fields are set in order (name, text, priority,
/// context, deadline, show-after time) and setting stops at the first bad
/// value, leaving the fields set so far.
pub open spec fn set_data_spec(t: TaskView, vals: Map<Seq<char>, Seq<char>>) -> (TaskView, bool) {
    if !vals.contains_key("name"@) {
        (t, false)
    } else {
        let t1 = TaskView {
            name: vals["name"@],
            text: match map_get(vals, "text"@) {
                Some(x) => x,
                None => Seq::empty(),
            },
            ..t
        };
        let p = priority_field(vals);
        if p.is_none() {
            (t1, false)
        } else {
            let t2 = TaskView { priority: p.unwrap(), context: map_get(vals, "context"@), ..t1 };
            let d = date_field(vals, "deadline"@);
            if d.is_none() {
                (t2, false)
            } else {
                let t3 = TaskView { deadline: d.unwrap(), ..t2 };
                let s = date_field(vals, "show_after_date"@);
                if s.is_none() {
                    (t3, false)
                } else {
                    (TaskView { show_after_date: s.unwrap(), ..t3 }, true)
                }
            }
        }
    }
}

/// Whether the task is ready at time `now`, given whether each of its
/// blockers is open: it is open, its show-after time (if any) has come, and
/// none of its blockers is open.
pub open spec fn spec_is_ready(t: TaskView, now: i64, blocker_open: Seq<bool>) -> bool {
    &&& t.status == TaskStatus::Open
    &&& !(t.show_after_date != 0 && t.show_after_date > now)
    &&& forall|i: int| 0 <= i < blocker_open.len() ==> !blocker_open[i]
}

/// The description of a task: an arrow, the status when it is not open,
/// the deadline date when there is one, then the name.
pub open spec fn spec_description(t: TaskView) -> Seq<char> {
    "→ "@ + (if t.status == TaskStatus::Open { Seq::empty() } else { "[Closed] "@ }) + (if t.deadline >= 1000 {
        match formatted_utc_millis(t.deadline, "%Y-%m-%d"@) {
            Some(d) => "["@ + d + "] "@,
            None => Seq::empty(),
        }
    } else {
        Seq::empty()
    }) + t.name
}

/// A copy of an optional identifier.
pub fn copy_opt(o: &Option<Ident>) -> (r: Option<Ident>)
    ensures
        opt_seq(r) == opt_seq(*o),
{
    match o {
        Some(s) => Some(s.clone()),
        None => None,
    }
}

/// A copy of a list of identifiers.
fn copy_idents(v: &Vec<Ident>) -> (r: Vec<Ident>)
    ensures
        strings_view(r@) == strings_view(v@),
{
    let mut r: Vec<Ident> = Vec::new();
    let mut i: usize = 0;
    while i < v.len()
        invariant
            i <= v.len(),
            strings_view(r@) == strings_view(v@).subrange(0, i as int),
        decreases v.len() - i,
    {
        let ghost before = r@;
        r.push(v[i].clone());
        proof {
            assert(strings_view(r@) =~= strings_view(before).push(v@[i as int]@));
            assert(strings_view(v@).subrange(0, i + 1) =~= strings_view(v@).subrange(0, i as int).push(v@[i as int]@));
        }
        i = i + 1;
    }
    proof {
        assert(strings_view(v@).subrange(0, i as int) =~= strings_view(v@));
    }
    r
}


impl Task {
    /// A new open task with no name, text, context, blockers or dates, and priority 10.
    pub fn new() -> (r: Self)
        ensures
            r@ == (TaskView {
                name: Seq::empty(),
                text: Seq::empty(),
                context: None,
                status: TaskStatus::Open,
                priority: 10,
                when_closed: 0,
                project: Seq::empty(),
                deadline: 0,
                show_after_date: 0,
                blockedby: Seq::empty(),
            }),
    {
        let r = Self {
            name: String::new(),
            text: String::new(),
            context: None,
            priority: 10,
            status: TaskStatus::Open,
            when_closed: 0,
            project: String::new(),
            deadline: 0,
            show_after_date: 0,
            blockedby: Vec::new(),
        };
        proof {
            assert(strings_view(r.blockedby@) =~= Seq::<Seq<char>>::empty());
        }
        r
    }

    /// Close the task at time `now`.
    pub fn close(&mut self, now: i64)
        ensures
            final(self)@ == (TaskView { status: TaskStatus::Closed, when_closed: now, ..old(self)@ }),
    {
        self.status = TaskStatus::Closed;
        self.when_closed = now;
    }

    /// Carry out an action on the task at time `now`: close, reopen, block
    /// or unblock it. Whether the action is one of these (any other leaves
    /// the task unchanged).
    pub fn do_action(&mut self, action: &Action, now: i64) -> (r: bool)
        ensures
            match *action {
                Action::Close => r && final(self)@ == (TaskView {
                    status: TaskStatus::Closed,
                    when_closed: now,
                    ..old(self)@
                }),
                Action::Reopen => r && final(self)@ == (TaskView { status: TaskStatus::Open, ..old(self)@ }),
                Action::BlockBy(i) => r && final(self)@ == (TaskView {
                    blockedby: old(self)@.blockedby.push(i@),
                    ..old(self)@
                }),
                Action::UnblockBy(i) => r && final(self)@ == (TaskView {
                    blockedby: without(old(self)@.blockedby, i@),
                    ..old(self)@
                }) && final(self)@.blockedby == old(self)@.blockedby.filter(other_than(i@)),
                _ => !r && final(self)@ == old(self)@,
            },
    {
        match action {
            Action::Close => {
                self.close(now);
                true
            },
            Action::Reopen => {
                self.reopen();
                true
            },
            Action::BlockBy(ident) => {
                self.block(ident.as_str());
                true
            },
            Action::UnblockBy(ident) => {
                self.unblock(ident.as_str());
                true
            },
            _ => false,
        }
    }

    /// Reopen the task.
    pub fn reopen(&mut self)
        ensures
            final(self)@ == (TaskView { status: TaskStatus::Open, ..old(self)@ }),
    {
        self.status = TaskStatus::Open;
    }

    /// Record that the task is blocked by `ident`.
    pub fn block(&mut self, ident: &str)
        ensures
            final(self)@ == (TaskView { blockedby: old(self)@.blockedby.push(ident@), ..old(self)@ }),
    {
        self.blockedby.push(ident.to_owned());
        proof {
            assert(strings_view(self.blockedby@) =~= strings_view(old(self).blockedby@).push(ident@));
        }
    }

    /// Record that the task is no longer blocked by `ident` (every occurrence goes).
    pub fn unblock(&mut self, ident: &str)
        ensures
            final(self)@ == (TaskView { blockedby: without(old(self)@.blockedby, ident@), ..old(self)@ }),
            final(self)@.blockedby == old(self)@.blockedby.filter(other_than(ident@)),
    {
        let mut kept: Vec<Ident> = Vec::new();
        let mut i: usize = 0;
        while i < self.blockedby.len()
            invariant
                i <= self.blockedby.len(),
                self.blockedby == old(self).blockedby,
                strings_view(kept@) == without(strings_view(self.blockedby@).subrange(0, i as int), ident@),
            decreases self.blockedby.len() - i,
        {
            let ghost s = strings_view(self.blockedby@).subrange(0, i + 1);
            proof {
                assert(s.drop_last() =~= strings_view(self.blockedby@).subrange(0, i as int));
                assert(s.last() == self.blockedby@[i as int]@);
            }
            if !str_eq(self.blockedby[i].as_str(), ident) {
                let ghost before = kept@;
                kept.push(self.blockedby[i].clone());
                proof {
                    assert(strings_view(kept@) =~= strings_view(before).push(self.blockedby@[i as int]@));
                }
            }
            i = i + 1;
        }
        proof {
            assert(strings_view(self.blockedby@).subrange(0, i as int) =~= strings_view(self.blockedby@));
        }
        self.blockedby = kept;
        proof {
            lemma_without_filters(old(self)@.blockedby, ident@);
        }
    }

    /// Whether the task is open.
    pub fn is_open(&self) -> (r: bool)
        ensures
            r == (self.status == TaskStatus::Open),
    {
        match self.status {
            TaskStatus::Open => true,
            TaskStatus::Closed => false,
        }
    }

    /// Whether the task is ready at time `now`; `blocker_open[i]` says
    /// whether the i-th blocker is open.
    pub fn is_ready(&self, now: i64, blocker_open: &Vec<bool>) -> (r: bool)
        requires
            blocker_open.len() == self.blockedby.len(),
        ensures
            r == spec_is_ready(self@, now, blocker_open@),
            forall|i: int| 0 <= i < blocker_open@.len() && #[trigger] blocker_open@[i] ==> !r,
            r ==> self.status == TaskStatus::Open,
            self.show_after_date != 0 && self.show_after_date > now ==> !r,
            self.status == TaskStatus::Open && !(self.show_after_date != 0 && self.show_after_date > now) && (forall|i: int|
                0 <= i < blocker_open@.len() ==> !(#[trigger] blocker_open@[i])) ==> r,
    {
        if !self.is_open() {
            return false;
        }
        if self.show_after_date != 0 && self.show_after_date > now {
            return false;
        }
        let mut i: usize = 0;
        while i < blocker_open.len()
            invariant
                i <= blocker_open.len(),
                forall|j: int| 0 <= j < i ==> !blocker_open@[j],
            decreases blocker_open.len() - i,
        {
            if blocker_open[i] {
                return false;
            }
            i = i + 1;
        }
        true
    }

    /// The text from which an identifier for the task is made: its name.
    pub fn descr_for_ident(&self) -> (r: String)
        ensures
            r@ == self.name@,
    {
        self.name.clone()
    }

    /// An English-language description of the task.
    pub fn description(&self) -> (r: String)
        ensures
            r@ == spec_description(self@),
    {
        let mut r = "→ ".to_owned();
        if !self.is_open() {
            r.append("[Closed] ");
        }
        if self.deadline >= 1000 {
            match format_utc_millis(self.deadline, "%Y-%m-%d") {
                Some(d) => {
                    r.append("[");
                    r.append(d.as_str());
                    r.append("] ");
                },
                None => {},
            }
        }
        r.append(self.name.as_str());
        r
    }

    /// A description of the task for a list: its name.
    pub fn description_for_list(&self) -> (r: String)
        ensures
            r@ == self.name@,
    {
        self.name.clone()
    }

    /// Set the task's data from a map of values (see [`set_data_spec`]).
    /// The context is given by its identifier; looking the item up is the
    /// caller's part.
    pub fn set_data(&mut self, vals: &StringMap) -> (r: NullResult)
        ensures
            final(self)@ == set_data_spec(old(self)@, vals@).0,
            r is Ok == set_data_spec(old(self)@, vals@).1,
            vals@.contains_key("name"@) ==> final(self).name@ == vals@["name"@],
            vals@.contains_key("name"@) ==> final(self).text@ == (if vals@.contains_key("text"@) {
                vals@["text"@]
            } else {
                Seq::<char>::empty()
            }),
            !vals@.contains_key("name"@) ==> (r matches Err(e) && e matches FanlingError::FanlingError(m) && m@
                == "no name"@),
            vals@.contains_key("name"@) && priority_field(vals@) is None ==> (r matches Err(e) && e matches FanlingError::ParseInt(m)
                && m@ == i8_parse_error_text(vals@["priority"@])),
            vals@.contains_key("name"@) && priority_field(vals@) is Some && date_field(vals@, "deadline"@) is None ==> (
            r matches Err(e) && e matches FanlingError::DateTime(m) && Err::<i64, Seq<char>>(m@) == parsed_utc_millis(vals@["deadline"@], date_format())),
            vals@.contains_key("name"@) && priority_field(vals@) is Some && date_field(vals@, "deadline"@) is Some
                && date_field(vals@, "show_after_date"@) is None ==> (r matches Err(e) && e matches FanlingError::DateTime(m)
                && Err::<i64, Seq<char>>(m@) == parsed_utc_millis(vals@["show_after_date"@], date_format())),
    {
        match vals.get_opt("name") {
            Some(s) => {
                self.name = s;
            },
            None => {
                return Err(FanlingError::new("no name"));
            },
        }
        self.text = match vals.get_opt("text") {
            Some(s) => s,
            None => String::new(),
        };
        self.priority = match vals.get_opt("priority") {
            Some(s) => match parse_i8(s.as_str()) {
                Ok(p) => p,
                Err(m) => {
                    return Err(FanlingError::ParseInt(m));
                },
            },
            None => 0,
        };
        self.context = vals.get_opt("context");
        self.deadline = match vals.get_opt("deadline") {
            Some(dl) => match parse_utc_millis(dl.as_str(), "%F %T") {
                Ok(d) => d,
                Err(m) => {
                    return Err(FanlingError::DateTime(m));
                },
            },
            None => 0,
        };
        self.show_after_date = match vals.get_opt("show_after_date") {
            Some(dl) => match parse_utc_millis(dl.as_str(), "%F %T") {
                Ok(d) => d,
                Err(m) => {
                    return Err(FanlingError::DateTime(m));
                },
            },
            None => 0,
        };
        Ok(())
    }

    /// A copy of the task that is open and has no closing time and no blockers.
    pub fn fanling_clone(&self) -> (r: Self)
        ensures
            r@ == (TaskView {
                status: TaskStatus::Open,
                when_closed: 0,
                blockedby: Seq::empty(),
                ..self@
            }),
    {
        let r = Self {
            name: self.name.clone(),
            text: self.text.clone(),
            context: copy_opt(&self.context),
            priority: self.priority,
            status: TaskStatus::Open,
            when_closed: 0,
            project: self.project.clone(),
            deadline: self.deadline,
            show_after_date: self.show_after_date,
            blockedby: Vec::new(),
        };
        proof {
            assert(strings_view(r.blockedby@) =~= Seq::<Seq<char>>::empty());
        }
        r
    }

    /// Merge their version of the task into ours (see [`merged_task`]).
    pub fn merge_from(&mut self, theirs: &Task)
        ensures
            final(self)@ == merged_task(old(self)@, theirs@),
            final(self).name@ == concat_seqs(diff_texts(changeset_diffs(old(self).name@, theirs.name@, " "@))),
            final(self).text@ == concat_seqs(diff_texts(changeset_diffs(old(self).text@, theirs.text@, " "@))),
    {
        self.name = merge_strings(self.name.as_str(), theirs.name.as_str());
        self.text = merge_strings(self.text.as_str(), theirs.text.as_str());
        if self.status == TaskStatus::Open {
            if theirs.status == TaskStatus::Closed {
                self.status = TaskStatus::Closed;
                self.when_closed = theirs.when_closed;
            }
        }
        if theirs.priority < self.priority {
            self.priority = theirs.priority;
        }
        if theirs.deadline < self.deadline {
            self.deadline = theirs.deadline;
        }
        if theirs.show_after_date < self.show_after_date {
            self.show_after_date = theirs.show_after_date;
        }
        let ghost ours_b = strings_view(self.blockedby@);
        let ghost before_loop = self@;
        let mut i: usize = 0;
        while i < theirs.blockedby.len()
            invariant
                i <= theirs.blockedby.len(),
                self@ == (TaskView { blockedby: strings_view(self.blockedby@), ..before_loop }),
                strings_view(self.blockedby@) == append_new(ours_b, strings_view(theirs.blockedby@).subrange(0, i as int)),
            decreases theirs.blockedby.len() - i,
        {
            let ghost b = strings_view(theirs.blockedby@).subrange(0, i + 1);
            proof {
                assert(b.drop_last() =~= strings_view(theirs.blockedby@).subrange(0, i as int));
                assert(b.last() == theirs.blockedby@[i as int]@);
            }
            let t = &theirs.blockedby[i];
            if !contains_ident(&self.blockedby, t.as_str()) {
                let ghost before = self.blockedby@;
                self.blockedby.push(t.clone());
                proof {
                    assert(strings_view(self.blockedby@) =~= strings_view(before).push(t@));
                }
            }
            i = i + 1;
        }
        proof {
            assert(strings_view(theirs.blockedby@).subrange(0, i as int) =~= strings_view(theirs.blockedby@));
        }
    }

    /// The task that the serialised data denotes: an empty context means
    /// the context `default_context`.
    pub fn task_from(task: &TaskForSerde) -> (r: Self)
        ensures
            r@ == task_view_from(*task),
    {
        let context = if task.context.as_str().is_empty() {
            "default_context".to_owned()
        } else {
            task.context.clone()
        };
        Self {
            name: task.name.clone(),
            text: task.text.clone(),
            context: Some(context),
            status: task.status,
            priority: task.priority,
            when_closed: task.when_closed,
            project: task.project.clone(),
            deadline: task.deadline,
            show_after_date: task.show_after_date,
            blockedby: copy_idents(&task.blockedby),
        }
    }
}

/// Task data in a form that can be serialised.
pub struct TaskForSerde {
    pub name: String,
    pub text: String,
    pub context: Ident,
    pub status: TaskStatus,
    pub priority: i8,
    pub when_closed: i64,
    pub project: String,
    pub deadline: i64,
    pub show_after_date: i64,
    pub blockedby: Vec<Ident>,
    /// legacy field: the task is closed
    pub closed: bool,
}

impl Default for TaskForSerde {
    fn default() -> (r: Self)
        ensures
            r.name@ == Seq::<char>::empty(),
            r.text@ == Seq::<char>::empty(),
            r.context@ == Seq::<char>::empty(),
            r.status == TaskStatus::Open,
            r.priority == 0,
            r.when_closed == 0,
            r.project@ == Seq::<char>::empty(),
            r.deadline == 0,
            r.show_after_date == 0,
            r.blockedby@.len() == 0,
            !r.closed,
    {
        Self {
            name: String::new(),
            text: String::new(),
            context: String::new(),
            status: TaskStatus::Open,
            priority: 0,
            when_closed: 0,
            project: String::new(),
            deadline: 0,
            show_after_date: 0,
            blockedby: Vec::new(),
            closed: false,
        }
    }
}

impl TaskForSerde {
    /// Ensure the consistency of the data: a task marked closed by the
    /// legacy field has the closed status.
    pub fn fix_data(&mut self)
        ensures
            final(self).status == (if old(self).closed { TaskStatus::Closed } else { old(self).status }),
            final(self).name == old(self).name,
            final(self).text == old(self).text,
            final(self).context == old(self).context,
            final(self).priority == old(self).priority,
            final(self).when_closed == old(self).when_closed,
            final(self).project == old(self).project,
            final(self).deadline == old(self).deadline,
            final(self).show_after_date == old(self).show_after_date,
            final(self).blockedby == old(self).blockedby,
            final(self).closed == old(self).closed,
    {
        if self.closed {
            self.status = TaskStatus::Closed;
        }
    }

    /// The serialised form of a task; a task without a context has none.
    pub fn try_from_task(task: &Task) -> (r: FLResult<Self>)
        ensures
            r is Err <==> task.context.is_none(),
            r matches Err(e) ==> e matches FanlingError::FanlingError(m) && m@ == "no context found from task"@,
            r matches Ok(t) ==> {
                &&& t.name@ == task.name@
                &&& t.text@ == task.text@
                &&& Some(t.context@) == opt_seq(task.context)
                &&& t.status == task.status
                &&& t.priority == task.priority
                &&& t.when_closed == task.when_closed
                &&& t.project@ == task.project@
                &&& t.deadline == task.deadline
                &&& t.show_after_date == task.show_after_date
                &&& strings_view(t.blockedby@) == strings_view(task.blockedby@)
                &&& !t.closed
            },
    {
        let context = match &task.context {
            Some(c) => c.clone(),
            None => {
                return Err(FanlingError::new("no context found from task"));
            },
        };
        Ok(Self {
            name: task.name.clone(),
            text: task.text.clone(),
            context,
            status: task.status,
            priority: task.priority,
            when_closed: task.when_closed,
            project: task.project.clone(),
            deadline: task.deadline,
            show_after_date: task.show_after_date,
            blockedby: copy_idents(&task.blockedby),
            closed: false,
        })
    }
}

/// The user errors found when checking the values for a task, in order:
/// a blank name, a priority that is not a number, a deadline and a
/// show-after date that are not dates.
pub open spec fn task_value_errors(vals: Map<Seq<char>, Seq<char>>) -> Seq<(Seq<char>, Seq<char>)> {
    (if vals["name"@].len() == 0 { seq![("name-error"@, "Name must be non-blank."@)] } else { Seq::empty() })
        + (if parsed_i8(vals["priority"@]).is_none() { seq![("priority-error"@, "Priority must be numeric"@)] } else { Seq::empty() })
        + (if parsed_utc_millis(vals["deadline"@], date_format()) is Err { seq![("deadline-error"@, "Invalid deadline date"@)] } else { Seq::empty() })
        + (if parsed_utc_millis(vals["show_after_date"@], date_format()) is Err { seq![("show-after-date-error"@, "Invalid show-after date"@)] } else { Seq::empty() })
}

/// The policy for the task item type.
pub struct TaskTypePolicy {}

impl TaskTypePolicy {
    /// The task policy.
    pub fn new() -> (r: Self) {
        Self {}
    }

    /// The task policy, boxed.
    pub fn new_boxed() -> (r: Box<Self>) {
        Box::new(Self::new())
    }

    /// Resolve a conflict between our and their versions of a task (both
    /// serialised): their version is merged into ours.
    pub fn resolve_conflict_both(&self, ours: &TaskForSerde, theirs: &TaskForSerde) -> (r: Task)
        ensures
            r@ == merged_task(task_view_from(*ours), task_view_from(*theirs)),
            r.name@ == concat_seqs(diff_texts(changeset_diffs(ours.name@, theirs.name@, " "@))),
            r.text@ == concat_seqs(diff_texts(changeset_diffs(ours.text@, theirs.text@, " "@))),
    {
        let mut ot = Task::task_from(ours);
        let tt = Task::task_from(theirs);
        ot.merge_from(&tt);
        ot
    }

    /// Check whether a task can be updated using the values `vals`: the
    /// result is successful exactly when there are no user errors, and
    /// otherwise lists them.
    pub fn check_valid(&self, vals: &StringMap) -> (r: ActionResponse)
        requires
            vals@.contains_key("name"@),
            vals@.contains_key("priority"@),
            vals@.contains_key("deadline"@),
            vals@.contains_key("show_after_date"@),
        ensures
            (r is Success) == (task_value_errors(vals@).len() == 0),
            r.spec_errors() == task_value_errors(vals@),
            r.spec_messages() == task_value_errors(vals@).map_values(|p: (Seq<char>, Seq<char>)| p.1),
            r.spec_test_data() == Map::<Seq<char>, Seq<char>>::empty(),
    {
        proof {
            reveal_strlit("name");
            reveal_strlit("priority");
            reveal_strlit("deadline");
            reveal_strlit("show_after_date");
            reveal_strlit("%F %T");
            reveal_strlit("name-error");
            reveal_strlit("Name must be non-blank.");
            reveal_strlit("priority-error");
            reveal_strlit("Priority must be numeric");
            reveal_strlit("deadline-error");
            reveal_strlit("Invalid deadline date");
            reveal_strlit("show-after-date-error");
            reveal_strlit("Invalid show-after date");
        }
        let mut ar = ActionResponse::new();
        let name = vals.get("name");
        ar.assert_that(!name.as_str().is_empty(), "name-error", "Name must be non-blank.");
        let ghost e1 = ar.spec_errors();
        let priority = vals.get("priority");
        ar.assert_that(parse_i8(priority.as_str()).is_ok(), "priority-error", "Priority must be numeric");
        let ghost e2 = ar.spec_errors();
        let deadline = vals.get("deadline");
        ar.assert_that(parse_utc_millis(deadline.as_str(), "%F %T").is_ok(), "deadline-error", "Invalid deadline date");
        let ghost e3 = ar.spec_errors();
        let show_after = vals.get("show_after_date");
        ar.assert_that(
            parse_utc_millis(show_after.as_str(), "%F %T").is_ok(),
            "show-after-date-error",
            "Invalid show-after date",
        );
        proof {
            assert(ar.spec_errors() =~= task_value_errors(vals@));
            assert(ar.spec_messages() =~= task_value_errors(vals@).map_values(|p: (Seq<char>, Seq<char>)| p.1));
            if ar is Failure {
                assert(ar.spec_errors().len() > 0);
            }
        }
        ar
    }
}


/// A merged task is closed exactly when either version is closed.
pub proof fn lemma_merge_closed(ours: TaskView, theirs: TaskView)
    ensures
        (merged_task(ours, theirs).status == TaskStatus::Closed) == (ours.status == TaskStatus::Closed
            || theirs.status == TaskStatus::Closed),
{
}

/// A merged task has the more urgent (smaller) priority, deadline and
/// show-after time of the two versions.
pub proof fn lemma_merge_takes_smaller(ours: TaskView, theirs: TaskView)
    ensures
        merged_task(ours, theirs).priority <= ours.priority,
        merged_task(ours, theirs).priority <= theirs.priority,
        merged_task(ours, theirs).priority == ours.priority || merged_task(ours, theirs).priority == theirs.priority,
        merged_task(ours, theirs).deadline == min_i64(ours.deadline, theirs.deadline),
        merged_task(ours, theirs).show_after_date == min_i64(ours.show_after_date, theirs.show_after_date),
{
}

/// The blockers of a merged task are those of both versions: ours first,
/// then theirs that are new; none is listed twice when ours has none twice.
pub proof fn lemma_merge_blockers(a: Seq<Seq<char>>, b: Seq<Seq<char>>)
    ensures
        append_new(a, b).to_set() == a.to_set().union(b.to_set()),
        a.no_duplicates() ==> append_new(a, b).no_duplicates(),
        append_new(a, b).subrange(0, a.len() as int) == a,
        append_new(a, b).len() >= a.len(),
    decreases b.len(),
{
    if b.len() == 0 {
        assert(b.to_set() =~= Set::<Seq<char>>::empty());
        assert(a.to_set().union(b.to_set()) =~= a.to_set());
        assert(a.subrange(0, a.len() as int) =~= a);
    } else {
        let prefix = append_new(a, b.drop_last());
        lemma_merge_blockers(a, b.drop_last());
        b.drop_last().lemma_push_to_set_commute(b.last());
        assert(b.drop_last().push(b.last()) =~= b);
        if prefix.contains(b.last()) {
            assert(a.to_set().union(b.to_set()) =~= prefix.to_set());
        } else {
            prefix.lemma_push_to_set_commute(b.last());
            assert(prefix.push(b.last()).to_set() =~= a.to_set().union(b.to_set()));
            assert(prefix.push(b.last()).subrange(0, a.len() as int) =~= prefix.subrange(0, a.len() as int));
            if a.no_duplicates() {
                assert forall|i: int, j: int| 0 <= i < j < prefix.push(b.last()).len() implies prefix.push(b.last())[i]
                    != prefix.push(b.last())[j] by {
                    if j == prefix.len() {
                        assert(prefix[i] == prefix.push(b.last())[i]);
                    }
                }
            }
        }
    }
}

/// Removing an identifier that a sequence does not hold leaves it unchanged.
pub proof fn lemma_without_absent(s: Seq<Seq<char>>, x: Seq<char>)
    requires
        !s.contains(x),
    ensures
        without(s, x) == s,
    decreases s.len(),
{
    if s.len() > 0 {
        assert(!s.drop_last().contains(x)) by {
            if s.drop_last().contains(x) {
                let k = choose|k: int| 0 <= k < s.drop_last().len() && s.drop_last()[k] == x;
                assert(s[k] == x);
            }
        }
        lemma_without_absent(s.drop_last(), x);
        assert(s.last() != x);
        assert(s.drop_last().push(s.last()) =~= s);
    }
}


/// Merging two versions of a task merges their names and their texts word
/// by word, as [`merge_strings`] does: each is made of all the parts of the
/// difference between our text and theirs, so a word of either version is
/// kept.
pub proof fn lemma_merge_merges_words(ours: TaskView, theirs: TaskView)
    ensures
        merged_task(ours, theirs).name == concat_seqs(diff_texts(changeset_diffs(ours.name, theirs.name, " "@))),
        merged_task(ours, theirs).text == concat_seqs(diff_texts(changeset_diffs(ours.text, theirs.text, " "@))),
        merged_task(ours, theirs).context == ours.context,
        merged_task(ours, theirs).project == ours.project,
{
}

/// Setting a task's data from values that hold a name gives the task that
/// name (and the text given, or none), whatever it was called before, even
/// when a later value is refused.
pub proof fn lemma_set_data_renames(t: TaskView, vals: Map<Seq<char>, Seq<char>>)
    requires
        vals.contains_key("name"@),
    ensures
        set_data_spec(t, vals).0.name == vals["name"@],
        set_data_spec(t, vals).0.text == (if vals.contains_key("text"@) { vals["text"@] } else { Seq::<char>::empty() }),
{
}

/// A task with an open blocker is not ready, whatever its other blockers,
/// its dates and the time; a closed task is never ready.
pub proof fn lemma_open_blocker_not_ready(t: TaskView, now: i64, blocker_open: Seq<bool>, i: int)
    requires
        (0 <= i < blocker_open.len() && blocker_open[i]) || t.status == TaskStatus::Closed,
    ensures
        !spec_is_ready(t, now, blocker_open),
{
}

/// Whether a blocker is other than `x`.
pub open spec fn other_than(x: Seq<char>) -> spec_fn(Seq<char>) -> bool {
    |y: Seq<char>| y != x
}

/// Unblocking by `x` removes exactly the blockers equal to `x`: the others
/// all stay, in their order, and a blocker remains exactly when it was
/// there and is not `x`.
pub proof fn lemma_without_filters(s: Seq<Seq<char>>, x: Seq<char>)
    ensures
        without(s, x) == s.filter(other_than(x)),
        forall|y: Seq<char>| #[trigger] without(s, x).contains(y) <==> (s.contains(y) && y != x),
    decreases s.len(),
{
    reveal(Seq::filter);
    if s.len() > 0 {
        let d = s.drop_last();
        lemma_without_filters(d, x);
        assert(s.filter(other_than(x)) == if other_than(x)(s.last()) {
            d.filter(other_than(x)).push(s.last())
        } else {
            d.filter(other_than(x))
        });
        assert forall|y: Seq<char>| #[trigger] without(s, x).contains(y) <==> (s.contains(y) && y != x) by {
            assert(s == d.push(s.last()));
            if s.contains(y) {
                let k = choose|k: int| 0 <= k < s.len() && s[k] == y;
                if k < d.len() {
                    assert(d[k] == y);
                }
            }
            if d.contains(y) {
                let k = choose|k: int| 0 <= k < d.len() && d[k] == y;
                assert(s[k] == y);
            }
            let w = without(d, x);
            if s.last() != x {
                assert(without(s, x) == w.push(s.last()));
                if w.push(s.last()).contains(y) {
                    let k = choose|k: int| 0 <= k < w.len() + 1 && w.push(s.last())[k] == y;
                    if k < w.len() {
                        assert(w[k] == y);
                    }
                }
                if w.contains(y) {
                    let k = choose|k: int| 0 <= k < w.len() && w[k] == y;
                    assert(w.push(s.last())[k] == y);
                }
                assert(w.push(s.last())[w.len() as int] == s.last());
            }
        }
    } else {
        assert forall|y: Seq<char>| #[trigger] without(s, x).contains(y) <==> (s.contains(y) && y != x) by {}
    }
}

/// Unblocking a task by a task it was not blocked by undoes blocking it.
pub proof fn lemma_unblock_undoes_block(t: TaskView, ident: Seq<char>)
    requires
        !t.blockedby.contains(ident),
    ensures
        (TaskView { blockedby: without(t.blockedby.push(ident), ident), ..t }) == t,
{
    assert(t.blockedby.push(ident).drop_last() =~= t.blockedby);
    lemma_without_absent(t.blockedby, ident);
}


/// `s` with each new line written as the HTML character reference `&#10;`.
pub open spec fn newlines_broken(s: Seq<char>) -> Seq<char>
    decreases s.len(),
{
    if s.len() == 0 {
        s
    } else if s.last() == '\n' {
        newlines_broken(s.drop_last()) + "&#10;"@
    } else {
        newlines_broken(s.drop_last()).push(s.last())
    }
}

/// The error tags that a form for editing a task clears.
pub open spec fn edit_cleared_tags() -> Seq<Seq<char>> {
    seq!["name-error"@, "priority-error"@, "show-after-date-error"@, ""@]
}

impl Task {
    /// The task's text with each new line written as `&#10;` (for a form field).
    pub fn broken_text(&self) -> (r: String)
        ensures
            r@ == newlines_broken(self.text@),
    {
        let mut r = String::new();
        let n = self.text.as_str().unicode_len();
        let mut i: usize = 0;
        while i < n
            invariant
                n == self.text@.len(),
                i <= n,
                r@ == newlines_broken(self.text@.subrange(0, i as int)),
            decreases n - i,
        {
            let c = self.text.as_str().get_char(i);
            proof {
                assert(self.text@.subrange(0, i + 1).drop_last() =~= self.text@.subrange(0, i as int));
            }
            if c == '\n' {
                r.append("&#10;");
            } else {
                crate::text::push_char(&mut r, c);
            }
            i = i + 1;
        }
        proof {
            assert(self.text@.subrange(0, n as int) =~= self.text@);
        }
        r
    }

    /// The response showing a form for editing the task, rendered as
    /// `content`: the form's error tags are cleared first.
    pub fn edit_response(content: &str) -> (r: Response)
        ensures
            r@.tags == edit_cleared_tags().map_values(|t: Seq<char>| (t, Seq::<char>::empty())) + seq![("content"@, content@)],
            !r@.error,
            !r@.shutdown_required,
            r@.test_data == Map::<Seq<char>, Seq<char>>::empty(),
    {
        let mut resp = Response::new();
        let cleared = vec!["name-error".to_owned(), "priority-error".to_owned(), "show-after-date-error".to_owned(), "".to_owned()];
        resp.clear_errors(cleared);
        resp.add_tag("content", content);
        proof {
            assert(strings_view(cleared@) =~= edit_cleared_tags());
            assert(crate::interface::clearing_pairs(cleared@) =~= edit_cleared_tags().map_values(|t: Seq<char>| (t, Seq::<char>::empty())));
        }
        resp
    }

    /// The response showing the task, rendered as `content`.
    pub fn show_response(content: &str) -> (r: Response)
        ensures
            r@.tags == seq![("content"@, content@)],
            !r@.error,
            !r@.shutdown_required,
            r@.test_data == Map::<Seq<char>, Seq<char>>::empty(),
    {
        let mut resp = Response::new();
        resp.add_tag("content", content);
        proof {
            assert(resp@.tags =~= seq![("content"@, content@)]);
        }
        resp
    }

    /// Record in a response the test data of the task `ident`: its
    /// identifier, whether it is ready and whether it is open.
    pub fn set_test_data(&self, resp: &mut Response, ident: &str, ready: bool)
        ensures
            final(resp)@.test_data == old(resp)@.test_data.insert("ident"@, ident@).insert(
                "ready"@,
                if ready { "true"@ } else { "false"@ },
            ).insert("open"@, if self.status == TaskStatus::Open { "true"@ } else { "false"@ }),
            final(resp)@.tags == old(resp)@.tags,
            final(resp)@.error == old(resp)@.error,
            final(resp)@.shutdown_required == old(resp)@.shutdown_required,
    {
        resp.set_test_data("ident", ident);
        resp.set_test_data("ready", if ready { "true" } else { "false" });
        resp.set_test_data("open", if self.is_open() { "true" } else { "false" });
    }
}

} // verus!
