use fanling::engine::Action;
use fanling::interface::{Response, StringMap};
use fanling::item::{ItemKind, ItemLinkForSerde, ItemListEntry, ItemListEntryList, SpecialKind, SpecialKinds};
use fanling::shared::{merge_strings, FanlingError};
use fanling::task::{Task, TaskForSerde, TaskStatus, TaskTypePolicy};
use fanling::world::{item_kind_of, ActionResponse};

const DAY: i64 = 86_400_000;

fn vals(pairs: &[(&str, &str)]) -> StringMap {
    let mut m = StringMap::new();
    for (k, v) in pairs {
        m.set(k, v);
    }
    m
}

fn task_named(name: &str) -> Task {
    let mut t = Task::new();
    assert!(t.set_data(&vals(&[("name", name)])).is_ok());
    t
}

#[test]
fn merged_strings() {
    assert_eq!("ccccbbbb", merge_strings("cccc", "bbbb"));
    assert_eq!("cccccbbbbb", merge_strings("ccccc", "bbbbb"));
    assert_eq!("same", merge_strings("same", "same"));
}

#[test]
fn status_names() {
    assert!(TaskStatus::from_name("closed") == TaskStatus::Closed);
    assert!(TaskStatus::from_name("CLOSED") == TaskStatus::Closed);
    assert!(TaskStatus::from_name("Open") == TaskStatus::Open);
    assert!(TaskStatus::from_name("") == TaskStatus::Open);
    assert!(TaskStatus::from_name("other") == TaskStatus::Open);
    assert_eq!("Closed", TaskStatus::Closed.name());
    assert!(TaskStatus::Open.is_default());
}

#[test]
fn task_values_checked() {
    let policy = TaskTypePolicy::new();
    let good = vals(&[("name", "n"), ("priority", "10"), ("deadline", "2021-01-01 00:00:00"), ("show_after_date", "2020-01-01 00:00:00")]);
    let ar = policy.check_valid(&good);
    assert!(ar.ok());
    assert_eq!("", ar.overall_message());
    let bad = vals(&[("name", ""), ("priority", "high"), ("deadline", "tomorrow"), ("show_after_date", "2020-13-01 00:00:00")]);
    let ar = policy.check_valid(&bad);
    assert!(!ar.ok());
    let errors = ar.errors();
    let areas: Vec<&str> = errors.iter().map(|(a, _)| a.as_str()).collect();
    assert_eq!(vec!["name-error", "priority-error", "deadline-error", "show-after-date-error"], areas);
    assert_eq!("Name must be non-blank. Priority must be numeric Invalid deadline date Invalid show-after date", ar.overall_message());
    let big = vals(&[("name", "n"), ("priority", "300"), ("deadline", "2021-01-01 00:00:00"), ("show_after_date", "2020-01-01 00:00:00")]);
    assert_eq!(vec![("priority-error".to_string(), "Priority must be numeric".to_string())], policy.check_valid(&big).errors());
}

#[test]
fn task_data_set() {
    let mut t = Task::new();
    assert!(t.set_data(&vals(&[("name", "n"), ("text", "t"), ("priority", "-3"), ("context", "c"), ("deadline", "1970-01-02 00:00:00")])).is_ok());
    assert_eq!("n", t.name);
    assert_eq!("t", t.text);
    assert_eq!(-3, t.priority);
    assert_eq!(Some("c".to_string()), t.context);
    assert_eq!(DAY, t.deadline);
    assert_eq!(0, t.show_after_date);
    assert!(matches!(Task::new().set_data(&vals(&[("text", "t")])), Err(FanlingError::FanlingError(m)) if m == "no name"));
    assert!(matches!(Task::new().set_data(&vals(&[("name", "n"), ("priority", "x")])), Err(FanlingError::ParseInt(_))));
    assert!(matches!(Task::new().set_data(&vals(&[("name", "n"), ("deadline", "x")])), Err(FanlingError::DateTime(_))));
    assert!(matches!(Task::new().set_data(&vals(&[("name", "n"), ("show_after_date", "x")])), Err(FanlingError::DateTime(_))));
}

#[test]
fn task_actions() {
    let mut t = task_named("n");
    assert!(t.do_action(&Action::Close, 5));
    assert!(!t.is_open());
    assert_eq!(5, t.when_closed);
    assert!(t.do_action(&Action::Reopen, 6));
    assert!(t.is_open());
    assert!(t.do_action(&Action::BlockBy("b".to_string()), 7));
    assert_eq!(vec!["b".to_string()], t.blockedby);
    assert!(t.do_action(&Action::UnblockBy("b".to_string()), 8));
    assert!(t.blockedby.is_empty());
    assert!(!t.do_action(&Action::Archive, 9));
}

#[test]
fn task_readiness() {
    let mut t = task_named("n");
    assert!(t.is_ready(100, &vec![]));
    t.show_after_date = 200;
    assert!(!t.is_ready(100, &vec![]));
    assert!(t.is_ready(300, &vec![]));
    t.block("b");
    assert!(!t.is_ready(300, &vec![true]));
    assert!(t.is_ready(300, &vec![false]));
    t.close(400);
    assert!(!t.is_ready(500, &vec![false]));
}

#[test]
fn task_descriptions() {
    let mut t = task_named("write");
    assert_eq!("→ write", t.description());
    t.deadline = DAY;
    t.close(0);
    assert_eq!("→ [Closed] [1970-01-02] write", t.description());
    assert_eq!("write", t.description_for_list());
    assert_eq!("write", t.descr_for_ident());
}

fn serde_task(text: &str, status: TaskStatus, priority: i8, blockers: &[&str]) -> TaskForSerde {
    let mut t = TaskForSerde::default();
    t.name = "n".to_string();
    t.text = text.to_string();
    t.status = status;
    t.priority = priority;
    t.deadline = 10;
    t.show_after_date = 20;
    t.blockedby = blockers.iter().map(|b| b.to_string()).collect();
    t
}

#[test]
fn task_merge() {
    let ours = serde_task("ccccc", TaskStatus::Open, 5, &["a", "b"]);
    let mut theirs = serde_task("bbbbb", TaskStatus::Closed, 3, &["b", "c"]);
    theirs.when_closed = 77;
    theirs.deadline = 5;
    let merged = TaskTypePolicy::new_boxed().resolve_conflict_both(&ours, &theirs);
    assert_eq!("cccccbbbbb", merged.text);
    assert!(merged.status == TaskStatus::Closed);
    assert_eq!(77, merged.when_closed);
    assert_eq!(3, merged.priority);
    assert_eq!(5, merged.deadline);
    assert_eq!(20, merged.show_after_date);
    assert_eq!(vec!["a".to_string(), "b".to_string(), "c".to_string()], merged.blockedby);
    assert_eq!(Some("default_context".to_string()), merged.context);
    let both_open = TaskTypePolicy::new().resolve_conflict_both(&ours, &serde_task("x", TaskStatus::Open, 9, &[]));
    assert!(both_open.status == TaskStatus::Open);
    assert_eq!(5, both_open.priority);
}

#[test]
fn task_serde_forms() {
    let mut s = serde_task("t", TaskStatus::Open, 1, &[]);
    s.closed = true;
    s.fix_data();
    assert!(s.status == TaskStatus::Closed);
    let t = Task::task_from(&s);
    let back = TaskForSerde::try_from_task(&t).ok().unwrap();
    assert_eq!("default_context", back.context);
    assert!(matches!(TaskForSerde::try_from_task(&Task::new()), Err(FanlingError::FanlingError(m)) if m == "no context found from task"));
    let c = t.fanling_clone();
    assert!(c.status == TaskStatus::Open && c.blockedby.is_empty() && c.when_closed == 0);
}

#[test]
fn special_kinds() {
    let mut sk = SpecialKinds::new(SpecialKinds::default_val());
    assert!(!sk.clone().has(SpecialKind::Parent));
    sk.add(SpecialKind::Context);
    assert!(sk.clone().has(SpecialKind::Context));
    assert!(!sk.clone().has(SpecialKind::Parent));
    sk.add(SpecialKind::Parent);
    assert_eq!(3, sk.val());
    assert_eq!(1, SpecialKind::Parent.as_bitmap().val());
}

fn list_entry(ident: &str, level: i8) -> ItemListEntry {
    let mut e = ItemListEntry::default();
    e.link = ItemLinkForSerde::new(ident.to_string());
    e.level = level;
    e
}

#[test]
fn list_levels() {
    let mut list = ItemListEntryList::from_vec(vec![list_entry("a", 0), list_entry("b", 1), list_entry("c", 2), list_entry("d", 0)]);
    list.set_level_changes();
    assert!(list.entries[0].is_parent && list.entries[1].is_parent && !list.entries[2].is_parent && !list.entries[3].is_parent);
    assert_eq!("", list.entries[0].level_shift_before);
    assert_eq!("<ul class=nested>", list.entries[1].level_shift_before);
    assert_eq!("</ul></ul>", list.entries[3].level_shift_before);
    assert_eq!("", list.final_adjust_level);
    list.select("c".to_string());
    assert!(list.entries[2].selected && !list.entries[0].selected);
    list.prepend(ItemListEntry::make_special("none"));
    assert!(list.entries[0].special);
    assert_eq!(5, list.num_entries());
    assert!(list.has_entries());
}

#[test]
fn action_responses() {
    let mut ar = ActionResponse::new();
    assert!(ar.ok());
    ar.assert_that(true, "a", "fine");
    assert!(ar.ok());
    ar.add_error("name-error", "bad name");
    ar.assert_that(false, "x-error", "bad x");
    assert!(!ar.ok());
    let resp = ar.to_response().ok().unwrap();
    assert_eq!(3, resp.num_tags());
    assert_eq!(("message".to_string(), "bad name bad x".to_string()), resp.get_tag(0));
    assert_eq!(("x-error".to_string(), "bad x".to_string()), resp.get_tag(2));
    assert_eq!(None, ar.ident());
}

#[test]
fn responses_and_test_data() {
    let mut r = Response::new();
    r.set_test_data("ident", "a");
    r.set_test_data("ready", "true");
    r.set_test_data("ident", "b");
    assert_eq!("b", r.get_test_data("ident"));
    assert_eq!("true", r.get_test_data("ready"));
    let mut e = Response::new_error_with_tags(&[("error", "boom")]);
    assert!(e.is_error());
    e.clear_errors(vec!["name-error".to_string()]);
    assert!(!e.is_error());
    assert_eq!(("name-error".to_string(), "".to_string()), e.get_tag(1));
    let mut ar = ActionResponse::new();
    ar.set_test_data(vals(&[("ident", "t-o3")]));
    assert_eq!(Some("t-o3".to_string()), ar.ident());
}

#[test]
fn item_kinds() {
    assert!(item_kind_of("todo") == Some(ItemKind::Task));
    assert!(item_kind_of("simple") == Some(ItemKind::Simple));
    assert!(item_kind_of("page").is_none());
    assert_eq!("Task", ItemKind::Task.name());
}

#[test]
fn task_forms() {
    let mut t = task_named("n");
    t.text = "a\nb".to_string();
    assert_eq!("a&#10;b", t.broken_text());
    let resp = Task::edit_response("<form/>");
    assert_eq!(5, resp.num_tags());
    assert_eq!(("name-error".to_string(), "".to_string()), resp.get_tag(0));
    assert_eq!(("".to_string(), "".to_string()), resp.get_tag(3));
    assert_eq!(("content".to_string(), "<form/>".to_string()), resp.get_tag(4));
    let mut shown = Task::show_response("<p/>");
    assert_eq!(vec![("content".to_string(), "<p/>".to_string())], shown.get_tags());
    t.set_test_data(&mut shown, "n-o1", false);
    assert_eq!("n-o1", shown.get_test_data("ident"));
    assert_eq!("false", shown.get_test_data("ready"));
    assert_eq!("true", shown.get_test_data("open"));
}

#[test]
fn priorities_read() {
    let with_priority = |p: &str| {
        let mut t = Task::new();
        let r = t.set_data(&vals(&[("name", "n"), ("priority", p)]));
        (r.is_ok(), t.priority)
    };
    assert_eq!((true, 5), with_priority("+5"));
    assert_eq!((true, -128), with_priority("-128"));
    assert_eq!((true, 7), with_priority("007"));
    assert!(!with_priority("128").0);
    assert!(!with_priority("-").0);
    assert!(!with_priority(" 1").0);
    assert!(!with_priority("").0);
}

#[test]
fn list_nesting_balanced() {
    let mut list = ItemListEntryList::from_vec(vec![list_entry("a", 1), list_entry("b", 3), list_entry("c", 2)]);
    list.set_level_changes();
    let mut html = String::new();
    for e in &list.entries {
        html.push_str(&e.level_shift_before);
    }
    html.push_str(&list.final_adjust_level);
    assert_eq!(
        "<ul class=nested><ul class=nested><ul class=nested></ul></ul></ul>",
        html
    );
    assert_eq!(html.matches("<ul class=nested>").count(), html.matches("</ul>").count());
}

#[test]
fn base_without_identifier() {
    let mut b = fanling::item::ItemBase::new(ItemKind::Simple, DAY);
    b.ident = String::new();
    let mut s = fanling::item::ItemBaseForSerde::default_at(DAY);
    s.ident = String::new();
    match b.set_from_serde(&s) {
        Err(FanlingError::FanlingError(m)) => assert_eq!("ident should not be empty", m),
        _ => panic!("no identifier accepted"),
    }
    assert_eq!("", b.ident);
}

#[test]
fn check_messages_follow_errors() {
    let policy = TaskTypePolicy::new();
    let bad = vals(&[("name", ""), ("priority", "x"), ("deadline", "2021-01-01 00:00:00"), ("show_after_date", "2020-01-01 00:00:00")]);
    let ar = policy.check_valid(&bad);
    assert_eq!("Name must be non-blank. Priority must be numeric", ar.overall_message());
}

#[test]
fn parse_errors_carry_reader_messages() {
    match Task::new().set_data(&vals(&[("name", "n"), ("priority", "300")])) {
        Err(FanlingError::ParseInt(m)) => assert_eq!("number too large to fit in target type", m),
        _ => panic!("priority 300 read"),
    }
    match Task::new().set_data(&vals(&[("name", "n"), ("priority", "x")])) {
        Err(FanlingError::ParseInt(m)) => assert_eq!("invalid digit found in string", m),
        _ => panic!("priority x read"),
    }
    match Task::new().set_data(&vals(&[("name", "n"), ("deadline", "tomorrow")])) {
        Err(FanlingError::DateTime(m)) => assert_eq!("input contains invalid characters", m),
        _ => panic!("deadline read"),
    }
}
