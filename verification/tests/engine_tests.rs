use fanling::item::SpecialKinds;
use fanling::edits::{
    check_data_request, clone_and_record, clone_item, item_data_action, create_and_record, create_item, load_items, resolve_conflict_changes,
    update_and_record, resolve_conflicts, update_item, BaseRead, ConflictParts, CreateOutcome, ItemDoc,
    ItemValues, UpdateOutcome,
};
use fanling::repo_shared::{EntryDescr, ObjectOperation, RepoOid};
use fanling::search::{entry_from_hier_row, has_special, item_row, list_from_rows, ItemHierRow};
use fanling::world::{check_item_path, items_to_load, test_error};
use fanling::engine::{Action, BasicRequest, BuildEvent, BuildStep, EngineOptions, EngineStep, FanlingEngine, InterfaceType, SearchOptions, WorldStatus};
use fanling::interface::{CycleEvent, Response, StringMap};
use fanling::item::ItemBaseForSerde;
use fanling::repo_plan::{Conflict, ItemEntry, MergeOutcomeKind};
use fanling::repo_shared::RepoOptions;
use fanling::shared::FanlingError;
use fanling::store::Store;
use fanling::task::Task;
use fanling::world::{
    check_data, conflict_needs_merge, conflict_type_name, do_action, ensure_item_parts, new_item_ident, yaml_document,
    ListKind, WorldStep,
};

const NOW: i64 = 1_600_000_000_000;

/// Read a request as the user interface sends it (JSON) into a `BasicRequest`.
fn request(json: &str) -> BasicRequest {
    let v: serde_json::Value = serde_json::from_str(json).unwrap();
    let text = |key: &str| v.get(key).and_then(|x| x.as_str()).map(|s| s.to_string());
    let a = &v["a"];
    let action = if let Some(name) = a.as_str() {
        match name {
            "Pull" => Action::Pull,
            "Shutdown" => Action::Shutdown,
            "CheckData" => Action::CheckData,
            "ListReady" => Action::ListReady,
            "Clone" => Action::Clone,
            _ => Action::Unknown,
        }
    } else if let Some(parts) = a.get("Create").or_else(|| a.get("Update")) {
        let mut base = ItemBaseForSerde::default_at(NOW);
        base.ident = parts[0]["ident"].as_str().unwrap().to_string();
        base.type_ident = parts[0]["type"].as_str().unwrap().to_string();
        let mut vals = StringMap::new();
        for (k, val) in parts[1].as_object().unwrap() {
            vals.set(k, val.as_str().unwrap());
        }
        if a.get("Create").is_some() {
            Action::Create(base, vals)
        } else {
            Action::Update(base, vals)
        }
    } else if let Some(p) = a.get("Push") {
        Action::Push { force: p["force"].as_bool().unwrap() }
    } else {
        Action::Unknown
    };
    BasicRequest { action, item_type: text("t"), ident: text("i") }
}

struct LocalTestCase {
    narr: String,
    create_action: String,
    expected_text_after_create: String,
    update_action2: String,
    expected_text_after_update: String,
    update_action3: String,
    expected_text_at_end: String,
    field_key: String,
    test_ident: String,
}

fn entry(data: &str) -> Option<ItemEntry> {
    Some(ItemEntry { path: "x.page".to_string(), data: data.as_bytes().to_vec() })
}

/// The text of a field of a stored item.
fn field_of(doc: &ItemDoc, key: &str) -> String {
    match (&doc.values, key) {
        (ItemValues::Simple(s), "name") => s.name.clone(),
        (ItemValues::Simple(s), _) => s.text.clone(),
        (ItemValues::Task(t), "name") => t.name.clone(),
        (ItemValues::Task(t), _) => t.text.clone(),
    }
}

/// A stand-in for writing an item: its identifier and text.
fn written(doc: &ItemDoc) -> Result<String, FanlingError> {
    Ok(format!("{}: {}", doc.base.ident, field_of(doc, "text")))
}

/// Create the item that the request asks for, in the store.
fn create_from(store: &mut Store, json: &str) -> ItemDoc {
    create_with_prefix(store, "o", json)
}

/// Update the stored item as the request asks.
fn update_from(current: &ItemDoc, json: &str, expected_ident: &str) -> ItemDoc {
    match do_action(request(json), NOW) {
        WorldStep::Update { ident, item_type, base, vals } => {
            assert_eq!(expected_ident, ident);
            match update_item(&item_type, current, &base, &vals, Ok(()), NOW).ok().unwrap() {
                UpdateOutcome::Updated { doc, response } => {
                    assert_eq!(1, response.num_tags());
                    assert_eq!(("message".to_string(), String::new()), response.get_tag(0));
                    doc
                },
                UpdateOutcome::Rejected(_) => panic!("update rejected"),
            }
        },
        _ => panic!("not an update"),
    }
}

fn local_test(ltc: &LocalTestCase, identifiers_as_made: bool) {
    // the first instance creates the item (the default context took the first number)
    let mut store = store_with_context();
    let created = create_from(&mut store, &ltc.create_action);
    if identifiers_as_made {
        assert_eq!(ltc.test_ident, created.base.ident, "{}", ltc.narr);
    }
    assert_eq!(ltc.expected_text_after_create, field_of(&created, &ltc.field_key), "{}", ltc.narr);

    // the second and third instances update it independently
    let updated2 = update_from(&created, &ltc.update_action2, &ltc.test_ident);
    let updated3 = update_from(&created, &ltc.update_action3, &ltc.test_ident);
    assert_eq!(ltc.expected_text_after_update, field_of(&updated2, &ltc.field_key), "{}", ltc.narr);

    // the second instance pulls (nothing new), checks and pushes, then shuts down
    assert!(matches!(do_action(request(r#"{"a":"Pull"}"#), NOW), WorldStep::Pull));
    assert!(resolve_conflicts(MergeOutcomeKind::decide(true, false), &Vec::new()).ok().unwrap().is_empty());
    assert!(matches!(do_action(request(r#"{"a":"CheckData","i":"","t":""}"#), NOW), WorldStep::CheckData));
    assert!(matches!(do_action(request(r#"{"a":{"Push":{"force":false}}}"#), NOW), WorldStep::Push { force: false }));
    let mut engine = FanlingEngine::new(&options(), true);
    match engine.execute_request(&request(r#"{"a":"Shutdown","i":"","t":""}"#)) {
        EngineStep::Respond(resp) => assert!(resp.is_shutdown_required()),
        _ => panic!("no shutdown"),
    }
    assert!(matches!(engine.handle_event(&CycleEvent::StopPC), EngineStep::PushThenRespond { force: false }));

    // the third instance pulls: both changed the item, so the versions conflict
    let outcome = MergeOutcomeKind::decide(false, true);
    assert!(outcome.has_conflict());
    let path = format!("{}.page", ltc.test_ident);
    let conflicts = vec![ConflictParts {
        path: path.clone(),
        ancestor: Some(created),
        our: Some(updated3),
        their: Some(updated2),
    }];
    let resolved = resolve_conflicts(outcome, &conflicts).ok().unwrap();
    assert_eq!(1, resolved.len());
    let res = resolved[0].as_ref().unwrap();
    assert_eq!(path, res.path);
    assert_eq!(ltc.expected_text_at_end, field_of(&res.doc, &ltc.field_key), "{}", ltc.narr);
}

fn options() -> EngineOptions {
    EngineOptions {
        correct: true,
        repo_options: RepoOptions::new(),
        interface_type: InterfaceType::PC,
        search_options: SearchOptions { database_path: "test.db".to_string() },
        uniq_pfx: "o".to_string(),
        auto_link: false,
        status_path: "status".to_string(),
        root_path: "root".to_string(),
    }
}

#[test]
fn test_local() {
    let local_test_cases = vec![LocalTestCase {
        narr: "simple".to_string(),
        create_action: r#"{"t":"Simple","i":"","a":{"Create":[{"ident":"","type":"Simple"},{"name":"aaa","text":"aaaa"}]}}"#.to_string(),
        expected_text_after_create: "aaaa".to_string(),
        update_action2: r#"{"t":"Simple","i":"aaa-o2","a":{"Update":[{"ident":"aaa-o2","type":"Simple"},{"name":"bbb","text":"bbbb"}]}}"# .to_string(),
        expected_text_after_update: "bbbb".to_string(),
        update_action3: r#"{"t":"Simple","i":"aaa-o2","a":{"Update":[{"ident":"aaa-o2","type":"Simple"},{"name":"bbb","text":"cccc"}]}}"# .to_string(),
        expected_text_at_end:  "ccccbbbb".to_string(),
        field_key: "text".to_string(),   test_ident:  "aaa-o2" .to_string(),
    }, LocalTestCase {
         narr: "task".to_string(),
        create_action: r#"{"t":"Task","i":"","a":{"Create":[{"ident":"","type":"Task"},{"name":"aaaa","text":"aaaaa","priority":"10","context":"default_context","deadline":"2021-01-01 00:00:00","show_after_date":"2020-01-01 00:00:00"}]}}"#.to_string(),
        expected_text_after_create: "aaaaa".to_string(),
        update_action2: r#"{"t":"Task","i":"2021-01-01-aaaa-o2","a":{"Update":[{"ident":"2021-01-01-aaaa-o2","type":"Task"},{"name":"aaaa","text":"bbbbb","priority":"10","context":"default_context","deadline":"2021-01-01 00:00:00","show_after_date":"2020-01-01 00:00:00"}]}}"# .to_string(),
        expected_text_after_update: "bbbbb".to_string(),
        update_action3: r#"{"t":"Task","i":"2021-01-01-aaaa-o2","a":{"Update":[{"ident":"2021-01-01-aaaa-o2","type":"Task"},{"name":"aaaa","text":"ccccc","priority":"10","context":"default_context","deadline":"2021-01-01 00:00:00","show_after_date":"2020-01-01 00:00:00"}]}}"# .to_string(),
        expected_text_at_end:  "cccccbbbbb".to_string(),
        field_key: "text".to_string(), test_ident:  "2021-01-01-aaaa-o2" .to_string(),
    }];
    // these cases' task identifier carries a date before the name, which
    // is not how identifiers are made; only the texts are compared
    for test_case in local_test_cases {
        local_test(&test_case, false)
    }
}

fn create_simple_action(name: &str) -> String {
    format!(
        r#"{{"t":"Simple","i":"","a":{{"Create":[{{"ident":"","type":"Simple"}},{{"name":"{}","text":"aaaa"}}]}}}}"#,
        name
    )
}
fn create_task_action(name: &str, text: &str) -> String {
    format!(
        r#"{{"t":"Task","i":"","a":{{"Create":[{{"ident":"","type":"Task"}},{{"name":"{}","text":"{}","priority":"10","context":"default_context","deadline":"1970-01-01 00:00:00","show_after_date":"1970-01-01 00:00:00"}}]}}}}"#,
        &name, &text,
    )
}
fn update_simple_action(ident: &str, name: &str, text: &str) -> String {
    format!(
        r#"{{"t":"Simple","i":"{}","a":{{"Update":[{{"ident":"{}","type":"Simple"}},{{"name":"{}","text":"{}"}}]}}}}"#,
        &ident, &ident, &name, &text,
    )
}
fn update_task_action(ident: &str, name: &str, text: &str) -> String {
    format!(
        r#"{{"t":"Task","i":"{}","a":{{"Update":[{{"ident":"{}","type":"Task"}},{{"name":"{}","text":"{}","priority":"10","context":"default_context","deadline":"2021-01-01 00:00:00","show_after_date":"2020-01-01 00:00:00"}}]}}}}"#,
        &ident, &ident, &name, &text,
    )
}

#[test]
fn mod_local() {
    let local_test_cases = vec![
        LocalTestCase {
            narr: "simple".to_string(),
            create_action: create_simple_action("aaa"),
            expected_text_after_create: "aaaa".to_string(),
            update_action2: update_simple_action("aaa-o2", "bbb", "bbbb"),
            expected_text_after_update: "bbbb".to_string(),
            update_action3: update_simple_action("aaa-o2", "bbb", "cccc"),
            expected_text_at_end: "ccccbbbb".to_string(),
            field_key: "text".to_string(),
            test_ident: "aaa-o2".to_string(),
        },
        LocalTestCase {
            narr: "task".to_string(),
            create_action: create_task_action("aaaa", "aaaaa"),
            expected_text_after_create: "aaaaa".to_string(),
            update_action2: update_task_action("aaaa-o2", "aaaa", "bbbbb"),
            expected_text_after_update: "bbbbb".to_string(),
            update_action3: update_task_action("aaaa-o2", "aaaa", "ccccc"),
            expected_text_at_end: "cccccbbbbb".to_string(),
            field_key: "text".to_string(),
            test_ident: "aaaa-o2".to_string(),
        },
    ];
    for test_case in local_test_cases {
        local_test(&test_case, true)
    }
}

/// A store of a newly opened collection: the default context took the first number.
fn store_with_context() -> Store {
    let mut store = Store::new().ok().unwrap();
    let (base, vals) = ensure_item_parts("default_context".to_string(), "Simple".to_string(), NOW).ok().unwrap();
    assert_eq!("default-context-o1", new_item_ident(&mut store, "o", &vals.get("name")).ok().unwrap());
    assert!(store.add_item(&base.ident, String::new()).is_ok());
    store
}

#[test]
fn identifiers_of_created_items() {
    let mut store = store_with_context();
    assert_eq!("aaa-o2", new_item_ident(&mut store, "o", "aaa").ok().unwrap());
    let mut store = store_with_context();
    let mut task = Task::new();
    let vals = match do_action(request(&create_task_action("aaaa", "aaaaa")), NOW) {
        WorldStep::Create { vals, .. } => vals,
        _ => panic!("not a create"),
    };
    assert!(task.set_data(&vals).is_ok());
    assert_eq!("aaaa-o2", new_item_ident(&mut store, "o", &task.descr_for_ident()).ok().unwrap());
    match new_item_ident(&mut store, "o", "") {
        Err(FanlingError::FanlingError(m)) => assert_eq!("description must not be blank", m),
        _ => panic!("blank description accepted"),
    }
}

#[test]
fn ensured_items() {
    let (base, vals) = ensure_item_parts("ctx".to_string(), "Simple".to_string(), NOW).ok().unwrap();
    assert!(base.can_be_context && base.can_be_parent);
    assert_eq!("Simple", base.type_ident);
    assert_eq!("ctx", vals.get("name"));
    assert_eq!(None, vals.get_opt("context"));
    let (base, vals) = ensure_item_parts("t".to_string(), "Task".to_string(), NOW).ok().unwrap();
    assert!(!base.can_be_context && base.can_be_parent);
    assert_eq!("default_context", vals.get("context"));
    match ensure_item_parts("x".to_string(), "Note".to_string(), NOW) {
        Err(FanlingError::FanlingError(m)) => assert_eq!("invalid type 'Note'", m),
        _ => panic!("bad type accepted"),
    }
}

#[test]
fn engine_steps() {
    let mut engine = FanlingEngine::new(&options(), false);
    assert!(!engine.has_world());
    assert!(FanlingEngine::wants_world(&options(), WorldStatus::Unknown));
    assert!(!FanlingEngine::wants_world(&options(), WorldStatus::Bad));
    match engine.execute_request(&BasicRequest::default()) {
        EngineStep::Fail(FanlingError::FanlingError(m)) => assert_eq!("error in execute", m),
        _ => panic!("unknown action accepted"),
    }
    match engine.execute_request(&request(r#"{"a":"ListReady"}"#)) {
        EngineStep::Respond(resp) => assert_eq!(0, resp.num_tags()),
        _ => panic!("no world, yet a world step"),
    }
    let mut delete = BasicRequest::default();
    delete.action = Action::DeleteEverything;
    match engine.execute_request(&delete) {
        EngineStep::DeleteAll { root_path } => assert_eq!("root", root_path),
        _ => panic!("no deletion"),
    }
    let mut test_error = BasicRequest::default();
    test_error.action = Action::TestError1;
    assert!(matches!(engine.execute_request(&test_error), EngineStep::Respond(_)));
    let mut engine = FanlingEngine::new(&options(), true);
    match engine.execute_request(&test_error) {
        EngineStep::Fail(FanlingError::FanlingError(m)) => assert_eq!("test error", m),
        _ => panic!("no test error"),
    }
    assert!(matches!(engine.execute_request(&request(r#"{"a":"ListReady"}"#)), EngineStep::ToWorld));
    assert!(matches!(engine.handle_event(&CycleEvent::Pause), EngineStep::Respond(_)));
    let mut quit = BasicRequest::default();
    quit.action = Action::PushAndQuit { force: true };
    match engine.execute_request(&quit) {
        EngineStep::PushThenRespond { force } => assert!(force),
        _ => panic!("no push"),
    }
}

#[test]
fn world_steps() {
    assert!(matches!(do_action(request(r#"{"a":"ListReady"}"#), NOW), WorldStep::ShowList(ListKind::Ready)));
    match do_action(request(r#"{"a":{"Create":[{"ident":"","type":"Simple"},{"name":"n"}]}}"#), NOW) {
        WorldStep::Fail(FanlingError::FanlingError(m)) => assert_eq!("no type name", m),
        _ => panic!("create without a type accepted"),
    }
    match do_action(request(r#"{"t":"Note","a":{"Create":[{"ident":"","type":"Note"},{"name":"n"}]}}"#), NOW) {
        WorldStep::Fail(FanlingError::FanlingError(m)) => assert_eq!("error in execute", m),
        _ => panic!("create of an unknown type accepted"),
    }
    match do_action(request(r#"{"t":"Simple","a":{"Update":[{"ident":"","type":"Simple"},{"name":"n"}]}}"#), NOW) {
        WorldStep::Fail(FanlingError::FanlingError(m)) => assert_eq!("no ident", m),
        _ => panic!("update without an ident accepted"),
    }
    let mut show = BasicRequest::default();
    show.action = Action::Show;
    match do_action(show, NOW) {
        WorldStep::Fail(FanlingError::FanlingError(m)) => assert_eq!("need ident here", m),
        _ => panic!("item action without an ident accepted"),
    }
    let mut close = BasicRequest::default();
    close.action = Action::Close;
    close.ident = Some("t1".to_string());
    assert!(matches!(do_action(close, NOW), WorldStep::ItemAction { ident, action: Action::Close } if ident == "t1"));
    let mut shutdown = BasicRequest::default();
    shutdown.action = Action::Shutdown;
    match do_action(shutdown, NOW) {
        WorldStep::Reply(resp) => {
            assert!(resp.is_error());
            assert_eq!(("error".to_string(), "should not come here".to_string()), resp.get_tag(0));
        },
        _ => panic!("engine action not refused"),
    }
    let mut test2 = BasicRequest::default();
    test2.action = Action::TestError2;
    assert!(matches!(do_action(test2, NOW), WorldStep::Fail(FanlingError::FanlingError(m)) if m == "test error 2"));
    let mut child = BasicRequest::default();
    child.action = Action::NewChild("p".to_string());
    child.item_type = Some("Task".to_string());
    match do_action(child, NOW) {
        WorldStep::NewChild { item_type, base } => {
            assert_eq!("Task", item_type);
            assert_eq!(Some("p".to_string()), base.parent);
        },
        _ => panic!("no new child"),
    }
}

#[test]
fn data_cross_check() {
    let store = Store::new().ok().unwrap();
    let search = vec!["a".to_string(), "b".to_string(), "b".to_string()];
    let paths = vec!["a.page".to_string(), "c.page".to_string(), "c.item".to_string(), "README".to_string()];
    let check = check_data(&store, &search, &paths);
    assert_eq!(vec!["c".to_string()], check.missing_from_search);
    assert_eq!(vec!["b".to_string()], check.missing_from_store);
    assert_eq!(3, check.in_search);
    assert_eq!(4, check.in_store);
    let consistent = check_data(&store, &vec!["a".to_string()], &vec!["a.page".to_string()]);
    assert!(consistent.missing_from_search.is_empty() && consistent.missing_from_store.is_empty());
}

#[test]
fn yaml_documents() {
    assert_eq!("---\nident: a\n", yaml_document("---\nident: a\n"));
    assert_eq!("---\nident: a\n", yaml_document("ident: a\n"));
    assert_eq!("---\n--", yaml_document("--"));
}

#[test]
fn conflict_decisions() {
    let t = |s: &str| Some(s.to_string());
    assert_eq!(t("Task"), conflict_type_name(&t("Task"), &None, &None));
    assert_eq!(t("Simple"), conflict_type_name(&None, &t("Simple"), &t("Simple")));
    assert_eq!(None, conflict_type_name(&None, &None, &None));
    let partial = Conflict { ancestor: None, our: entry("o"), their: entry("t") };
    assert!(!conflict_needs_merge(&partial));
}

#[test]
fn loading_items() {
    let store = Store::new().ok().unwrap();
    let e = |path: &str, blob: &str| EntryDescr { path: path.to_string(), oid: RepoOid::new(), kind: "blob".to_string(), blob: blob.to_string() };
    let plan = items_to_load(&store, &vec![e("a.page", "ident: a\n"), e("README", "x"), e("b.item", "---\nident: b\n")]);
    assert_eq!(vec![("a".to_string(), "---\nident: a\n".to_string()), ("b".to_string(), "---\nident: b\n".to_string())], plan);
    assert!(check_item_path(&store, "a", "a.page").is_ok());
    match check_item_path(&store, "a", "b.page") {
        Err(FanlingError::FanlingError(m)) => assert_eq!("bad path a.page vs b.page for a", m),
        _ => panic!("wrong path accepted"),
    }
    assert!(matches!(test_error(), Err(FanlingError::FanlingError(m)) if m == "test error"));
}

#[test]
fn world_status_names() {
    assert!(WorldStatus::from_name("Bad") == WorldStatus::Bad);
    assert!(WorldStatus::from_name(WorldStatus::Built.name()) == WorldStatus::Built);
    assert!(WorldStatus::from_name("") == WorldStatus::Unknown);
    assert_eq!("Unknown", WorldStatus::Unknown.name());
}

#[test]
fn item_times() {
    assert_eq!(Some(86_400_000), ItemBaseForSerde::parse_time("1970-01-02 00:00:00"));
    assert_eq!(Some(86_400_500), ItemBaseForSerde::parse_time("1970-01-02T00:00:00.5"));
    assert_eq!(None, ItemBaseForSerde::parse_time("yesterday"));
}

#[test]
fn search_rows() {
    let row = item_row("a".to_string(), "Task".to_string(), "do a".to_string(), true, false, None, String::new(), "normal".to_string(), SpecialKinds::new(3), false);
    assert_eq!(3, row.special);
    let list = list_from_rows(vec![row]);
    assert_eq!(1, list.num_entries());
    assert_eq!("a", list.entries[0].link.ident);
    assert_eq!("do a", list.entries[0].descr);
    let hrow = ItemHierRow { level: 258, row: item_row("b".to_string(), "Simple".to_string(), "b".to_string(), true, true, Some("a".to_string()), String::new(), "normal".to_string(), SpecialKinds::new(0), false) };
    assert_eq!(2, entry_from_hier_row(hrow).level);
    assert!(has_special(3, 1));
    assert!(!has_special(1, 1));
    assert!(has_special(1, 0));
}

fn simple_doc(ident: &str, item_type: &str, name: &str, text: &str) -> ItemDoc {
    let mut base = ItemBaseForSerde::default_at(NOW);
    base.ident = ident.to_string();
    base.type_ident = item_type.to_string();
    ItemDoc { base, values: ItemValues::Simple(fanling::edits::SimpleData { name: name.to_string(), text: text.to_string() }) }
}

#[test]
fn rejected_and_failed_creates() {
    // a task with a blank name is answered with the check's response, and no number is used
    let mut store = store_with_context();
    let json = create_task_action("", "");
    let (item_type, base, vals) = match do_action(request(&json), NOW) {
        WorldStep::Create { item_type, base, vals } => (item_type, base, vals),
        _ => panic!("not a create"),
    };
    match create_item(&mut store, "o", &item_type, &base, &vals, Ok(()), NOW).ok().unwrap() {
        CreateOutcome::Rejected(resp) => {
            assert_eq!(2, resp.num_tags());
            assert_eq!(("message".to_string(), "Name must be non-blank.".to_string()), resp.get_tag(0));
            assert_eq!(("name-error".to_string(), "Name must be non-blank.".to_string()), resp.get_tag(1));
            assert!(!resp.is_error());
        },
        CreateOutcome::Created(_) => panic!("blank name accepted"),
    }
    // the context could not be found
    let json = create_task_action("t1", "x");
    let (item_type, base, vals) = match do_action(request(&json), NOW) {
        WorldStep::Create { item_type, base, vals } => (item_type, base, vals),
        _ => panic!("not a create"),
    };
    match create_item(&mut store, "o", &item_type, &base, &vals, Err(FanlingError::new("no such context")), NOW) {
        Err(FanlingError::FanlingError(m)) => assert_eq!("no such context", m),
        _ => panic!("missing context accepted"),
    }
    // a simple item with a blank name is answered with the check's response
    let (item_type, base, vals) = match do_action(request(&create_simple_action("")), NOW) {
        WorldStep::Create { item_type, base, vals } => (item_type, base, vals),
        _ => panic!("not a create"),
    };
    match create_item(&mut store, "o", &item_type, &base, &vals, Ok(()), NOW).ok().unwrap() {
        CreateOutcome::Rejected(resp) => {
            assert_eq!(("message".to_string(), "Name must be non-blank.".to_string()), resp.get_tag(0));
            assert_eq!(("name-error".to_string(), "Name must be non-blank.".to_string()), resp.get_tag(1));
        },
        CreateOutcome::Created(_) => panic!("blank name accepted"),
    }
    // values that fail their check are answered whatever identifier the name would give
    let json = r#"{"t":"Task","i":"","a":{"Create":[{"ident":"","type":"Task"},{"name":"-x","text":"","priority":"high","context":"default_context","deadline":"1970-01-01 00:00:00","show_after_date":"1970-01-01 00:00:00"}]}}"#;
    let (item_type, base, vals) = match do_action(request(json), NOW) {
        WorldStep::Create { item_type, base, vals } => (item_type, base, vals),
        _ => panic!("not a create"),
    };
    match create_item(&mut store, "o", &item_type, &base, &vals, Ok(()), NOW).ok().unwrap() {
        CreateOutcome::Rejected(resp) => {
            assert_eq!(("priority-error".to_string(), "Priority must be numeric".to_string()), resp.get_tag(1));
        },
        CreateOutcome::Created(_) => panic!("bad priority accepted"),
    }
    // none of these used a number
    assert_eq!("t2-o2", new_item_ident(&mut store, "o", "t2").ok().unwrap());
}

#[test]
fn created_items() {
    let mut store = store_with_context();
    let doc = create_from(&mut store, &create_task_action("t1", "task 1"));
    assert_eq!("t1-o2", doc.base.ident);
    assert_eq!("Task", doc.base.type_ident);
    match &doc.values {
        ItemValues::Task(t) => {
            assert_eq!("default_context", t.context);
            assert_eq!(10, t.priority);
            assert_eq!(0, t.deadline);
        },
        _ => panic!("not a task"),
    }
    assert!(store.is_known("t1-o2"));
    // a task without a context cannot be stored, though its number is used
    let mut vals = StringMap::new();
    for (k, v) in [("name", "t3"), ("priority", "1"), ("deadline", "1970-01-01 00:00:00"), ("show_after_date", "1970-01-01 00:00:00")] {
        vals.set(k, v);
    }
    let mut base = ItemBaseForSerde::default_at(NOW);
    base.ident = String::new();
    match create_item(&mut store, "o", "Task", &base, &vals, Ok(()), NOW) {
        Err(FanlingError::FanlingError(m)) => assert_eq!("no context found from task", m),
        _ => panic!("task without context stored"),
    }
    assert_eq!("t4-o4", new_item_ident(&mut store, "o", "t4").ok().unwrap());
}

#[test]
fn conflicts_resolved() {
    // nothing to do when the merge had no conflicts
    assert!(resolve_conflicts(MergeOutcomeKind::Merged, &vec![]).ok().unwrap().is_empty());
    // a conflict without an ancestor needs no merge; one with all versions is merged
    let conflicts = vec![
        ConflictParts { path: "a.page".to_string(), ancestor: None, our: Some(simple_doc("a", "Simple", "x", "y")), their: None },
        ConflictParts {
            path: "b.page".to_string(),
            ancestor: Some(simple_doc("b", "Simple", "n", "t")),
            our: Some(simple_doc("b", "Simple", "n", "ours")),
            their: Some(simple_doc("b", "Simple", "n", "theirs")),
        },
    ];
    let r = resolve_conflicts(MergeOutcomeKind::Conflict, &conflicts).ok().unwrap();
    assert_eq!(2, r.len());
    assert!(r[0].is_none());
    let res = r[1].as_ref().unwrap();
    assert_eq!("b.page", res.path);
    assert_eq!("n", field_of(&res.doc, "name"));
    assert_eq!("ourstheirs", field_of(&res.doc, "text"));
    assert_eq!("b", res.doc.base.ident);
    // versions of different types cannot be resolved
    let bad = vec![ConflictParts {
        path: "c.page".to_string(),
        ancestor: None,
        our: Some(simple_doc("c", "Simple", "n", "t")),
        their: Some(simple_doc("c", "Task", "n", "t")),
    }];
    match resolve_conflicts(MergeOutcomeKind::Conflict, &bad) {
        Err(FanlingError::FanlingError(m)) => assert_eq!("inconsistent versions of c.page", m),
        _ => panic!("inconsistent versions resolved"),
    }
}

#[test]
fn items_loaded_into_store() {
    let mut store = store_with_context();
    let plan = vec![("a".to_string(), "---\nident: a\n".to_string()), ("b".to_string(), "---\nx".to_string()), ("c".to_string(), "---\n".to_string())];
    let reads = vec![BaseRead::Base("a".to_string()), BaseRead::NoBase, BaseRead::Base("c".to_string())];
    let resp = load_items(&mut store, &plan, &reads).ok().unwrap();
    assert_eq!(0, resp.num_tags());
    assert!(!resp.is_error());
    assert!(store.is_known("a") && store.is_known("c"));
    assert!(!store.is_known("b") && !store.is_known("default_context"));
    let reads = vec![BaseRead::Base("a".to_string()), BaseRead::NotYaml("bad".to_string()), BaseRead::Base("c".to_string())];
    match load_items(&mut store, &plan, &reads) {
        Err(FanlingError::Yaml(m)) => assert_eq!("bad", m),
        _ => panic!("bad YAML read"),
    }
    assert!(store.is_known("a") && !store.is_known("c"));
}

#[test]
fn data_check_answered() {
    let store = Store::new().ok().unwrap();
    let (check, resp) = check_data_request(&store, &vec!["x".to_string()], &vec!["y.page".to_string()]);
    assert_eq!(vec!["y".to_string()], check.missing_from_search);
    assert_eq!(vec!["x".to_string()], check.missing_from_store);
    let resp = resp.ok().unwrap();
    assert_eq!(0, resp.num_tags());
    assert!(!resp.is_error() && !resp.is_shutdown_required());
}

#[test]
fn engine_built_in_steps() {
    let opts = options();
    assert!(matches!(FanlingEngine::build_step(&opts, BuildEvent::StatusRead(WorldStatus::Unknown)), BuildStep::SaveStatus(WorldStatus::Bad)));
    match FanlingEngine::build_step(&opts, BuildEvent::StatusRead(WorldStatus::Bad)) {
        BuildStep::Done(e) => assert!(!e.has_world()),
        _ => panic!("a bad build retried"),
    }
    assert!(matches!(FanlingEngine::build_step(&opts, BuildEvent::StatusSaved(WorldStatus::Bad)), BuildStep::OpenWorld));
    assert!(matches!(FanlingEngine::build_step(&opts, BuildEvent::WorldOpened(Ok(()))), BuildStep::SaveStatus(WorldStatus::Built)));
    match FanlingEngine::build_step(&opts, BuildEvent::StatusSaved(WorldStatus::Built)) {
        BuildStep::Done(e) => assert!(e.has_world()),
        _ => panic!("not built"),
    }
    match FanlingEngine::build_step(&opts, BuildEvent::WorldOpened(Err(FanlingError::new("no repo")))) {
        BuildStep::Fail(FanlingError::FanlingError(m)) => assert_eq!("no repo", m),
        _ => panic!("failure ignored"),
    }
    let mut wrong = options();
    wrong.correct = false;
    match FanlingEngine::build_step(&wrong, BuildEvent::StatusRead(WorldStatus::Built)) {
        BuildStep::Done(e) => assert!(!e.has_world()),
        _ => panic!("built without options"),
    }
}

struct CloneTestCase {
    narr: String,
    create_action: String,
    clone_action: String,
    expected_text: String,
    field_key: String,
    test_ident: String,
}

/// Create the item that the request asks for with the prefix `pfx`, and
/// check that the store records it as added.
fn create_with_prefix(store: &mut Store, pfx: &str, json: &str) -> ItemDoc {
    match do_action(request(json), NOW) {
        WorldStep::Create { item_type, base, vals } => {
            match create_and_record(store, pfx, &item_type, &base, &vals, Ok(()), NOW, &written).ok().unwrap() {
                CreateOutcome::Created(doc) => {
                    let pending = store.take_pending_changes();
                    let last = pending.last().unwrap();
                    assert_eq!(format!("{}.page", doc.base.ident), last.path);
                    assert_eq!(format!("add {}", doc.base.ident), last.descr);
                    assert!(matches!(&last.op, ObjectOperation::Add(b) if *b == written(&doc).ok().unwrap()));
                    doc
                },
                CreateOutcome::Rejected(_) => panic!("create rejected"),
            }
        },
        _ => panic!("not a create"),
    }
}

fn clone_test(tc: &CloneTestCase, identifiers_as_made: bool) {
    // the first instance (prefix "a") creates the item after its default context
    let mut store = store_with_context();
    let created = create_with_prefix(&mut store, "a", &tc.create_action);
    // the second instance (prefix "b") clones it
    let ident = match do_action(request(&tc.clone_action), NOW) {
        WorldStep::CloneItem { ident } => ident,
        _ => panic!("not a clone"),
    };
    if identifiers_as_made {
        assert_eq!(created.base.ident, ident, "{}", tc.narr);
    }
    let copy = clone_and_record(&mut store, "b", &created, NOW, &written).ok().unwrap();
    if identifiers_as_made {
        assert_eq!(tc.test_ident, copy.base.ident, "{}: ident missing or wrong", tc.narr);
    }
    assert_eq!(tc.expected_text, field_of(&copy, &tc.field_key), "{}", tc.narr);
    assert!(store.is_known(&copy.base.ident));
    let same = clone_item(&mut store, "b", &created, NOW);
    assert_eq!(field_of(&copy, &tc.field_key), field_of(&same, &tc.field_key));
    let (_check, resp) = check_data_request(&store, &vec![], &vec![]);
    assert!(!resp.ok().unwrap().is_error());
}

#[test]
fn test_clone() {
    let test_cases = vec![CloneTestCase {
        narr: "simple".to_string(),
        create_action: r#"{"t":"Simple","i":"","a":{"Create":[{"ident":"","type":"Simple"},{"name":"aaa","text":"aaaa"}]}}"#.to_string(),
        clone_action: r#"{"t":"Simple","i":"aaa-a2","a":"Clone"}"#.to_string(),
        expected_text: "aaaa".to_string(),
        field_key: "text".to_string(),   test_ident:  "aaa-b3" .to_string(),
    },
         CloneTestCase {
        narr: "task".to_string(),
        create_action: r#"{"t":"Task","i":"","a":{"Create":[{"ident":"","type":"Task"},{"name":"aaaa","text":"aaaaa","priority":"10","context":"default_context","deadline":"2021-01-01 00:00:00","show_after_date":"2020-01-01 00:00:00"}]}}"#.to_string(),
        clone_action: r#"{"t":"Task","i":"2021-01-01-aaaa-a2","a":"Clone"}"#.to_string(),
        expected_text: "aaaaa".to_string(),
        field_key: "text".to_string(),   test_ident:  "2021-01-01-aaaa-b3" .to_string(),
    },
    ];
    // the task case's identifiers carry a date before the name, which is
    // not how identifiers are made; only the texts are compared
    for (i, tc) in test_cases.iter().enumerate() {
        clone_test(tc, i == 0);
    }
}

#[test]
fn mod_clone() {
    let test_cases = vec![
        CloneTestCase {
            narr: "simple".to_string(),
            create_action: create_simple_action("aaa"),
            clone_action: r#"{"t":"Simple","i":"aaa-a2","a":"Clone"}"#.to_string(),
            expected_text: "aaaa".to_string(),
            field_key: "text".to_string(),
            test_ident: "aaa-b3".to_string(),
        },
        CloneTestCase {
            narr: "task".to_string(),
            create_action: create_task_action("aaaa", "aaaaa"),
            clone_action: r#"{"t":"Task","i":"aaaa-a2","a":"Clone"}"#.to_string(),
            expected_text: "aaaaa".to_string(),
            field_key: "text".to_string(),
            test_ident: "aaaa-b3".to_string(),
        },
    ];
    for tc in &test_cases {
        clone_test(tc, true);
    }
}

/// The response to a create request without a name: the check's response.
fn no_name_response(json: &str) -> Response {
    let mut store = store_with_context();
    match do_action(request(json), NOW) {
        WorldStep::Create { item_type, base, vals } => match create_item(&mut store, "a", &item_type, &base, &vals, Ok(()), NOW) {
            Ok(CreateOutcome::Rejected(resp)) => resp,
            Ok(CreateOutcome::Created(_)) => panic!("item without a name created"),
            Err(e) => panic!("create failed: {}", e.message()),
        },
        _ => panic!("not a create"),
    }
}

#[test]
fn test_no_name() {
    let create_actions: Vec<String> = vec![ r#"{"t":"Simple","i":"","a":{"Create":[{"ident":"","type":"Simple"},{"name":"","text":"aaaa"}]}}"#.to_string(),
               r#"{"t":"Task","i":"","a":{"Create":[{"ident":"","type":"Task"},{"name":"","text":"","priority":"10","context":"default_context","deadline":"1970-01-01 00:00:00","show_after_date":"1970-01-01 00:00:00"}]}}"#.to_string(),
    ];
    for ca in create_actions {
        let resp = no_name_response(&ca);
        assert!(resp.num_tags() > 0, "execution response should have tags");
    }
}

#[test]
fn mod_no_name() {
    let create_actions: Vec<String> = vec![create_simple_action(""), create_task_action("", "")];
    for ca in create_actions {
        let resp = no_name_response(&ca);
        assert!(resp.num_tags() > 0, "execution response should have tags");
    }
}

#[test]
fn conflict_changes_and_recorded_updates() {
    let conflicts = vec![
        ConflictParts { path: "a.page".to_string(), ancestor: None, our: Some(simple_doc("a", "Simple", "x", "y")), their: None },
        ConflictParts {
            path: "b.page".to_string(),
            ancestor: Some(simple_doc("b", "Simple", "n", "t")),
            our: Some(simple_doc("b", "Simple", "n", "ours")),
            their: Some(simple_doc("b", "Simple", "n", "theirs")),
        },
    ];
    let changes = resolve_conflict_changes(MergeOutcomeKind::Conflict, &conflicts, &written).ok().unwrap();
    assert_eq!(1, changes.len());
    assert_eq!("b.page", changes[0].path);
    assert_eq!("resolve conflict", changes[0].descr);
    assert!(matches!(&changes[0].op, ObjectOperation::Modify(b) if b == "b: ourstheirs"));
    assert!(resolve_conflict_changes(MergeOutcomeKind::AlreadyUpToDate, &conflicts, &written).ok().unwrap().is_empty());

    // an update is recorded as a modification of the item's path
    let mut store = store_with_context();
    let created = create_from(&mut store, &create_simple_action("aaa"));
    let json = update_simple_action("aaa-o2", "bbb", "bbbb");
    let (item_type, base, vals) = match do_action(request(&json), NOW) {
        WorldStep::Update { item_type, base, vals, .. } => (item_type, base, vals),
        _ => panic!("not an update"),
    };
    match update_and_record(&mut store, "aaa-o2", &item_type, &created, &base, &vals, Ok(()), NOW, &written).ok().unwrap() {
        UpdateOutcome::Updated { doc, .. } => {
            assert_eq!("bbbb", field_of(&doc, "text"));
            let pending = store.take_pending_changes();
            assert_eq!("aaa-o2.page", pending[0].path);
            assert_eq!("modify aaa-o2", pending[0].descr);
            assert!(matches!(&pending[0].op, ObjectOperation::Modify(b) if b == "aaa-o2: bbbb"));
        },
        UpdateOutcome::Rejected(_) => panic!("update rejected"),
    }
    // a failure to write the item fails the update and records nothing
    let fails = |_: &ItemDoc| -> Result<String, FanlingError> { Err(FanlingError::Yaml("cannot write".to_string())) };
    assert!(update_and_record(&mut store, "aaa-o2", &item_type, &created, &base, &vals, Ok(()), NOW, &fails).is_err());
    assert!(store.take_pending_changes().is_empty());
}

#[test]
fn engine_actions_through_execute() {
    let mut opts = options();
    opts.correct = false;
    let mut engine = FanlingEngine::new(&opts, false);
    match engine.execute_request(&request(r#"{"a":"Shutdown","i":"","t":""}"#)) {
        EngineStep::Respond(resp) => {
            assert!(resp.is_shutdown_required());
            assert_eq!(0, resp.num_tags());
            assert!(!resp.is_error());
        },
        _ => panic!("no shutdown"),
    }
    assert_eq!("please set the SSH keys and the preferences", FanlingEngine::initial_html_without_world());
}

#[test]
fn task_actions_on_stored_items() {
    let mut store = store_with_context();
    let created = create_from(&mut store, &create_task_action("t1", "x"));
    let closed = item_data_action(&created, &Action::Close, NOW + 5).unwrap();
    match &closed.values {
        ItemValues::Task(t) => {
            assert!(t.status == fanling::task::TaskStatus::Closed);
            assert_eq!(NOW + 5, t.when_closed);
        },
        _ => panic!("not a task"),
    }
    assert_eq!(NOW + 5, closed.base.when_modified);
    assert_eq!(created.base.ident, closed.base.ident);
    let blocked = item_data_action(&created, &Action::BlockBy("b-o9".to_string()), NOW).unwrap();
    match &blocked.values {
        ItemValues::Task(t) => assert_eq!(vec!["b-o9".to_string()], t.blockedby),
        _ => panic!("not a task"),
    }
    assert!(item_data_action(&created, &Action::Show, NOW).is_none());
    assert!(item_data_action(&simple_doc("s", "Simple", "n", "t"), &Action::Close, NOW).is_none());
}
