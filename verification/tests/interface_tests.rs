use fanling::c_interface::{
    engine_options_for_android, is_shutdown_required, response_error, response_item, response_num_items, response_ok,
    CCycleEvent, FanlingOptions,
};
use fanling::convert::decimal_string;
use fanling::engine::InterfaceType;
use fanling::interface::{default_response_result, error_response_result, CycleEvent, Error, Response, ResponseResult};
use fanling::keys::Quoter;
use fanling::pc::{engine_options_from_opt, handle_response, js_quote, spaces_for_newlines, tag_script, Opt};
use fanling::repo_plan::{open_plan, structure_repairs, MergeOutcomeKind, OpenMethod, RepoActionRequired, RepoSettings};
use fanling::repo_shared::{RepoOptions, StructureStatus};

#[test]
fn quoter_lines() {
    let mut q = Quoter::new("adb shell input".to_string());
    let lines = q.fix_line("a b\"c(d);'".to_string());
    assert_eq!(
        vec![
            "adb shell input text a",
            "adb shell input keyevent 62",
            "adb shell input text b\\\"c",
            "adb shell input keyevent 71",
            "adb shell input text d",
            "adb shell input keyevent 72",
            "adb shell input text ",
            "adb shell input keyevent 74",
            "adb shell input text ",
            "adb shell input keyevent 75",
            "adb shell input text ",
            "adb shell input keyevent 66",
        ],
        lines
    );
    let lines = q.fix_line("x&y".to_string());
    assert_eq!(vec!["adb shell input text x\\&y", "adb shell input keyevent 66"], lines);
}

#[test]
fn decimal_text() {
    assert_eq!("0", decimal_string(0));
    assert_eq!("1234567890", decimal_string(1234567890));
    assert_eq!(u64::MAX.to_string(), decimal_string(u64::MAX));
}

#[test]
fn web_view_scripts() {
    assert_eq!(r#""a\"b""#, js_quote("a\"b"));
    assert_eq!("a b", spaces_for_newlines("a\nb"));
    assert_eq!(r#"setTag("t", "v");"#, tag_script("t", "v"));
    let mut resp = Response::new_with_tags(&[("content", "<p>\n\"x\"</p>")]);
    resp.set_shutdown_required();
    let shown = handle_response(&Ok(resp));
    assert!(shown.exit);
    assert_eq!(vec![r#"setTag("content", "<p> \"x\"</p>");"#.to_string()], shown.scripts);
    let failed: ResponseResult = Err(Error::new("bad\nthing"));
    let shown = handle_response(&failed);
    assert!(!shown.exit);
    assert_eq!(vec!["setTag(\"error\", \"system error: bad\nthing\");".to_string()], shown.scripts);
}

#[test]
fn cycle_events_through_c() {
    assert!(matches!(CCycleEvent::for_c(CycleEvent::Start), CCycleEvent::Start));
    assert!(matches!(CCycleEvent::for_c(CycleEvent::StopPC), CCycleEvent::Stop));
    assert!(matches!(CCycleEvent::for_c(CycleEvent::Destroy), CCycleEvent::Stop));
    assert!(matches!(CCycleEvent::from_c(CCycleEvent::Pause), CycleEvent::Pause));
    assert!(matches!(CCycleEvent::from_c(CCycleEvent::StopPC), CycleEvent::Stop));
    assert!(matches!(CCycleEvent::from_c(CCycleEvent::for_c(CycleEvent::Resume)), CycleEvent::Resume));
}

#[test]
fn c_response_access() {
    let resp = Response::new_with_tags(&[("a", "1"), ("b", "2")]);
    let ok: ResponseResult = Ok(resp);
    assert!(response_ok(&ok));
    assert_eq!(2, response_num_items(&ok));
    assert_eq!(("b".to_string(), "2".to_string()), response_item(&ok, 1));
    assert_eq!("", response_error(&ok));
    assert!(!is_shutdown_required(&ok));
    let err: ResponseResult = Err(Error::new("boom"));
    assert!(!response_ok(&err));
    assert_eq!(0, response_num_items(&err));
    assert_eq!((String::new(), String::new()), response_item(&err, 0));
    assert_eq!("boom", response_error(&err));
    assert_eq!(1, error_response_result("x").ok().unwrap().num_tags());
    assert_eq!(0, default_response_result().ok().unwrap().num_tags());
}

#[test]
fn android_options() {
    let fo = FanlingOptions {
        database_path: "db".to_string(),
        git_path: "git".to_string(),
        name: "n".to_string(),
        email: "e".to_string(),
        url: "u".to_string(),
        have_url: false,
        branch: "b".to_string(),
        unique_prefix: "p".to_string(),
        ssh_path: "ssh".to_string(),
        slurp_ssh: true,
    };
    let eo = engine_options_for_android(fo, "root".to_string(), "status".to_string());
    assert!(eo.repo_options.url.is_none());
    assert_eq!(Some("b".to_string()), eo.repo_options.required_branch);
    assert_eq!(Some("origin".to_string()), eo.repo_options.required_remote);
    assert_eq!("items", eo.repo_options.item_dir);
    assert!(eo.interface_type == InterfaceType::Android);
    assert_eq!("db", eo.search_options.database_path);
    assert!(!eo.auto_link && eo.correct);
}

#[test]
fn pc_options() {
    let opt = Opt {
        database_path: "db".to_string(),
        repo: "repo".to_string(),
        repo_branch: None,
        repo_remote: Some("up".to_string()),
        name: "n".to_string(),
        url: Some("u".to_string()),
        email: "e".to_string(),
        verbose: false,
        debug: false,
        uniq_pfx: "?".to_string(),
        config: String::new(),
        item_dir: "items".to_string(),
        no_write_to_server: true,
        auto_link: true,
        ssh_path: String::new(),
        slurp_ssh: false,
    };
    let eo = engine_options_from_opt(&opt, "root".to_string(), "status".to_string());
    assert_eq!("repo", eo.repo_options.path);
    assert_eq!(Some("u".to_string()), eo.repo_options.url);
    assert_eq!(None, eo.repo_options.required_branch);
    assert!(!eo.repo_options.write_to_server);
    assert!(eo.interface_type == InterfaceType::PC);
    assert!(eo.auto_link);
}

#[test]
fn repository_plans() {
    assert!(matches!(open_plan(true, true), (OpenMethod::Open, RepoActionRequired::ProcessChanges)));
    assert!(matches!(open_plan(false, false), (OpenMethod::Init, RepoActionRequired::NoAction)));
    assert!(matches!(open_plan(false, true), (OpenMethod::CloneFromUrl, RepoActionRequired::LoadAll)));
    assert_eq!((true, true), structure_repairs(&StructureStatus::BadHead));
    assert_eq!((false, false), structure_repairs(&StructureStatus::Good));
    assert_eq!(Some("merge after fetch (conflict)"), MergeOutcomeKind::Conflict.commit_message());
    let settings = RepoSettings::from_options(&RepoOptions::new());
    assert_eq!("+refs/heads/main:refs/heads/main", settings.push_refspec(true));
    assert_eq!("refs/heads/main", settings.refname());
}

#[test]
fn repository_descriptions() {
    let mut opts = RepoOptions::new();
    opts.url = Some("git@example.com:r.git".to_string());
    let settings = RepoSettings::from_options(&opts);
    assert_eq!("repo with path: \"testfiles/test\", url: git@example.com:r.git", settings.trace_descr());
    let timer = fanling::repo_shared::Timer::new("push", "here");
    assert_eq!("push", timer.descr);
}
