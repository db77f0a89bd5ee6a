use fanling::repo_plan::{credential_step, CredentialStep};
use fanling::repo_shared::RepoError;
use fanling::random::{ident_text, rand_ident, rand_text, IDENT_CHAR, IDENT_LENGTH};
use fanling::repo_shared::{EntryDescr, ObjectOperation, RepoOid};
use fanling::shared::FanlingError;
use fanling::store::Store;

#[test]
fn it_works() {
    assert_eq!(IDENT_LENGTH as usize, rand_ident().len());
}

#[test]
fn random_text_uses_ident_chars() {
    let t = rand_text(64);
    assert_eq!(64, t.chars().count());
    assert!(t.chars().all(|c| IDENT_CHAR.contains(c)));
    assert_eq!("a9z0", ident_text(&vec![0, 35, 25, 26]));
}

fn entry(path: &str) -> EntryDescr {
    EntryDescr { path: path.to_string(), oid: RepoOid::new(), kind: "blob".to_string(), blob: String::new() }
}

#[test]
fn store_identifiers() {
    let mut store = Store::new().ok().unwrap();
    store.set_next_ident_num(1);
    assert_eq!("aaa-o2", store.make_identifier("o", "aaa"));
    assert_eq!(2, store.get_next_ident_num());
    assert_eq!("Hello-world--x3", store.make_identifier("x", "Hello,  world!"));
    assert_eq!("abcdefghijklmnopqrst-p4", store.make_identifier("p", "abcdefghijklmnopqrstuvwxyz"));
    assert_eq!("-a-b-p5", store.make_identifier("p", "(a)...b"));
}

#[test]
fn store_paths_and_idents() {
    let store = Store::new().ok().unwrap();
    assert_eq!("aaa-o2.page", store.path_from_ident("aaa-o2"));
    assert_eq!(Some("aaa-o2".to_string()), store.ident_from_path(&store.path_from_ident("aaa-o2")));
    assert_eq!(Some("x".to_string()), store.ident_from_path("x.item"));
    assert_eq!(Some("".to_string()), store.ident_from_path(".page"));
    assert_eq!(None, store.ident_from_path("a.b.page"));
    assert_eq!(None, store.ident_from_path("readme.md"));
    assert!(store.path_has_ident("abc.page"));
    assert!(!store.path_has_ident("abc.pages"));
    let listed = store.list_all_items(vec![entry("a.page"), entry("README"), entry("b.item"), entry("c.txt")]);
    let paths: Vec<String> = listed.iter().map(|e| e.path.clone()).collect();
    assert_eq!(vec!["a.page".to_string(), "b.item".to_string()], paths);
}

#[test]
fn store_changes() {
    let mut store = Store::new().ok().unwrap();
    assert!(store.add_item("a", "blob a".to_string()).is_ok());
    assert!(store.is_known("a"));
    match store.add_item("a", "again".to_string()) {
        Err(FanlingError::FanlingError(m)) => assert_eq!("duplicate ident 'a'", m),
        _ => panic!("duplicate not refused"),
    }
    assert!(store.mark_item_modified("a", "blob a2".to_string()).is_ok());
    match store.mark_item_modified("b", "blob b".to_string()) {
        Err(FanlingError::FanlingError(m)) => assert_eq!("missing ident b", m),
        _ => panic!("missing not refused"),
    }
    assert!(store.mark_item_deleted("a").is_ok());
    assert!(!store.is_known("a"));
    assert!(store.mark_item_deleted("a").is_err());
    let changes = store.take_pending_changes();
    assert_eq!(3, changes.len());
    match &changes[0].op {
        ObjectOperation::Add(d) => assert_eq!("blob a", d),
        _ => panic!("expected an add"),
    }
    assert_eq!("a.page", changes[0].path);
    assert_eq!("add a", changes[0].descr);
    assert_eq!("modify a", changes[1].descr);
    assert_eq!("delete a", changes[2].descr);
    assert!(matches!(changes[2].op, ObjectOperation::Delete));
    assert_eq!(0, store.take_pending_changes().len());
}

#[test]
fn store_delete_undoes_add() {
    let mut store = Store::new().ok().unwrap();
    assert!(!store.make_known("k"));
    assert!(store.make_known("k"));
    assert!(store.add_item("n", String::new()).is_ok());
    assert!(store.mark_item_deleted("n").is_ok());
    assert!(store.is_known("k"));
    assert!(!store.is_known("n"));
    store.clear_known();
    assert!(!store.is_known("k"));
}

#[test]
fn credential_choices() {
    let mut tries: i8 = 0;
    match credential_step(true, true, false, "/k/id_rsa", &mut tries) {
        CredentialStep::KeyFiles { public_key, private_key } => {
            assert_eq!("/k/id_rsa.pub", public_key);
            assert_eq!("/k/id_rsa", private_key);
        },
        _ => panic!("expected key files"),
    }
    assert!(matches!(credential_step(true, true, true, "/k/id_rsa", &mut tries), CredentialStep::KeysInMemory { .. }));
    assert_eq!(0, tries);
    for expected in 1..=5 {
        assert!(matches!(credential_step(false, false, false, "/k", &mut tries), CredentialStep::Helper));
        assert_eq!(expected, tries);
    }
    assert!(matches!(credential_step(false, true, false, "/k", &mut tries), CredentialStep::TooManyTries));
}

#[test]
fn error_messages() {
    assert_eq!("boom", FanlingError::new("boom").message());
    assert_eq!("no remote", FanlingError::from(RepoError::new("no remote")).message());
    assert_eq!("bad", FanlingError::Yaml("bad".to_string()).message());
    let e = FanlingError::new("x");
    assert_eq!("x", e.dump("f", 1, 2).message());
}

#[test]
fn store_identifiers_never_repeat() {
    let mut store = Store::new().ok().unwrap();
    let a = store.make_identifier("x-", "a");
    let b = store.make_identifier("x-", "a");
    assert_eq!("a-x-1", a);
    assert_eq!("a-x-2", b);
    assert_eq!(Some(a.clone()), store.ident_from_path(&store.path_from_ident(&a)));
    let dotted = store.make_identifier("o.", "a");
    assert_eq!("a-o.3", dotted);
    assert_eq!(None, store.ident_from_path(&store.path_from_ident(&dotted)));
}
