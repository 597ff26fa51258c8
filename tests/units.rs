use podrun::container::strip_root;
use podrun::env::parse_env_kv;
use podrun::error::RuntimeError;
use podrun::setup::{ContainerSetup, IsolationStep};
use podrun::signal::{nix_to_io, signal_from_i32};
use podrun::state::{State, Status};
use podrun::store::Store;

fn strings(items: &[&str]) -> Vec<String> {
    items.iter().map(|x| x.to_string()).collect()
}

#[test]
fn env_items_split_at_first_equals() {
    let r = parse_env_kv(strings(&["A=1", "B=x=y", "C="])).unwrap();
    assert_eq!(
        r,
        vec![
            ("A".to_string(), "1".to_string()),
            ("B".to_string(), "x=y".to_string()),
            ("C".to_string(), "".to_string())
        ]
    );
    assert_eq!(parse_env_kv(vec![]).unwrap(), vec![]);
}

#[test]
fn env_item_errors() {
    assert!(matches!(parse_env_kv(strings(&["A=1", "NOEQ"])), Err(RuntimeError::EnvMissingEquals(s)) if s == "NOEQ"));
    assert!(matches!(parse_env_kv(strings(&["=v"])), Err(RuntimeError::EnvEmptyKey(s)) if s == "=v"));
}

#[test]
fn strip_root_removes_leading_separators() {
    assert_eq!(strip_root("/bin/true"), "bin/true");
    assert_eq!(strip_root("///a/b/"), "a/b/");
    assert_eq!(strip_root("rel"), "rel");
    assert_eq!(strip_root("/"), "");
}

#[test]
fn signals_map() {
    assert!(matches!(signal_from_i32(0), Ok(None)));
    assert_eq!(signal_from_i32(9), Ok(Some(9)));
    assert_eq!(signal_from_i32(15), Ok(Some(15)));
    assert_eq!(signal_from_i32(2), Ok(Some(2)));
    assert_eq!(signal_from_i32(19), Ok(Some(19)));
    assert!(matches!(signal_from_i32(32), Err(RuntimeError::InvalidSignal(32))));
    assert!(matches!(signal_from_i32(-9), Err(RuntimeError::InvalidSignal(-9))));
    assert!(matches!(signal_from_i32(64), Err(RuntimeError::InvalidSignal(64))));
}

#[test]
fn errno_text_is_nix_display() {
    assert_eq!(nix_to_io(2), RuntimeError::Io("ENOENT: No such file or directory".to_string()));
}

#[test]
fn isolation_steps_in_order() {
    let all = ContainerSetup::new("/r".to_string()).hostname(Some("h".to_string())).apply();
    assert_eq!(
        all,
        vec![
            IsolationStep::EnterNamespaces,
            IsolationStep::MakeMountsPrivate,
            IsolationStep::BindRootfs,
            IsolationStep::PivotRoot,
            IsolationStep::ChdirRoot,
            IsolationStep::MountProc,
            IsolationStep::MountDev,
            IsolationStep::SetHostname,
            IsolationStep::DetachOldRoot,
        ]
    );
    let bare = ContainerSetup::new("/r".to_string()).mount_proc(false).mount_dev(false).apply();
    assert_eq!(
        bare,
        vec![
            IsolationStep::EnterNamespaces,
            IsolationStep::MakeMountsPrivate,
            IsolationStep::BindRootfs,
            IsolationStep::PivotRoot,
            IsolationStep::ChdirRoot,
            IsolationStep::DetachOldRoot,
        ]
    );
}

#[test]
fn store_records() {
    let mut store = Store::new();
    assert!(store.list_ids().is_empty());
    let st = State::new_created("a".to_string(), 3);
    assert_eq!(st.status, Status::Created);
    assert!(matches!(store.save_state("a", &st), Err(RuntimeError::NotFound(_))));
    assert!(matches!(store.load_spec("a"), Err(RuntimeError::NotFound(_))));
    let spec = podrun::spec::Spec {
        rootfs: "/r".to_string(),
        argv: strings(&["/x"]),
        env: vec![],
        cwd: None,
        hostname: None,
    };
    assert_eq!(store.create_container("a", &spec, &st), Ok(()));
    assert!(store.contains("a"));
    assert_eq!(store.list_ids(), strings(&["a"]));
    store.remove("a");
    store.remove("a");
    assert!(!store.contains("a"));
}

#[test]
fn store_lists_ids_sorted() {
    let mut store = Store::new();
    let spec = podrun::spec::Spec {
        rootfs: "/r".to_string(),
        argv: strings(&["/x"]),
        env: vec![],
        cwd: None,
        hostname: None,
    };
    for id in ["m", "b", "zz", "a", "ba", "z"] {
        let st = State::new_created(id.to_string(), 1);
        assert_eq!(store.create_container(id, &spec, &st), Ok(()));
    }
    assert_eq!(store.list_ids(), strings(&["a", "b", "ba", "m", "z", "zz"]));
    store.remove("m");
    assert_eq!(store.list_ids(), strings(&["a", "b", "ba", "z", "zz"]));
    let st = State::new_created("b".to_string(), 9);
    assert!(matches!(store.create_container("b", &spec, &st), Err(RuntimeError::AlreadyExists(_))));
    assert_eq!(store.load_state("b").unwrap().created_at_unix, 1);
}
