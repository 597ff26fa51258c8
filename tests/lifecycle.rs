use podrun::container::{
    Container, KillEvent, KillPhase, RootfsKind, SpawnOutcome, KILL_POLL_ATTEMPTS, WAIT_EXIT_STATUS,
};
use podrun::error::RuntimeError;
use podrun::setup::AttachStep;
use podrun::state::Status;
use podrun::store::Store;

fn s(x: &str) -> String {
    x.to_string()
}

fn argv(items: &[&str]) -> Vec<String> {
    items.iter().map(|x| x.to_string()).collect()
}

fn created(store: &mut Store, id: &str, cmd: &[&str]) -> Container {
    Container::create(store, s(id), s("/tmp/r"), RootfsKind::Directory, argv(cmd), 1000).unwrap()
}

fn running(store: &mut Store, id: &str, pid: i32) -> Container {
    let mut c = created(store, id, &["/bin/sleep", "100"]);
    assert_eq!(c.start(store, SpawnOutcome::Spawned(pid), 2000), Ok(pid));
    c
}

#[test]
fn create_then_open_matches() {
    let mut store = Store::new();
    let c = created(&mut store, "foo", &["/bin/true"]);
    assert_eq!(c.get_id(), "foo");
    let o = Container::open(&store, s("foo")).unwrap();
    assert_eq!(o.get_id(), "foo");
    let spec = o.get_spec();
    assert_eq!(spec.rootfs, "/tmp/r");
    assert_eq!(spec.argv, argv(&["/bin/true"]));
    assert!(spec.env.is_empty());
    assert_eq!(spec.cwd, None);
    assert_eq!(spec.hostname, Some(s("foo")));
    let st = o.get_state();
    assert_eq!(st.id, "foo");
    assert_eq!(st.status, Status::Created);
    assert_eq!(st.pid, None);
    assert_eq!(st.created_at_unix, 1000);
    assert_eq!(st.started_at_unix, None);
}

#[test]
fn open_missing_fails() {
    let store = Store::new();
    assert!(matches!(Container::open(&store, s("nope")), Err(RuntimeError::NotFound(id)) if id == "nope"));
}

#[test]
fn create_existing_fails_unchanged() {
    let mut store = Store::new();
    let _c = created(&mut store, "foo", &["/bin/true"]);
    let again = Container::create(&mut store, s("foo"), s("/other"), RootfsKind::Directory, argv(&["/x"]), 5);
    assert!(matches!(again, Err(RuntimeError::AlreadyExists(id)) if id == "foo"));
    let spec = store.load_spec("foo").unwrap();
    assert_eq!(spec.rootfs, "/tmp/r");
    assert_eq!(spec.argv, argv(&["/bin/true"]));
    assert_eq!(store.load_state("foo").unwrap().created_at_unix, 1000);
}

#[test]
fn create_empty_argv_fails() {
    let mut store = Store::new();
    let r = Container::create(&mut store, s("e"), s("/tmp/r"), RootfsKind::Directory, vec![], 1);
    assert!(matches!(r, Err(RuntimeError::EmptyArgv)));
    assert!(!store.contains("e"));
}

#[test]
fn create_missing_rootfs_leaves_no_record() {
    let mut store = Store::new();
    let r = Container::create(&mut store, s("baz"), s("/missing"), RootfsKind::Missing, argv(&["/bin/true"]), 1);
    assert!(matches!(r, Err(RuntimeError::RootfsMissing(p)) if p == "/missing"));
    assert!(!store.contains("baz"));
}

#[test]
fn create_rootfs_not_directory() {
    let mut store = Store::new();
    let r = Container::create(&mut store, s("f"), s("/etc/passwd"), RootfsKind::NotDirectory, argv(&["/x"]), 1);
    assert!(matches!(r, Err(RuntimeError::RootfsNotDirectory(p)) if p == "/etc/passwd"));
    assert!(!store.contains("f"));
}

#[test]
fn start_created_runs_and_second_start_fails() {
    let mut store = Store::new();
    let mut c = created(&mut store, "foo", &["/bin/sleep", "5"]);
    assert_eq!(c.start(&mut store, SpawnOutcome::Spawned(4242), 2000), Ok(4242));
    assert_eq!(c.get_state().status, Status::Running);
    assert_eq!(c.get_state().pid, Some(4242));
    assert_eq!(c.get_state().started_at_unix, Some(2000));
    assert!(matches!(c.launch(), Err(RuntimeError::AlreadyRunning)));
    assert!(matches!(c.start(&mut store, SpawnOutcome::Spawned(7), 3000), Err(RuntimeError::AlreadyRunning)));
    assert_eq!(c.get_state().pid, Some(4242));
    assert_eq!(store.load_state("foo").unwrap().pid, Some(4242));
}

#[test]
fn start_keeps_first_start_time() {
    let mut store = Store::new();
    let mut c = running(&mut store, "t", 10);
    assert_eq!(c.wait(&mut store, false), Ok(Some(WAIT_EXIT_STATUS)));
    assert_eq!(c.start(&mut store, SpawnOutcome::Spawned(11), 9000), Ok(11));
    assert_eq!(c.get_state().started_at_unix, Some(2000));
}

#[test]
fn start_missing_executable_changes_nothing() {
    let mut store = Store::new();
    let mut c = created(&mut store, "m", &["/bin/none"]);
    let r = c.start(&mut store, SpawnOutcome::ExecutableMissing(s("/tmp/r/bin/none")), 5);
    assert!(matches!(r, Err(RuntimeError::ExecutableNotFound(p)) if p == "/tmp/r/bin/none"));
    let r = c.start(&mut store, SpawnOutcome::Failed(s("EPERM")), 5);
    assert!(matches!(r, Err(RuntimeError::Io(m)) if m == "EPERM"));
    assert_eq!(c.get_state().status, Status::Created);
    assert_eq!(store.load_state("m").unwrap().status, Status::Created);
}

#[test]
fn launch_strips_leading_slashes() {
    let mut store = Store::new();
    let c = created(&mut store, "l", &["//bin/echo", "a", "b"]);
    let l = c.launch().unwrap();
    assert_eq!(l.program, "//bin/echo");
    assert_eq!(l.program_in_rootfs, "bin/echo");
    assert_eq!(l.args, argv(&["a", "b"]));
    assert_eq!(l.setup.rootfs, "/tmp/r");
    assert_eq!(l.setup.hostname, Some(s("l")));
    assert!(l.setup.mount_proc && l.setup.mount_dev);
}

#[test]
fn kill_probe_live_stays_running() {
    let mut store = Store::new();
    let mut c = running(&mut store, "p", 77);
    let mut run = c.kill(0).unwrap().unwrap();
    assert!(run.signal.is_none());
    assert_eq!(run.phase, KillPhase::Check);
    assert_eq!(c.kill_step(&mut store, &mut run, KillEvent::Alive(true)), Ok(()));
    assert_eq!(run.phase, KillPhase::Deliver);
    assert_eq!(c.kill_step(&mut store, &mut run, KillEvent::Sent), Ok(()));
    assert_eq!(run.phase, KillPhase::Finished);
    assert_eq!(c.get_state().status, Status::Running);
    assert_eq!(c.get_state().pid, Some(77));
}

#[test]
fn kill_dead_process_stops_and_is_idempotent() {
    let mut store = Store::new();
    let mut c = running(&mut store, "d", 78);
    let mut run = c.kill(15).unwrap().unwrap();
    assert_eq!(c.kill_step(&mut store, &mut run, KillEvent::Alive(false)), Ok(()));
    assert_eq!(run.phase, KillPhase::Finished);
    assert_eq!(c.get_state().status, Status::Stopped);
    assert_eq!(c.get_state().pid, None);
    assert!(matches!(c.kill(15), Ok(None)));
    assert!(matches!(c.kill(2), Ok(None)));
    assert!(matches!(c.kill(0), Ok(None)));
    assert!(matches!(c.kill(77), Err(RuntimeError::InvalidSignal(77))));
    let o = Container::open(&store, s("d")).unwrap();
    assert_eq!(o.get_state().status, Status::Stopped);
    assert_eq!(o.get_state().pid, None);
}

#[test]
fn kill_race_no_such_process() {
    let mut store = Store::new();
    let mut c = running(&mut store, "r", 79);
    let mut run = c.kill(9).unwrap().unwrap();
    assert_eq!(c.kill_step(&mut store, &mut run, KillEvent::Alive(true)), Ok(()));
    assert_eq!(c.kill_step(&mut store, &mut run, KillEvent::NoSuchProcess), Ok(()));
    assert_eq!(c.get_state().status, Status::Stopped);
}

#[test]
fn kill_signal_9_scenario() {
    let mut store = Store::new();
    let mut c = created(&mut store, "bar", &["/bin/sleep", "100"]);
    let pid = c.start(&mut store, SpawnOutcome::Spawned(5150), 10).unwrap();
    assert!(pid > 0);
    let mut run = c.kill(9).unwrap().unwrap();
    assert_eq!(run.signal, Some(9));
    c.kill_step(&mut store, &mut run, KillEvent::Alive(true)).unwrap();
    c.kill_step(&mut store, &mut run, KillEvent::Sent).unwrap();
    assert_eq!(run.phase, KillPhase::Poll(KILL_POLL_ATTEMPTS));
    c.kill_step(&mut store, &mut run, KillEvent::Alive(true)).unwrap();
    assert_eq!(run.phase, KillPhase::Poll(KILL_POLL_ATTEMPTS - 1));
    c.kill_step(&mut store, &mut run, KillEvent::Alive(false)).unwrap();
    assert_eq!(run.phase, KillPhase::Finished);
    let o = Container::open(&store, s("bar")).unwrap();
    assert_eq!(o.get_state().status, Status::Stopped);
    assert_eq!(o.get_state().pid, None);
}

#[test]
fn kill_nonfatal_signal_leaves_running() {
    let mut store = Store::new();
    let mut c = running(&mut store, "n", 80);
    let mut run = c.kill(19).unwrap().unwrap();
    assert_eq!(run.signal, Some(19));
    assert_eq!(run.pid, 80);
    c.kill_step(&mut store, &mut run, KillEvent::Alive(true)).unwrap();
    c.kill_step(&mut store, &mut run, KillEvent::Sent).unwrap();
    let mut checks = 0;
    while run.phase != KillPhase::Finished {
        c.kill_step(&mut store, &mut run, KillEvent::Alive(true)).unwrap();
        checks += 1;
    }
    assert_eq!(checks, KILL_POLL_ATTEMPTS);
    assert_eq!(c.get_state().status, Status::Running);
    assert_eq!(store.load_state("n").unwrap().pid, Some(80));
}

#[test]
fn kill_send_failure_reports_errno_text() {
    let mut store = Store::new();
    let mut c = running(&mut store, "e", 81);
    let mut run = c.kill(9).unwrap().unwrap();
    c.kill_step(&mut store, &mut run, KillEvent::Alive(true)).unwrap();
    let r = c.kill_step(&mut store, &mut run, KillEvent::SendFailed(1));
    assert!(matches!(r, Err(RuntimeError::Io(m)) if m == "EPERM: Operation not permitted"));
    assert_eq!(c.get_state().status, Status::Running);
}

#[test]
fn kill_invalid_signal_and_no_pid() {
    let mut store = Store::new();
    let c = created(&mut store, "k", &["/x"]);
    assert!(matches!(c.kill(9), Err(RuntimeError::NoPid)));
    let mut store2 = Store::new();
    let r = running(&mut store2, "k2", 5);
    assert!(matches!(r.kill(999), Err(RuntimeError::InvalidSignal(999))));
    assert!(matches!(r.kill(-1), Err(RuntimeError::InvalidSignal(-1))));
}

#[test]
fn wait_on_dead_and_live() {
    let mut store = Store::new();
    let mut c = running(&mut store, "w", 90);
    assert_eq!(c.wait(&mut store, true), Ok(None));
    assert_eq!(c.get_state().status, Status::Running);
    assert_eq!(c.wait(&mut store, false), Ok(Some(0)));
    let o = Container::open(&store, s("w")).unwrap();
    assert_eq!(o.get_state().status, Status::Stopped);
    assert_eq!(o.get_state().pid, None);
    let mut c2 = created(&mut store, "w2", &["/x"]);
    assert!(matches!(c2.wait(&mut store, false), Err(RuntimeError::NoPid)));
}

#[test]
fn refresh_reconciles_dead_running() {
    let mut store = Store::new();
    let mut c = running(&mut store, "f", 91);
    assert_eq!(c.refresh_state(&mut store, true), Ok(()));
    assert_eq!(c.get_state().status, Status::Running);
    assert_eq!(c.refresh_state(&mut store, false), Ok(()));
    assert_eq!(c.get_state().status, Status::Stopped);
    assert_eq!(store.load_state("f").unwrap().pid, None);
}

#[test]
fn delete_guards_live_container() {
    let mut store = Store::new();
    let c = running(&mut store, "del", 92);
    assert!(matches!(c.delete(&mut store, true), Err(RuntimeError::RefusingDelete)));
    assert!(store.contains("del"));
    let c = Container::open(&store, s("del")).unwrap();
    assert_eq!(c.delete(&mut store, false), Ok(()));
    assert!(!store.contains("del"));
    let c = created(&mut store, "del2", &["/x"]);
    assert_eq!(c.delete(&mut store, false), Ok(()));
    assert!(!store.contains("del2"));
}

#[test]
fn exec_empty_argv_fails_in_any_state() {
    let mut store = Store::new();
    let c = created(&mut store, "x1", &["/x"]);
    assert!(matches!(c.exec(vec![], vec![], None, true), Err(RuntimeError::EmptyArgv)));
    let r = running(&mut store, "x2", 93);
    assert!(matches!(r.exec(vec![], vec![], None, true), Err(RuntimeError::EmptyArgv)));
    assert!(matches!(c.exec(argv(&["/bin/ls"]), vec![], None, true), Err(RuntimeError::NoPid)));
    assert!(matches!(r.exec(argv(&["/bin/ls"]), vec![], None, false), Err(RuntimeError::NotAlive)));
}

#[test]
fn exec_plan_defaults_cwd() {
    let mut store = Store::new();
    let r = running(&mut store, "x3", 94);
    let p = r.exec(argv(&["/bin/ls", "-l"]), vec![(s("A"), s("1"))], None, true).unwrap();
    assert_eq!(p.target_pid, 94);
    assert_eq!(p.program, "/bin/ls");
    assert_eq!(p.args, argv(&["-l"]));
    assert_eq!(p.env, vec![(s("A"), s("1"))]);
    assert_eq!(p.cwd, "/");
    assert_eq!(
        p.steps,
        vec![
            AttachStep::JoinMountNamespace,
            AttachStep::JoinUtsNamespace,
            AttachStep::EnterTargetRoot,
            AttachStep::ChrootHere,
            AttachStep::ChdirCwd,
        ]
    );
    let p = r.exec(argv(&["/bin/ls"]), vec![], Some(s("/tmp")), true).unwrap();
    assert_eq!(p.cwd, "/tmp");
}

#[test]
fn true_exits_on_its_own_scenario() {
    let mut store = Store::new();
    let mut c = created(&mut store, "foo", &["/bin/true"]);
    let l = c.launch().unwrap();
    assert_eq!(l.program_in_rootfs, "bin/true");
    let pid = c.start(&mut store, SpawnOutcome::Spawned(321), 50).unwrap();
    assert!(pid > 0);
    assert_eq!(c.get_state().status, Status::Running);
    let mut again = Container::open(&store, s("foo")).unwrap();
    again.refresh_state(&mut store, false).unwrap();
    assert_eq!(again.get_state().status, Status::Stopped);
    assert_eq!(again.get_state().pid, None);
}
