use crate::error::RuntimeError;
use crate::setup::{attach_protocol, AttachStep, ContainerSetup};
use crate::signal::{errno_text, is_signal, nix_to_io, signal_from_i32};
use crate::spec::{copy_pairs, copy_opt, copy_strings, opt_view, pairs_view, strings_view, Spec, SpecView};
use crate::state::{created_state, stopped, State, StateView, Status};
use crate::store::Store;
use vstd::prelude::*;

verus! {

/// How many times `kill` re-checks liveness after delivering a real signal.
pub const KILL_POLL_ATTEMPTS: u32 = 50;

/// Milliseconds between two liveness checks after a real signal.
pub const KILL_POLL_INTERVAL_MS: u64 = 10;

/// Milliseconds between two liveness checks while waiting.
pub const WAIT_POLL_INTERVAL_MS: u64 = 50;

/// Status reported by `wait` when the process has disappeared: only its
/// disappearance is observed, not a real exit code.
pub const WAIT_EXIT_STATUS: i32 = 0;

/// What the caller found at the rootfs path when creating a container.
#[derive(Debug, Clone, Copy, PartialEq, Eq, Structural)]
pub enum RootfsKind {
    Missing,
    NotDirectory,
    Directory,
}

/// A container bound to its id, with its spec and its state.
pub struct Container {
    id: String,
    spec: Spec,
    state: State,
}

/// Mathematical value of a [`Container`].
pub struct ContainerView {
    pub id: Seq<char>,
    pub spec: SpecView,
    pub state: StateView,
}

impl View for Container {
    type V = ContainerView;

    closed spec fn view(&self) -> ContainerView {
        ContainerView { id: self.id@, spec: self.spec@, state: self.state@ }
    }
}

/// The spec that `create` builds.
pub open spec fn created_spec(id: Seq<char>, rootfs: Seq<char>, argv: Seq<Seq<char>>) -> SpecView {
    SpecView { rootfs, argv, env: Seq::empty(), cwd: None, hostname: Some(id) }
}

/// `c` is what `open` reads for `id` from a store holding `store`.
pub open spec fn opened(store: Map<Seq<char>, (SpecView, StateView)>, id: Seq<char>, c: ContainerView) -> bool {
    &&& store.contains_key(id)
    &&& c.id == id
    &&& c.spec == store[id].0
    &&& c.state == store[id].1
}

/// Writing state `st` for `id` took the store from `before` to `after`, with
/// result `r`.
pub open spec fn saved(
    before: Map<Seq<char>, (SpecView, StateView)>,
    after: Map<Seq<char>, (SpecView, StateView)>,
    id: Seq<char>,
    st: StateView,
    r: Result<(), RuntimeError>,
) -> bool {
    if before.contains_key(id) {
        &&& after == before.insert(id, (before[id].0, st))
        &&& r is Ok
    } else {
        &&& after == before
        &&& r matches Err(RuntimeError::NotFound(e)) && e@ == id
    }
}

/// The state after a successful spawn of process `pid` at time `now`; the
/// first start time is kept.
pub open spec fn started(st: StateView, pid: i32, now: u64) -> StateView {
    StateView {
        status: Status::Running,
        pid: Some(pid),
        started_at_unix: match st.started_at_unix {
            Some(t) => Some(t),
            None => Some(now),
        },
        ..st
    }
}

/// The state after reconciliation with the observed liveness `alive`.
pub open spec fn reconciled(st: StateView, alive: bool) -> StateView {
    if st.status == Status::Running && (st.pid is None || !alive) {
        stopped(st)
    } else {
        st
    }
}

/// Number of leading `/` in `s`.
pub open spec fn leading_slashes(s: Seq<char>) -> nat
    decreases s.len(),
{
    if s.len() > 0 && s[0] == '/' {
        1 + leading_slashes(s.drop_first())
    } else {
        0
    }
}

/// `s` without its leading `/`: an absolute-looking program path read
/// relative to the rootfs.
pub open spec fn strip_leading_slashes(s: Seq<char>) -> Seq<char> {
    s.skip(leading_slashes(s) as int)
}

proof fn lemma_leading_slashes(s: Seq<char>, i: int)
    requires
        0 <= i <= s.len(),
        forall|j: int| 0 <= j < i ==> s[j] == '/',
    ensures
        leading_slashes(s) == i + leading_slashes(s.skip(i)),
    decreases i,
{
    if i > 0 {
        lemma_leading_slashes(s.drop_first(), i - 1);
        assert(s.drop_first().skip(i - 1) =~= s.skip(i));
    } else {
        assert(s.skip(0) =~= s);
    }
}

/// The program path with its leading `/` removed.
pub fn strip_root(s: &str) -> (r: String)
    ensures
        r@ == strip_leading_slashes(s@),
{
    let n = s.unicode_len();
    let mut i: usize = 0;
    while i < n && s.get_char(i) == '/'
        invariant
            n == s@.len(),
            i <= n,
            forall|j: int| 0 <= j < i ==> s@[j] == '/',
        decreases n - i,
    {
        i += 1;
    }
    proof {
        lemma_leading_slashes(s@, i as int);
        let t = s@.skip(i as int);
        if t.len() > 0 {
            assert(t[0] == s@[i as int]);
        }
        assert(leading_slashes(t) == 0);
    }
    String::from_str(s.substring_char(i, n))
}

/// What starting the program produced.
#[derive(Debug)]
pub enum SpawnOutcome {
    /// The program was not found inside the rootfs, at this path; nothing ran.
    ExecutableMissing(String),
    /// The spawn (or the isolation protocol in the child) failed, with this text.
    Failed(String),
    /// The process was spawned with this pid.
    Spawned(i32),
}

/// Everything needed to spawn a container's main process.
pub struct Launch {
    /// The program, as the spec gives it.
    pub program: String,
    /// The program's arguments.
    pub args: Vec<String>,
    /// The program's path relative to the rootfs, whose existence must be checked.
    pub program_in_rootfs: String,
    pub env: Vec<(String, String)>,
    pub cwd: Option<String>,
    /// The isolation protocol to run in the child.
    pub setup: ContainerSetup,
}

/// Phase of a `kill` in progress.
#[derive(Debug, Clone, Copy, PartialEq, Eq, Structural)]
pub enum KillPhase {
    /// Check whether the process is alive, and report `Alive`.
    Check,
    /// Deliver the signal (none for the probe) and report how it went.
    Deliver,
    /// Check liveness again, and report `Alive`; this many checks remain.
    /// Sleep the poll interval after a check that leaves the phase at `Poll`.
    Poll(u32),
    /// Nothing more to do.
    Finished,
}

/// What the caller observed for the step asked of it.
#[derive(Debug, Clone, Copy, PartialEq, Eq, Structural)]
pub enum KillEvent {
    /// The process is (or is not) present in the process table.
    Alive(bool),
    /// The signal was delivered.
    Sent,
    /// Delivery reported that no such process exists.
    NoSuchProcess,
    /// Delivery failed with this error number.
    SendFailed(i32),
}

/// A `kill` in progress.
pub struct KillRun {
    pub pid: i32,
    /// Number of the signal to deliver; none for the liveness probe.
    pub signal: Option<i32>,
    pub phase: KillPhase,
}

/// What a kill step does besides changing phase and state.
pub enum KillEffect {
    /// Nothing is written.
    Keep,
    /// The new state is written to the store.
    Save,
    /// The step fails with the error for this error number.
    Fail(i32),
}

/// One step of `kill`: from the phase, whether the run is the probe, the
/// state and the observed event, to the next phase, state and effect.
/// An event that does not answer the phase changes nothing.
pub open spec fn kill_next(phase: KillPhase, probe: bool, st: StateView, ev: KillEvent) -> (KillPhase, StateView, KillEffect) {
    let running = StateView { status: Status::Running, ..st };
    match (phase, ev) {
        (KillPhase::Check, KillEvent::Alive(false)) => (KillPhase::Finished, stopped(st), KillEffect::Save),
        (KillPhase::Check, KillEvent::Alive(true)) => (KillPhase::Deliver, st, KillEffect::Keep),
        (KillPhase::Deliver, KillEvent::NoSuchProcess) => (KillPhase::Finished, stopped(st), KillEffect::Save),
        (KillPhase::Deliver, KillEvent::SendFailed(code)) => (KillPhase::Finished, st, KillEffect::Fail(code)),
        (KillPhase::Deliver, KillEvent::Sent) => if probe {
            (KillPhase::Finished, running, KillEffect::Save)
        } else {
            (KillPhase::Poll(KILL_POLL_ATTEMPTS), st, KillEffect::Keep)
        },
        (KillPhase::Poll(_), KillEvent::Alive(false)) => (KillPhase::Finished, stopped(st), KillEffect::Save),
        (KillPhase::Poll(n), KillEvent::Alive(true)) => if n > 1 {
            (KillPhase::Poll((n - 1) as u32), st, KillEffect::Keep)
        } else {
            (KillPhase::Finished, running, KillEffect::Save)
        },
        _ => (phase, st, KillEffect::Keep),
    }
}

/// Everything needed to run a command inside a running container.
pub struct ExecPlan {
    /// The container's main process, whose namespaces are joined.
    pub target_pid: i32,
    pub program: String,
    pub args: Vec<String>,
    pub env: Vec<(String, String)>,
    /// Working directory inside the container.
    pub cwd: String,
    /// The attachment protocol to run in the child.
    pub steps: Vec<AttachStep>,
}

impl Container {
    /// Creates the record for `id`: fails if one exists, if `argv` is empty,
    /// or if the rootfs (found to be `rootfs_kind`) is missing or not a
    /// directory; then nothing is written. No process is spawned.
    pub fn create(
        store: &mut Store,
        id: String,
        rootfs: String,
        rootfs_kind: RootfsKind,
        argv: Vec<String>,
        now: u64,
    ) -> (r: Result<Container, RuntimeError>)
        requires
            old(store).wf(),
        ensures
            final(store).wf(),
            old(store)@.contains_key(id@) ==> (r matches Err(RuntimeError::AlreadyExists(e)) && e@ == id@),
            !old(store)@.contains_key(id@) && argv@.len() == 0 ==> r == Err::<Container, RuntimeError>(
                RuntimeError::EmptyArgv,
            ),
            !old(store)@.contains_key(id@) && argv@.len() > 0 && rootfs_kind == RootfsKind::Missing ==> (
            r matches Err(RuntimeError::RootfsMissing(p)) && p@ == rootfs@),
            !old(store)@.contains_key(id@) && argv@.len() > 0 && rootfs_kind == RootfsKind::NotDirectory
                ==> (r matches Err(RuntimeError::RootfsNotDirectory(p)) && p@ == rootfs@),
            r is Err ==> final(store)@ == old(store)@,
            !old(store)@.contains_key(id@) && argv@.len() > 0 && rootfs_kind == RootfsKind::Directory
                ==> r is Ok,
            r matches Ok(c) ==> {
                &&& c@.id == id@
                &&& c@.spec == created_spec(id@, rootfs@, strings_view(argv@))
                &&& c@.state == created_state(id@, now)
                &&& final(store)@ == old(store)@.insert(id@, (c@.spec, c@.state))
            },
    {
        if store.contains(id.as_str()) {
            return Err(RuntimeError::AlreadyExists(id));
        }
        if argv.len() == 0 {
            return Err(RuntimeError::EmptyArgv);
        }
        match rootfs_kind {
            RootfsKind::Missing => {
                return Err(RuntimeError::RootfsMissing(rootfs));
            },
            RootfsKind::NotDirectory => {
                return Err(RuntimeError::RootfsNotDirectory(rootfs));
            },
            RootfsKind::Directory => {},
        }
        let spec = Spec { rootfs, argv, env: Vec::new(), cwd: None, hostname: Some(id.clone()) };
        let state = State::new_created(id.clone(), now);
        let res = store.create_container(id.as_str(), &spec, &state);
        assert(spec@.env =~= Seq::<(Seq<char>, Seq<char>)>::empty());
        match res {
            Ok(()) => Ok(Container { id, spec, state }),
            Err(e) => Err(e),
        }
    }

    /// Opens the record for `id`, as stored.
    pub fn open(store: &Store, id: String) -> (r: Result<Container, RuntimeError>)
        requires
            store.wf(),
        ensures
            !store@.contains_key(id@) ==> (r matches Err(RuntimeError::NotFound(e)) && e@ == id@),
            store@.contains_key(id@) ==> (r matches Ok(c) && opened(store@, id@, c@)),
    {
        if !store.contains(id.as_str()) {
            return Err(RuntimeError::NotFound(id));
        }
        let spec = store.load_spec(id.as_str())?;
        let state = store.load_state(id.as_str())?;
        Ok(Container { id, spec, state })
    }


    /// What starting needs: fails if the container is running or its argv
    /// is empty.
    pub fn launch(&self) -> (r: Result<Launch, RuntimeError>)
        ensures
            self@.state.status == Status::Running ==> r == Err::<Launch, RuntimeError>(
                RuntimeError::AlreadyRunning,
            ),
            self@.state.status != Status::Running && self@.spec.argv.len() == 0 ==> r == Err::<
                Launch,
                RuntimeError,
            >(RuntimeError::EmptyArgv),
            self@.state.status != Status::Running && self@.spec.argv.len() > 0 ==> r is Ok,
            r matches Ok(l) ==> {
                &&& l.program@ == self@.spec.argv[0]
                &&& strings_view(l.args@) == self@.spec.argv.skip(1)
                &&& l.program_in_rootfs@ == strip_leading_slashes(self@.spec.argv[0])
                &&& pairs_view(l.env@) == self@.spec.env
                &&& opt_view(l.cwd) == self@.spec.cwd
                &&& l.setup.rootfs@ == self@.spec.rootfs
                &&& opt_view(l.setup.hostname) == self@.spec.hostname
                &&& l.setup.mount_proc
                &&& l.setup.mount_dev
            },
    {
        if self.state.status == Status::Running {
            return Err(RuntimeError::AlreadyRunning);
        }
        if self.spec.argv.len() == 0 {
            return Err(RuntimeError::EmptyArgv);
        }
        let program = self.spec.argv[0].clone();
        let mut args: Vec<String> = Vec::new();
        let mut i: usize = 1;
        while i < self.spec.argv.len()
            invariant
                1 <= i <= self.spec.argv@.len(),
                args@.len() == i - 1,
                forall|j: int| 0 <= j < i - 1 ==> (#[trigger] args@[j])@ == self.spec.argv@[j + 1]@,
            decreases self.spec.argv@.len() - i,
        {
            args.push(self.spec.argv[i].clone());
            i += 1;
        }
        assert(strings_view(args@) =~= strings_view(self.spec.argv@).skip(1));
        let program_in_rootfs = strip_root(program.as_str());
        let setup = ContainerSetup::new(self.spec.rootfs.clone()).hostname(copy_opt(&self.spec.hostname)).mount_proc(
            true,
        ).mount_dev(true);
        Ok(
            Launch {
                program,
                args,
                program_in_rootfs,
                env: copy_pairs(&self.spec.env),
                cwd: copy_opt(&self.spec.cwd),
                setup,
            },
        )
    }

    /// Records the outcome of starting the program: on a spawn, the state
    /// becomes running with the new pid (the first start time is kept) and
    /// is written; returns the pid. Fails, changing nothing, if the container
    /// is running, its argv is empty, or the spawn did not happen.
    pub fn start(&mut self, store: &mut Store, outcome: SpawnOutcome, now: u64) -> (r: Result<i32, RuntimeError>)
        requires
            old(store).wf(),
        ensures
            final(store).wf(),
            final(self)@.id == old(self)@.id,
            final(self)@.spec == old(self)@.spec,
            old(self)@.state.status == Status::Running ==> r == Err::<i32, RuntimeError>(
                RuntimeError::AlreadyRunning,
            ),
            old(self)@.state.status != Status::Running && old(self)@.spec.argv.len() == 0 ==> r == Err::<
                i32,
                RuntimeError,
            >(RuntimeError::EmptyArgv),
            old(self)@.state.status != Status::Running && old(self)@.spec.argv.len() > 0 ==> match outcome {
                SpawnOutcome::ExecutableMissing(p) => r matches Err(RuntimeError::ExecutableNotFound(q))
                    && q@ == p@,
                SpawnOutcome::Failed(m) => r matches Err(RuntimeError::Io(q)) && q@ == m@,
                SpawnOutcome::Spawned(pid) => {
                    &&& final(self)@.state == started(old(self)@.state, pid, now)
                    &&& saved(
                        old(store)@,
                        final(store)@,
                        old(self)@.id,
                        final(self)@.state,
                        match r {
                            Ok(_) => Ok(()),
                            Err(e) => Err(e),
                        },
                    )
                    &&& r is Ok ==> r == Ok::<i32, RuntimeError>(pid)
                },
            },
            !(outcome is Spawned && old(self)@.state.status != Status::Running && old(self)@.spec.argv.len()
                > 0) ==> final(self)@ == old(self)@ && final(store)@ == old(store)@,
    {
        if self.state.status == Status::Running {
            return Err(RuntimeError::AlreadyRunning);
        }
        if self.spec.argv.len() == 0 {
            return Err(RuntimeError::EmptyArgv);
        }
        match outcome {
            SpawnOutcome::ExecutableMissing(p) => Err(RuntimeError::ExecutableNotFound(p)),
            SpawnOutcome::Failed(m) => Err(RuntimeError::Io(m)),
            SpawnOutcome::Spawned(pid) => {
                self.state.status = Status::Running;
                self.state.pid = Some(pid);
                if self.state.started_at_unix.is_none() {
                    self.state.started_at_unix = Some(now);
                }
                match self.persist(store) {
                    Ok(()) => Ok(pid),
                    Err(e) => Err(e),
                }
            },
        }
    }


    /// Begins a `kill` with signal number `signal_num` (0 probes liveness).
    /// Fails if no pid is recorded and the container is not stopped, or if
    /// the number is not a signal. A stopped container has nothing left to
    /// signal: the kill succeeds at once (`None`).
    pub fn kill(&self, signal_num: i32) -> (r: Result<Option<KillRun>, RuntimeError>)
        ensures
            self@.state.pid is None && self@.state.status != Status::Stopped ==> r matches Err(
                RuntimeError::NoPid,
            ),
            r matches Err(e) ==> e == RuntimeError::NoPid || (signal_num != 0 && e == RuntimeError::InvalidSignal(
                signal_num,
            )),
            (self@.state.pid is Some || self@.state.status == Status::Stopped) && signal_num != 0 && !is_signal(
                signal_num as int,
            ) ==> (r matches Err(RuntimeError::InvalidSignal(n)) && n == signal_num),
            (self@.state.pid is Some || self@.state.status == Status::Stopped) && (signal_num == 0 || is_signal(
                signal_num as int,
            )) ==> r is Ok,
            (self@.state.pid is Some || self@.state.status == Status::Stopped) && (signal_num < 0 || signal_num
                > 31) ==> (r matches Err(RuntimeError::InvalidSignal(n)) && n == signal_num),
            (self@.state.pid is Some || self@.state.status == Status::Stopped) && (signal_num == 9 || signal_num
                == 15) ==> r is Ok,
            r matches Ok(None) ==> self@.state.pid is None && self@.state.status == Status::Stopped,
            self@.state.pid is None && self@.state.status == Status::Stopped ==> (r matches Ok(None) || r matches Err(
                RuntimeError::InvalidSignal(_),
            )),
            self@.state.pid is None && self@.state.status == Status::Stopped && (signal_num == 0 || is_signal(
                signal_num as int,
            )) ==> r matches Ok(None),
            r matches Ok(Some(run)) ==> {
                &&& self@.state.pid == Some(run.pid)
                &&& run.phase == KillPhase::Check
                &&& run.signal == if signal_num == 0 {
                    None::<i32>
                } else {
                    Some(signal_num)
                }
            },
    {
        if self.state.pid.is_none() && self.state.status != Status::Stopped {
            return Err(RuntimeError::NoPid);
        }
        let signal = signal_from_i32(signal_num)?;
        match self.state.pid {
            None => Ok(None),
            Some(pid) => Ok(Some(KillRun { pid, signal, phase: KillPhase::Check })),
        }
    }

    /// Advances a `kill` by the event the caller observed: reconciles to
    /// stopped when the process is gone, fails on a delivery error, and
    /// otherwise leaves the container running; each finishing step writes the
    /// state. The caller repeats until the phase is `Finished` or a step fails.
    pub fn kill_step(&mut self, store: &mut Store, run: &mut KillRun, ev: KillEvent) -> (r: Result<(), RuntimeError>)
        requires
            old(store).wf(),
        ensures
            final(store).wf(),
            ({
                let (phase, st, effect) = kill_next(old(run).phase, old(run).signal is None, old(self)@.state, ev);
                &&& final(run).phase == phase
                &&& final(run).pid == old(run).pid
                &&& final(run).signal == old(run).signal
                &&& final(self)@.id == old(self)@.id
                &&& final(self)@.spec == old(self)@.spec
                &&& final(self)@.state == st
                &&& match effect {
                    KillEffect::Keep => r is Ok && final(store)@ == old(store)@,
                    KillEffect::Save => saved(old(store)@, final(store)@, old(self)@.id, st, r),
                    KillEffect::Fail(code) => final(store)@ == old(store)@ && (r matches Err(RuntimeError::Io(m))
                        && m@ == errno_text(code as int)),
                }
            }),
    {
        match (run.phase, ev) {
            (KillPhase::Check, KillEvent::Alive(false)) | (KillPhase::Deliver, KillEvent::NoSuchProcess) | (
                KillPhase::Poll(_),
                KillEvent::Alive(false),
            ) => {
                self.state.status = Status::Stopped;
                self.state.pid = None;
                run.phase = KillPhase::Finished;
                self.persist(store)
            },
            (KillPhase::Check, KillEvent::Alive(true)) => {
                run.phase = KillPhase::Deliver;
                Ok(())
            },
            (KillPhase::Deliver, KillEvent::SendFailed(code)) => {
                run.phase = KillPhase::Finished;
                Err(nix_to_io(code))
            },
            (KillPhase::Deliver, KillEvent::Sent) => {
                if run.signal.is_none() {
                    self.state.status = Status::Running;
                    run.phase = KillPhase::Finished;
                    self.persist(store)
                } else {
                    run.phase = KillPhase::Poll(KILL_POLL_ATTEMPTS);
                    Ok(())
                }
            },
            (KillPhase::Poll(n), KillEvent::Alive(true)) => {
                if n > 1 {
                    run.phase = KillPhase::Poll(n - 1);
                    Ok(())
                } else {
                    self.state.status = Status::Running;
                    run.phase = KillPhase::Finished;
                    self.persist(store)
                }
            },
            _ => Ok(()),
        }
    }

    /// One look while waiting for the main process to disappear, given its
    /// observed liveness: fails if no pid is recorded; if the process is gone,
    /// reconciles to stopped, writes the state and returns the placeholder
    /// exit status; if it is alive, changes nothing and returns `None` (look
    /// again after the wait interval).
    pub fn wait(&mut self, store: &mut Store, alive: bool) -> (r: Result<Option<i32>, RuntimeError>)
        requires
            old(store).wf(),
        ensures
            final(store).wf(),
            final(self)@.id == old(self)@.id,
            final(self)@.spec == old(self)@.spec,
            old(self)@.state.pid is None ==> r matches Err(RuntimeError::NoPid),
            old(self)@.state.pid is None || alive ==> final(self)@ == old(self)@ && final(store)@ == old(store)@,
            old(self)@.state.pid is Some && alive ==> r matches Ok(None),
            old(self)@.state.pid is Some && !alive ==> {
                &&& final(self)@.state == stopped(old(self)@.state)
                &&& saved(
                    old(store)@,
                    final(store)@,
                    old(self)@.id,
                    final(self)@.state,
                    match r {
                        Ok(_) => Ok(()),
                        Err(e) => Err(e),
                    },
                )
                &&& r is Ok ==> r matches Ok(Some(WAIT_EXIT_STATUS))
            },
    {
        if self.state.pid.is_none() {
            return Err(RuntimeError::NoPid);
        }
        if alive {
            return Ok(None);
        }
        self.state.status = Status::Stopped;
        self.state.pid = None;
        match self.persist(store) {
            Ok(()) => Ok(Some(WAIT_EXIT_STATUS)),
            Err(e) => Err(e),
        }
    }

    /// Reconciles a recorded `Running` status with the observed liveness of
    /// the recorded pid: when the process is gone (or no pid is recorded),
    /// the state becomes stopped and is written. Other states are left alone.
    pub fn refresh_state(&mut self, store: &mut Store, alive: bool) -> (r: Result<(), RuntimeError>)
        requires
            old(store).wf(),
        ensures
            final(store).wf(),
            final(self)@.id == old(self)@.id,
            final(self)@.spec == old(self)@.spec,
            final(self)@.state == reconciled(old(self)@.state, alive),
            final(self)@.state == old(self)@.state ==> r is Ok && final(store)@ == old(store)@,
            final(self)@.state != old(self)@.state ==> saved(
                old(store)@,
                final(store)@,
                old(self)@.id,
                final(self)@.state,
                r,
            ),
    {
        if self.state.status == Status::Running && (self.state.pid.is_none() || !alive) {
            self.state.status = Status::Stopped;
            self.state.pid = None;
            self.persist(store)
        } else {
            Ok(())
        }
    }

    /// Deletes the record, given the observed liveness of the recorded pid:
    /// refuses, changing nothing, when the container is running with a live
    /// process; otherwise the record is gone afterwards.
    pub fn delete(self, store: &mut Store, alive: bool) -> (r: Result<(), RuntimeError>)
        requires
            old(store).wf(),
        ensures
            final(store).wf(),
            self@.state.status == Status::Running && self@.state.pid is Some && alive ==> r == Err::<
                (),
                RuntimeError,
            >(RuntimeError::RefusingDelete) && final(store)@ == old(store)@,
            !(self@.state.status == Status::Running && self@.state.pid is Some && alive) ==> r is Ok
                && final(store)@ == old(store)@.remove(self@.id),
            r is Ok ==> !final(store)@.contains_key(self@.id),
    {
        if self.state.status == Status::Running && self.state.pid.is_some() && alive {
            return Err(RuntimeError::RefusingDelete);
        }
        store.remove(self.id.as_str());
        Ok(())
    }

    /// What running a command inside the container needs, given the observed
    /// liveness of the recorded pid: fails if `argv` is empty, if no pid is
    /// recorded, or if the process is not alive. The working directory
    /// defaults to `/`. The container's own state is not touched.
    pub fn exec(&self, argv: Vec<String>, env: Vec<(String, String)>, cwd: Option<String>, alive: bool) -> (r: Result<
        ExecPlan,
        RuntimeError,
    >)
        ensures
            argv@.len() == 0 ==> r == Err::<ExecPlan, RuntimeError>(RuntimeError::EmptyArgv),
            argv@.len() > 0 && self@.state.pid is None ==> r == Err::<ExecPlan, RuntimeError>(RuntimeError::NoPid),
            argv@.len() > 0 && self@.state.pid is Some && !alive ==> r == Err::<ExecPlan, RuntimeError>(
                RuntimeError::NotAlive,
            ),
            argv@.len() > 0 && self@.state.pid is Some && alive ==> r is Ok,
            r matches Ok(p) ==> {
                &&& self@.state.pid == Some(p.target_pid)
                &&& p.program@ == argv@[0]@
                &&& strings_view(p.args@) == strings_view(argv@).skip(1)
                &&& pairs_view(p.env@) == pairs_view(env@)
                &&& p.cwd@ == match cwd {
                    Some(c) => c@,
                    None => seq!['/'],
                }
                &&& p.steps@ == attach_protocol()
            },
    {
        if argv.len() == 0 {
            return Err(RuntimeError::EmptyArgv);
        }
        let target_pid = match self.state.pid {
            Some(p) => p,
            None => {
                return Err(RuntimeError::NoPid);
            },
        };
        if !alive {
            return Err(RuntimeError::NotAlive);
        }
        let cwd = match cwd {
            Some(c) => c,
            None => {
                proof {
                    reveal_strlit("/");
                }
                String::from_str("/")
            },
        };
        let program = argv[0].clone();
        let mut args: Vec<String> = Vec::new();
        let mut i: usize = 1;
        while i < argv.len()
            invariant
                1 <= i <= argv@.len(),
                args@.len() == i - 1,
                forall|j: int| 0 <= j < i - 1 ==> (#[trigger] args@[j])@ == argv@[j + 1]@,
            decreases argv@.len() - i,
        {
            args.push(argv[i].clone());
            i += 1;
        }
        assert(strings_view(args@) =~= strings_view(argv@).skip(1));
        let steps = vec![
            AttachStep::JoinMountNamespace,
            AttachStep::JoinUtsNamespace,
            AttachStep::EnterTargetRoot,
            AttachStep::ChrootHere,
            AttachStep::ChdirCwd,
        ];
        assert(steps@ =~= attach_protocol());
        Ok(ExecPlan { target_pid, program, args, env, cwd, steps })
    }

    /// The container's id.
    pub fn get_id(&self) -> (r: &str)
        ensures
            r@ == self@.id,
    {
        self.id.as_str()
    }

    /// The container's spec.
    pub fn get_spec(&self) -> (r: &Spec)
        ensures
            r@ == self@.spec,
    {
        &self.spec
    }

    /// The container's state, as last recorded or reconciled.
    pub fn get_state(&self) -> (r: &State)
        ensures
            r@ == self@.state,
    {
        &self.state
    }

    fn persist(&self, store: &mut Store) -> (r: Result<(), RuntimeError>)
        requires
            old(store).wf(),
        ensures
            final(store).wf(),
            saved(old(store)@, final(store)@, self@.id, self@.state, r),
    {
        store.save_state(self.id.as_str(), &self.state)
    }
}

/// Opening a container right after creating it yields exactly what was
/// created: the given rootfs and argv, no env, no cwd, the id as host name,
/// status `Created`, no pid and no start time.
pub proof fn lemma_create_then_open(
    before: Map<Seq<char>, (SpecView, StateView)>,
    after: Map<Seq<char>, (SpecView, StateView)>,
    id: Seq<char>,
    rootfs: Seq<char>,
    argv: Seq<Seq<char>>,
    now: u64,
    created: ContainerView,
    reopened: ContainerView,
)
    requires
        created.id == id,
        created.spec == created_spec(id, rootfs, argv),
        created.state == created_state(id, now),
        after == before.insert(id, (created.spec, created.state)),
        opened(after, id, reopened),
    ensures
        reopened == created,
        reopened.spec.rootfs == rootfs,
        reopened.spec.argv == argv,
        reopened.spec.env.len() == 0,
        reopened.spec.cwd is None,
        reopened.spec.hostname == Some(id),
        reopened.state.id == id,
        reopened.state.status == Status::Created,
        reopened.state.pid is None,
        reopened.state.created_at_unix == now,
        reopened.state.started_at_unix is None,
{
}

/// The liveness probe never stops a container: while the process is seen
/// alive and the probe is delivered, no step of `kill` sets the status to
/// `Stopped` when it was not already.
pub proof fn lemma_probe_never_stops(phase: KillPhase, st: StateView, ev: KillEvent)
    requires
        ev == KillEvent::Alive(true) || ev == KillEvent::Sent,
        st.status != Status::Stopped,
    ensures
        kill_next(phase, true, st, ev).1.status != Status::Stopped,
        kill_next(phase, true, st, ev).1.pid == st.pid,
{
}

/// `kill` on a process that is gone always finishes, reconciles the state to
/// `Stopped` with no pid and writes it; reconciling again changes nothing,
/// and the stopped, pid-less state is one on which `kill` succeeds at once.
pub proof fn lemma_kill_gone_process(phase: KillPhase, probe: bool, st: StateView, ev: KillEvent)
    requires
        (phase == KillPhase::Check || phase is Poll) && ev == KillEvent::Alive(false) || phase
            == KillPhase::Deliver && ev == KillEvent::NoSuchProcess,
    ensures
        kill_next(phase, probe, st, ev) == (KillPhase::Finished, stopped(st), KillEffect::Save),
        stopped(st).status == Status::Stopped,
        stopped(st).pid is None,
        stopped(stopped(st)) == stopped(st),
{
}

/// Once `wait` has seen the process gone and written the state, opening the
/// container shows it stopped with no pid.
pub proof fn lemma_wait_then_open(
    before: Map<Seq<char>, (SpecView, StateView)>,
    after: Map<Seq<char>, (SpecView, StateView)>,
    waited: ContainerView,
    reopened: ContainerView,
    st: StateView,
)
    requires
        before.contains_key(waited.id),
        waited.state == stopped(st),
        saved(before, after, waited.id, waited.state, Ok(())),
        opened(after, waited.id, reopened),
    ensures
        reopened.state.status == Status::Stopped,
        reopened.state.pid is None,
{
}

/// Starting records a running status and the new pid, and a start time
/// that, once set, never changes.
pub proof fn lemma_start_records(st: StateView, pid: i32, now: u64)
    ensures
        started(st, pid, now).status == Status::Running,
        started(st, pid, now).pid == Some(pid),
        started(st, pid, now).started_at_unix is Some,
        st.started_at_unix is Some ==> started(st, pid, now).started_at_unix == st.started_at_unix,
        started(st, pid, now).created_at_unix == st.created_at_unix,
{
}

/// The event `ev` is the kind of observation that phase `phase` asks for.
pub open spec fn answers(phase: KillPhase, ev: KillEvent) -> bool {
    match phase {
        KillPhase::Check | KillPhase::Poll(_) => ev is Alive,
        KillPhase::Deliver => !(ev is Alive),
        KillPhase::Finished => false,
    }
}

/// An upper bound on the number of steps left in a `kill` at `phase`.
pub open spec fn kill_steps_left(phase: KillPhase) -> nat {
    match phase {
        KillPhase::Check => KILL_POLL_ATTEMPTS as nat + 3,
        KillPhase::Deliver => KILL_POLL_ATTEMPTS as nat + 2,
        KillPhase::Poll(n) => n as nat + 1,
        KillPhase::Finished => 0,
    }
}

/// `kill` never runs unbounded: each answered step brings it strictly
/// closer to `Finished`, so a kill that starts at `Check` finishes within
/// `KILL_POLL_ATTEMPTS + 3` steps.
pub proof fn lemma_kill_bounded(phase: KillPhase, probe: bool, st: StateView, ev: KillEvent)
    requires
        answers(phase, ev),
    ensures
        kill_steps_left(kill_next(phase, probe, st, ev).0) < kill_steps_left(phase),
{
}

/// Writing a state for an id that has a record always succeeds, keeps the
/// spec and records exactly that state. So for a container opened from the
/// store, a first `start` that spawned `pid` returns `Ok(pid)` with the
/// running state recorded, the probe leaves the recorded state running, and
/// `wait` that sees the process gone returns the exit status with the
/// stopped state recorded.
pub proof fn lemma_saved_present(
    before: Map<Seq<char>, (SpecView, StateView)>,
    after: Map<Seq<char>, (SpecView, StateView)>,
    id: Seq<char>,
    st: StateView,
    r: Result<(), RuntimeError>,
)
    requires
        before.contains_key(id),
        saved(before, after, id, st, r),
    ensures
        r is Ok,
        after.contains_key(id),
        after[id] == (before[id].0, st),
        forall|k: Seq<char>| k != id ==> after.contains_key(k) == before.contains_key(k),
{
}

} // verus!
