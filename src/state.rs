use vstd::prelude::*;

verus! {

/// Lifecycle status of a container.
#[derive(Debug, Clone, Copy, PartialEq, Eq, Structural)]
pub enum Status {
    Created,
    Running,
    Stopped,
}

/// The mutable runtime record of a container.
#[derive(Debug)]
pub struct State {
    pub id: String,
    pub status: Status,
    pub pid: Option<i32>,
    pub created_at_unix: u64,
    pub started_at_unix: Option<u64>,
}

/// Mathematical value of a [`State`].
pub struct StateView {
    pub id: Seq<char>,
    pub status: Status,
    pub pid: Option<i32>,
    pub created_at_unix: u64,
    pub started_at_unix: Option<u64>,
}

impl View for State {
    type V = StateView;

    open spec fn view(&self) -> StateView {
        StateView {
            id: self.id@,
            status: self.status,
            pid: self.pid,
            created_at_unix: self.created_at_unix,
            started_at_unix: self.started_at_unix,
        }
    }
}

/// The state of a container that has just been created at time `now`.
pub open spec fn created_state(id: Seq<char>, now: u64) -> StateView {
    StateView { id, status: Status::Created, pid: None, created_at_unix: now, started_at_unix: None }
}

/// The state after liveness reconciliation found the process gone.
pub open spec fn stopped(s: StateView) -> StateView {
    StateView { status: Status::Stopped, pid: None, ..s }
}

impl State {
    /// A fresh record for `id`, created at `now` (seconds since the epoch).
    pub fn new_created(id: String, now: u64) -> (r: State)
        ensures
            r@ == created_state(id@, now),
    {
        State { id, status: Status::Created, pid: None, created_at_unix: now, started_at_unix: None }
    }

    /// An independent copy of this record.
    pub fn duplicate(&self) -> (r: State)
        ensures
            r@ == self@,
    {
        State {
            id: self.id.clone(),
            status: self.status,
            pid: self.pid,
            created_at_unix: self.created_at_unix,
            started_at_unix: self.started_at_unix,
        }
    }
}

} // verus!
