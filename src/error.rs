use vstd::prelude::*;

verus! {

/// Every failure an operation of the runtime can report.
#[derive(Debug, PartialEq, Eq)]
pub enum RuntimeError {
    /// A record for this id already exists.
    AlreadyExists(String),
    /// No record exists for this id.
    NotFound(String),
    /// The command line to run is empty.
    EmptyArgv,
    /// The root filesystem path does not exist.
    RootfsMissing(String),
    /// The root filesystem path exists but is not a directory.
    RootfsNotDirectory(String),
    /// The container is already running.
    AlreadyRunning,
    /// The program path, resolved inside the root filesystem, does not exist.
    ExecutableNotFound(String),
    /// No process id is recorded for the container.
    NoPid,
    /// The number is neither the probe value 0 nor a known signal.
    InvalidSignal(i32),
    /// The recorded process is not alive.
    NotAlive,
    /// The container is running with a live process and cannot be deleted.
    RefusingDelete,
    /// An `--env` item without `=`.
    EnvMissingEquals(String),
    /// An `--env` item whose key is empty.
    EnvEmptyKey(String),
    /// A failure reported by the operating system, with its text.
    Io(String),
}

} // verus!
