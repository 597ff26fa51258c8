use crate::spec::opt_view;
use vstd::prelude::*;

verus! {

/// One step of the isolation protocol, run inside the new child process
/// before the container's program is loaded.
#[derive(Debug, Clone, Copy, PartialEq, Eq, Structural)]
pub enum IsolationStep {
    /// Enter new, private mount and UTS namespaces.
    EnterNamespaces,
    /// Mark the whole mount tree as private, recursively.
    MakeMountsPrivate,
    /// Bind-mount the rootfs onto itself so that it is a mount point.
    BindRootfs,
    /// Pivot the root to the rootfs, keeping the old root under `.oldroot`.
    PivotRoot,
    /// Change the working directory to the new root.
    ChdirRoot,
    /// Create and mount a fresh `/proc`.
    MountProc,
    /// Create and mount a small in-memory `/dev`.
    MountDev,
    /// Set the host name of the new UTS namespace.
    SetHostname,
    /// Lazily unmount the old root and remove its directory.
    DetachOldRoot,
}

/// One step of the attachment protocol, run inside a child process that
/// joins a running container.
#[derive(Debug, Clone, Copy, PartialEq, Eq, Structural)]
pub enum AttachStep {
    /// Join the target process's mount namespace.
    JoinMountNamespace,
    /// Join the target process's UTS namespace.
    JoinUtsNamespace,
    /// Change directory to the target process's root view.
    EnterTargetRoot,
    /// Make the current directory the process's root.
    ChrootHere,
    /// Change directory to the requested working directory.
    ChdirCwd,
}

/// The isolation steps, in the order the kernel's semantics require.
pub open spec fn isolation_protocol(mount_proc: bool, mount_dev: bool, hostname: bool) -> Seq<IsolationStep> {
    seq![
        IsolationStep::EnterNamespaces,
        IsolationStep::MakeMountsPrivate,
        IsolationStep::BindRootfs,
        IsolationStep::PivotRoot,
        IsolationStep::ChdirRoot,
    ] + (if mount_proc { seq![IsolationStep::MountProc] } else { Seq::empty() }) + (if mount_dev {
        seq![IsolationStep::MountDev]
    } else {
        Seq::empty()
    }) + (if hostname { seq![IsolationStep::SetHostname] } else { Seq::empty() }) + seq![
        IsolationStep::DetachOldRoot,
    ]
}

/// The attachment steps, in order.
pub open spec fn attach_protocol() -> Seq<AttachStep> {
    seq![
        AttachStep::JoinMountNamespace,
        AttachStep::JoinUtsNamespace,
        AttachStep::EnterTargetRoot,
        AttachStep::ChrootHere,
        AttachStep::ChdirCwd,
    ]
}

/// Configuration of the isolation protocol for one start of a container.
#[derive(Debug)]
pub struct ContainerSetup {
    pub rootfs: String,
    pub hostname: Option<String>,
    pub mount_proc: bool,
    pub mount_dev: bool,
}

impl ContainerSetup {
    /// Isolation into `rootfs`, with no host name and with `/proc` and `/dev`.
    pub fn new(rootfs: String) -> (r: ContainerSetup)
        ensures
            r.rootfs@ == rootfs@,
            r.hostname is None,
            r.mount_proc,
            r.mount_dev,
    {
        ContainerSetup { rootfs, hostname: None, mount_proc: true, mount_dev: true }
    }

    /// Sets the host name.
    pub fn hostname(self, hostname: Option<String>) -> (r: ContainerSetup)
        ensures
            r.rootfs@ == self.rootfs@,
            opt_view(r.hostname) == opt_view(hostname),
            r.mount_proc == self.mount_proc,
            r.mount_dev == self.mount_dev,
    {
        ContainerSetup { hostname, ..self }
    }

    /// Turns the fresh `/proc` on or off.
    pub fn mount_proc(self, enabled: bool) -> (r: ContainerSetup)
        ensures
            r.rootfs@ == self.rootfs@,
            opt_view(r.hostname) == opt_view(self.hostname),
            r.mount_proc == enabled,
            r.mount_dev == self.mount_dev,
    {
        ContainerSetup { mount_proc: enabled, ..self }
    }

    /// Turns the fresh `/dev` on or off.
    pub fn mount_dev(self, enabled: bool) -> (r: ContainerSetup)
        ensures
            r.rootfs@ == self.rootfs@,
            opt_view(r.hostname) == opt_view(self.hostname),
            r.mount_proc == self.mount_proc,
            r.mount_dev == enabled,
    {
        ContainerSetup { mount_dev: enabled, ..self }
    }

    /// The steps that applying this configuration runs, in order; the first
    /// step that fails aborts the rest.
    pub fn apply(&self) -> (r: Vec<IsolationStep>)
        ensures
            r@ == isolation_protocol(self.mount_proc, self.mount_dev, self.hostname is Some),
    {
        let mut r: Vec<IsolationStep> = Vec::new();
        r.push(IsolationStep::EnterNamespaces);
        r.push(IsolationStep::MakeMountsPrivate);
        r.push(IsolationStep::BindRootfs);
        r.push(IsolationStep::PivotRoot);
        r.push(IsolationStep::ChdirRoot);
        if self.mount_proc {
            r.push(IsolationStep::MountProc);
        }
        if self.mount_dev {
            r.push(IsolationStep::MountDev);
        }
        if self.hostname.is_some() {
            r.push(IsolationStep::SetHostname);
        }
        r.push(IsolationStep::DetachOldRoot);
        assert(r@ =~= isolation_protocol(self.mount_proc, self.mount_dev, self.hostname is Some));
        r
    }
}

/// The isolation protocol runs each step at most once, starts by entering
/// new namespaces, makes mounts private before the bind mount and the pivot,
/// pivots before mounting `/proc` and `/dev`, and detaches the old root last.
pub proof fn lemma_isolation_order(mount_proc: bool, mount_dev: bool, hostname: bool)
    ensures
        ({
            let s = isolation_protocol(mount_proc, mount_dev, hostname);
            &&& s[0] == IsolationStep::EnterNamespaces
            &&& s[1] == IsolationStep::MakeMountsPrivate
            &&& s[2] == IsolationStep::BindRootfs
            &&& s[3] == IsolationStep::PivotRoot
            &&& s[4] == IsolationStep::ChdirRoot
            &&& s.last() == IsolationStep::DetachOldRoot
            &&& forall|i: int, j: int| 0 <= i < j < s.len() ==> s[i] != s[j]
            &&& forall|i: int| 4 < i < s.len() - 1 ==> (s[i] == IsolationStep::MountProc || s[i]
                == IsolationStep::MountDev || s[i] == IsolationStep::SetHostname)
            &&& (exists|i: int| 0 <= i < s.len() && s[i] == IsolationStep::MountProc) == mount_proc
            &&& (exists|i: int| 0 <= i < s.len() && s[i] == IsolationStep::MountDev) == mount_dev
            &&& (exists|i: int| 0 <= i < s.len() && s[i] == IsolationStep::SetHostname) == hostname
        }),
{
    let s = isolation_protocol(mount_proc, mount_dev, hostname);
    let p: int = if mount_proc { 1 } else { 0 };
    let d: int = if mount_dev { 1 } else { 0 };
    let h: int = if hostname { 1 } else { 0 };
    assert(s.len() == 6 + p + d + h);
    if mount_proc {
        assert(s[5] == IsolationStep::MountProc);
    }
    if mount_dev {
        assert(s[5 + p] == IsolationStep::MountDev);
    }
    if hostname {
        assert(s[5 + p + d] == IsolationStep::SetHostname);
    }
}

} // verus!
