//! The record that the engine keeps of one supervised task.

use vstd::prelude::*;
use crate::api::ExitInfo;
use crate::api::StateResponse;
use crate::api::Status;

verus! {

/// Whether a record stands for a workload or for the orchestrator's
/// placeholder, which holds the shared resources of a group of workloads
/// and runs nothing itself.
#[derive(Clone, Copy, Debug, PartialEq, Eq, Structural)]
pub enum InstanceKind {
    Placeholder,
    Workload,
}

/// The settings of one task. They are fixed when the record is made.
#[derive(Debug)]
pub struct InstanceConfig {
    pub namespace: String,
    pub containerd_address: String,
    pub bundle: String,
    pub stdin: String,
    pub stdout: String,
    pub stderr: String,
}

/// What an [`InstanceConfig`] holds, as mathematical values.
pub struct ConfigView {
    pub namespace: Seq<char>,
    pub containerd_address: Seq<char>,
    pub bundle: Seq<char>,
    pub stdin: Seq<char>,
    pub stdout: Seq<char>,
    pub stderr: Seq<char>,
}

impl View for InstanceConfig {
    type V = ConfigView;

    open spec fn view(&self) -> ConfigView {
        ConfigView {
            namespace: self.namespace@,
            containerd_address: self.containerd_address@,
            bundle: self.bundle@,
            stdin: self.stdin@,
            stdout: self.stdout@,
            stderr: self.stderr@,
        }
    }
}

impl InstanceConfig {
    /// Settings with the given namespace and store address and no paths.
    pub fn new(namespace: &str, containerd_address: &str) -> (cfg: InstanceConfig)
        ensures
            cfg@ == (ConfigView {
                namespace: namespace@,
                containerd_address: containerd_address@,
                bundle: Seq::empty(),
                stdin: Seq::empty(),
                stdout: Seq::empty(),
                stderr: Seq::empty(),
            }),
    {
        InstanceConfig {
            namespace: String::from_str(namespace),
            containerd_address: String::from_str(containerd_address),
            bundle: String::new(),
            stdin: String::new(),
            stdout: String::new(),
            stderr: String::new(),
        }
    }
}

/// What a record holds, as mathematical values. The handle of the execution
/// engine is left out: the engine never looks inside it.
pub struct InstanceView {
    pub id: Seq<char>,
    pub kind: InstanceKind,
    pub cfg: ConfigView,
    pub pid: Option<u32>,
    pub exit: Option<ExitInfo>,
}

/// The state that a snapshot of process id and exit shows: created while
/// no process id is known, running while one is known and no exit is,
/// stopped from then on.
pub open spec fn status_of(pid: Option<u32>, exit: Option<ExitInfo>) -> Status {
    if pid is None {
        Status::Created
    } else if exit is None {
        Status::Running
    } else {
        Status::Stopped
    }
}

/// The exit that a record shows when a zero-duration wait on its instance
/// gave `probe`: the recorded one if there is one, else the probed one.
pub open spec fn known_exit(recorded: Option<ExitInfo>, probe: Option<ExitInfo>) -> Option<
    ExitInfo,
> {
    if recorded is Some {
        recorded
    } else {
        probe
    }
}

/// The exit status of a snapshot, zero while none is known.
pub open spec fn exit_status_of(exit: Option<ExitInfo>) -> u32 {
    match exit {
        Some(e) => e.exit_status,
        None => 0,
    }
}

/// The process id of a snapshot, zero while none is known.
pub open spec fn pid_of(pid: Option<u32>) -> u32 {
    match pid {
        Some(p) => p,
        None => 0,
    }
}

/// One supervised task: its id, its settings, the handle by which the
/// execution engine is reached, and what is known of its process.
///
/// The process id and the exit are each written at most once.
#[derive(Debug)]
pub struct InstanceData<H> {
    id: String,
    kind: InstanceKind,
    handle: H,
    cfg: InstanceConfig,
    pid: Option<u32>,
    exit: Option<ExitInfo>,
}

impl<H> View for InstanceData<H> {
    type V = InstanceView;

    closed spec fn view(&self) -> InstanceView {
        InstanceView {
            id: self.id@,
            kind: self.kind,
            cfg: self.cfg@,
            pid: self.pid,
            exit: self.exit,
        }
    }
}

impl<H> InstanceData<H> {
    /// The handle held by this record.
    pub closed spec fn spec_handle(&self) -> H {
        self.handle
    }

    /// A fresh record: no process id and no exit are known yet.
    pub fn new(id: String, kind: InstanceKind, handle: H, cfg: InstanceConfig) -> (r: Self)
        ensures
            r@ == (InstanceView { id: id@, kind: kind, cfg: cfg@, pid: None, exit: None }),
            r.spec_handle() == handle,
    {
        InstanceData { id, kind, handle, cfg, pid: None, exit: None }
    }

    /// The id under which the task is registered.
    pub fn id(&self) -> (r: &String)
        ensures
            r@ == self@.id,
    {
        &self.id
    }

    /// Whether the record stands for a workload or for the placeholder.
    pub fn kind(&self) -> (r: InstanceKind)
        ensures
            r == self@.kind,
    {
        self.kind
    }

    /// The handle by which the execution engine is reached.
    pub fn handle(&self) -> (r: &H)
        ensures
            *r == self.spec_handle(),
    {
        &self.handle
    }

    /// The settings of the task.
    pub fn config(&self) -> (r: &InstanceConfig)
        ensures
            r@ == self@.cfg,
    {
        &self.cfg
    }

    /// The process id, once the task was started.
    pub fn pid(&self) -> (r: Option<u32>)
        ensures
            r == self@.pid,
    {
        self.pid
    }

    /// The recorded exit, once one was observed. Never blocks.
    pub fn exit(&self) -> (r: Option<ExitInfo>)
        ensures
            r == self@.exit,
    {
        self.exit
    }

    /// Records the process id unless one is recorded already.
    pub fn set_pid(&mut self, pid: u32)
        ensures
            final(self)@ == (InstanceView {
                pid: if old(self)@.pid is Some {
                    old(self)@.pid
                } else {
                    Some(pid)
                },
                ..old(self)@
            }),
            final(self).spec_handle() == old(self).spec_handle(),
    {
        if self.pid.is_none() {
            self.pid = Some(pid);
        }
    }

    /// Records the exit unless one is recorded already, and returns the
    /// recorded one.
    pub fn set_exit(&mut self, exit: ExitInfo) -> (r: ExitInfo)
        ensures
            final(self)@ == (InstanceView { exit: Some(r), ..old(self)@ }),
            final(self).spec_handle() == old(self).spec_handle(),
            r == match old(self)@.exit {
                Some(e) => e,
                None => exit,
            },
    {
        match self.exit {
            Some(e) => e,
            None => {
                self.exit = Some(exit);
                exit
            },
        }
    }

    /// The state of the task, given what a zero-duration wait on its
    /// instance gave.
    pub fn status(&self, probe: Option<ExitInfo>) -> (r: Status)
        ensures
            r == status_of(self@.pid, known_exit(self@.exit, probe)),
    {
        let exit = if self.exit.is_some() {
            self.exit
        } else {
            probe
        };
        if self.pid.is_none() {
            Status::Created
        } else if exit.is_none() {
            Status::Running
        } else {
            Status::Stopped
        }
    }

    /// The full description of the task, given what a zero-duration wait on
    /// its instance gave.
    pub fn state(&self, probe: Option<ExitInfo>) -> (r: StateResponse)
        ensures
            r.id@ == self@.id,
            r.bundle@ == self@.cfg.bundle,
            r.stdin@ == self@.cfg.stdin,
            r.stdout@ == self@.cfg.stdout,
            r.stderr@ == self@.cfg.stderr,
            r.pid == pid_of(self@.pid),
            r.exit_status == exit_status_of(known_exit(self@.exit, probe)),
            r.exited_at == match known_exit(self@.exit, probe) {
                Some(e) => Some(e.exited_at),
                None => None,
            },
            r.status == status_of(self@.pid, known_exit(self@.exit, probe)),
    {
        let exit = if self.exit.is_some() {
            self.exit
        } else {
            probe
        };
        let status = self.status(probe);
        StateResponse {
            id: self.id.clone(),
            bundle: self.cfg.bundle.clone(),
            stdin: self.cfg.stdin.clone(),
            stdout: self.cfg.stdout.clone(),
            stderr: self.cfg.stderr.clone(),
            pid: match self.pid {
                Some(p) => p,
                None => 0,
            },
            exit_status: match exit {
                Some(e) => e.exit_status,
                None => 0,
            },
            exited_at: match exit {
                Some(e) => Some(e.exited_at),
                None => None,
            },
            status,
        }
    }
}

} // verus!
