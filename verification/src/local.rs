//! The task lifecycle engine.
//!
//! The engine owns the registry of instance records and decides, for each
//! verb of the task service, whether the request is admitted and how the
//! registry changes. It does no work outside itself: starting, signalling
//! and waiting for a workload, reading a bundle and publishing events are
//! the caller's part. Each verb therefore comes in steps. The `task_*`
//! functions admit a request and say what is to be done; the `instance_*`
//! functions take what the outside work gave and record it.
//!
//! The engine is a plain value. A caller that serves requests in parallel
//! keeps it behind a reader/writer lock: the functions that take `&self`
//! are the readers, those that take `&mut self` the writers.

use vstd::prelude::*;
use vstd::string::*;
use crate::api::ConnectRequest;
use crate::api::ConnectResponse;
use crate::api::CreateTaskRequest;
use crate::api::CreateTaskResponse;
use crate::api::DeleteRequest;
use crate::api::DeleteResponse;
use crate::api::ExitInfo;
use crate::api::KillRequest;
use crate::api::Mount;
use crate::api::StartRequest;
use crate::api::StartResponse;
use crate::api::StateRequest;
use crate::api::StatsRequest;
use crate::api::Status;
use crate::api::WaitRequest;
use crate::api::WaitResponse;
use crate::error::ShimError;
use crate::error::ErrorKind;
use crate::events::LifecycleEvent;
use crate::instance::exit_status_of;
use crate::instance::known_exit;
use crate::instance::pid_of;
use crate::instance::status_of;
use crate::instance::ConfigView;
use crate::instance::InstanceConfig;
use crate::instance::InstanceData;
use crate::instance::InstanceKind;
use crate::instance::InstanceView;
use crate::text::join;
use crate::text::str_eq;

verus! {

/// The registry as a mathematical value: the record of each registered id.
pub type Registry = Map<Seq<char>, InstanceView>;

/// A refusal: the kind of the failure and its text.
pub type Refusal = (ErrorKind, Seq<char>);

/// What reading a bundle's runtime specification gave.
#[derive(Debug)]
pub enum SpecReport {
    /// The specification could not be read or understood.
    LoadFailed(String),
    /// The root file system it names could not be resolved.
    CanonicalizeFailed(String),
    /// It names no root file system.
    NoRoot,
    /// It was read: the resolved root file system and its annotations, each
    /// a key and a value.
    Loaded { rootfs: String, annotations: Vec<(String, String)> },
}

/// What is to be done for an admitted create request.
#[derive(Debug)]
pub struct CreatePlan {
    /// The directory of the root file system, to be made if it is absent
    /// and to be the target of the requested mounts.
    pub rootfs: String,
    /// The kind of record to build.
    pub kind: InstanceKind,
    /// The settings of the new instance.
    pub cfg: InstanceConfig,
}

/// Whether no id is registered.
pub open spec fn is_empty_registry(m: Registry) -> bool {
    forall|id: Seq<char>| !m.contains_key(id)
}

/// Whether the annotations name the sandbox that the container belongs
/// to, which marks a container made through the orchestrator's runtime
/// interface.
pub open spec fn has_sandbox_annotation(annotations: Seq<(String, String)>) -> bool {
    exists|i: int|
        0 <= i < annotations.len() && (#[trigger] annotations[i]).0@
            == "io.kubernetes.cri.sandbox-id"@
}

/// Why a request that names an instance is refused, if it is: a request
/// for a secondary process fails with `exec_kind`, one for an unregistered
/// id with `NotFound`.
pub open spec fn lookup_refusal(
    m: Registry,
    id: Seq<char>,
    exec_id: Seq<char>,
    exec_kind: ErrorKind,
) -> Option<Refusal> {
    if exec_id.len() > 0 {
        Some((exec_kind, "exec is not supported"@))
    } else if !m.contains_key(id) {
        Some((ErrorKind::NotFound, id))
    } else {
        None
    }
}

/// Why a request for the metrics of a task is refused, if it is: the task
/// must be registered and started.
pub open spec fn stats_refusal(m: Registry, id: Seq<char>) -> Option<Refusal> {
    if !m.contains_key(id) {
        Some((ErrorKind::NotFound, id))
    } else if m[id].pid is None {
        Some((ErrorKind::InvalidArgument, "task is not running"@))
    } else {
        None
    }
}

/// Why a create request is refused before its bundle is looked at, if it
/// is. The checks come in this order: checkpoints, terminal, a registered
/// id.
pub open spec fn request_refusal(m: Registry, req: &CreateTaskRequest) -> Option<Refusal> {
    if req.checkpoint@.len() > 0 || req.parent_checkpoint@.len() > 0 {
        Some((ErrorKind::Unimplemented, "checkpoint is not supported"@))
    } else if req.terminal {
        Some((ErrorKind::InvalidArgument, "terminal is not supported"@))
    } else if m.contains_key(req.id@) {
        Some((ErrorKind::AlreadyExists, req.id@))
    } else {
        None
    }
}

/// Why a bundle is refused, if it is: its runtime specification must be
/// readable and must name a root file system that can be resolved.
pub open spec fn bundle_refusal(report: &SpecReport) -> Option<Refusal> {
    match report {
        SpecReport::LoadFailed(cause) => Some(
            (ErrorKind::InvalidArgument, "could not load runtime spec: "@ + cause@),
        ),
        SpecReport::CanonicalizeFailed(cause) => Some(
            (ErrorKind::InvalidArgument, "could not canonicalize rootfs: "@ + cause@),
        ),
        SpecReport::NoRoot => Some(
            (ErrorKind::InvalidArgument, "rootfs is not set in runtime spec"@),
        ),
        SpecReport::Loaded { .. } => None,
    }
}

/// Why a create request is refused, if it is: for what the request holds,
/// and only then for what its bundle holds.
pub open spec fn create_refusal(m: Registry, req: &CreateTaskRequest, report: &SpecReport) -> Option<
    Refusal,
> {
    if request_refusal(m, req) is Some {
        request_refusal(m, req)
    } else {
        bundle_refusal(report)
    }
}

/// The kind of record that a create request gets: the placeholder if the
/// registry is empty and the bundle carries the sandbox annotation, a
/// workload otherwise.
pub open spec fn create_kind(m: Registry, report: &SpecReport) -> InstanceKind {
    match report {
        SpecReport::Loaded { annotations, .. } => if is_empty_registry(m) && has_sandbox_annotation(
            annotations@,
        ) {
            InstanceKind::Placeholder
        } else {
            InstanceKind::Workload
        },
        _ => InstanceKind::Workload,
    }
}

/// The settings of the instance that a create request asks for.
pub open spec fn create_config(
    namespace: Seq<char>,
    containerd_address: Seq<char>,
    req: &CreateTaskRequest,
) -> ConfigView {
    ConfigView {
        namespace,
        containerd_address,
        bundle: req.bundle@,
        stdin: req.stdin@,
        stdout: req.stdout@,
        stderr: req.stderr@,
    }
}

/// The record that a create request leaves in the registry.
pub open spec fn created_record(
    namespace: Seq<char>,
    containerd_address: Seq<char>,
    req: &CreateTaskRequest,
    kind: InstanceKind,
) -> InstanceView {
    InstanceView {
        id: req.id@,
        kind,
        cfg: create_config(namespace, containerd_address, req),
        pid: None,
        exit: None,
    }
}

/// The registry after the process id `pid` was reported for `id`: the
/// first report is kept, and a report for an unregistered id changes
/// nothing.
pub open spec fn with_pid(m: Registry, id: Seq<char>, pid: u32) -> Registry {
    if m.contains_key(id) && m[id].pid is None {
        m.insert(id, InstanceView { pid: Some(pid), ..m[id] })
    } else {
        m
    }
}

/// The exit that stands for `id` once `exit` was reported for it: the one
/// recorded before, if there is one, else the reported one.
pub open spec fn settled_exit(m: Registry, id: Seq<char>, exit: ExitInfo) -> ExitInfo {
    if m.contains_key(id) && m[id].exit is Some {
        m[id].exit->0
    } else {
        exit
    }
}

/// The registry after `exit` was reported for `id`: the first report is
/// kept, and a report for an unregistered id changes nothing.
pub open spec fn with_exit(m: Registry, id: Seq<char>, exit: ExitInfo) -> Registry {
    if m.contains_key(id) {
        m.insert(id, InstanceView { exit: Some(settled_exit(m, id, exit)), ..m[id] })
    } else {
        m
    }
}

/// The state that a state request reports for the registered id `id`, when
/// a zero-duration wait on its instance gave `probe`.
pub open spec fn reported_status(m: Registry, id: Seq<char>, probe: Option<ExitInfo>) -> Status {
    status_of(m[id].pid, known_exit(m[id].exit, probe))
}

/// Whether `r` is the failure that `refusal` describes.
pub open spec fn fails_with<T>(r: Result<T, ShimError>, refusal: Refusal) -> bool {
    r is Err && r->Err_0.is(refusal.0, refusal.1)
}

/// Whether no two records of the sequence have the same id.
pub open spec fn distinct_ids<H>(s: Seq<InstanceData<H>>) -> bool {
    forall|i: int, j: int|
        0 <= i < s.len() && 0 <= j < s.len() && (#[trigger] s[i])@.id == (#[trigger] s[j])@.id
            ==> i == j
}

/// Whether a record of the sequence has the id.
pub open spec fn holds_id<H>(s: Seq<InstanceData<H>>, id: Seq<char>) -> bool {
    exists|i: int| 0 <= i < s.len() && (#[trigger] s[i])@.id == id
}

/// The place of a record with the id.
pub open spec fn index_of<H>(s: Seq<InstanceData<H>>, id: Seq<char>) -> int {
    choose|i: int| 0 <= i < s.len() && (#[trigger] s[i])@.id == id
}

/// The registry that a sequence of records stands for.
pub open spec fn registry_of<H>(s: Seq<InstanceData<H>>) -> Registry {
    Map::new(|id: Seq<char>| holds_id(s, id), |id: Seq<char>| s[index_of(s, id)]@)
}

proof fn lemma_index_of<H>(s: Seq<InstanceData<H>>, i: int)
    requires
        distinct_ids(s),
        0 <= i < s.len(),
    ensures
        holds_id(s, s[i]@.id),
        index_of(s, s[i]@.id) == i,
        registry_of(s)[s[i]@.id] == s[i]@,
{
    let j = index_of(s, s[i]@.id);
    assert(0 <= j < s.len() && s[j]@.id == s[i]@.id);
}

proof fn lemma_registry_push<H>(s: Seq<InstanceData<H>>, r: InstanceData<H>)
    requires
        distinct_ids(s),
        !holds_id(s, r@.id),
    ensures
        distinct_ids(s.push(r)),
        registry_of(s.push(r)) == registry_of(s).insert(r@.id, r@),
{
    let t = s.push(r);
    assert forall|i: int, j: int|
        0 <= i < t.len() && 0 <= j < t.len() && (#[trigger] t[i])@.id == (#[trigger] t[j])@.id
        implies i == j by {
        if i < s.len() {
            assert(t[i] == s[i]);
        }
        if j < s.len() {
            assert(t[j] == s[j]);
        }
    }
    assert forall|id: Seq<char>| holds_id(t, id) <==> (holds_id(s, id) || id == r@.id) by {
        if holds_id(t, id) {
            let i = index_of(t, id);
            if i < s.len() {
                assert(t[i] == s[i]);
            }
        }
        if holds_id(s, id) {
            let i = index_of(s, id);
            assert(t[i] == s[i]);
        }
        if id == r@.id {
            assert(t[s.len() as int] == r);
        }
    }
    assert forall|id: Seq<char>| holds_id(t, id) implies #[trigger] registry_of(t)[id]
        == registry_of(s).insert(r@.id, r@)[id] by {
        let i = index_of(t, id);
        lemma_index_of(t, i);
        if i < s.len() {
            assert(t[i] == s[i]);
            lemma_index_of(s, i);
        }
    }
    assert(registry_of(t) =~= registry_of(s).insert(r@.id, r@));
}

proof fn lemma_registry_remove<H>(s: Seq<InstanceData<H>>, i: int)
    requires
        distinct_ids(s),
        0 <= i < s.len(),
    ensures
        distinct_ids(s.remove(i)),
        registry_of(s.remove(i)) == registry_of(s).remove(s[i]@.id),
{
    let t = s.remove(i);
    assert forall|a: int, b: int|
        0 <= a < t.len() && 0 <= b < t.len() && (#[trigger] t[a])@.id == (#[trigger] t[b])@.id
        implies a == b by {
        let a0 = if a < i {
            a
        } else {
            a + 1
        };
        let b0 = if b < i {
            b
        } else {
            b + 1
        };
        assert(t[a] == s[a0]);
        assert(t[b] == s[b0]);
    }
    assert forall|id: Seq<char>| holds_id(t, id) <==> (holds_id(s, id) && id != s[i]@.id) by {
        if holds_id(t, id) {
            let a = index_of(t, id);
            let a0 = if a < i {
                a
            } else {
                a + 1
            };
            assert(t[a] == s[a0]);
        }
        if holds_id(s, id) && id != s[i]@.id {
            let a0 = index_of(s, id);
            let a = if a0 < i {
                a0
            } else {
                a0 - 1
            };
            assert(t[a] == s[a0]);
        }
    }
    assert forall|id: Seq<char>| holds_id(t, id) implies #[trigger] registry_of(t)[id]
        == registry_of(s).remove(s[i]@.id)[id] by {
        let a = index_of(t, id);
        lemma_index_of(t, a);
        let a0 = if a < i {
            a
        } else {
            a + 1
        };
        assert(t[a] == s[a0]);
        lemma_index_of(s, a0);
    }
    assert(registry_of(t) =~= registry_of(s).remove(s[i]@.id));
}

proof fn lemma_registry_update<H>(s: Seq<InstanceData<H>>, i: int, r: InstanceData<H>)
    requires
        distinct_ids(s),
        0 <= i < s.len(),
        r@.id == s[i]@.id,
    ensures
        distinct_ids(s.update(i, r)),
        registry_of(s.update(i, r)) == registry_of(s).insert(r@.id, r@),
{
    let t = s.update(i, r);
    assert forall|a: int, b: int|
        0 <= a < t.len() && 0 <= b < t.len() && (#[trigger] t[a])@.id == (#[trigger] t[b])@.id
        implies a == b by {
        assert(t[a]@.id == s[a]@.id);
        assert(t[b]@.id == s[b]@.id);
    }
    assert forall|id: Seq<char>| holds_id(t, id) <==> holds_id(s, id) by {
        if holds_id(t, id) {
            let a = index_of(t, id);
            assert(t[a]@.id == s[a]@.id);
        }
        if holds_id(s, id) {
            let a = index_of(s, id);
            assert(t[a]@.id == s[a]@.id);
        }
    }
    lemma_index_of(s, i);
    assert forall|id: Seq<char>| holds_id(t, id) implies #[trigger] registry_of(t)[id]
        == registry_of(s).insert(r@.id, r@)[id] by {
        let a = index_of(t, id);
        lemma_index_of(t, a);
        assert(t[a]@.id == s[a]@.id);
        lemma_index_of(s, a);
    }
    assert(registry_of(t) =~= registry_of(s).insert(r@.id, r@));
}

/// Whether the annotations of a runtime specification mark a container
/// made through the orchestrator's runtime interface: one of them names
/// the sandbox.
pub fn is_cri_container(annotations: &Vec<(String, String)>) -> (r: bool)
    ensures
        r == has_sandbox_annotation(annotations@),
{
    let mut i: usize = 0;
    while i < annotations.len()
        invariant
            i <= annotations.len(),
            forall|k: int|
                0 <= k < i ==> (#[trigger] annotations@[k]).0@ != "io.kubernetes.cri.sandbox-id"@,
        decreases annotations.len() - i,
    {
        if str_eq(annotations[i].0.as_str(), "io.kubernetes.cri.sandbox-id") {
            return true;
        }
        i += 1;
    }
    false
}

impl Mount {
    /// The type of the mount, if the request names one.
    pub fn mount_type(&self) -> (r: Option<&str>)
        ensures
            self.type_@.len() == 0 ==> r is None,
            self.type_@.len() > 0 ==> r is Some && r->0@ == self.type_@,
    {
        if self.type_.as_str().is_empty() {
            None
        } else {
            Some(self.type_.as_str())
        }
    }

    /// The source of the mount, if the request names one.
    pub fn mount_source(&self) -> (r: Option<&str>)
        ensures
            self.source@.len() == 0 ==> r is None,
            self.source@.len() > 0 ==> r is Some && r->0@ == self.source@,
    {
        if self.source.as_str().is_empty() {
            None
        } else {
            Some(self.source.as_str())
        }
    }
}

/// The task service of one shim: the registry of its instances, and the
/// namespace and store address that every instance is configured with.
pub struct Local<H> {
    instances: Vec<InstanceData<H>>,
    namespace: String,
    containerd_address: String,
}

impl<H> View for Local<H> {
    type V = Registry;

    closed spec fn view(&self) -> Registry {
        registry_of(self.instances@)
    }
}

impl<H> Local<H> {
    /// Whether the registry is well formed: no id is registered twice.
    /// Every function of the service keeps it so.
    pub closed spec fn wf(&self) -> bool {
        distinct_ids(self.instances@)
    }

    /// The namespace that the service was made with.
    pub closed spec fn spec_namespace(&self) -> Seq<char> {
        self.namespace@
    }

    /// The store address that the service was made with.
    pub closed spec fn spec_containerd_address(&self) -> Seq<char> {
        self.containerd_address@
    }

    /// The engine handle of the record registered under `id`.
    pub closed spec fn handle_of(&self, id: Seq<char>) -> H {
        self.instances@[index_of(self.instances@, id)].spec_handle()
    }

    /// Whether the two services were made with the same settings.
    pub open spec fn same_settings(&self, other: &Self) -> bool {
        &&& self.spec_namespace() == other.spec_namespace()
        &&& self.spec_containerd_address() == other.spec_containerd_address()
    }

    /// Whether every id but `id` has the same handle in both services.
    pub open spec fn same_handles_but(&self, other: &Self, id: Seq<char>) -> bool {
        forall|k: Seq<char>| k != id && self@.contains_key(k) ==> self.handle_of(k) == other.handle_of(k)
    }

    /// Whether every registered id has the same handle in both services.
    pub open spec fn same_handles(&self, other: &Self) -> bool {
        forall|k: Seq<char>| self@.contains_key(k) ==> self.handle_of(k) == other.handle_of(k)
    }

    /// Creates a task service with an empty registry.
    pub fn new(namespace: &str, containerd_address: &str) -> (r: Self)
        ensures
            r.wf(),
            is_empty_registry(r@),
            r.spec_namespace() == namespace@,
            r.spec_containerd_address() == containerd_address@,
    {
        let r = Local {
            instances: Vec::new(),
            namespace: String::from_str(namespace),
            containerd_address: String::from_str(containerd_address),
        };
        assert(forall|id: Seq<char>| !holds_id(r.instances@, id));
        r
    }

    fn find(&self, id: &str) -> (r: Option<usize>)
        requires
            self.wf(),
        ensures
            match r {
                Some(i) => i < self.instances@.len() && self.instances@[i as int]@.id == id@
                    && index_of(self.instances@, id@) == i,
                None => !holds_id(self.instances@, id@),
            },
            r is Some <==> self@.contains_key(id@),
    {
        let mut i: usize = 0;
        while i < self.instances.len()
            invariant
                i <= self.instances@.len(),
                distinct_ids(self.instances@),
                forall|k: int| 0 <= k < i ==> (#[trigger] self.instances@[k])@.id != id@,
            decreases self.instances@.len() - i,
        {
            if str_eq(self.instances[i].id().as_str(), id) {
                proof {
                    lemma_index_of(self.instances@, i as int);
                }
                return Some(i);
            }
            i += 1;
        }
        None
    }

    /// Looks an instance up by its id.
    pub fn get_instance(&self, id: &str) -> (r: Result<&InstanceData<H>, ShimError>)
        requires
            self.wf(),
        ensures
            self@.contains_key(id@) ==> r is Ok && r->Ok_0@ == self@[id@] && r->Ok_0.spec_handle()
                == self.handle_of(id@),
            !self@.contains_key(id@) ==> fails_with(r, (ErrorKind::NotFound, id@)),
    {
        match self.find(id) {
            Some(i) => {
                proof {
                    lemma_index_of(self.instances@, i as int);
                }
                Ok(&self.instances[i])
            },
            None => Err(ShimError::NotFound(String::from_str(id))),
        }
    }

    /// Whether an instance is registered under the id.
    pub fn has_instance(&self, id: &str) -> (r: bool)
        requires
            self.wf(),
        ensures
            r == self@.contains_key(id@),
    {
        self.find(id).is_some()
    }

    /// Whether no instance is registered.
    pub fn is_empty(&self) -> (r: bool)
        requires
            self.wf(),
        ensures
            r == is_empty_registry(self@),
    {
        let r = self.instances.len() == 0;
        proof {
            if !r {
                assert(holds_id(self.instances@, self.instances@[0]@.id));
                assert(self@.contains_key(self.instances@[0]@.id));
            }
        }
        r
    }

    /// The settings that every instance of this service starts from: the
    /// namespace and the store address, and no paths yet.
    pub fn instance_config(&self) -> (cfg: InstanceConfig)
        requires
            self.wf(),
        ensures
            cfg@ == (ConfigView {
                namespace: self.spec_namespace(),
                containerd_address: self.spec_containerd_address(),
                bundle: Seq::empty(),
                stdin: Seq::empty(),
                stdout: Seq::empty(),
                stderr: Seq::empty(),
            }),
    {
        InstanceConfig::new(self.namespace.as_str(), self.containerd_address.as_str())
    }
}

impl<H> Local<H> {
    /// Admits a request that names an instance: refuses a request for a
    /// secondary process with the given kind of failure, then looks the
    /// instance up.
    fn lookup(&self, id: &String, exec_id: &String, exec_unimplemented: bool) -> (r: Result<
        &InstanceData<H>,
        ShimError,
    >)
        requires
            self.wf(),
        ensures
            match lookup_refusal(
                self@,
                id@,
                exec_id@,
                if exec_unimplemented {
                    ErrorKind::Unimplemented
                } else {
                    ErrorKind::InvalidArgument
                },
            ) {
                Some(refusal) => fails_with(r, refusal),
                None => r is Ok && r->Ok_0@ == self@[id@] && r->Ok_0.spec_handle() == self.handle_of(
                    id@,
                ),
            },
    {
        if !exec_id.as_str().is_empty() {
            let message = String::from_str("exec is not supported");
            if exec_unimplemented {
                return Err(ShimError::Unimplemented(message));
            }
            return Err(ShimError::InvalidArgument(message));
        }
        self.get_instance(id.as_str())
    }

    /// Checks a create request before its bundle is looked at: it is
    /// refused if it names a checkpoint, asks for a terminal, or names a
    /// registered id, in that order.
    pub fn check_create(&self, req: &CreateTaskRequest) -> (r: Result<(), ShimError>)
        requires
            self.wf(),
        ensures
            match request_refusal(self@, req) {
                Some(refusal) => fails_with(r, refusal),
                None => r is Ok,
            },
    {
        if !req.checkpoint.as_str().is_empty() || !req.parent_checkpoint.as_str().is_empty() {
            return Err(ShimError::Unimplemented(String::from_str("checkpoint is not supported")));
        }
        if req.terminal {
            return Err(ShimError::InvalidArgument(String::from_str("terminal is not supported")));
        }
        if self.has_instance(req.id.as_str()) {
            return Err(ShimError::AlreadyExists(req.id.clone()));
        }
        Ok(())
    }

    /// Admits a create request and plans the work for it.
    ///
    /// `report` is what reading the runtime specification in the request's
    /// bundle gave. The request is refused for what it holds, as
    /// [`Local::check_create`] says, and then if the bundle gave no root
    /// file system. The registry is not changed: the instance is registered
    /// by [`Local::instance_created`], once the planned work is done.
    pub fn task_create(&self, req: &CreateTaskRequest, report: &SpecReport) -> (r: Result<
        CreatePlan,
        ShimError,
    >)
        requires
            self.wf(),
        ensures
            match create_refusal(self@, req, report) {
                Some(refusal) => fails_with(r, refusal),
                None => r is Ok && r->Ok_0.rootfs@ == report->Loaded_rootfs@ && r->Ok_0.kind
                    == create_kind(self@, report) && r->Ok_0.cfg@ == create_config(
                    self.spec_namespace(),
                    self.spec_containerd_address(),
                    req,
                ),
            },
    {
        match self.check_create(req) {
            Ok(()) => {},
            Err(e) => {
                return Err(e);
            },
        }
        match report {
            SpecReport::LoadFailed(cause) => Err(
                ShimError::InvalidArgument(join("could not load runtime spec: ", cause.as_str())),
            ),
            SpecReport::CanonicalizeFailed(cause) => Err(
                ShimError::InvalidArgument(join("could not canonicalize rootfs: ", cause.as_str())),
            ),
            SpecReport::NoRoot => Err(
                ShimError::InvalidArgument(String::from_str("rootfs is not set in runtime spec")),
            ),
            SpecReport::Loaded { rootfs, annotations } => {
                let kind = if self.is_empty() && is_cri_container(annotations) {
                    InstanceKind::Placeholder
                } else {
                    InstanceKind::Workload
                };
                Ok(CreatePlan { rootfs: rootfs.clone(), kind, cfg: self.request_config(req) })
            },
        }
    }

    fn request_config(&self, req: &CreateTaskRequest) -> (cfg: InstanceConfig)
        requires
            self.wf(),
        ensures
            cfg@ == create_config(self.spec_namespace(), self.spec_containerd_address(), req),
    {
        InstanceConfig {
            namespace: self.namespace.clone(),
            containerd_address: self.containerd_address.clone(),
            bundle: req.bundle.clone(),
            stdin: req.stdin.clone(),
            stdout: req.stdout.clone(),
            stderr: req.stderr.clone(),
        }
    }

    /// Registers the instance that was built for an admitted create
    /// request, and gives the response and the event to publish.
    ///
    /// `handle` reaches the instance in the execution engine and `shim_pid`
    /// is the shim's own process id, which is reported as the task's until
    /// the task is started. If the id was registered in the meantime the
    /// request fails with `AlreadyExists` and nothing changes.
    pub fn instance_created(
        &mut self,
        req: CreateTaskRequest,
        kind: InstanceKind,
        handle: H,
        shim_pid: u32,
    ) -> (r: Result<(CreateTaskResponse, LifecycleEvent), ShimError>)
        requires
            old(self).wf(),
        ensures
            final(self).wf(),
            final(self).same_settings(old(self)),
            old(self).same_handles_but(final(self), req.id@),
            old(self)@.contains_key(req.id@) ==> fails_with(r, (ErrorKind::AlreadyExists, req.id@))
                && final(self)@ == old(self)@ && final(self).handle_of(req.id@) == old(
                self,
            ).handle_of(req.id@),
            !old(self)@.contains_key(req.id@) ==> {
                &&& final(self)@ == old(self)@.insert(
                    req.id@,
                    created_record(
                        old(self).spec_namespace(),
                        old(self).spec_containerd_address(),
                        &req,
                        kind,
                    ),
                )
                &&& final(self).handle_of(req.id@) == handle
                &&& r is Ok
                &&& r->Ok_0.0.pid == shim_pid
                &&& r->Ok_0.1 matches LifecycleEvent::Create {
                    container_id,
                    bundle,
                    rootfs,
                    stdin,
                    stdout,
                    stderr,
                }
                &&& container_id@ == req.id@
                &&& bundle@ == req.bundle@
                &&& rootfs == req.rootfs
                &&& stdin@ == req.stdin@
                &&& stdout@ == req.stdout@
                &&& stderr@ == req.stderr@
            },
    {
        if self.find(req.id.as_str()).is_some() {
            return Err(ShimError::AlreadyExists(req.id));
        }
        let cfg = self.request_config(&req);
        let record = InstanceData::new(req.id.clone(), kind, handle, cfg);
        proof {
            lemma_registry_push(self.instances@, record);
            lemma_index_of(self.instances@.push(record), self.instances@.len() as int);
            assert forall|k: Seq<char>| k != req.id@ && old(self)@.contains_key(k) implies old(
                self,
            ).handle_of(k) == self.instances@.push(record)[index_of(
                self.instances@.push(record),
                k,
            )].spec_handle() by {
                let i = index_of(self.instances@, k);
                lemma_index_of(self.instances@, i);
                assert(self.instances@.push(record)[i] == self.instances@[i]);
                lemma_index_of(self.instances@.push(record), i);
            }
        }
        self.instances.push(record);
        let event = LifecycleEvent::Create {
            container_id: req.id,
            bundle: req.bundle,
            rootfs: req.rootfs,
            stdin: req.stdin,
            stdout: req.stdout,
            stderr: req.stderr,
        };
        Ok((CreateTaskResponse { pid: shim_pid }, event))
    }

    /// Takes the record of `id` out of the registry, if there is one.
    fn take(&mut self, id: &str) -> (r: Option<InstanceData<H>>)
        requires
            old(self).wf(),
        ensures
            final(self).wf(),
            final(self).same_settings(old(self)),
            old(self).same_handles_but(final(self), id@),
            final(self)@ == old(self)@.remove(id@),
            old(self)@.contains_key(id@) ==> r is Some && r->0@ == old(self)@[id@],
            !old(self)@.contains_key(id@) ==> r is None,
    {
        match self.find(id) {
            Some(i) => {
                proof {
                    lemma_registry_remove(self.instances@, i as int);
                    lemma_index_of(self.instances@, i as int);
                    let s = self.instances@;
                    let t = s.remove(i as int);
                    assert forall|k: Seq<char>| k != id@ && old(self)@.contains_key(k) implies s[index_of(
                        s,
                        k,
                    )].spec_handle() == t[index_of(t, k)].spec_handle() by {
                        let a0 = index_of(s, k);
                        lemma_index_of(s, a0);
                        let a = if a0 < i {
                            a0
                        } else {
                            a0 - 1
                        };
                        assert(t[a] == s[a0]);
                        lemma_index_of(t, a);
                    }
                }
                let record = self.instances.remove(i);
                Some(record)
            },
            None => {
                assert(old(self)@.remove(id@) =~= old(self)@);
                None
            },
        }
    }

    /// Withdraws a create whose work failed after the instance was
    /// registered, so that no instance is left behind.
    pub fn create_failed(&mut self, id: &str)
        requires
            old(self).wf(),
        ensures
            final(self).wf(),
            final(self).same_settings(old(self)),
            old(self).same_handles_but(final(self), id@),
            final(self)@ == old(self)@.remove(id@),
    {
        let _ = self.take(id);
    }

    /// Admits a start request and gives the instance to start.
    pub fn task_start(&self, req: &StartRequest) -> (r: Result<&InstanceData<H>, ShimError>)
        requires
            self.wf(),
        ensures
            match lookup_refusal(self@, req.id@, req.exec_id@, ErrorKind::Unimplemented) {
                Some(refusal) => fails_with(r, refusal),
                None => r is Ok && r->Ok_0@ == self@[req.id@] && r->Ok_0.spec_handle()
                    == self.handle_of(req.id@),
            },
    {
        self.lookup(&req.id, &req.exec_id, true)
    }

    /// Admits a kill request and gives the instance to signal. What the
    /// instance answers is the answer to the request.
    pub fn task_kill(&self, req: &KillRequest) -> (r: Result<&InstanceData<H>, ShimError>)
        requires
            self.wf(),
        ensures
            match lookup_refusal(self@, req.id@, req.exec_id@, ErrorKind::InvalidArgument) {
                Some(refusal) => fails_with(r, refusal),
                None => r is Ok && r->Ok_0@ == self@[req.id@] && r->Ok_0.spec_handle()
                    == self.handle_of(req.id@),
            },
    {
        self.lookup(&req.id, &req.exec_id, false)
    }

    /// Admits a delete request and gives the instance to clean up.
    pub fn task_delete(&self, req: &DeleteRequest) -> (r: Result<&InstanceData<H>, ShimError>)
        requires
            self.wf(),
        ensures
            match lookup_refusal(self@, req.id@, req.exec_id@, ErrorKind::InvalidArgument) {
                Some(refusal) => fails_with(r, refusal),
                None => r is Ok && r->Ok_0@ == self@[req.id@] && r->Ok_0.spec_handle()
                    == self.handle_of(req.id@),
            },
    {
        self.lookup(&req.id, &req.exec_id, false)
    }

    /// Admits a wait request and gives the instance to wait for.
    pub fn task_wait(&self, req: &WaitRequest) -> (r: Result<&InstanceData<H>, ShimError>)
        requires
            self.wf(),
        ensures
            match lookup_refusal(self@, req.id@, req.exec_id@, ErrorKind::InvalidArgument) {
                Some(refusal) => fails_with(r, refusal),
                None => r is Ok && r->Ok_0@ == self@[req.id@] && r->Ok_0.spec_handle()
                    == self.handle_of(req.id@),
            },
    {
        self.lookup(&req.id, &req.exec_id, false)
    }

    /// Admits a state request and gives the instance to describe, which
    /// [`InstanceData::state`] then does.
    pub fn task_state(&self, req: &StateRequest) -> (r: Result<&InstanceData<H>, ShimError>)
        requires
            self.wf(),
        ensures
            match lookup_refusal(self@, req.id@, req.exec_id@, ErrorKind::InvalidArgument) {
                Some(refusal) => fails_with(r, refusal),
                None => r is Ok && r->Ok_0@ == self@[req.id@] && r->Ok_0.spec_handle()
                    == self.handle_of(req.id@),
            },
    {
        self.lookup(&req.id, &req.exec_id, false)
    }
}

impl<H> Local<H> {
    /// Records the process id that starting the instance `id` gave, and
    /// gives the response and the event to publish.
    ///
    /// The first process id reported for an instance is kept. The response
    /// and the event carry the reported one, whether or not the instance is
    /// still registered.
    pub fn instance_started(&mut self, id: &str, pid: u32) -> (r: (StartResponse, LifecycleEvent))
        requires
            old(self).wf(),
        ensures
            final(self).wf(),
            final(self).same_settings(old(self)),
            old(self).same_handles(final(self)),
            final(self)@ == with_pid(old(self)@, id@, pid),
            r.0.pid == pid,
            r.1 matches LifecycleEvent::Start { container_id, pid: started }
                && container_id@ == id@ && started == pid,
    {
        match self.find(id) {
            Some(i) => {
                if self.instances[i].pid().is_none() {
                    let mut record = self.instances.remove(i);
                    proof {
                        lemma_registry_remove(old(self).instances@, i as int);
                    }
                    record.set_pid(pid);
                    self.instances.insert(i, record);
                    proof {
                        let s = old(self).instances@;
                        assert(self.instances@ =~= s.update(i as int, record));
                        lemma_registry_update(s, i as int, record);
                        lemma_index_of(s, i as int);
                        let t = self.instances@;
                        assert forall|k: Seq<char>| old(self)@.contains_key(k) implies s[index_of(
                            s,
                            k,
                        )].spec_handle() == t[index_of(t, k)].spec_handle() by {
                            let a = index_of(s, k);
                            lemma_index_of(s, a);
                            assert(t[a]@.id == s[a]@.id);
                            lemma_index_of(t, a);
                        }
                    }
                }
            },
            None => {},
        }
        (
            StartResponse { pid },
            LifecycleEvent::Start { container_id: String::from_str(id), pid },
        )
    }
}

impl<H> Local<H> {
    /// Records an exit reported for `id` unless one is recorded already,
    /// and returns the exit that stands from now on.
    fn record_exit(&mut self, id: &str, exit: ExitInfo) -> (r: ExitInfo)
        requires
            old(self).wf(),
        ensures
            final(self).wf(),
            final(self).same_settings(old(self)),
            old(self).same_handles(final(self)),
            final(self)@ == with_exit(old(self)@, id@, exit),
            r == settled_exit(old(self)@, id@, exit),
    {
        match self.find(id) {
            Some(i) => {
                proof {
                    lemma_index_of(self.instances@, i as int);
                }
                let mut record = self.instances.remove(i);
                let settled = record.set_exit(exit);
                self.instances.insert(i, record);
                proof {
                    let s = old(self).instances@;
                    assert(self.instances@ =~= s.update(i as int, record));
                    lemma_registry_update(s, i as int, record);
                    let t = self.instances@;
                    assert forall|k: Seq<char>| old(self)@.contains_key(k) implies s[index_of(
                        s,
                        k,
                    )].spec_handle() == t[index_of(t, k)].spec_handle() by {
                        let a = index_of(s, k);
                        lemma_index_of(s, a);
                        assert(t[a]@.id == s[a]@.id);
                        lemma_index_of(t, a);
                    }
                }
                settled
            },
            None => exit,
        }
    }

    /// Records the exit that the waiter of a started instance saw, and
    /// gives the event to publish.
    ///
    /// `pid` is the process id that starting the instance gave. The first
    /// exit reported for an instance is kept, and the event carries the
    /// exit that is recorded after the call.
    pub fn instance_exited(&mut self, id: &str, pid: u32, exit: ExitInfo) -> (r: LifecycleEvent)
        requires
            old(self).wf(),
        ensures
            final(self).wf(),
            final(self).same_settings(old(self)),
            old(self).same_handles(final(self)),
            final(self)@ == with_exit(old(self)@, id@, exit),
            r matches LifecycleEvent::Exit {
                container_id,
                id: task,
                pid: exited,
                exit_status,
                exited_at,
            } && container_id@ == id@ && task@ == id@ && exited == pid && (ExitInfo {
                exit_status,
                exited_at,
            }) == settled_exit(old(self)@, id@, exit),
    {
        let settled = self.record_exit(id, exit);
        LifecycleEvent::Exit {
            container_id: String::from_str(id),
            id: String::from_str(id),
            pid,
            exit_status: settled.exit_status,
            exited_at: settled.exited_at,
        }
    }

    /// Records the exit that waiting for the instance `id` gave, and gives
    /// the response to the wait request.
    ///
    /// The first exit reported for an instance is kept, and every response
    /// carries the exit that is recorded after the call: all who wait for
    /// one instance get the same answer.
    pub fn instance_waited(&mut self, id: &str, exit: ExitInfo) -> (r: WaitResponse)
        requires
            old(self).wf(),
        ensures
            final(self).wf(),
            final(self).same_settings(old(self)),
            old(self).same_handles(final(self)),
            final(self)@ == with_exit(old(self)@, id@, exit),
            r.exit_status == settled_exit(old(self)@, id@, exit).exit_status,
            r.exited_at == Some(settled_exit(old(self)@, id@, exit).exited_at),
    {
        let settled = self.record_exit(id, exit);
        WaitResponse { exit_status: settled.exit_status, exited_at: Some(settled.exited_at) }
    }

    /// Removes the instance `id` from the registry once the execution
    /// engine has cleaned up after it, and gives the response and the event
    /// to publish.
    ///
    /// `probe` is what a zero-duration wait on the instance gave. The
    /// response carries the process id, or zero if the task was never
    /// started, and the exit that is known, if any. If the instance is no
    /// longer registered the call fails with `NotFound`.
    pub fn instance_deleted(&mut self, id: &str, probe: Option<ExitInfo>) -> (r: Result<
        (DeleteResponse, LifecycleEvent),
        ShimError,
    >)
        requires
            old(self).wf(),
        ensures
            final(self).wf(),
            final(self).same_settings(old(self)),
            old(self).same_handles_but(final(self), id@),
            final(self)@ == old(self)@.remove(id@),
            !old(self)@.contains_key(id@) ==> fails_with(r, (ErrorKind::NotFound, id@)),
            old(self)@.contains_key(id@) ==> {
                let record = old(self)@[id@];
                let exit = known_exit(record.exit, probe);
                &&& r is Ok
                &&& r->Ok_0.0 == (DeleteResponse {
                    pid: pid_of(record.pid),
                    exit_status: exit_status_of(exit),
                    exited_at: match exit {
                        Some(e) => Some(e.exited_at),
                        None => None,
                    },
                })
                &&& r->Ok_0.1 matches LifecycleEvent::Delete {
                    container_id,
                    pid,
                    exit_status,
                    exited_at,
                }
                &&& container_id@ == id@
                &&& pid == r->Ok_0.0.pid
                &&& exit_status == r->Ok_0.0.exit_status
                &&& exited_at == r->Ok_0.0.exited_at
            },
    {
        match self.take(id) {
            Some(record) => {
                let exit = if record.exit().is_some() {
                    record.exit()
                } else {
                    probe
                };
                let pid = match record.pid() {
                    Some(p) => p,
                    None => 0,
                };
                let exit_status = match exit {
                    Some(e) => e.exit_status,
                    None => 0,
                };
                let exited_at = match exit {
                    Some(e) => Some(e.exited_at),
                    None => None,
                };
                Ok(
                    (
                        DeleteResponse { pid, exit_status, exited_at },
                        LifecycleEvent::Delete {
                            container_id: String::from_str(id),
                            pid,
                            exit_status,
                            exited_at,
                        },
                    ),
                )
            },
            None => Err(ShimError::NotFound(String::from_str(id))),
        }
    }

    /// Admits a request for the metrics of a task and gives the process id
    /// to collect them for. The task must be registered and started.
    pub fn task_stats(&self, req: &StatsRequest) -> (r: Result<u32, ShimError>)
        requires
            self.wf(),
        ensures
            match stats_refusal(self@, req.id@) {
                Some(refusal) => fails_with(r, refusal),
                None => r == Ok::<u32, ShimError>(self@[req.id@].pid->0),
            },
    {
        let record = self.get_instance(req.id.as_str())?;
        match record.pid() {
            Some(pid) => Ok(pid),
            None => Err(ShimError::InvalidArgument(String::from_str("task is not running"))),
        }
    }

    /// Answers a connect request: the shim's own process id, and the
    /// task's, or zero if the task was not started yet.
    pub fn connect(&self, req: &ConnectRequest, shim_pid: u32) -> (r: Result<
        ConnectResponse,
        ShimError,
    >)
        requires
            self.wf(),
        ensures
            !self@.contains_key(req.id@) ==> fails_with(r, (ErrorKind::NotFound, req.id@)),
            self@.contains_key(req.id@) ==> r == Ok::<ConnectResponse, ShimError>(
                ConnectResponse { shim_pid, task_pid: pid_of(self@[req.id@].pid) },
            ),
    {
        let record = self.get_instance(req.id.as_str())?;
        let task_pid = match record.pid() {
            Some(pid) => pid,
            None => 0,
        };
        Ok(ConnectResponse { shim_pid, task_pid })
    }

    /// Answers a shutdown request: whether the process is to be told to
    /// end, which is so only while no instance is registered.
    pub fn shutdown(&self) -> (signal: bool)
        requires
            self.wf(),
        ensures
            signal == is_empty_registry(self@),
    {
        self.is_empty()
    }
}

} // verus!
