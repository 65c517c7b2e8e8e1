//! What holds of the task lifecycle engine across its verbs, and of the
//! image layer resolver.
//!
//! Each statement is over the registry as a mathematical value and the
//! functions by which the verbs of the engine, and the steps of the
//! resolver, state their results.

use vstd::prelude::*;
use crate::api::CreateTaskRequest;
use crate::api::ExitInfo;
use crate::api::Status;
use crate::containerd::declares_wasm;
use crate::containerd::follows_config;
use crate::containerd::is_image_layer;
use crate::containerd::payload_layers;
use crate::containerd::DescriptorView;
use crate::containerd::Outcome;
use crate::containerd::PlatformView;
use crate::error::ErrorKind;
use crate::instance::InstanceKind;
use crate::local::create_kind;
use crate::local::create_refusal;
use crate::local::created_record;
use crate::local::has_sandbox_annotation;
use crate::local::is_empty_registry;
use crate::local::lookup_refusal;
use crate::local::reported_status;
use crate::local::settled_exit;
use crate::local::stats_refusal;
use crate::local::with_exit;
use crate::local::with_pid;
use crate::local::Registry;
use crate::local::SpecReport;

verus! {

/// Whether the request has a shape that a create accepts: it names no
/// checkpoint and asks for no terminal.
pub open spec fn plain_create(req: &CreateTaskRequest) -> bool {
    req.checkpoint@.len() == 0 && req.parent_checkpoint@.len() == 0 && !req.terminal
}

/// Once an instance was created under an id, a further create of that id
/// is refused as already existing, whatever its bundle holds.
pub proof fn second_create_is_refused(
    m: Registry,
    namespace: Seq<char>,
    containerd_address: Seq<char>,
    first: CreateTaskRequest,
    kind: InstanceKind,
    second: CreateTaskRequest,
    report: SpecReport,
)
    requires
        second.id@ == first.id@,
        plain_create(&second),
    ensures
        create_refusal(
            m.insert(first.id@, created_record(namespace, containerd_address, &first, kind)),
            &second,
            &report,
        ) == Some((ErrorKind::AlreadyExists, first.id@)),
{
}

/// A request that names an unregistered id, and no secondary process, is
/// refused as not found by every verb that names an instance: start, and
/// kill, delete, wait and state, and the request for metrics.
pub proof fn unregistered_is_not_found(m: Registry, id: Seq<char>)
    requires
        !m.contains_key(id),
    ensures
        lookup_refusal(m, id, Seq::empty(), ErrorKind::Unimplemented) == Some(
            (ErrorKind::NotFound, id),
        ),
        lookup_refusal(m, id, Seq::empty(), ErrorKind::InvalidArgument) == Some(
            (ErrorKind::NotFound, id),
        ),
        stats_refusal(m, id) == Some((ErrorKind::NotFound, id)),
{
}

/// A create that names a checkpoint is refused as unimplemented, whatever
/// else the request, the registry and the bundle hold.
pub proof fn checkpoint_is_unimplemented(m: Registry, req: CreateTaskRequest, report: SpecReport)
    requires
        req.checkpoint@.len() > 0 || req.parent_checkpoint@.len() > 0,
    ensures
        create_refusal(m, &req, &report) == Some(
            (ErrorKind::Unimplemented, "checkpoint is not supported"@),
        ),
{
}

/// After a start, the state of the instance is running while no exit is
/// known and stopped once one is; it is not created.
pub proof fn started_is_running_until_exit(
    m: Registry,
    id: Seq<char>,
    pid: u32,
    probe: Option<ExitInfo>,
)
    requires
        m.contains_key(id),
    ensures
        ({
            let started = with_pid(m, id, pid);
            &&& started.contains_key(id)
            &&& reported_status(started, id, probe) != Status::Created
            &&& reported_status(started, id, probe) == Status::Running <==> m[id].exit is None
                && probe is None
            &&& reported_status(started, id, probe) == Status::Stopped <==> m[id].exit is Some
                || probe is Some
        }),
{
}

/// Once an exit was reported for a started instance, its state is stopped,
/// whatever a later zero-duration wait gives.
pub proof fn exited_is_stopped(
    m: Registry,
    id: Seq<char>,
    exit: ExitInfo,
    probe: Option<ExitInfo>,
)
    requires
        m.contains_key(id),
        m[id].pid is Some,
    ensures
        reported_status(with_exit(m, id, exit), id, probe) == Status::Stopped,
{
}

/// No report of a process id or of an exit, for any id, takes the state of
/// an instance back: a started instance stays started, with its process
/// id, and a stopped one stays stopped, with its exit.
pub proof fn state_never_goes_back(
    m: Registry,
    id: Seq<char>,
    other: Seq<char>,
    pid: u32,
    exit: ExitInfo,
)
    requires
        m.contains_key(id),
    ensures
        m[id].pid is Some ==> with_pid(m, other, pid)[id].pid == m[id].pid && with_exit(
            m,
            other,
            exit,
        )[id].pid == m[id].pid,
        m[id].exit is Some ==> with_pid(m, other, pid)[id].exit == m[id].exit && with_exit(
            m,
            other,
            exit,
        )[id].exit == m[id].exit,
{
}

/// After a delete, a request that names the id, and no secondary process,
/// is refused as not found by start, kill, delete, wait and state, and by
/// the request for metrics.
pub proof fn deleted_is_not_found(m: Registry, id: Seq<char>)
    ensures
        lookup_refusal(m.remove(id), id, Seq::empty(), ErrorKind::Unimplemented) == Some(
            (ErrorKind::NotFound, id),
        ),
        lookup_refusal(m.remove(id), id, Seq::empty(), ErrorKind::InvalidArgument) == Some(
            (ErrorKind::NotFound, id),
        ),
        stats_refusal(m.remove(id), id) == Some((ErrorKind::NotFound, id)),
{
}

/// All who wait for a registered instance get the same exit: whatever a
/// later report says, the exit that stands is the one that stood after
/// the first report.
pub proof fn waits_agree(m: Registry, id: Seq<char>, first: ExitInfo, later: ExitInfo)
    requires
        m.contains_key(id),
    ensures
        settled_exit(with_exit(m, id, first), id, later) == settled_exit(m, id, first),
        with_exit(with_exit(m, id, first), id, later) == with_exit(m, id, first),
{
    assert(with_exit(with_exit(m, id, first), id, later) =~= with_exit(m, id, first));
}

/// A create whose bundle holds no readable runtime specification is
/// refused as an invalid argument, if nothing else about the request is
/// refused before the bundle is looked at.
pub proof fn unreadable_bundle_is_invalid(m: Registry, req: CreateTaskRequest, cause: String)
    requires
        plain_create(&req),
        !m.contains_key(req.id@),
    ensures
        create_refusal(m, &req, &SpecReport::LoadFailed(cause)) == Some(
            (ErrorKind::InvalidArgument, "could not load runtime spec: "@ + cause@),
        ),
{
}

/// The first create on an empty registry, for a bundle that carries the
/// sandbox annotation, is admitted and gets the placeholder; start, state
/// and delete then accept the id.
pub proof fn first_sandbox_create_is_placeholder(
    m: Registry,
    namespace: Seq<char>,
    containerd_address: Seq<char>,
    req: CreateTaskRequest,
    rootfs: String,
    annotations: Vec<(String, String)>,
)
    requires
        is_empty_registry(m),
        has_sandbox_annotation(annotations@),
        plain_create(&req),
    ensures
        ({
            let report = SpecReport::Loaded { rootfs, annotations };
            let kind = create_kind(m, &report);
            let after = m.insert(
                req.id@,
                created_record(namespace, containerd_address, &req, kind),
            );
            &&& create_refusal(m, &req, &report) is None
            &&& kind == InstanceKind::Placeholder
            &&& after[req.id@].kind == InstanceKind::Placeholder
            &&& lookup_refusal(after, req.id@, Seq::empty(), ErrorKind::Unimplemented) is None
            &&& lookup_refusal(after, req.id@, Seq::empty(), ErrorKind::InvalidArgument) is None
        }),
{
}

/// The resolution of an image that declares another architecture than
/// `wasm` ends without a failure, with no layers and with the platform
/// that the image declares, whatever layers its manifest lists.
pub proof fn other_architecture_has_no_layers(
    layers: Seq<DescriptorView>,
    platform: PlatformView,
    out: Outcome,
)
    requires
        !declares_wasm(platform),
        follows_config(layers, platform, out),
    ensures
        out matches Outcome::Done(found, declared) && found@.len() == 0 && declared@ == platform,
{
}

/// The payload layers of a manifest are its layers without the file system
/// layers, in the manifest's order: each payload layer is a layer of the
/// manifest that is no file system layer, and each such layer of the
/// manifest is among them.
pub proof fn payload_is_what_is_no_file_system_layer(layers: Seq<DescriptorView>)
    ensures
        forall|i: int|
            0 <= i < payload_layers(layers).len() ==> layers.contains(
                #[trigger] payload_layers(layers)[i],
            ) && !is_image_layer(payload_layers(layers)[i].media_type),
        forall|k: int|
            0 <= k < layers.len() && !is_image_layer((#[trigger] layers[k]).media_type)
                ==> payload_layers(layers).contains(layers[k]),
    decreases layers.len(),
{
    if layers.len() > 0 {
        let front = layers.drop_last();
        payload_is_what_is_no_file_system_layer(front);
        let picked = payload_layers(layers);
        assert forall|i: int| 0 <= i < picked.len() implies layers.contains(#[trigger] picked[i])
            && !is_image_layer(picked[i].media_type) by {
            if i < payload_layers(front).len() {
                let d = payload_layers(front)[i];
                assert(picked[i] == d);
                assert(front.contains(d));
                let k = choose|k: int| 0 <= k < front.len() && front[k] == d;
                assert(layers[k] == d);
            } else {
                assert(picked[i] == layers.last());
                assert(layers[layers.len() - 1] == layers.last());
            }
        }
        assert forall|k: int|
            0 <= k < layers.len() && !is_image_layer(
                (#[trigger] layers[k]).media_type,
            ) implies picked.contains(layers[k]) by {
            if k < front.len() {
                assert(front[k] == layers[k]);
                let d = layers[k];
                assert(payload_layers(front).contains(d));
                let i = choose|i: int|
                    0 <= i < payload_layers(front).len() && payload_layers(front)[i] == d;
                assert(picked[i] == d);
            } else {
                assert(picked[picked.len() - 1] == layers[k]);
            }
        }
    }
}

} // verus!
