//! The notifications that the engine hands to the event publisher.

use vstd::prelude::*;
use crate::api::Mount;
use crate::api::Timestamp;

verus! {

/// One lifecycle transition of a task, as told to the orchestrator.
///
/// The engine only produces these. Delivering one is best effort: whether
/// delivery fails has no bearing on the transition that produced the event.
#[derive(Debug)]
#[allow(inconsistent_fields)]
pub enum LifecycleEvent {
    Create {
        container_id: String,
        bundle: String,
        rootfs: Vec<Mount>,
        stdin: String,
        stdout: String,
        stderr: String,
    },
    Start { container_id: String, pid: u32 },
    Exit { container_id: String, id: String, pid: u32, exit_status: u32, exited_at: Timestamp },
    Delete { container_id: String, pid: u32, exit_status: u32, exited_at: Option<Timestamp> },
}

} // verus!
