//! The decoded requests that the shim receives and the responses it gives.

use vstd::prelude::*;

verus! {

/// A point in time: seconds since the epoch and the nanoseconds within the
/// second.
#[derive(Clone, Copy, Debug, PartialEq, Eq, Structural)]
pub struct Timestamp {
    pub seconds: i64,
    pub nanos: i32,
}

/// How a task ended, and when.
#[derive(Clone, Copy, Debug, PartialEq, Eq, Structural)]
pub struct ExitInfo {
    pub exit_status: u32,
    pub exited_at: Timestamp,
}

/// The state of a task as the orchestrator sees it.
#[derive(Clone, Copy, Debug, PartialEq, Eq, Structural)]
pub enum Status {
    Created,
    Running,
    Stopped,
}

/// A mount that the orchestrator asks for below the root file system.
#[derive(Debug)]
pub struct Mount {
    pub type_: String,
    pub source: String,
    pub target: String,
    pub options: Vec<String>,
}

/// The request to create a task from a bundle.
#[derive(Debug)]
pub struct CreateTaskRequest {
    pub id: String,
    pub bundle: String,
    pub rootfs: Vec<Mount>,
    pub terminal: bool,
    pub stdin: String,
    pub stdout: String,
    pub stderr: String,
    pub checkpoint: String,
    pub parent_checkpoint: String,
}

/// The answer to a create request: the process id reported for the task.
#[derive(Clone, Copy, Debug, PartialEq, Eq, Structural)]
pub struct CreateTaskResponse {
    pub pid: u32,
}

/// The request to start a task, or a secondary process in it.
#[derive(Debug)]
pub struct StartRequest {
    pub id: String,
    pub exec_id: String,
}

/// The answer to a start request: the process id of the workload.
#[derive(Clone, Copy, Debug, PartialEq, Eq, Structural)]
pub struct StartResponse {
    pub pid: u32,
}

/// The request to send a signal to a task.
#[derive(Debug)]
pub struct KillRequest {
    pub id: String,
    pub exec_id: String,
    pub signal: u32,
    pub all: bool,
}

/// The request to delete a task.
#[derive(Debug)]
pub struct DeleteRequest {
    pub id: String,
    pub exec_id: String,
}

/// The answer to a delete request: the last that is known of the task.
#[derive(Clone, Copy, Debug, PartialEq, Eq, Structural)]
pub struct DeleteResponse {
    pub pid: u32,
    pub exit_status: u32,
    pub exited_at: Option<Timestamp>,
}

/// The request to wait for the end of a task.
#[derive(Debug)]
pub struct WaitRequest {
    pub id: String,
    pub exec_id: String,
}

/// The answer to a wait request: how the task ended, and when.
#[derive(Clone, Copy, Debug, PartialEq, Eq, Structural)]
pub struct WaitResponse {
    pub exit_status: u32,
    pub exited_at: Option<Timestamp>,
}

/// The request for the state of a task.
#[derive(Debug)]
pub struct StateRequest {
    pub id: String,
    pub exec_id: String,
}

/// The answer to a state request: the full description of the task.
#[derive(Debug)]
pub struct StateResponse {
    pub id: String,
    pub bundle: String,
    pub stdin: String,
    pub stdout: String,
    pub stderr: String,
    pub pid: u32,
    pub exit_status: u32,
    pub exited_at: Option<Timestamp>,
    pub status: Status,
}

/// The request for the metrics of a task.
#[derive(Debug)]
pub struct StatsRequest {
    pub id: String,
}

/// The request for the process ids behind a task.
#[derive(Debug)]
pub struct ConnectRequest {
    pub id: String,
}

/// The answer to a connect request: the shim's process id and the task's.
#[derive(Clone, Copy, Debug, PartialEq, Eq, Structural)]
pub struct ConnectResponse {
    pub shim_pid: u32,
    pub task_pid: u32,
}

} // verus!
