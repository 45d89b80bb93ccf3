use vstd::prelude::*;

verus! {

// ---------------------------------------------------------------------------
// Request values, one per remote verb.  Each is built by the facade from the
// bound container identifier and the caller's arguments, and handed to the
// host application to be sent; the wire encoding is the RPC client's
// business, never this library's.
// ---------------------------------------------------------------------------

#[derive(Debug)]
pub struct CreateTaskRequest {
    pub id: String,
    pub bundle: String,
    pub terminal: bool,
    pub stdin: String,
    pub stdout: String,
    pub stderr: String,
}

#[derive(Debug)]
pub struct StartRequest {
    pub id: String,
    pub exec_id: String,
}

#[derive(Debug)]
pub struct KillRequest {
    pub id: String,
    pub signal: u32,
    pub all: bool,
}

#[derive(Debug)]
pub struct DeleteRequest {
    pub id: String,
    pub exec_id: String,
}

#[derive(Debug)]
pub struct ShutdownRequest {
    pub id: String,
}

/// An opaque byte payload tagged with the fixed identifier string naming its
/// schema.  The process spec handed to `exec` is carried this way and never
/// decoded locally.
#[derive(Debug)]
pub struct AnyPayload {
    pub type_url: String,
    pub value: Vec<u8>,
}

#[derive(Debug)]
pub struct ExecProcessRequest {
    pub id: String,
    pub exec_id: String,
    pub terminal: bool,
    pub stdin: String,
    pub stdout: String,
    pub stderr: String,
    pub spec: AnyPayload,
}

#[derive(Debug)]
pub struct ResizePtyRequest {
    pub id: String,
    pub exec_id: String,
    pub height: u32,
    pub width: u32,
}

#[derive(Debug)]
pub struct PauseRequest {
    pub id: String,
}

#[derive(Debug)]
pub struct ResumeRequest {
    pub id: String,
}

#[derive(Debug)]
pub struct StateRequest {
    pub id: String,
}

#[derive(Debug)]
pub struct PidsRequest {
    pub id: String,
}

#[derive(Debug)]
pub struct WaitRequest {
    pub id: String,
    pub exec_id: String,
}

#[derive(Debug)]
pub struct StatsRequest {
    pub id: String,
}

// ---------------------------------------------------------------------------
// Typed responses, holding exactly the fields the facade reads, as plain
// values decoded by the host application from the wire messages.
// ---------------------------------------------------------------------------

#[derive(Debug)]
pub struct CreateTaskResponse {
    pub pid: u32,
}

#[derive(Debug)]
pub struct StartResponse {
    pub pid: u32,
}

/// The result of `delete`: how the unit exited and which process it was.
#[derive(Debug, PartialEq, Eq, Clone, Copy)]
pub struct DeleteResponse {
    pub exit_status: u32,
    pub pid: u32,
}

/// The typed `state` response; `status` carries the raw protocol status
/// value, which the facade maps totally onto [`Status`].
#[derive(Debug)]
pub struct StateResponse {
    pub pid: u32,
    pub status: i32,
    pub stdin: String,
    pub stdout: String,
    pub stderr: String,
    pub terminal: bool,
    pub exit_status: u32,
}

#[derive(Debug, PartialEq, Eq, Clone, Copy)]
pub struct ProcessInfo {
    pub pid: u32,
}

#[derive(Debug)]
pub struct PidsResponse {
    pub processes: Vec<ProcessInfo>,
}

#[derive(Debug)]
pub struct WaitResponse {
    pub exit_status: u32,
}

/// The facade's status of a unit of work.  `UnknownStatus` stands for every
/// protocol value the current schema does not recognize.
#[derive(Debug, PartialEq, Eq, Structural, Clone, Copy)]
pub enum Status {
    UnknownStatus,
    CreatedStatus,
    RunningStatus,
    StoppedStatus,
    DeletedStatus,
    PauseStatus,
    PausingStatus,
}

/// The facade's plain view of a unit's state.
#[derive(Debug)]
pub struct State {
    pub id: String,
    pub pid: u32,
    pub status: Status,
    pub stdin: String,
    pub stdout: String,
    pub stderr: String,
    pub terminal: bool,
    pub exit_status: u32,
}

// ---------------------------------------------------------------------------
// Metrics: the counters the remote service reports, as plain values, and the
// aggregated form handed across the boundary.
// ---------------------------------------------------------------------------

#[derive(Debug, PartialEq, Eq, Clone, Copy)]
pub struct PidsStat {
    pub current: u64,
}

#[derive(Debug, PartialEq, Eq, Clone, Copy)]
pub struct CpuUsage {
    pub total: u64,
    pub kernel: u64,
}

#[derive(Debug, PartialEq, Eq, Clone, Copy)]
pub struct CpuStat {
    pub usage: CpuUsage,
}

#[derive(Debug, PartialEq, Eq, Clone, Copy)]
pub struct MemoryEntry {
    pub limit: u64,
    pub usage: u64,
}

#[derive(Debug, PartialEq, Eq, Clone, Copy)]
pub struct MemoryStat {
    pub usage: MemoryEntry,
    pub rss: u64,
    pub pg_fault: u64,
    pub pg_maj_fault: u64,
    pub kernel: MemoryEntry,
    pub total_inactive_file: u64,
    pub swap: MemoryEntry,
}

/// One block-IO counter, tagged with the kind of operation it counts.
#[derive(Debug)]
pub struct BlkioEntry {
    pub op: String,
    pub value: u64,
}

#[derive(Debug)]
pub struct BlkioStat {
    pub io_service_bytes_recursive: Vec<BlkioEntry>,
}

#[derive(Debug)]
pub struct Metrics {
    pub pids: PidsStat,
    pub cpu: CpuStat,
    pub memory: MemoryStat,
    pub blkio: BlkioStat,
}

/// The aggregated counters the boundary hands to its caller.  The caller
/// supplies the structure; the facade fills it from a [`Metrics`] value.
#[derive(Debug, PartialEq, Eq, Clone, Copy)]
pub struct Stats {
    pub pids_current: u64,
    pub cpu_use_nanos: u64,
    pub cpu_system_use: u64,
    pub blkio_read: u64,
    pub blkio_write: u64,
    pub mem_used: u64,
    pub mem_limit: u64,
    pub rss_bytes: u64,
    pub page_faults: u64,
    pub major_page_faults: u64,
    pub kmem_used: u64,
    pub kmem_limit: u64,
    pub cache: u64,
    pub cache_total: u64,
    pub inactive_file_total: u64,
    pub swap_used: u64,
    pub swap_limit: u64,
}

} // verus!
