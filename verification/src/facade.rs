use vstd::prelude::*;
use vstd::slice::slice_to_vec;
use vstd::string::StrSliceExecFns;
use vstd::string::StringExecFns;

use crate::error::Error;
use crate::messages::AnyPayload;
use crate::messages::BlkioEntry;
use crate::messages::CreateTaskRequest;
use crate::messages::CreateTaskResponse;
use crate::messages::DeleteRequest;
use crate::messages::ExecProcessRequest;
use crate::messages::KillRequest;
use crate::messages::Metrics;
use crate::messages::PauseRequest;
use crate::messages::PidsRequest;
use crate::messages::PidsResponse;
use crate::messages::ResizePtyRequest;
use crate::messages::ResumeRequest;
use crate::messages::ShutdownRequest;
use crate::messages::StartRequest;
use crate::messages::StatsRequest;
use crate::messages::StartResponse;
use crate::messages::State;
use crate::messages::StateRequest;
use crate::messages::StateResponse;
use crate::messages::Stats;
use crate::messages::Status;
use crate::messages::WaitRequest;
use crate::messages::WaitResponse;
use crate::registry::Store;

verus! {

/// The required-argument check of the facade: a required string must be
/// non-empty, and the first empty one fails the call with `InvalidArgument`
/// before any request is built.
fn require_non_empty(x: &String) -> (r: Result<(), Error>)
    ensures
        match r {
            Ok(_) => x@.len() != 0,
            Err(e) => x@.len() == 0 && e is InvalidArgument,
        },
{
    if x.as_str().is_empty() {
        Err(Error::InvalidArgument(String::from_str("parameter must not be empty!")))
    } else {
        Ok(())
    }
}

/// Character-wise string comparison: true exactly when the two texts are
/// equal.
fn str_equal(a: &str, b: &str) -> (r: bool)
    ensures
        r == (a@ == b@),
{
    let n: usize = a.unicode_len();
    if n != b.unicode_len() {
        return false;
    }
    let mut i: usize = 0;
    while i < n
        invariant
            i <= n,
            n == a@.len(),
            n == b@.len(),
            forall|k: int| 0 <= k < i ==> a@[k] == b@[k],
        decreases n - i,
    {
        if a.get_char(i) != b.get_char(i) {
            return false;
        }
        i = i + 1;
    }
    proof {
        assert(a@ =~= b@);
    }
    true
}

impl Store {
    /// Builds the `create` request for this connection's identifier.  An
    /// empty bundle is rejected with `InvalidArgument` — nothing is built,
    /// so no call can be attempted — and any non-empty bundle yields exactly
    /// the request holding the given arguments.
    pub fn create(
        &self,
        bundle: &String,
        terminal: bool,
        stdin: &String,
        stdout: &String,
        stderr: &String,
    ) -> (r: Result<CreateTaskRequest, Error>)
        ensures
            match r {
                Ok(req) => {
                    &&& bundle@.len() != 0
                    &&& req.id@ == self.container_id@
                    &&& req.bundle@ == bundle@
                    &&& req.terminal == terminal
                    &&& req.stdin@ == stdin@
                    &&& req.stdout@ == stdout@
                    &&& req.stderr@ == stderr@
                },
                Err(e) => bundle@.len() == 0 && e is InvalidArgument,
            },
    {
        match require_non_empty(bundle) {
            Err(e) => Err(e),
            Ok(_) => Ok(
                CreateTaskRequest {
                    id: self.container_id.clone(),
                    bundle: bundle.clone(),
                    terminal,
                    stdin: stdin.clone(),
                    stdout: stdout.clone(),
                    stderr: stderr.clone(),
                },
            ),
        }
    }

    /// Builds the `start` request: the bound identifier and the execution
    /// identifier, exactly as given.
    pub fn start(&self, exec_id: &String) -> (req: StartRequest)
        ensures
            req.id@ == self.container_id@,
            req.exec_id@ == exec_id@,
    {
        StartRequest { id: self.container_id.clone(), exec_id: exec_id.clone() }
    }

    /// Builds the `kill` request; `all` asks the remote side to broadcast
    /// the signal to every process of the unit.
    pub fn kill(&self, signal: u32, all: bool) -> (req: KillRequest)
        ensures
            req.id@ == self.container_id@,
            req.signal == signal,
            req.all == all,
    {
        KillRequest { id: self.container_id.clone(), signal, all }
    }

    /// Builds the `delete` request.
    pub fn delete(&self, exec_id: &String) -> (req: DeleteRequest)
        ensures
            req.id@ == self.container_id@,
            req.exec_id@ == exec_id@,
    {
        DeleteRequest { id: self.container_id.clone(), exec_id: exec_id.clone() }
    }

    /// Builds the `shutdown` request; it carries nothing but the identifier.
    pub fn shutdown(&self) -> (req: ShutdownRequest)
        ensures
            req.id@ == self.container_id@,
    {
        ShutdownRequest { id: self.container_id.clone() }
    }

    /// Builds the `exec` request.  An empty execution identifier is rejected
    /// with `InvalidArgument`; otherwise the process spec bytes are wrapped
    /// as an opaque payload tagged with the fixed type identifier of the
    /// process-spec schema, not decoded.
    pub fn exec(
        &self,
        exec_id: &String,
        terminal: bool,
        stdin: &String,
        stdout: &String,
        stderr: &String,
        spec: &[u8],
    ) -> (r: Result<ExecProcessRequest, Error>)
        ensures
            match r {
                Ok(req) => {
                    &&& exec_id@.len() != 0
                    &&& req.id@ == self.container_id@
                    &&& req.exec_id@ == exec_id@
                    &&& req.terminal == terminal
                    &&& req.stdin@ == stdin@
                    &&& req.stdout@ == stdout@
                    &&& req.stderr@ == stderr@
                    &&& req.spec.type_url@
                        == "types.containerd.io/opencontainers/runtime-spec/1/Process"@
                    &&& req.spec.value@ == spec@
                },
                Err(e) => exec_id@.len() == 0 && e is InvalidArgument,
            },
    {
        match require_non_empty(exec_id) {
            Err(e) => Err(e),
            Ok(_) => Ok(
                ExecProcessRequest {
                    id: self.container_id.clone(),
                    exec_id: exec_id.clone(),
                    terminal,
                    stdin: stdin.clone(),
                    stdout: stdout.clone(),
                    stderr: stderr.clone(),
                    spec: AnyPayload {
                        type_url: String::from_str(
                            "types.containerd.io/opencontainers/runtime-spec/1/Process",
                        ),
                        value: slice_to_vec(spec),
                    },
                },
            ),
        }
    }

    /// Builds the `resize_pty` request.
    pub fn resize_pty(&self, exec_id: &String, height: u32, width: u32) -> (req: ResizePtyRequest)
        ensures
            req.id@ == self.container_id@,
            req.exec_id@ == exec_id@,
            req.height == height,
            req.width == width,
    {
        ResizePtyRequest {
            id: self.container_id.clone(),
            exec_id: exec_id.clone(),
            height,
            width,
        }
    }

    /// Builds the `pause` request.
    pub fn pause(&self) -> (req: PauseRequest)
        ensures
            req.id@ == self.container_id@,
    {
        PauseRequest { id: self.container_id.clone() }
    }

    /// Builds the `resume` request.
    pub fn resume(&self) -> (req: ResumeRequest)
        ensures
            req.id@ == self.container_id@,
    {
        ResumeRequest { id: self.container_id.clone() }
    }

    /// Builds the `state` request.
    pub fn state(&self) -> (req: StateRequest)
        ensures
            req.id@ == self.container_id@,
    {
        StateRequest { id: self.container_id.clone() }
    }

    /// Builds the `pids` request.
    pub fn pids(&self) -> (req: PidsRequest)
        ensures
            req.id@ == self.container_id@,
    {
        PidsRequest { id: self.container_id.clone() }
    }

    /// Builds the `stats` request.
    pub fn stats(&self) -> (req: StatsRequest)
        ensures
            req.id@ == self.container_id@,
    {
        StatsRequest { id: self.container_id.clone() }
    }

    /// Builds the `wait` request.
    pub fn wait(&self, exec_id: &String) -> (req: WaitRequest)
        ensures
            req.id@ == self.container_id@,
            req.exec_id@ == exec_id@,
    {
        WaitRequest { id: self.container_id.clone(), exec_id: exec_id.clone() }
    }

    /// Maps the typed `state` response into the facade's state: every field
    /// is carried over, the identifier is the bound one, and the raw
    /// protocol status is mapped totally by [`status_of_code`].
    pub fn state_result(&self, resp: &StateResponse) -> (st: State)
        ensures
            st.id@ == self.container_id@,
            st.pid == resp.pid,
            st.status == status_of_code(resp.status),
            st.stdin@ == resp.stdin@,
            st.stdout@ == resp.stdout@,
            st.stderr@ == resp.stderr@,
            st.terminal == resp.terminal,
            st.exit_status == resp.exit_status,
    {
        State {
            id: self.container_id.clone(),
            pid: resp.pid,
            status: status_from_code(resp.status),
            stdin: resp.stdin.clone(),
            stdout: resp.stdout.clone(),
            stderr: resp.stderr.clone(),
            terminal: resp.terminal,
            exit_status: resp.exit_status,
        }
    }
}

/// The total mapping from the raw protocol status value onto the facade
/// status: the five states the schema names, and `UnknownStatus` for every
/// value the schema does not — never an error.
pub open spec fn status_of_code(code: i32) -> Status {
    if code == 1 {
        Status::CreatedStatus
    } else if code == 2 {
        Status::RunningStatus
    } else if code == 3 {
        Status::StoppedStatus
    } else if code == 4 {
        Status::PauseStatus
    } else if code == 5 {
        Status::PausingStatus
    } else {
        Status::UnknownStatus
    }
}

/// Executes [`status_of_code`].
pub fn status_from_code(code: i32) -> (s: Status)
    ensures
        s == status_of_code(code),
{
    if code == 1 {
        Status::CreatedStatus
    } else if code == 2 {
        Status::RunningStatus
    } else if code == 3 {
        Status::StoppedStatus
    } else if code == 4 {
        Status::PauseStatus
    } else if code == 5 {
        Status::PausingStatus
    } else {
        Status::UnknownStatus
    }
}

/// The process identifier reported by `create`.
pub fn create_pid(resp: &CreateTaskResponse) -> (pid: i32)
    ensures
        pid == resp.pid as i32,
{
    resp.pid as i32
}

/// The process identifier reported by `start`.
pub fn start_pid(resp: &StartResponse) -> (pid: i32)
    ensures
        pid == resp.pid as i32,
{
    resp.pid as i32
}

/// The exit status reported by `wait`.
pub fn wait_exit_status(resp: &WaitResponse) -> (status: i32)
    ensures
        status == resp.exit_status as i32,
{
    resp.exit_status as i32
}

/// The identifier of the first process in the `pids` response.  An empty
/// process list is answered with an explicit error rather than read past its
/// end.
pub fn first_pid(resp: &PidsResponse) -> (r: Result<i32, Error>)
    ensures
        match r {
            Ok(pid) => resp.processes@.len() != 0 && pid == resp.processes@[0].pid as i32,
            Err(e) => resp.processes@.len() == 0 && e is Other,
        },
{
    if resp.processes.len() == 0 {
        Err(Error::Other(String::from_str("pids response holds no process")))
    } else {
        Ok(resp.processes[0].pid as i32)
    }
}

/// The sum of the block-IO counters tagged `read`.
pub open spec fn blkio_read_sum(entries: Seq<BlkioEntry>) -> int
    decreases entries.len(),
{
    if entries.len() == 0 {
        0
    } else {
        blkio_read_sum(entries.drop_last()) + if entries.last().op@ == "read"@ {
            entries.last().value as int
        } else {
            0
        }
    }
}

/// The sum of all the other block-IO counters.
pub open spec fn blkio_write_sum(entries: Seq<BlkioEntry>) -> int
    decreases entries.len(),
{
    if entries.len() == 0 {
        0
    } else {
        blkio_write_sum(entries.drop_last()) + if entries.last().op@ == "read"@ {
            0
        } else {
            entries.last().value as int
        }
    }
}

proof fn lemma_blkio_sums_nonneg(entries: Seq<BlkioEntry>)
    ensures
        blkio_read_sum(entries) >= 0,
        blkio_write_sum(entries) >= 0,
    decreases entries.len(),
{
    if entries.len() > 0 {
        lemma_blkio_sums_nonneg(entries.drop_last());
    }
}

/// A partial sum over a prefix of the counters never exceeds the whole sum.
proof fn lemma_blkio_sums_prefix_le(entries: Seq<BlkioEntry>, k: int)
    requires
        0 <= k <= entries.len(),
    ensures
        blkio_read_sum(entries.subrange(0, k)) <= blkio_read_sum(entries),
        blkio_write_sum(entries.subrange(0, k)) <= blkio_write_sum(entries),
    decreases entries.len() - k,
{
    if k == entries.len() {
        assert(entries.subrange(0, k) =~= entries);
    } else {
        let t = entries.drop_last();
        lemma_blkio_sums_prefix_le(t, k);
        assert(t.subrange(0, k) =~= entries.subrange(0, k));
        lemma_blkio_sums_nonneg(t);
    }
}

impl Stats {
    /// Fills the aggregated counters from a metrics report.  Every direct
    /// counter is carried over; the block-IO entries are folded into the two
    /// running totals, the `read`-tagged values into `blkio_read` and all
    /// others into `blkio_write`; the cache counters are not part of the
    /// report and stay as the caller left them.
    pub fn copy(&mut self, m: &Metrics)
        requires
            old(self).blkio_read + blkio_read_sum(m.blkio.io_service_bytes_recursive@)
                <= u64::MAX,
            old(self).blkio_write + blkio_write_sum(m.blkio.io_service_bytes_recursive@)
                <= u64::MAX,
        ensures
            final(self).pids_current == m.pids.current,
            final(self).cpu_use_nanos == m.cpu.usage.total,
            final(self).cpu_system_use == m.cpu.usage.kernel,
            final(self).mem_used == m.memory.usage.usage,
            final(self).mem_limit == m.memory.usage.limit,
            final(self).rss_bytes == m.memory.rss,
            final(self).page_faults == m.memory.pg_fault,
            final(self).major_page_faults == m.memory.pg_maj_fault,
            final(self).kmem_used == m.memory.kernel.usage,
            final(self).kmem_limit == m.memory.kernel.limit,
            final(self).inactive_file_total == m.memory.total_inactive_file,
            final(self).swap_used == m.memory.swap.usage,
            final(self).swap_limit == m.memory.swap.limit,
            final(self).cache == old(self).cache,
            final(self).cache_total == old(self).cache_total,
            final(self).blkio_read as int == old(self).blkio_read + blkio_read_sum(
                m.blkio.io_service_bytes_recursive@,
            ),
            final(self).blkio_write as int == old(self).blkio_write + blkio_write_sum(
                m.blkio.io_service_bytes_recursive@,
            ),
    {
        self.pids_current = m.pids.current;
        self.cpu_use_nanos = m.cpu.usage.total;
        self.cpu_system_use = m.cpu.usage.kernel;
        self.mem_used = m.memory.usage.usage;
        self.mem_limit = m.memory.usage.limit;
        self.rss_bytes = m.memory.rss;
        self.page_faults = m.memory.pg_fault;
        self.major_page_faults = m.memory.pg_maj_fault;
        self.kmem_used = m.memory.kernel.usage;
        self.kmem_limit = m.memory.kernel.limit;
        self.inactive_file_total = m.memory.total_inactive_file;
        self.swap_limit = m.memory.swap.limit;
        self.swap_used = m.memory.swap.usage;
        let n: usize = m.blkio.io_service_bytes_recursive.len();
        let ghost all: Seq<BlkioEntry> = m.blkio.io_service_bytes_recursive@;
        let mut i: usize = 0;
        while i < n
            invariant
                i <= n,
                n == all.len(),
                all == m.blkio.io_service_bytes_recursive@,
                old(self).blkio_read + blkio_read_sum(all) <= u64::MAX,
                old(self).blkio_write + blkio_write_sum(all) <= u64::MAX,
                self.blkio_read as int == old(self).blkio_read + blkio_read_sum(
                    all.subrange(0, i as int),
                ),
                self.blkio_write as int == old(self).blkio_write + blkio_write_sum(
                    all.subrange(0, i as int),
                ),
                self.pids_current == m.pids.current,
                self.cpu_use_nanos == m.cpu.usage.total,
                self.cpu_system_use == m.cpu.usage.kernel,
                self.mem_used == m.memory.usage.usage,
                self.mem_limit == m.memory.usage.limit,
                self.rss_bytes == m.memory.rss,
                self.page_faults == m.memory.pg_fault,
                self.major_page_faults == m.memory.pg_maj_fault,
                self.kmem_used == m.memory.kernel.usage,
                self.kmem_limit == m.memory.kernel.limit,
                self.inactive_file_total == m.memory.total_inactive_file,
                self.swap_used == m.memory.swap.usage,
                self.swap_limit == m.memory.swap.limit,
                self.cache == old(self).cache,
                self.cache_total == old(self).cache_total,
            decreases n - i,
        {
            let ghost p: Seq<BlkioEntry> = all.subrange(0, i as int);
            let ghost q: Seq<BlkioEntry> = all.subrange(0, i + 1 as int);
            proof {
                assert(q.drop_last() =~= p);
                assert(q.last() == all[i as int]);
                lemma_blkio_sums_prefix_le(all, i + 1 as int);
                lemma_blkio_sums_nonneg(p);
                lemma_blkio_sums_nonneg(q);
            }
            let ele = &m.blkio.io_service_bytes_recursive[i];
            if str_equal(ele.op.as_str(), "read") {
                self.blkio_read = self.blkio_read + ele.value;
            } else {
                self.blkio_write = self.blkio_write + ele.value;
            }
            i = i + 1;
        }
        proof {
            assert(all.subrange(0, n as int) =~= all);
        }
    }
}

} // verus!
