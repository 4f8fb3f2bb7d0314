use vstd::prelude::*;

use std::time::Instant;

verus! {

/// Relies on `std::time::Instant` as an opaque value: a point in time from the
/// monotonic clock, stored and handed back unread.
#[verifier::external_type_specification]
#[verifier::external_body]
pub struct ExInstant(Instant);

/// A request to restart part of the application.
#[derive(Debug, PartialEq, Eq, Structural, Clone, Copy)]
pub enum RestartSignal {
    RecordingTasks,
}

/// Watches the process's resource use from `start_time` on, and appends each
/// sample to `resource_log_file` where one is set.
pub struct ResourceMonitor {
    start_time: Instant,
    resource_log_file: Option<String>,
}

impl ResourceMonitor {
    /// The file that samples are appended to, if any.
    pub closed spec fn spec_log_file(&self) -> Option<String> {
        self.resource_log_file
    }

    /// When monitoring began.
    pub closed spec fn spec_start_time(&self) -> Instant {
        self.start_time
    }

    /// A monitor that counts its runtime from `start_time` and logs to
    /// `resource_log_file` where one is given.
    pub fn from_parts(start_time: Instant, resource_log_file: Option<String>) -> (r: ResourceMonitor)
        ensures
            r.spec_log_file() == resource_log_file,
            r.spec_start_time() == start_time,
    {
        ResourceMonitor { start_time, resource_log_file }
    }

    /// When monitoring began.
    pub fn start_time(&self) -> (r: &Instant)
        ensures
            *r == self.spec_start_time(),
    {
        &self.start_time
    }

    /// The file that samples are appended to, if any.
    pub fn resource_log_file(&self) -> (r: &Option<String>)
        ensures
            *r == self.spec_log_file(),
    {
        &self.resource_log_file
    }
}

/// One process as the system reports it: its id, its parent's id, and its
/// resident and virtual memory in bytes.
#[derive(Debug, PartialEq, Eq, Structural, Clone, Copy)]
pub struct ProcessUsage {
    pub pid: u32,
    pub parent: Option<u32>,
    pub memory: u64,
    pub virtual_memory: u64,
}

/// The memory of a process and its direct children, in bytes: resident memory
/// summed, virtual memory as the largest of them.
#[derive(Debug, PartialEq, Eq, Structural, Clone, Copy)]
pub struct UsageTotals {
    pub memory: u128,
    pub max_virtual_memory: u64,
}

/// Process `p` is a direct child of process `pid`.
pub open spec fn is_child(p: ProcessUsage, pid: u32) -> bool {
    p.parent == Some(pid)
}

/// The summed resident memory of the direct children of `pid` in `ps`.
pub open spec fn children_memory(ps: Seq<ProcessUsage>, pid: u32) -> int
    decreases ps.len(),
{
    if ps.len() == 0 {
        0
    } else {
        children_memory(ps.drop_last(), pid) + if is_child(ps.last(), pid) {
            ps.last().memory as int
        } else {
            0
        }
    }
}

/// The largest of `start` and the virtual memory of each direct child of
/// `pid` in `ps`.
pub open spec fn children_virtual_max(ps: Seq<ProcessUsage>, pid: u32, start: u64) -> u64
    decreases ps.len(),
{
    if ps.len() == 0 {
        start
    } else {
        let m = children_virtual_max(ps.drop_last(), pid, start);
        if is_child(ps.last(), pid) && ps.last().virtual_memory > m {
            ps.last().virtual_memory
        } else {
            m
        }
    }
}

/// The totals for process `pid`: nothing when the process is not found;
/// otherwise its own memory plus that of its direct children in `processes`,
/// and the largest virtual memory among them.
pub open spec fn usage_of(pid: u32, main: Option<ProcessUsage>, processes: Seq<ProcessUsage>) -> UsageTotals {
    match main {
        None => UsageTotals { memory: 0, max_virtual_memory: 0 },
        Some(m) => UsageTotals {
            memory: (m.memory + children_memory(processes, pid)) as u128,
            max_virtual_memory: children_virtual_max(processes, pid, m.virtual_memory),
        },
    }
}

proof fn lemma_children_memory_bound(ps: Seq<ProcessUsage>, pid: u32)
    ensures
        0 <= children_memory(ps, pid) <= ps.len() * (u64::MAX as int),
    decreases ps.len(),
{
    if ps.len() > 0 {
        lemma_children_memory_bound(ps.drop_last(), pid);
    }
}

/// Sums the resident memory of process `pid` (found as `main`) and its direct
/// children among `processes`, and takes the largest virtual memory among
/// them.
pub fn aggregate_usage(pid: u32, main: Option<ProcessUsage>, processes: &Vec<ProcessUsage>) -> (r: UsageTotals)
    ensures
        r == usage_of(pid, main, processes@),
        main matches Some(m) ==> r.memory as int == m.memory + children_memory(processes@, pid),
{
    let m = match main {
        None => {
            return UsageTotals { memory: 0, max_virtual_memory: 0 };
        },
        Some(m) => m,
    };
    let mut memory: u128 = m.memory as u128;
    let mut max_virtual: u64 = m.virtual_memory;
    let mut i: usize = 0;
    while i < processes.len()
        invariant
            i <= processes@.len(),
            memory as int == m.memory + children_memory(processes@.subrange(0, i as int), pid),
            max_virtual == children_virtual_max(processes@.subrange(0, i as int), pid, m.virtual_memory),
        decreases processes@.len() - i,
    {
        let p = processes[i];
        proof {
            let s = processes@.subrange(0, i + 1);
            assert(s.drop_last() == processes@.subrange(0, i as int));
            lemma_children_memory_bound(processes@.subrange(0, i as int), pid);
            assert(i * (u64::MAX as int) <= usize::MAX * (u64::MAX as int)) by (nonlinear_arith)
                requires
                    i <= usize::MAX,
            ;
        }
        if p.parent == Some(pid) {
            memory = memory + p.memory as u128;
            if p.virtual_memory > max_virtual {
                max_virtual = p.virtual_memory;
            }
        }
        i = i + 1;
    }
    proof {
        assert(processes@.subrange(0, processes@.len() as int) == processes@);
    }
    UsageTotals { memory, max_virtual_memory: max_virtual }
}

} // verus!
