//! The records of the per-process queries, each with its byte layout, and the
//! traits that tie a record type to the one flavor that returns it.
//!
//! A record's size and the offset of each field are part of the protocol.
//! They are written out here, field by field, and do not depend on how the
//! compiler would lay the struct out.

use crate::flavor::{PidFDInfoFlavor, PidInfoFlavor, ProcFDType};
use crate::wire::{
    array_of, i32_at, i8s_at, lemma_array_of, read_i32, read_i8_array, read_u32, read_u64,
    u32_at, u64_at,
};
use vstd::prelude::*;

verus! {

/// Longest path the kernel reports, in bytes.
pub const MAXPATHLEN: usize = 1024;

/// Size of the largest buffer that a path or list query may be given.
pub const PROC_PIDPATHINFO_MAXSIZE: usize = 4 * MAXPATHLEN;

/// Length of a command name, in bytes.
pub const MAXCOMLEN: usize = 16;

/// Length of a registered process name, in bytes.
pub const MAXNAMELEN: usize = 2 * MAXCOMLEN;

/// Length of a thread name, in bytes.
pub const MAXTHREADNAMESIZE: usize = 64;

/// Size of the largest record: a list of `PROC_PIDPATHINFO_MAXSIZE` records
/// of this size still has a byte count that fits the 32-bit size parameter of
/// the entry points.
pub const MAX_RECORD_SIZE: usize = 0x7_ffff;

/// A record of fixed size whose fields lie at fixed offsets.
pub trait FixedRecord: Sized {
    /// The record's size in bytes.
    spec fn size_spec() -> nat;

    /// The record's size in bytes.
    fn size() -> (n: usize)
        ensures
            n == Self::size_spec(),
            0 < n <= MAX_RECORD_SIZE,
    ;

    /// The record whose first byte is at `at` in `b`. Bytes that `b` does not
    /// hold are zero.
    spec fn decode_spec(b: Seq<u8>, at: int) -> Self;

    /// Reads the record whose first byte is at `at`.
    fn decode_at(b: &[u8], at: usize) -> (r: Self)
        requires
            at + Self::size_spec() <= usize::MAX,
        ensures
            r == Self::decode_spec(b@, at as int),
    ;
}

/// Holds of the record that any stretch past the end of a buffer reads as:
/// the one with every field zero.
pub open spec fn reads_as_zero<T: FixedRecord>(r: T) -> bool {
    forall|b: Seq<u8>, at: int| b.len() <= at ==> r == #[trigger] T::decode_spec(b, at)
}

/// Reads the record at the start of `b`.
pub fn decode<R: FixedRecord>(b: &[u8]) -> (r: R)
    ensures
        r == R::decode_spec(b@, 0),
{
    // Every record is small: its last byte has an offset that `usize` holds.
    let _ = R::size();
    R::decode_at(b, 0)
}

/// A record that a per-process query returns, with the one flavor that asks
/// for it.
pub trait PIDInfo: Default + FixedRecord {
    /// The flavor that returns this record.
    spec fn flavor_spec() -> PidInfoFlavor;

    /// The flavor that returns this record.
    fn flavor() -> (f: PidInfoFlavor)
        ensures
            f == Self::flavor_spec(),
    ;
}

/// A list that a per-process query returns, with the one flavor that asks for
/// it and the record that each element is.
pub trait ListPIDInfo {
    type Item: FixedRecord;

    /// The flavor that returns this list.
    spec fn flavor_spec() -> PidInfoFlavor;

    /// The flavor that returns this list.
    fn flavor() -> (f: PidInfoFlavor)
        ensures
            f == Self::flavor_spec(),
    ;
}

/// A record that a per-descriptor query returns, with the one flavor that
/// asks for it.
pub trait PIDFDInfo: Default + FixedRecord {
    /// The flavor that returns this record.
    spec fn flavor_spec() -> PidFDInfoFlavor;

    /// The flavor that returns this record.
    fn flavor() -> (f: PidFDInfoFlavor)
        ensures
            f == Self::flavor_spec(),
    ;
}

/// Task accounting of a process: memory, run time and event counts.
///
/// The record is 96 bytes long.
#[derive(Clone, Copy, Debug)]
pub struct TaskInfo {
    /// virtual memory size (bytes)
    pub pti_virtual_size: u64,
    /// resident memory size (bytes)
    pub pti_resident_size: u64,
    /// total time
    pub pti_total_user: u64,
    pub pti_total_system: u64,
    /// existing threads only
    pub pti_threads_user: u64,
    pub pti_threads_system: u64,
    /// default policy for new threads
    pub pti_policy: i32,
    /// number of page faults
    pub pti_faults: i32,
    /// number of actual pageins
    pub pti_pageins: i32,
    /// number of copy-on-write faults
    pub pti_cow_faults: i32,
    /// number of messages sent
    pub pti_messages_sent: i32,
    /// number of messages received
    pub pti_messages_received: i32,
    /// number of mach system calls
    pub pti_syscalls_mach: i32,
    /// number of unix system calls
    pub pti_syscalls_unix: i32,
    /// number of context switches
    pub pti_csw: i32,
    /// number of threads in the task
    pub pti_threadnum: i32,
    /// number of running threads
    pub pti_numrunning: i32,
    /// task priority
    pub pti_priority: i32,
}

impl FixedRecord for TaskInfo {
    open spec fn size_spec() -> nat {
        96
    }

    fn size() -> (n: usize) {
        96
    }

    open spec fn decode_spec(b: Seq<u8>, at: int) -> TaskInfo {
        TaskInfo {
            pti_virtual_size: u64_at(b, at),
            pti_resident_size: u64_at(b, at + 8),
            pti_total_user: u64_at(b, at + 16),
            pti_total_system: u64_at(b, at + 24),
            pti_threads_user: u64_at(b, at + 32),
            pti_threads_system: u64_at(b, at + 40),
            pti_policy: i32_at(b, at + 48),
            pti_faults: i32_at(b, at + 52),
            pti_pageins: i32_at(b, at + 56),
            pti_cow_faults: i32_at(b, at + 60),
            pti_messages_sent: i32_at(b, at + 64),
            pti_messages_received: i32_at(b, at + 68),
            pti_syscalls_mach: i32_at(b, at + 72),
            pti_syscalls_unix: i32_at(b, at + 76),
            pti_csw: i32_at(b, at + 80),
            pti_threadnum: i32_at(b, at + 84),
            pti_numrunning: i32_at(b, at + 88),
            pti_priority: i32_at(b, at + 92),
        }
    }

    fn decode_at(b: &[u8], at: usize) -> (r: TaskInfo) {
        TaskInfo {
            pti_virtual_size: read_u64(b, at),
            pti_resident_size: read_u64(b, at + 8),
            pti_total_user: read_u64(b, at + 16),
            pti_total_system: read_u64(b, at + 24),
            pti_threads_user: read_u64(b, at + 32),
            pti_threads_system: read_u64(b, at + 40),
            pti_policy: read_i32(b, at + 48),
            pti_faults: read_i32(b, at + 52),
            pti_pageins: read_i32(b, at + 56),
            pti_cow_faults: read_i32(b, at + 60),
            pti_messages_sent: read_i32(b, at + 64),
            pti_messages_received: read_i32(b, at + 68),
            pti_syscalls_mach: read_i32(b, at + 72),
            pti_syscalls_unix: read_i32(b, at + 76),
            pti_csw: read_i32(b, at + 80),
            pti_threadnum: read_i32(b, at + 84),
            pti_numrunning: read_i32(b, at + 88),
            pti_priority: read_i32(b, at + 92),
        }
    }
}

impl Default for TaskInfo {
    fn default() -> (r: TaskInfo)
        ensures
            reads_as_zero(r),
    {
        let r = TaskInfo {
            pti_virtual_size: 0,
            pti_resident_size: 0,
            pti_total_user: 0,
            pti_total_system: 0,
            pti_threads_user: 0,
            pti_threads_system: 0,
            pti_policy: 0,
            pti_faults: 0,
            pti_pageins: 0,
            pti_cow_faults: 0,
            pti_messages_sent: 0,
            pti_messages_received: 0,
            pti_syscalls_mach: 0,
            pti_syscalls_unix: 0,
            pti_csw: 0,
            pti_threadnum: 0,
            pti_numrunning: 0,
            pti_priority: 0,
        };
        r
    }
}

/// BSD-level information on a process: ids, names and start time.
///
/// The record is 136 bytes long.
#[derive(Clone, Copy, Debug)]
pub struct BSDInfo {
    /// 64bit; emulated etc
    pub pbi_flags: u32,
    pub pbi_status: u32,
    pub pbi_xstatus: u32,
    pub pbi_pid: u32,
    pub pbi_ppid: u32,
    pub pbi_uid: u32,
    pub pbi_gid: u32,
    pub pbi_ruid: u32,
    pub pbi_rgid: u32,
    pub pbi_svuid: u32,
    pub pbi_svgid: u32,
    /// reserved
    pub rfu_1: u32,
    pub pbi_comm: [i8; MAXCOMLEN],
    /// empty if no name is registered
    pub pbi_name: [i8; MAXNAMELEN],
    pub pbi_nfiles: u32,
    pub pbi_pgid: u32,
    pub pbi_pjobc: u32,
    /// controlling tty dev
    pub e_tdev: u32,
    /// tty process group id
    pub e_tpgid: u32,
    pub pbi_nice: i32,
    pub pbi_start_tvsec: u64,
    pub pbi_start_tvusec: u64,
}

impl FixedRecord for BSDInfo {
    open spec fn size_spec() -> nat {
        136
    }

    fn size() -> (n: usize) {
        136
    }

    open spec fn decode_spec(b: Seq<u8>, at: int) -> BSDInfo {
        BSDInfo {
            pbi_flags: u32_at(b, at),
            pbi_status: u32_at(b, at + 4),
            pbi_xstatus: u32_at(b, at + 8),
            pbi_pid: u32_at(b, at + 12),
            pbi_ppid: u32_at(b, at + 16),
            pbi_uid: u32_at(b, at + 20),
            pbi_gid: u32_at(b, at + 24),
            pbi_ruid: u32_at(b, at + 28),
            pbi_rgid: u32_at(b, at + 32),
            pbi_svuid: u32_at(b, at + 36),
            pbi_svgid: u32_at(b, at + 40),
            rfu_1: u32_at(b, at + 44),
            pbi_comm: array_of::<i8, MAXCOMLEN>(i8s_at(b, at + 48, MAXCOMLEN as nat)),
            pbi_name: array_of::<i8, MAXNAMELEN>(i8s_at(b, at + 64, MAXNAMELEN as nat)),
            pbi_nfiles: u32_at(b, at + 96),
            pbi_pgid: u32_at(b, at + 100),
            pbi_pjobc: u32_at(b, at + 104),
            e_tdev: u32_at(b, at + 108),
            e_tpgid: u32_at(b, at + 112),
            pbi_nice: i32_at(b, at + 116),
            pbi_start_tvsec: u64_at(b, at + 120),
            pbi_start_tvusec: u64_at(b, at + 128),
        }
    }

    fn decode_at(b: &[u8], at: usize) -> (r: BSDInfo) {
        BSDInfo {
            pbi_flags: read_u32(b, at),
            pbi_status: read_u32(b, at + 4),
            pbi_xstatus: read_u32(b, at + 8),
            pbi_pid: read_u32(b, at + 12),
            pbi_ppid: read_u32(b, at + 16),
            pbi_uid: read_u32(b, at + 20),
            pbi_gid: read_u32(b, at + 24),
            pbi_ruid: read_u32(b, at + 28),
            pbi_rgid: read_u32(b, at + 32),
            pbi_svuid: read_u32(b, at + 36),
            pbi_svgid: read_u32(b, at + 40),
            rfu_1: read_u32(b, at + 44),
            pbi_comm: read_i8_array::<MAXCOMLEN>(b, at + 48),
            pbi_name: read_i8_array::<MAXNAMELEN>(b, at + 64),
            pbi_nfiles: read_u32(b, at + 96),
            pbi_pgid: read_u32(b, at + 100),
            pbi_pjobc: read_u32(b, at + 104),
            e_tdev: read_u32(b, at + 108),
            e_tpgid: read_u32(b, at + 112),
            pbi_nice: read_i32(b, at + 116),
            pbi_start_tvsec: read_u64(b, at + 120),
            pbi_start_tvusec: read_u64(b, at + 128),
        }
    }
}

impl Default for BSDInfo {
    fn default() -> (r: BSDInfo)
        ensures
            reads_as_zero(r),
    {
        let r = BSDInfo {
            pbi_flags: 0,
            pbi_status: 0,
            pbi_xstatus: 0,
            pbi_pid: 0,
            pbi_ppid: 0,
            pbi_uid: 0,
            pbi_gid: 0,
            pbi_ruid: 0,
            pbi_rgid: 0,
            pbi_svuid: 0,
            pbi_svgid: 0,
            rfu_1: 0,
            pbi_comm: [0i8; MAXCOMLEN],
            pbi_name: [0i8; MAXNAMELEN],
            pbi_nfiles: 0,
            pbi_pgid: 0,
            pbi_pjobc: 0,
            e_tdev: 0,
            e_tpgid: 0,
            pbi_nice: 0,
            pbi_start_tvsec: 0,
            pbi_start_tvusec: 0,
        };
        proof {
            assert forall|b: Seq<u8>, at: int| b.len() <= at implies r
                == #[trigger] BSDInfo::decode_spec(b, at) by {
                let d = BSDInfo::decode_spec(b, at);
                lemma_array_of::<i8, MAXCOMLEN>(i8s_at(b, at + 48, MAXCOMLEN as nat));
                assert(r.pbi_comm =~= d.pbi_comm);
                lemma_array_of::<i8, MAXNAMELEN>(i8s_at(b, at + 64, MAXNAMELEN as nat));
                assert(r.pbi_name =~= d.pbi_name);
            }
        }
        r
    }
}

/// The BSD-level information and the task accounting of a process, together.
///
/// The record is 232 bytes long.
#[derive(Clone, Copy, Debug)]
pub struct TaskAllInfo {
    pub pbsd: BSDInfo,
    pub ptinfo: TaskInfo,
}

impl FixedRecord for TaskAllInfo {
    open spec fn size_spec() -> nat {
        232
    }

    fn size() -> (n: usize) {
        232
    }

    open spec fn decode_spec(b: Seq<u8>, at: int) -> TaskAllInfo {
        TaskAllInfo {
            pbsd: BSDInfo::decode_spec(b, at),
            ptinfo: TaskInfo::decode_spec(b, at + 136),
        }
    }

    fn decode_at(b: &[u8], at: usize) -> (r: TaskAllInfo) {
        TaskAllInfo {
            pbsd: BSDInfo::decode_at(b, at),
            ptinfo: TaskInfo::decode_at(b, at + 136),
        }
    }
}

impl Default for TaskAllInfo {
    fn default() -> (r: TaskAllInfo)
        ensures
            reads_as_zero(r),
    {
        let r = TaskAllInfo {
            pbsd: BSDInfo::default(),
            ptinfo: TaskInfo::default(),
        };
        r
    }
}

/// Information on one thread of a process.
///
/// The record is 112 bytes long.
#[derive(Clone, Copy, Debug)]
pub struct ThreadInfo {
    /// user run time
    pub pth_user_time: u64,
    /// system run time
    pub pth_system_time: u64,
    /// scaled cpu usage percentage
    pub pth_cpu_usage: i32,
    /// scheduling policy in effect
    pub pth_policy: i32,
    /// run state
    pub pth_run_state: i32,
    /// various flags
    pub pth_flags: i32,
    /// number of seconds that thread
    pub pth_sleep_time: i32,
    /// cur priority
    pub pth_curpri: i32,
    /// priority
    pub pth_priority: i32,
    /// max priority
    pub pth_maxpriority: i32,
    /// thread name, if any
    pub pth_name: [i8; MAXTHREADNAMESIZE],
}

impl FixedRecord for ThreadInfo {
    open spec fn size_spec() -> nat {
        112
    }

    fn size() -> (n: usize) {
        112
    }

    open spec fn decode_spec(b: Seq<u8>, at: int) -> ThreadInfo {
        ThreadInfo {
            pth_user_time: u64_at(b, at),
            pth_system_time: u64_at(b, at + 8),
            pth_cpu_usage: i32_at(b, at + 16),
            pth_policy: i32_at(b, at + 20),
            pth_run_state: i32_at(b, at + 24),
            pth_flags: i32_at(b, at + 28),
            pth_sleep_time: i32_at(b, at + 32),
            pth_curpri: i32_at(b, at + 36),
            pth_priority: i32_at(b, at + 40),
            pth_maxpriority: i32_at(b, at + 44),
            pth_name: array_of::<i8, MAXTHREADNAMESIZE>(
                i8s_at(b, at + 48, MAXTHREADNAMESIZE as nat),
            ),
        }
    }

    fn decode_at(b: &[u8], at: usize) -> (r: ThreadInfo) {
        ThreadInfo {
            pth_user_time: read_u64(b, at),
            pth_system_time: read_u64(b, at + 8),
            pth_cpu_usage: read_i32(b, at + 16),
            pth_policy: read_i32(b, at + 20),
            pth_run_state: read_i32(b, at + 24),
            pth_flags: read_i32(b, at + 28),
            pth_sleep_time: read_i32(b, at + 32),
            pth_curpri: read_i32(b, at + 36),
            pth_priority: read_i32(b, at + 40),
            pth_maxpriority: read_i32(b, at + 44),
            pth_name: read_i8_array::<MAXTHREADNAMESIZE>(b, at + 48),
        }
    }
}

impl Default for ThreadInfo {
    fn default() -> (r: ThreadInfo)
        ensures
            reads_as_zero(r),
    {
        let r = ThreadInfo {
            pth_user_time: 0,
            pth_system_time: 0,
            pth_cpu_usage: 0,
            pth_policy: 0,
            pth_run_state: 0,
            pth_flags: 0,
            pth_sleep_time: 0,
            pth_curpri: 0,
            pth_priority: 0,
            pth_maxpriority: 0,
            pth_name: [0i8; MAXTHREADNAMESIZE],
        };
        proof {
            assert forall|b: Seq<u8>, at: int| b.len() <= at implies r
                == #[trigger] ThreadInfo::decode_spec(b, at) by {
                let d = ThreadInfo::decode_spec(b, at);
                lemma_array_of::<i8, MAXTHREADNAMESIZE>(
                    i8s_at(b, at + 48, MAXTHREADNAMESIZE as nat),
                );
                assert(r.pth_name =~= d.pth_name);
            }
        }
        r
    }
}

/// The work queue of a process.
///
/// The record is 16 bytes long.
#[derive(Clone, Copy, Debug)]
pub struct WorkQueueInfo {
    /// total number of workqueue threads
    pub pwq_nthreads: u32,
    /// total number of running workqueue threads
    pub pwq_runthreads: u32,
    /// total number of blocked workqueue threads
    pub pwq_blockedthreads: u32,
    /// reserved for future use
    pub reserved: [u32; 1],
}

impl FixedRecord for WorkQueueInfo {
    open spec fn size_spec() -> nat {
        16
    }

    fn size() -> (n: usize) {
        16
    }

    open spec fn decode_spec(b: Seq<u8>, at: int) -> WorkQueueInfo {
        WorkQueueInfo {
            pwq_nthreads: u32_at(b, at),
            pwq_runthreads: u32_at(b, at + 4),
            pwq_blockedthreads: u32_at(b, at + 8),
            reserved: [u32_at(b, at + 12)],
        }
    }

    fn decode_at(b: &[u8], at: usize) -> (r: WorkQueueInfo) {
        WorkQueueInfo {
            pwq_nthreads: read_u32(b, at),
            pwq_runthreads: read_u32(b, at + 4),
            pwq_blockedthreads: read_u32(b, at + 8),
            reserved: [read_u32(b, at + 12)],
        }
    }
}

impl Default for WorkQueueInfo {
    fn default() -> (r: WorkQueueInfo)
        ensures
            reads_as_zero(r),
    {
        let r = WorkQueueInfo {
            pwq_nthreads: 0,
            pwq_runthreads: 0,
            pwq_blockedthreads: 0,
            reserved: [0u32; 1],
        };
        proof {
            assert forall|b: Seq<u8>, at: int| b.len() <= at implies r
                == #[trigger] WorkQueueInfo::decode_spec(b, at) by {
                let d = WorkQueueInfo::decode_spec(b, at);
                assert(r.reserved =~= d.reserved);
            }
        }
        r
    }
}

/// One open file descriptor of a process, as a descriptor list query reports it.
///
/// The record is 8 bytes long.
#[derive(Clone, Copy, Debug)]
pub struct ProcFDInfo {
    /// the descriptor's number
    pub proc_fd: i32,
    /// the code of what the descriptor refers to
    pub proc_fdtype: u32,
}

impl FixedRecord for ProcFDInfo {
    open spec fn size_spec() -> nat {
        8
    }

    fn size() -> (n: usize) {
        8
    }

    open spec fn decode_spec(b: Seq<u8>, at: int) -> ProcFDInfo {
        ProcFDInfo {
            proc_fd: i32_at(b, at),
            proc_fdtype: u32_at(b, at + 4),
        }
    }

    fn decode_at(b: &[u8], at: usize) -> (r: ProcFDInfo) {
        ProcFDInfo {
            proc_fd: read_i32(b, at),
            proc_fdtype: read_u32(b, at + 4),
        }
    }
}

impl Default for ProcFDInfo {
    fn default() -> (r: ProcFDInfo)
        ensures
            reads_as_zero(r),
    {
        let r = ProcFDInfo {
            proc_fd: 0,
            proc_fdtype: 0,
        };
        r
    }
}

impl ProcFDInfo {
    /// What the descriptor refers to.
    pub fn fd_type(&self) -> (t: ProcFDType)
        ensures
            t == ProcFDType::of_code(self.proc_fdtype),
    {
        ProcFDType::from(self.proc_fdtype)
    }
}

impl PIDInfo for TaskInfo {
    open spec fn flavor_spec() -> PidInfoFlavor {
        PidInfoFlavor::TaskInfo
    }

    fn flavor() -> (f: PidInfoFlavor) {
        PidInfoFlavor::TaskInfo
    }
}

impl PIDInfo for BSDInfo {
    open spec fn flavor_spec() -> PidInfoFlavor {
        PidInfoFlavor::TBSDInfo
    }

    fn flavor() -> (f: PidInfoFlavor) {
        PidInfoFlavor::TBSDInfo
    }
}

impl PIDInfo for TaskAllInfo {
    open spec fn flavor_spec() -> PidInfoFlavor {
        PidInfoFlavor::TaskAllInfo
    }

    fn flavor() -> (f: PidInfoFlavor) {
        PidInfoFlavor::TaskAllInfo
    }
}

impl PIDInfo for ThreadInfo {
    open spec fn flavor_spec() -> PidInfoFlavor {
        PidInfoFlavor::ThreadInfo
    }

    fn flavor() -> (f: PidInfoFlavor) {
        PidInfoFlavor::ThreadInfo
    }
}

impl PIDInfo for WorkQueueInfo {
    open spec fn flavor_spec() -> PidInfoFlavor {
        PidInfoFlavor::WorkQueueInfo
    }

    fn flavor() -> (f: PidInfoFlavor) {
        PidInfoFlavor::WorkQueueInfo
    }
}

/// A process id is a record of one 32-bit field.
impl FixedRecord for u32 {
    open spec fn size_spec() -> nat {
        4
    }

    fn size() -> (n: usize) {
        4
    }

    open spec fn decode_spec(b: Seq<u8>, at: int) -> u32 {
        u32_at(b, at)
    }

    fn decode_at(b: &[u8], at: usize) -> (r: u32) {
        read_u32(b, at)
    }
}

/// A thread id is a record of one 64-bit field.
impl FixedRecord for u64 {
    open spec fn size_spec() -> nat {
        8
    }

    fn size() -> (n: usize) {
        8
    }

    open spec fn decode_spec(b: Seq<u8>, at: int) -> u64 {
        u64_at(b, at)
    }

    fn decode_at(b: &[u8], at: usize) -> (r: u64) {
        read_u64(b, at)
    }
}

/// The list of the ids of a process's threads.
pub struct ListThreads;

impl ListPIDInfo for ListThreads {
    type Item = u64;

    open spec fn flavor_spec() -> PidInfoFlavor {
        PidInfoFlavor::ListThreads
    }

    fn flavor() -> (f: PidInfoFlavor) {
        PidInfoFlavor::ListThreads
    }
}

/// The list of a process's open file descriptors.
pub struct ListFDs;

impl ListPIDInfo for ListFDs {
    type Item = ProcFDInfo;

    open spec fn flavor_spec() -> PidInfoFlavor {
        PidInfoFlavor::ListFDs
    }

    fn flavor() -> (f: PidInfoFlavor) {
        PidInfoFlavor::ListFDs
    }
}

/// One flavor, one record: no two of the records and lists of the per-process
/// queries are asked for by the same flavor.
pub proof fn lemma_one_flavor_one_record()
    ensures
        <TaskInfo as PIDInfo>::flavor_spec().code_spec() == 4,
        <BSDInfo as PIDInfo>::flavor_spec().code_spec() == 3,
        <TaskAllInfo as PIDInfo>::flavor_spec().code_spec() == 2,
        <ThreadInfo as PIDInfo>::flavor_spec().code_spec() == 5,
        <WorkQueueInfo as PIDInfo>::flavor_spec().code_spec() == 12,
        <ListThreads as ListPIDInfo>::flavor_spec().code_spec() == 6,
        <ListFDs as ListPIDInfo>::flavor_spec().code_spec() == 1,
{
}

/// What a per-process query can return, by flavor.
pub enum PidInfo {
    /// File descriptors used by the process.
    ListFDs(Vec<i32>),
    TaskAllInfo(TaskAllInfo),
    TBSDInfo(BSDInfo),
    TaskInfo(TaskInfo),
    ThreadInfo(ThreadInfo),
    /// Thread ids.
    ListThreads(Vec<i32>),
    RegionInfo(String),
    RegionPathInfo(String),
    VNodePathInfo(String),
    ThreadPathInfo(String),
    PathInfo(String),
    WorkQueueInfo(WorkQueueInfo),
}

} // verus!
