//! The numeric codes of the query protocol: which processes a list query
//! selects, which record a per-process or per-descriptor query asks for, and
//! the codes the kernel puts into the records it returns.

use vstd::prelude::*;
use vstd::std_specs::convert::FromSpecImpl;

verus! {

/// Selects the processes that a PID list query reports.
#[derive(Copy, Clone, Debug, PartialEq, Eq, Structural)]
pub enum ProcType {
    ProcAllPIDS,
    ProcPGRPOnly,
    ProcTTYOnly,
    ProcUIDOnly,
    ProcRUIDOnly,
    ProcPPIDOnly,
}

impl ProcType {
    /// The selector's protocol code.
    pub open spec fn code_spec(self) -> u32 {
        match self {
            ProcType::ProcAllPIDS => 1,
            ProcType::ProcPGRPOnly => 2,
            ProcType::ProcTTYOnly => 3,
            ProcType::ProcUIDOnly => 4,
            ProcType::ProcRUIDOnly => 5,
            ProcType::ProcPPIDOnly => 6,
        }
    }

    /// The selector's protocol code.
    #[verifier::when_used_as_spec(code_spec)]
    pub fn code(self) -> (c: u32)
        ensures
            c == self.code_spec(),
    {
        match self {
            ProcType::ProcAllPIDS => 1,
            ProcType::ProcPGRPOnly => 2,
            ProcType::ProcTTYOnly => 3,
            ProcType::ProcUIDOnly => 4,
            ProcType::ProcRUIDOnly => 5,
            ProcType::ProcPPIDOnly => 6,
        }
    }
}

/// Names the record that a per-process query returns.
#[derive(Copy, Clone, Debug, PartialEq, Eq, Structural)]
pub enum PidInfoFlavor {
    /// List of file descriptors.
    ListFDs,
    /// BSD and task information together.
    TaskAllInfo,
    /// BSD-level process information.
    TBSDInfo,
    /// Task accounting.
    TaskInfo,
    /// Information on one thread.
    ThreadInfo,
    /// List of thread ids.
    ListThreads,
    RegionInfo,
    RegionPathInfo,
    VNodePathInfo,
    ThreadPathInfo,
    PathInfo,
    /// Work queue information.
    WorkQueueInfo,
}

impl PidInfoFlavor {
    /// The flavor's protocol code.
    pub open spec fn code_spec(self) -> i32 {
        match self {
            PidInfoFlavor::ListFDs => 1,
            PidInfoFlavor::TaskAllInfo => 2,
            PidInfoFlavor::TBSDInfo => 3,
            PidInfoFlavor::TaskInfo => 4,
            PidInfoFlavor::ThreadInfo => 5,
            PidInfoFlavor::ListThreads => 6,
            PidInfoFlavor::RegionInfo => 7,
            PidInfoFlavor::RegionPathInfo => 8,
            PidInfoFlavor::VNodePathInfo => 9,
            PidInfoFlavor::ThreadPathInfo => 10,
            PidInfoFlavor::PathInfo => 11,
            PidInfoFlavor::WorkQueueInfo => 12,
        }
    }

    /// The flavor's protocol code.
    #[verifier::when_used_as_spec(code_spec)]
    pub fn code(self) -> (c: i32)
        ensures
            c == self.code_spec(),
    {
        match self {
            PidInfoFlavor::ListFDs => 1,
            PidInfoFlavor::TaskAllInfo => 2,
            PidInfoFlavor::TBSDInfo => 3,
            PidInfoFlavor::TaskInfo => 4,
            PidInfoFlavor::ThreadInfo => 5,
            PidInfoFlavor::ListThreads => 6,
            PidInfoFlavor::RegionInfo => 7,
            PidInfoFlavor::RegionPathInfo => 8,
            PidInfoFlavor::VNodePathInfo => 9,
            PidInfoFlavor::ThreadPathInfo => 10,
            PidInfoFlavor::PathInfo => 11,
            PidInfoFlavor::WorkQueueInfo => 12,
        }
    }
}

/// Names the record that a per-descriptor query returns.
#[derive(Copy, Clone, Debug, PartialEq, Eq, Structural)]
pub enum PidFDInfoFlavor {
    VNodeInfo,
    VNodePathInfo,
    SocketInfo,
    PSEMInfo,
    PSHMInfo,
    PipeInfo,
    KQueueInfo,
    ATalkInfo,
}

impl PidFDInfoFlavor {
    /// The flavor's protocol code.
    pub open spec fn code_spec(self) -> i32 {
        match self {
            PidFDInfoFlavor::VNodeInfo => 1,
            PidFDInfoFlavor::VNodePathInfo => 2,
            PidFDInfoFlavor::SocketInfo => 3,
            PidFDInfoFlavor::PSEMInfo => 4,
            PidFDInfoFlavor::PSHMInfo => 5,
            PidFDInfoFlavor::PipeInfo => 6,
            PidFDInfoFlavor::KQueueInfo => 7,
            PidFDInfoFlavor::ATalkInfo => 8,
        }
    }

    /// The flavor's protocol code.
    #[verifier::when_used_as_spec(code_spec)]
    pub fn code(self) -> (c: i32)
        ensures
            c == self.code_spec(),
    {
        match self {
            PidFDInfoFlavor::VNodeInfo => 1,
            PidFDInfoFlavor::VNodePathInfo => 2,
            PidFDInfoFlavor::SocketInfo => 3,
            PidFDInfoFlavor::PSEMInfo => 4,
            PidFDInfoFlavor::PSHMInfo => 5,
            PidFDInfoFlavor::PipeInfo => 6,
            PidFDInfoFlavor::KQueueInfo => 7,
            PidFDInfoFlavor::ATalkInfo => 8,
        }
    }
}

/// What an open file descriptor refers to.
#[derive(Copy, Clone, Debug, PartialEq, Eq, Structural)]
pub enum ProcFDType {
    /// AppleTalk
    ATalk,
    /// Vnode
    VNode,
    /// Socket
    Socket,
    /// POSIX shared memory
    PSHM,
    /// POSIX semaphore
    PSEM,
    /// Kqueue
    KQueue,
    /// Pipe
    Pipe,
    /// FSEvents
    FSEvents,
    /// Unknown
    Unknown,
}

impl ProcFDType {
    /// The kind that the code `value` stands for; every code the protocol
    /// does not define is `Unknown`.
    pub open spec fn of_code(value: u32) -> ProcFDType {
        match value {
            0 => ProcFDType::ATalk,
            1 => ProcFDType::VNode,
            2 => ProcFDType::Socket,
            3 => ProcFDType::PSHM,
            4 => ProcFDType::PSEM,
            5 => ProcFDType::KQueue,
            6 => ProcFDType::Pipe,
            7 => ProcFDType::FSEvents,
            _ => ProcFDType::Unknown,
        }
    }
}

impl From<u32> for ProcFDType {
    fn from(value: u32) -> (r: ProcFDType) {
        match value {
            0 => ProcFDType::ATalk,
            1 => ProcFDType::VNode,
            2 => ProcFDType::Socket,
            3 => ProcFDType::PSHM,
            4 => ProcFDType::PSEM,
            5 => ProcFDType::KQueue,
            6 => ProcFDType::Pipe,
            7 => ProcFDType::FSEvents,
            _ => ProcFDType::Unknown,
        }
    }
}

impl FromSpecImpl<u32> for ProcFDType {
    open spec fn obeys_from_spec() -> bool {
        true
    }

    open spec fn from_spec(value: u32) -> ProcFDType {
        ProcFDType::of_code(value)
    }
}

/// Which protocol-specific part of a socket record is in use.
#[derive(Copy, Clone, Debug, PartialEq, Eq, Structural)]
pub enum SocketInfoKind {
    Generic,
    /// IPv4 and IPv6 Sockets
    In,
    /// TCP Sockets
    Tcp,
    /// Unix Domain Sockets
    Un,
    /// PF_NDRV Sockets
    Ndrv,
    /// Kernel Event Sockets
    KernEvent,
    /// Kernel Control Sockets
    KernCtl,
    /// Unknown
    Unknown,
}

impl SocketInfoKind {
    /// The kind that the code `value` stands for; every code the protocol
    /// does not define is `Unknown`.
    pub open spec fn of_code(value: i32) -> SocketInfoKind {
        match value {
            0 => SocketInfoKind::Generic,
            1 => SocketInfoKind::In,
            2 => SocketInfoKind::Tcp,
            3 => SocketInfoKind::Un,
            4 => SocketInfoKind::Ndrv,
            5 => SocketInfoKind::KernEvent,
            6 => SocketInfoKind::KernCtl,
            _ => SocketInfoKind::Unknown,
        }
    }
}

impl From<i32> for SocketInfoKind {
    fn from(value: i32) -> (r: SocketInfoKind) {
        match value {
            0 => SocketInfoKind::Generic,
            1 => SocketInfoKind::In,
            2 => SocketInfoKind::Tcp,
            3 => SocketInfoKind::Un,
            4 => SocketInfoKind::Ndrv,
            5 => SocketInfoKind::KernEvent,
            6 => SocketInfoKind::KernCtl,
            _ => SocketInfoKind::Unknown,
        }
    }
}

impl FromSpecImpl<i32> for SocketInfoKind {
    open spec fn obeys_from_spec() -> bool {
        true
    }

    open spec fn from_spec(value: i32) -> SocketInfoKind {
        SocketInfoKind::of_code(value)
    }
}

/// The state of a TCP connection.
#[derive(Copy, Clone, Debug, PartialEq, Eq, Structural)]
pub enum TcpSIState {
    /// Closed
    Closed,
    /// Listening for connection
    Listen,
    /// Active, have sent syn
    SynSent,
    /// Have send and received syn
    SynReceived,
    /// Established
    Established,
    /// Rcvd fin, waiting for close
    CloseWait,
    /// Have closed, sent fin
    FinWait1,
    /// Closed xchd FIN; await FIN ACK
    Closing,
    /// Had fin and close; await FIN ACK
    LastAck,
    /// Have closed, fin is acked
    FinWait2,
    /// In 2*msl quiet wait after close
    TimeWait,
    /// Pseudo state: reserved
    Reserved,
    /// Unknown
    Unknown,
}

impl TcpSIState {
    /// The state that the code `value` stands for; every code the protocol
    /// does not define is `Unknown`.
    pub open spec fn of_code(value: i32) -> TcpSIState {
        match value {
            0 => TcpSIState::Closed,
            1 => TcpSIState::Listen,
            2 => TcpSIState::SynSent,
            3 => TcpSIState::SynReceived,
            4 => TcpSIState::Established,
            5 => TcpSIState::CloseWait,
            6 => TcpSIState::FinWait1,
            7 => TcpSIState::Closing,
            8 => TcpSIState::LastAck,
            9 => TcpSIState::FinWait2,
            10 => TcpSIState::TimeWait,
            11 => TcpSIState::Reserved,
            _ => TcpSIState::Unknown,
        }
    }
}

impl From<i32> for TcpSIState {
    fn from(value: i32) -> (r: TcpSIState) {
        match value {
            0 => TcpSIState::Closed,
            1 => TcpSIState::Listen,
            2 => TcpSIState::SynSent,
            3 => TcpSIState::SynReceived,
            4 => TcpSIState::Established,
            5 => TcpSIState::CloseWait,
            6 => TcpSIState::FinWait1,
            7 => TcpSIState::Closing,
            8 => TcpSIState::LastAck,
            9 => TcpSIState::FinWait2,
            10 => TcpSIState::TimeWait,
            11 => TcpSIState::Reserved,
            _ => TcpSIState::Unknown,
        }
    }
}

impl FromSpecImpl<i32> for TcpSIState {
    open spec fn obeys_from_spec() -> bool {
        true
    }

    open spec fn from_spec(value: i32) -> TcpSIState {
        TcpSIState::of_code(value)
    }
}

/// No two selectors share a code, nor do two flavors of one query family:
/// a code names one record shape.
pub proof fn lemma_codes_distinct(
    p: ProcType,
    q: ProcType,
    f: PidInfoFlavor,
    g: PidInfoFlavor,
    s: PidFDInfoFlavor,
    t: PidFDInfoFlavor,
)
    ensures
        p.code_spec() == q.code_spec() ==> p == q,
        f.code_spec() == g.code_spec() ==> f == g,
        s.code_spec() == t.code_spec() ==> s == t,
{
}

} // verus!
