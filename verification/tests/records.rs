use libproc::flavor::{
    PidFDInfoFlavor, PidInfoFlavor, ProcFDType, ProcType, SocketInfoKind, TcpSIState,
};
use libproc::record::{
    decode, BSDInfo, FixedRecord, ListFDs, ListPIDInfo, ListThreads, PIDFDInfo, PIDInfo,
    ProcFDInfo, TaskAllInfo, TaskInfo, ThreadInfo, WorkQueueInfo, MAXCOMLEN, MAXPATHLEN,
    MAX_RECORD_SIZE, PROC_PIDPATHINFO_MAXSIZE,
};
use libproc::socket::{
    In4In6Addr, In6Addr, InAddr, InSIAddr, InSIV4, InSIV6, InSockInfo, KernCtlInfo,
    KernEventInfo, NdrvInfo, ProcFileInfo, SockAddrUn, SockBufInfo, SocketFDInfo, SocketInfo,
    SocketInfoProto, TcpSockInfo, UnSIAddr, UnSockInfo, VInfoStat,
};
use libproc::wire::{
    read_byte, read_i16, read_i32, read_i64, read_i8, read_i8_array, read_u16, read_u32,
    read_u64, read_u8, read_u8_array,
};

/// A buffer whose byte at place `i` is `i`, taken modulo 256.
fn counting(len: usize) -> Vec<u8> {
    (0..len).map(|i| i as u8).collect()
}

/// The little-endian number made of the `width` bytes `start`, `start + 1`, ...
fn le(start: u64, width: u64) -> u64 {
    (0..width).map(|k| ((start + k) % 256) << (8 * k)).sum()
}

#[test]
fn readers_are_little_endian() {
    let b = [0x01u8, 0x02, 0x03, 0x04, 0x05, 0x06, 0x07, 0x08, 0x09];
    assert_eq!(read_u8(&b, 0), 0x01);
    assert_eq!(read_u8(&b, 8), 0x09);
    assert_eq!(read_byte(&b, 3, 2), 0x06);
    assert_eq!(read_u16(&b, 0), 0x0201);
    assert_eq!(read_u16(&b, 7), 0x0908);
    assert_eq!(read_u32(&b, 0), 0x0403_0201);
    assert_eq!(read_u32(&b, 5), 0x0908_0706);
    assert_eq!(read_u64(&b, 0), 0x0807_0605_0403_0201);
    assert_eq!(read_u64(&b, 1), 0x0908_0706_0504_0302);
    assert_eq!(read_i16(&b, 0), 0x0201);
    assert_eq!(read_i32(&b, 0), 0x0403_0201);
    assert_eq!(read_i64(&b, 0), 0x0807_0605_0403_0201);
}

#[test]
fn signed_readers_are_twos_complement() {
    let b = [0xffu8, 0xff, 0xff, 0xff, 0xff, 0xff, 0xff, 0xff, 0x00, 0x80];
    assert_eq!(read_i8(&b, 0, 0), -1);
    assert_eq!(read_i8(&b, 8, 1), i8::MIN);
    assert_eq!(read_i8(&b, 8, 0), 0);
    assert_eq!(read_i16(&b, 0), -1);
    assert_eq!(read_i16(&b, 8), i16::MIN);
    assert_eq!(read_i32(&b, 0), -1);
    assert_eq!(read_i64(&b, 0), -1);
    let b = [0xfeu8, 0xff, 0xff, 0x7f, 0x00, 0x00, 0x00, 0x80];
    assert_eq!(read_i32(&b, 0), i32::MAX - 1);
    assert_eq!(read_i32(&b, 4), i32::MIN);
    assert_eq!(read_i64(&b, 0), i64::MIN + 0x7fff_fffe);
    assert_eq!(read_u64(&b, 0), 0x8000_0000_7fff_fffe);
    assert_eq!(read_i16(&b, 2), 0x7fff);
}

#[test]
fn readers_take_what_lies_past_the_end_for_zero() {
    let b = [0x11u8, 0x22, 0x33];
    assert_eq!(read_u8(&b, 3), 0);
    assert_eq!(read_u8(&b, usize::MAX), 0);
    assert_eq!(read_byte(&b, usize::MAX, usize::MAX), 0);
    assert_eq!(read_byte(&b, 1, usize::MAX), 0);
    assert_eq!(read_u16(&b, 2), 0x0033);
    assert_eq!(read_u32(&b, 0), 0x0033_2211);
    assert_eq!(read_u32(&b, 2), 0x0000_0033);
    assert_eq!(read_u64(&b, 1), 0x3322);
    assert_eq!(read_i32(&b, 3), 0);
    assert_eq!(read_i64(&b, usize::MAX), 0);
    assert_eq!(read_u64(&[], 0), 0);
    assert_eq!(read_u8_array::<4>(&b, 1), [0x22, 0x33, 0, 0]);
    assert_eq!(read_i8_array::<3>(&[0x7f, 0x80], 0), [127, -128, 0]);
    assert_eq!(read_u8_array::<0>(&b, 0), []);
}

#[test]
fn flavors_have_the_codes_of_the_protocol() {
    let codes: Vec<u32> = [
        ProcType::ProcAllPIDS,
        ProcType::ProcPGRPOnly,
        ProcType::ProcTTYOnly,
        ProcType::ProcUIDOnly,
        ProcType::ProcRUIDOnly,
        ProcType::ProcPPIDOnly,
    ]
    .iter()
    .map(|t| t.code())
    .collect();
    assert_eq!(codes, vec![1, 2, 3, 4, 5, 6]);
    let codes: Vec<i32> = [
        PidInfoFlavor::ListFDs,
        PidInfoFlavor::TaskAllInfo,
        PidInfoFlavor::TBSDInfo,
        PidInfoFlavor::TaskInfo,
        PidInfoFlavor::ThreadInfo,
        PidInfoFlavor::ListThreads,
        PidInfoFlavor::RegionInfo,
        PidInfoFlavor::RegionPathInfo,
        PidInfoFlavor::VNodePathInfo,
        PidInfoFlavor::ThreadPathInfo,
        PidInfoFlavor::PathInfo,
        PidInfoFlavor::WorkQueueInfo,
    ]
    .iter()
    .map(|f| f.code())
    .collect();
    assert_eq!(codes, (1..=12).collect::<Vec<i32>>());
    let codes: Vec<i32> = [
        PidFDInfoFlavor::VNodeInfo,
        PidFDInfoFlavor::VNodePathInfo,
        PidFDInfoFlavor::SocketInfo,
        PidFDInfoFlavor::PSEMInfo,
        PidFDInfoFlavor::PSHMInfo,
        PidFDInfoFlavor::PipeInfo,
        PidFDInfoFlavor::KQueueInfo,
        PidFDInfoFlavor::ATalkInfo,
    ]
    .iter()
    .map(|f| f.code())
    .collect();
    assert_eq!(codes, (1..=8).collect::<Vec<i32>>());
}

#[test]
fn each_record_has_its_one_flavor() {
    assert_eq!(<TaskInfo as PIDInfo>::flavor(), PidInfoFlavor::TaskInfo);
    assert_eq!(<BSDInfo as PIDInfo>::flavor(), PidInfoFlavor::TBSDInfo);
    assert_eq!(<TaskAllInfo as PIDInfo>::flavor(), PidInfoFlavor::TaskAllInfo);
    assert_eq!(<ThreadInfo as PIDInfo>::flavor(), PidInfoFlavor::ThreadInfo);
    assert_eq!(<WorkQueueInfo as PIDInfo>::flavor(), PidInfoFlavor::WorkQueueInfo);
    assert_eq!(<ListThreads as ListPIDInfo>::flavor(), PidInfoFlavor::ListThreads);
    assert_eq!(<ListFDs as ListPIDInfo>::flavor(), PidInfoFlavor::ListFDs);
    assert_eq!(<SocketFDInfo as PIDFDInfo>::flavor(), PidFDInfoFlavor::SocketInfo);
}

#[test]
fn codes_of_descriptor_kinds() {
    let kinds: Vec<ProcFDType> = (0..9).map(ProcFDType::from).collect();
    assert_eq!(
        kinds,
        vec![
            ProcFDType::ATalk,
            ProcFDType::VNode,
            ProcFDType::Socket,
            ProcFDType::PSHM,
            ProcFDType::PSEM,
            ProcFDType::KQueue,
            ProcFDType::Pipe,
            ProcFDType::FSEvents,
            ProcFDType::Unknown,
        ]
    );
    assert_eq!(ProcFDType::from(u32::MAX), ProcFDType::Unknown);
    assert_eq!(ProcFDInfo { proc_fd: 3, proc_fdtype: 2 }.fd_type(), ProcFDType::Socket);
    assert_eq!(ProcFDInfo { proc_fd: 3, proc_fdtype: 8 }.fd_type(), ProcFDType::Unknown);
    let kind: ProcFDType = 6u32.into();
    assert_eq!(kind, ProcFDType::Pipe);
}

#[test]
fn codes_of_socket_kinds() {
    let kinds: Vec<SocketInfoKind> = (0..8).map(SocketInfoKind::from).collect();
    assert_eq!(
        kinds,
        vec![
            SocketInfoKind::Generic,
            SocketInfoKind::In,
            SocketInfoKind::Tcp,
            SocketInfoKind::Un,
            SocketInfoKind::Ndrv,
            SocketInfoKind::KernEvent,
            SocketInfoKind::KernCtl,
            SocketInfoKind::Unknown,
        ]
    );
    assert_eq!(SocketInfoKind::from(-1), SocketInfoKind::Unknown);
    assert_eq!(SocketInfoKind::from(i32::MAX), SocketInfoKind::Unknown);
    assert_eq!(SocketInfoKind::from(i32::MIN), SocketInfoKind::Unknown);
}

#[test]
fn codes_of_tcp_states() {
    let states: Vec<TcpSIState> = (0..13).map(TcpSIState::from).collect();
    assert_eq!(
        states,
        vec![
            TcpSIState::Closed,
            TcpSIState::Listen,
            TcpSIState::SynSent,
            TcpSIState::SynReceived,
            TcpSIState::Established,
            TcpSIState::CloseWait,
            TcpSIState::FinWait1,
            TcpSIState::Closing,
            TcpSIState::LastAck,
            TcpSIState::FinWait2,
            TcpSIState::TimeWait,
            TcpSIState::Reserved,
            TcpSIState::Unknown,
        ]
    );
    assert_eq!(TcpSIState::from(-1), TcpSIState::Unknown);
    assert_eq!(TcpSIState::from(i32::MAX), TcpSIState::Unknown);
}

#[test]
fn limits() {
    assert_eq!(MAXPATHLEN, 1024);
    assert_eq!(PROC_PIDPATHINFO_MAXSIZE, 4096);
    assert_eq!(MAXCOMLEN, 16);
    assert_eq!(MAX_RECORD_SIZE * PROC_PIDPATHINFO_MAXSIZE <= i32::MAX as usize, true);
    assert_eq!((MAX_RECORD_SIZE + 1) * PROC_PIDPATHINFO_MAXSIZE > i32::MAX as usize, true);
}

#[test]
fn sizes_are_those_of_the_kernel() {
    assert_eq!(<u32 as FixedRecord>::size(), 4);
    assert_eq!(<u64 as FixedRecord>::size(), 8);
    assert_eq!(TaskInfo::size(), 96);
    assert_eq!(BSDInfo::size(), 136);
    assert_eq!(TaskAllInfo::size(), 232);
    assert_eq!(ThreadInfo::size(), 112);
    assert_eq!(WorkQueueInfo::size(), 16);
    assert_eq!(ProcFDInfo::size(), 8);
    assert_eq!(ProcFileInfo::size(), 24);
    assert_eq!(VInfoStat::size(), 136);
    assert_eq!(SockBufInfo::size(), 24);
    assert_eq!(InAddr::size(), 4);
    assert_eq!(In6Addr::size(), 16);
    assert_eq!(In4In6Addr::size(), 16);
    assert_eq!(InSIAddr::size(), 16);
    assert_eq!(InSIV4::size(), 1);
    assert_eq!(InSIV6::size(), 12);
    assert_eq!(InSockInfo::size(), 80);
    assert_eq!(TcpSockInfo::size(), 120);
    assert_eq!(SockAddrUn::size(), 106);
    assert_eq!(UnSIAddr::size(), 255);
    assert_eq!(UnSockInfo::size(), 528);
    assert_eq!(NdrvInfo::size(), 24);
    assert_eq!(KernEventInfo::size(), 12);
    assert_eq!(KernCtlInfo::size(), 120);
    assert_eq!(SocketInfoProto::size(), 528);
    assert_eq!(SocketInfo::size(), 768);
    assert_eq!(SocketFDInfo::size(), 792);
}

#[test]
fn task_info_layout() {
    let r: TaskInfo = decode(&counting(96));
    assert_eq!(r.pti_virtual_size, le(0, 8));
    assert_eq!(r.pti_resident_size, le(8, 8));
    assert_eq!(r.pti_total_user, le(16, 8));
    assert_eq!(r.pti_total_system, le(24, 8));
    assert_eq!(r.pti_threads_user, le(32, 8));
    assert_eq!(r.pti_threads_system, le(40, 8));
    assert_eq!(r.pti_policy as u64, le(48, 4));
    assert_eq!(r.pti_faults as u64, le(52, 4));
    assert_eq!(r.pti_pageins as u64, le(56, 4));
    assert_eq!(r.pti_cow_faults as u64, le(60, 4));
    assert_eq!(r.pti_messages_sent as u64, le(64, 4));
    assert_eq!(r.pti_messages_received as u64, le(68, 4));
    assert_eq!(r.pti_syscalls_mach as u64, le(72, 4));
    assert_eq!(r.pti_syscalls_unix as u64, le(76, 4));
    assert_eq!(r.pti_csw as u64, le(80, 4));
    assert_eq!(r.pti_threadnum as u64, le(84, 4));
    assert_eq!(r.pti_numrunning as u64, le(88, 4));
    assert_eq!(r.pti_priority as u64, le(92, 4));
    assert_eq!(r.pti_priority, 0x5f5e_5d5c);
}

#[test]
fn bsd_info_layout() {
    let r: BSDInfo = decode(&counting(136));
    assert_eq!(r.pbi_flags, 0x0302_0100);
    assert_eq!(r.pbi_status as u64, le(4, 4));
    assert_eq!(r.pbi_xstatus as u64, le(8, 4));
    assert_eq!(r.pbi_pid, 0x0f0e_0d0c);
    assert_eq!(r.pbi_ppid as u64, le(16, 4));
    assert_eq!(r.pbi_uid as u64, le(20, 4));
    assert_eq!(r.pbi_gid as u64, le(24, 4));
    assert_eq!(r.pbi_ruid as u64, le(28, 4));
    assert_eq!(r.pbi_rgid as u64, le(32, 4));
    assert_eq!(r.pbi_svuid as u64, le(36, 4));
    assert_eq!(r.pbi_svgid as u64, le(40, 4));
    assert_eq!(r.rfu_1 as u64, le(44, 4));
    assert_eq!(r.pbi_comm.to_vec(), (48..64).collect::<Vec<i8>>());
    assert_eq!(r.pbi_name.to_vec(), (64..96).collect::<Vec<i8>>());
    assert_eq!(r.pbi_nfiles, 0x6362_6160);
    assert_eq!(r.pbi_pgid as u64, le(100, 4));
    assert_eq!(r.pbi_pjobc as u64, le(104, 4));
    assert_eq!(r.e_tdev as u64, le(108, 4));
    assert_eq!(r.e_tpgid as u64, le(112, 4));
    assert_eq!(r.pbi_nice as u64, le(116, 4));
    assert_eq!(r.pbi_start_tvsec, le(120, 8));
    assert_eq!(r.pbi_start_tvusec, 0x8786_8584_8382_8180);
}

#[test]
fn task_all_info_layout() {
    let b = counting(232);
    let r: TaskAllInfo = decode(&b);
    assert_eq!(r.pbsd.pbi_pid, 0x0f0e_0d0c);
    assert_eq!(r.pbsd.pbi_start_tvusec, le(128, 8));
    assert_eq!(r.ptinfo.pti_virtual_size, le(136, 8));
    assert_eq!(r.ptinfo.pti_threadnum as u32 as u64, le(136 + 84, 4));
    assert_eq!(r.ptinfo.pti_priority as u32 as u64, le(228, 4));
    let inner = TaskInfo::decode_at(&b, 136);
    assert_eq!(inner.pti_csw, r.ptinfo.pti_csw);
}

#[test]
fn thread_info_layout() {
    let r: ThreadInfo = decode(&counting(112));
    assert_eq!(r.pth_user_time, le(0, 8));
    assert_eq!(r.pth_system_time, le(8, 8));
    assert_eq!(r.pth_cpu_usage as u64, le(16, 4));
    assert_eq!(r.pth_policy as u64, le(20, 4));
    assert_eq!(r.pth_run_state as u64, le(24, 4));
    assert_eq!(r.pth_flags as u64, le(28, 4));
    assert_eq!(r.pth_sleep_time as u64, le(32, 4));
    assert_eq!(r.pth_curpri as u64, le(36, 4));
    assert_eq!(r.pth_priority as u64, le(40, 4));
    assert_eq!(r.pth_maxpriority as u64, le(44, 4));
    assert_eq!(r.pth_name.to_vec(), (48..112).collect::<Vec<i8>>());
}

#[test]
fn work_queue_and_descriptor_layout() {
    let r: WorkQueueInfo = decode(&counting(16));
    assert_eq!(r.pwq_nthreads as u64, le(0, 4));
    assert_eq!(r.pwq_runthreads as u64, le(4, 4));
    assert_eq!(r.pwq_blockedthreads as u64, le(8, 4));
    assert_eq!(r.reserved, [0x0f0e_0d0c]);
    let r = ProcFDInfo::decode_at(&counting(24), 16);
    assert_eq!(r.proc_fd, 0x1312_1110);
    assert_eq!(r.proc_fdtype, 0x1716_1514);
    let r: ProcFDInfo = decode(&[0xff, 0xff, 0xff, 0xff, 2, 0, 0, 0]);
    assert_eq!((r.proc_fd, r.proc_fdtype), (-1, 2));
    assert_eq!(<u64 as FixedRecord>::decode_at(&counting(16), 8), le(8, 8));
    assert_eq!(<u32 as FixedRecord>::decode_at(&counting(16), 8), 0x0b0a_0908);
}

#[test]
fn the_default_record_is_the_empty_buffer_read() {
    let d = BSDInfo::default();
    let e: BSDInfo = decode(&[]);
    assert_eq!((d.pbi_flags, d.pbi_pid, d.pbi_nfiles, d.pbi_nice), (0, 0, 0, 0));
    assert_eq!((e.pbi_flags, e.pbi_pid, e.pbi_nfiles, e.pbi_nice), (0, 0, 0, 0));
    assert_eq!(d.pbi_comm, e.pbi_comm);
    assert_eq!(d.pbi_name, [0i8; 32]);
    assert_eq!((d.pbi_start_tvsec, e.pbi_start_tvusec), (0, 0));
    let d = TaskAllInfo::default();
    assert_eq!((d.pbsd.pbi_pid, d.ptinfo.pti_virtual_size, d.ptinfo.pti_priority), (0, 0, 0));
    let d = ThreadInfo::default();
    assert_eq!((d.pth_user_time, d.pth_maxpriority, d.pth_name), (0, 0, [0i8; 64]));
    let d = TaskInfo::default();
    assert_eq!((d.pti_virtual_size, d.pti_policy, d.pti_priority), (0, 0, 0));
    let d = WorkQueueInfo::default();
    assert_eq!((d.pwq_nthreads, d.pwq_runthreads, d.pwq_blockedthreads, d.reserved), (0, 0, 0, [0]));
    let d = ProcFDInfo::default();
    assert_eq!((d.proc_fd, d.proc_fdtype), (0, 0));
    let past: TaskInfo = TaskInfo::decode_at(&counting(96), 96);
    assert_eq!((past.pti_virtual_size, past.pti_priority), (0, 0));
}
