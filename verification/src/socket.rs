//! The record of a socket file descriptor.
//!
//! A socket record ends in an area that holds one of several
//! protocol-specific parts; the code in `soi_kind` says which. The area is
//! kept as the bytes the kernel wrote, and is only ever read as the part that
//! the code names.

use crate::flavor::{PidFDInfoFlavor, SocketInfoKind, TcpSIState};
use crate::record::{reads_as_zero, FixedRecord, PIDFDInfo};
use crate::wire::{
    array_of, byte_at, i16_at, i32_at, i64_at, i8s_at, lemma_array_of, lemma_array_of_view,
    read_i16, read_i32, read_i64, read_i8_array, read_u16, read_u32, read_u64, read_u8,
    read_u8_array, u16_at, u32_at, u64_at, u8s_at,
};
use vstd::array::array_as_slice;
use vstd::prelude::*;

verus! {

/// Length of an IPv6 address, in bytes.
pub const IN6_ADDR_LEN: usize = 16;

/// Number of timers of a TCP connection.
pub const TSI_T_NTIMERS: usize = 4;

/// Length of the path of a Unix domain socket, in bytes.
pub const SUN_PATH_LEN: usize = 104;

/// Length of the longest socket address, in bytes.
pub const SOCK_MAXADDRLEN: usize = 255;

/// Length of the name of a network interface, in bytes.
pub const IF_NAMESIZE: usize = 16;

/// Length of the name of a kernel control, in bytes.
pub const MAX_KCTL_NAME: usize = 96;

/// Size of the area that holds the protocol-specific part of a socket record:
/// that of its largest part, the Unix domain socket.
pub const SOCKET_PROTO_SIZE: usize = 528;

/// What the kernel keeps on every open file: flags, status and offset.
///
/// The record is 24 bytes long.
#[derive(Clone, Copy, Debug)]
pub struct ProcFileInfo {
    pub fi_openflags: u32,
    pub fi_status: u32,
    pub fi_offset: i64,
    pub fi_type: i32,
    /// reserved
    pub rfu_1: i32,
}

impl FixedRecord for ProcFileInfo {
    open spec fn size_spec() -> nat {
        24
    }

    fn size() -> (n: usize) {
        24
    }

    open spec fn decode_spec(b: Seq<u8>, at: int) -> ProcFileInfo {
        ProcFileInfo {
            fi_openflags: u32_at(b, at),
            fi_status: u32_at(b, at + 4),
            fi_offset: i64_at(b, at + 8),
            fi_type: i32_at(b, at + 16),
            rfu_1: i32_at(b, at + 20),
        }
    }

    fn decode_at(b: &[u8], at: usize) -> (r: ProcFileInfo) {
        ProcFileInfo {
            fi_openflags: read_u32(b, at),
            fi_status: read_u32(b, at + 4),
            fi_offset: read_i64(b, at + 8),
            fi_type: read_i32(b, at + 16),
            rfu_1: read_i32(b, at + 20),
        }
    }
}

impl Default for ProcFileInfo {
    fn default() -> (r: ProcFileInfo)
        ensures
            reads_as_zero(r),
    {
        let r = ProcFileInfo {
            fi_openflags: 0,
            fi_status: 0,
            fi_offset: 0,
            fi_type: 0,
            rfu_1: 0,
        };
        r
    }
}

/// The `stat` information of an open file.
///
/// The record is 136 bytes long.
#[derive(Clone, Copy, Debug)]
pub struct VInfoStat {
    pub vst_dev: u32,
    pub vst_mode: u16,
    pub vst_nlink: u16,
    pub vst_ino: u64,
    pub vst_uid: u32,
    pub vst_gid: u32,
    pub vst_atime: i64,
    pub vst_atimensec: i64,
    pub vst_mtime: i64,
    pub vst_mtimensec: i64,
    pub vst_ctime: i64,
    pub vst_ctimensec: i64,
    pub vst_birthtime: i64,
    pub vst_birthtimensec: i64,
    pub vst_size: i64,
    pub vst_blocks: i64,
    pub vst_blksize: i32,
    pub vst_flags: u32,
    pub vst_gen: u32,
    pub vst_rdev: u32,
    pub vst_qspare: [i64; 2],
}

impl FixedRecord for VInfoStat {
    open spec fn size_spec() -> nat {
        136
    }

    fn size() -> (n: usize) {
        136
    }

    open spec fn decode_spec(b: Seq<u8>, at: int) -> VInfoStat {
        VInfoStat {
            vst_dev: u32_at(b, at),
            vst_mode: u16_at(b, at + 4),
            vst_nlink: u16_at(b, at + 6),
            vst_ino: u64_at(b, at + 8),
            vst_uid: u32_at(b, at + 16),
            vst_gid: u32_at(b, at + 20),
            vst_atime: i64_at(b, at + 24),
            vst_atimensec: i64_at(b, at + 32),
            vst_mtime: i64_at(b, at + 40),
            vst_mtimensec: i64_at(b, at + 48),
            vst_ctime: i64_at(b, at + 56),
            vst_ctimensec: i64_at(b, at + 64),
            vst_birthtime: i64_at(b, at + 72),
            vst_birthtimensec: i64_at(b, at + 80),
            vst_size: i64_at(b, at + 88),
            vst_blocks: i64_at(b, at + 96),
            vst_blksize: i32_at(b, at + 104),
            vst_flags: u32_at(b, at + 108),
            vst_gen: u32_at(b, at + 112),
            vst_rdev: u32_at(b, at + 116),
            vst_qspare: [i64_at(b, at + 120), i64_at(b, at + 128)],
        }
    }

    fn decode_at(b: &[u8], at: usize) -> (r: VInfoStat) {
        VInfoStat {
            vst_dev: read_u32(b, at),
            vst_mode: read_u16(b, at + 4),
            vst_nlink: read_u16(b, at + 6),
            vst_ino: read_u64(b, at + 8),
            vst_uid: read_u32(b, at + 16),
            vst_gid: read_u32(b, at + 20),
            vst_atime: read_i64(b, at + 24),
            vst_atimensec: read_i64(b, at + 32),
            vst_mtime: read_i64(b, at + 40),
            vst_mtimensec: read_i64(b, at + 48),
            vst_ctime: read_i64(b, at + 56),
            vst_ctimensec: read_i64(b, at + 64),
            vst_birthtime: read_i64(b, at + 72),
            vst_birthtimensec: read_i64(b, at + 80),
            vst_size: read_i64(b, at + 88),
            vst_blocks: read_i64(b, at + 96),
            vst_blksize: read_i32(b, at + 104),
            vst_flags: read_u32(b, at + 108),
            vst_gen: read_u32(b, at + 112),
            vst_rdev: read_u32(b, at + 116),
            vst_qspare: [read_i64(b, at + 120), read_i64(b, at + 128)],
        }
    }
}

impl Default for VInfoStat {
    fn default() -> (r: VInfoStat)
        ensures
            reads_as_zero(r),
    {
        let r = VInfoStat {
            vst_dev: 0,
            vst_mode: 0,
            vst_nlink: 0,
            vst_ino: 0,
            vst_uid: 0,
            vst_gid: 0,
            vst_atime: 0,
            vst_atimensec: 0,
            vst_mtime: 0,
            vst_mtimensec: 0,
            vst_ctime: 0,
            vst_ctimensec: 0,
            vst_birthtime: 0,
            vst_birthtimensec: 0,
            vst_size: 0,
            vst_blocks: 0,
            vst_blksize: 0,
            vst_flags: 0,
            vst_gen: 0,
            vst_rdev: 0,
            vst_qspare: [0i64; 2],
        };
        proof {
            assert forall|b: Seq<u8>, at: int| b.len() <= at implies r
                == #[trigger] VInfoStat::decode_spec(b, at) by {
                let d = VInfoStat::decode_spec(b, at);
                assert(r.vst_qspare =~= d.vst_qspare);
            }
        }
        r
    }
}

/// The state of one of the two buffers of a socket.
///
/// The record is 24 bytes long.
#[derive(Clone, Copy, Debug)]
pub struct SockBufInfo {
    pub sbi_cc: u32,
    pub sbi_hiwat: u32,
    pub sbi_mbcnt: u32,
    pub sbi_mbmax: u32,
    pub sbi_lowat: u32,
    pub sbi_flags: i16,
    pub sbi_timeo: i16,
}

impl FixedRecord for SockBufInfo {
    open spec fn size_spec() -> nat {
        24
    }

    fn size() -> (n: usize) {
        24
    }

    open spec fn decode_spec(b: Seq<u8>, at: int) -> SockBufInfo {
        SockBufInfo {
            sbi_cc: u32_at(b, at),
            sbi_hiwat: u32_at(b, at + 4),
            sbi_mbcnt: u32_at(b, at + 8),
            sbi_mbmax: u32_at(b, at + 12),
            sbi_lowat: u32_at(b, at + 16),
            sbi_flags: i16_at(b, at + 20),
            sbi_timeo: i16_at(b, at + 22),
        }
    }

    fn decode_at(b: &[u8], at: usize) -> (r: SockBufInfo) {
        SockBufInfo {
            sbi_cc: read_u32(b, at),
            sbi_hiwat: read_u32(b, at + 4),
            sbi_mbcnt: read_u32(b, at + 8),
            sbi_mbmax: read_u32(b, at + 12),
            sbi_lowat: read_u32(b, at + 16),
            sbi_flags: read_i16(b, at + 20),
            sbi_timeo: read_i16(b, at + 22),
        }
    }
}

impl Default for SockBufInfo {
    fn default() -> (r: SockBufInfo)
        ensures
            reads_as_zero(r),
    {
        let r = SockBufInfo {
            sbi_cc: 0,
            sbi_hiwat: 0,
            sbi_mbcnt: 0,
            sbi_mbmax: 0,
            sbi_lowat: 0,
            sbi_flags: 0,
            sbi_timeo: 0,
        };
        r
    }
}

/// An IPv4 address, as in the C type `in_addr`.
///
/// The record is 4 bytes long.
#[derive(Clone, Copy, Debug)]
pub struct InAddr {
    /// the address, in network byte order
    pub s_addr: u32,
}

impl FixedRecord for InAddr {
    open spec fn size_spec() -> nat {
        4
    }

    fn size() -> (n: usize) {
        4
    }

    open spec fn decode_spec(b: Seq<u8>, at: int) -> InAddr {
        InAddr {
            s_addr: u32_at(b, at),
        }
    }

    fn decode_at(b: &[u8], at: usize) -> (r: InAddr) {
        InAddr {
            s_addr: read_u32(b, at),
        }
    }
}

impl Default for InAddr {
    fn default() -> (r: InAddr)
        ensures
            reads_as_zero(r),
    {
        let r = InAddr {
            s_addr: 0,
        };
        r
    }
}

/// An IPv6 address, as in the C type `in6_addr`.
///
/// The record is 16 bytes long.
#[derive(Clone, Copy, Debug)]
pub struct In6Addr {
    /// the address, in network byte order
    pub s6_addr: [u8; IN6_ADDR_LEN],
}

impl FixedRecord for In6Addr {
    open spec fn size_spec() -> nat {
        16
    }

    fn size() -> (n: usize) {
        16
    }

    open spec fn decode_spec(b: Seq<u8>, at: int) -> In6Addr {
        In6Addr {
            s6_addr: array_of::<u8, IN6_ADDR_LEN>(u8s_at(b, at, IN6_ADDR_LEN as nat)),
        }
    }

    fn decode_at(b: &[u8], at: usize) -> (r: In6Addr) {
        In6Addr {
            s6_addr: read_u8_array::<IN6_ADDR_LEN>(b, at),
        }
    }
}

impl Default for In6Addr {
    fn default() -> (r: In6Addr)
        ensures
            reads_as_zero(r),
    {
        let r = In6Addr {
            s6_addr: [0u8; IN6_ADDR_LEN],
        };
        proof {
            assert forall|b: Seq<u8>, at: int| b.len() <= at implies r
                == #[trigger] In6Addr::decode_spec(b, at) by {
                let d = In6Addr::decode_spec(b, at);
                lemma_array_of::<u8, IN6_ADDR_LEN>(u8s_at(b, at, IN6_ADDR_LEN as nat));
                assert(r.s6_addr =~= d.s6_addr);
            }
        }
        r
    }
}

/// An IPv4 address in the place of an IPv6 address: twelve bytes of padding, then the address.
///
/// The record is 16 bytes long.
#[derive(Clone, Copy, Debug)]
pub struct In4In6Addr {
    pub i46a_pad32: [u32; 3],
    pub i46a_addr4: InAddr,
}

impl FixedRecord for In4In6Addr {
    open spec fn size_spec() -> nat {
        16
    }

    fn size() -> (n: usize) {
        16
    }

    open spec fn decode_spec(b: Seq<u8>, at: int) -> In4In6Addr {
        In4In6Addr {
            i46a_pad32: [u32_at(b, at), u32_at(b, at + 4), u32_at(b, at + 8)],
            i46a_addr4: InAddr::decode_spec(b, at + 12),
        }
    }

    fn decode_at(b: &[u8], at: usize) -> (r: In4In6Addr) {
        In4In6Addr {
            i46a_pad32: [read_u32(b, at), read_u32(b, at + 4), read_u32(b, at + 8)],
            i46a_addr4: InAddr::decode_at(b, at + 12),
        }
    }
}

impl Default for In4In6Addr {
    fn default() -> (r: In4In6Addr)
        ensures
            reads_as_zero(r),
    {
        let r = In4In6Addr {
            i46a_pad32: [0u32; 3],
            i46a_addr4: InAddr::default(),
        };
        proof {
            assert forall|b: Seq<u8>, at: int| b.len() <= at implies r
                == #[trigger] In4In6Addr::decode_spec(b, at) by {
                let d = In4In6Addr::decode_spec(b, at);
                assert(r.i46a_pad32 =~= d.i46a_pad32);
            }
        }
        r
    }
}

/// The address of one end of an internet socket: sixteen bytes that hold an IPv6 address,
/// or an IPv4 address in their last four.
///
/// The record is 16 bytes long.
#[derive(Clone, Copy, Debug)]
pub struct InSIAddr {
    pub ina_6: In6Addr,
}

impl FixedRecord for InSIAddr {
    open spec fn size_spec() -> nat {
        16
    }

    fn size() -> (n: usize) {
        16
    }

    open spec fn decode_spec(b: Seq<u8>, at: int) -> InSIAddr {
        InSIAddr {
            ina_6: In6Addr::decode_spec(b, at),
        }
    }

    fn decode_at(b: &[u8], at: usize) -> (r: InSIAddr) {
        InSIAddr {
            ina_6: In6Addr::decode_at(b, at),
        }
    }
}

impl Default for InSIAddr {
    fn default() -> (r: InSIAddr)
        ensures
            reads_as_zero(r),
    {
        let r = InSIAddr {
            ina_6: In6Addr::default(),
        };
        r
    }
}

/// The IPv4 part of an internet socket.
///
/// The record is 1 bytes long.
#[derive(Clone, Copy, Debug)]
pub struct InSIV4 {
    pub in4_top: u8,
}

impl FixedRecord for InSIV4 {
    open spec fn size_spec() -> nat {
        1
    }

    fn size() -> (n: usize) {
        1
    }

    open spec fn decode_spec(b: Seq<u8>, at: int) -> InSIV4 {
        InSIV4 {
            in4_top: byte_at(b, at),
        }
    }

    fn decode_at(b: &[u8], at: usize) -> (r: InSIV4) {
        InSIV4 {
            in4_top: read_u8(b, at),
        }
    }
}

impl Default for InSIV4 {
    fn default() -> (r: InSIV4)
        ensures
            reads_as_zero(r),
    {
        let r = InSIV4 {
            in4_top: 0,
        };
        r
    }
}

/// The IPv6 part of an internet socket.
///
/// The record is 12 bytes long.
#[derive(Clone, Copy, Debug)]
pub struct InSIV6 {
    pub in6_hlim: u8,
    pub in6_cksum: i32,
    pub in6_ifindex: u16,
    pub in6_hops: i16,
}

impl FixedRecord for InSIV6 {
    open spec fn size_spec() -> nat {
        12
    }

    fn size() -> (n: usize) {
        12
    }

    open spec fn decode_spec(b: Seq<u8>, at: int) -> InSIV6 {
        InSIV6 {
            in6_hlim: byte_at(b, at),
            in6_cksum: i32_at(b, at + 4),
            in6_ifindex: u16_at(b, at + 8),
            in6_hops: i16_at(b, at + 10),
        }
    }

    fn decode_at(b: &[u8], at: usize) -> (r: InSIV6) {
        InSIV6 {
            in6_hlim: read_u8(b, at),
            in6_cksum: read_i32(b, at + 4),
            in6_ifindex: read_u16(b, at + 8),
            in6_hops: read_i16(b, at + 10),
        }
    }
}

impl Default for InSIV6 {
    fn default() -> (r: InSIV6)
        ensures
            reads_as_zero(r),
    {
        let r = InSIV6 {
            in6_hlim: 0,
            in6_cksum: 0,
            in6_ifindex: 0,
            in6_hops: 0,
        };
        r
    }
}

/// An internet (IPv4 or IPv6) socket.
///
/// The record is 80 bytes long.
#[derive(Clone, Copy, Debug)]
pub struct InSockInfo {
    /// foreign port, in network byte order
    pub insi_fport: i32,
    /// local port, in network byte order
    pub insi_lport: i32,
    pub insi_gencnt: u64,
    pub insi_flags: u32,
    pub insi_flow: u32,
    pub insi_vflag: u8,
    pub insi_ip_ttl: u8,
    /// reserved
    pub rfu_1: u32,
    /// foreign address
    pub insi_faddr: InSIAddr,
    /// local address
    pub insi_laddr: InSIAddr,
    pub insi_v4: InSIV4,
    pub insi_v6: InSIV6,
}

impl FixedRecord for InSockInfo {
    open spec fn size_spec() -> nat {
        80
    }

    fn size() -> (n: usize) {
        80
    }

    open spec fn decode_spec(b: Seq<u8>, at: int) -> InSockInfo {
        InSockInfo {
            insi_fport: i32_at(b, at),
            insi_lport: i32_at(b, at + 4),
            insi_gencnt: u64_at(b, at + 8),
            insi_flags: u32_at(b, at + 16),
            insi_flow: u32_at(b, at + 20),
            insi_vflag: byte_at(b, at + 24),
            insi_ip_ttl: byte_at(b, at + 25),
            rfu_1: u32_at(b, at + 28),
            insi_faddr: InSIAddr::decode_spec(b, at + 32),
            insi_laddr: InSIAddr::decode_spec(b, at + 48),
            insi_v4: InSIV4::decode_spec(b, at + 64),
            insi_v6: InSIV6::decode_spec(b, at + 68),
        }
    }

    fn decode_at(b: &[u8], at: usize) -> (r: InSockInfo) {
        InSockInfo {
            insi_fport: read_i32(b, at),
            insi_lport: read_i32(b, at + 4),
            insi_gencnt: read_u64(b, at + 8),
            insi_flags: read_u32(b, at + 16),
            insi_flow: read_u32(b, at + 20),
            insi_vflag: read_u8(b, at + 24),
            insi_ip_ttl: read_u8(b, at + 25),
            rfu_1: read_u32(b, at + 28),
            insi_faddr: InSIAddr::decode_at(b, at + 32),
            insi_laddr: InSIAddr::decode_at(b, at + 48),
            insi_v4: InSIV4::decode_at(b, at + 64),
            insi_v6: InSIV6::decode_at(b, at + 68),
        }
    }
}

impl Default for InSockInfo {
    fn default() -> (r: InSockInfo)
        ensures
            reads_as_zero(r),
    {
        let r = InSockInfo {
            insi_fport: 0,
            insi_lport: 0,
            insi_gencnt: 0,
            insi_flags: 0,
            insi_flow: 0,
            insi_vflag: 0,
            insi_ip_ttl: 0,
            rfu_1: 0,
            insi_faddr: InSIAddr::default(),
            insi_laddr: InSIAddr::default(),
            insi_v4: InSIV4::default(),
            insi_v6: InSIV6::default(),
        };
        r
    }
}

/// A TCP socket.
///
/// The record is 120 bytes long.
#[derive(Clone, Copy, Debug)]
pub struct TcpSockInfo {
    pub tcpsi_ini: InSockInfo,
    /// the code of the connection's state
    pub tcpsi_state: i32,
    pub tcpsi_timer: [i32; TSI_T_NTIMERS],
    pub tcpsi_mss: i32,
    pub tcpsi_flags: u32,
    /// reserved
    pub rfu_1: u32,
    pub tcpsi_tp: u64,
}

impl FixedRecord for TcpSockInfo {
    open spec fn size_spec() -> nat {
        120
    }

    fn size() -> (n: usize) {
        120
    }

    open spec fn decode_spec(b: Seq<u8>, at: int) -> TcpSockInfo {
        TcpSockInfo {
            tcpsi_ini: InSockInfo::decode_spec(b, at),
            tcpsi_state: i32_at(b, at + 80),
            tcpsi_timer: [
                i32_at(b, at + 84),
                i32_at(b, at + 88),
                i32_at(b, at + 92),
                i32_at(b, at + 96),
            ],
            tcpsi_mss: i32_at(b, at + 100),
            tcpsi_flags: u32_at(b, at + 104),
            rfu_1: u32_at(b, at + 108),
            tcpsi_tp: u64_at(b, at + 112),
        }
    }

    fn decode_at(b: &[u8], at: usize) -> (r: TcpSockInfo) {
        TcpSockInfo {
            tcpsi_ini: InSockInfo::decode_at(b, at),
            tcpsi_state: read_i32(b, at + 80),
            tcpsi_timer: [
                read_i32(b, at + 84),
                read_i32(b, at + 88),
                read_i32(b, at + 92),
                read_i32(b, at + 96),
            ],
            tcpsi_mss: read_i32(b, at + 100),
            tcpsi_flags: read_u32(b, at + 104),
            rfu_1: read_u32(b, at + 108),
            tcpsi_tp: read_u64(b, at + 112),
        }
    }
}

impl Default for TcpSockInfo {
    fn default() -> (r: TcpSockInfo)
        ensures
            reads_as_zero(r),
    {
        let r = TcpSockInfo {
            tcpsi_ini: InSockInfo::default(),
            tcpsi_state: 0,
            tcpsi_timer: [0i32; TSI_T_NTIMERS],
            tcpsi_mss: 0,
            tcpsi_flags: 0,
            rfu_1: 0,
            tcpsi_tp: 0,
        };
        proof {
            assert forall|b: Seq<u8>, at: int| b.len() <= at implies r
                == #[trigger] TcpSockInfo::decode_spec(b, at) by {
                let d = TcpSockInfo::decode_spec(b, at);
                assert(r.tcpsi_timer =~= d.tcpsi_timer);
            }
        }
        r
    }
}

/// The address of a Unix domain socket, as in the C type `sockaddr_un`.
///
/// The record is 106 bytes long.
#[derive(Clone, Copy, Debug)]
pub struct SockAddrUn {
    pub sun_len: u8,
    pub sun_family: u8,
    pub sun_path: [i8; SUN_PATH_LEN],
}

impl FixedRecord for SockAddrUn {
    open spec fn size_spec() -> nat {
        106
    }

    fn size() -> (n: usize) {
        106
    }

    open spec fn decode_spec(b: Seq<u8>, at: int) -> SockAddrUn {
        SockAddrUn {
            sun_len: byte_at(b, at),
            sun_family: byte_at(b, at + 1),
            sun_path: array_of::<i8, SUN_PATH_LEN>(i8s_at(b, at + 2, SUN_PATH_LEN as nat)),
        }
    }

    fn decode_at(b: &[u8], at: usize) -> (r: SockAddrUn) {
        SockAddrUn {
            sun_len: read_u8(b, at),
            sun_family: read_u8(b, at + 1),
            sun_path: read_i8_array::<SUN_PATH_LEN>(b, at + 2),
        }
    }
}

impl Default for SockAddrUn {
    fn default() -> (r: SockAddrUn)
        ensures
            reads_as_zero(r),
    {
        let r = SockAddrUn {
            sun_len: 0,
            sun_family: 0,
            sun_path: [0i8; SUN_PATH_LEN],
        };
        proof {
            assert forall|b: Seq<u8>, at: int| b.len() <= at implies r
                == #[trigger] SockAddrUn::decode_spec(b, at) by {
                let d = SockAddrUn::decode_spec(b, at);
                lemma_array_of::<i8, SUN_PATH_LEN>(i8s_at(b, at + 2, SUN_PATH_LEN as nat));
                assert(r.sun_path =~= d.sun_path);
            }
        }
        r
    }
}

/// The place of a Unix domain socket address, longer than the address itself.
///
/// The record is 255 bytes long.
#[derive(Clone, Copy, Debug)]
pub struct UnSIAddr {
    pub ua_dummy: [i8; SOCK_MAXADDRLEN],
}

impl FixedRecord for UnSIAddr {
    open spec fn size_spec() -> nat {
        255
    }

    fn size() -> (n: usize) {
        255
    }

    open spec fn decode_spec(b: Seq<u8>, at: int) -> UnSIAddr {
        UnSIAddr {
            ua_dummy: array_of::<i8, SOCK_MAXADDRLEN>(i8s_at(b, at, SOCK_MAXADDRLEN as nat)),
        }
    }

    fn decode_at(b: &[u8], at: usize) -> (r: UnSIAddr) {
        UnSIAddr {
            ua_dummy: read_i8_array::<SOCK_MAXADDRLEN>(b, at),
        }
    }
}

impl Default for UnSIAddr {
    fn default() -> (r: UnSIAddr)
        ensures
            reads_as_zero(r),
    {
        let r = UnSIAddr {
            ua_dummy: [0i8; SOCK_MAXADDRLEN],
        };
        proof {
            assert forall|b: Seq<u8>, at: int| b.len() <= at implies r
                == #[trigger] UnSIAddr::decode_spec(b, at) by {
                let d = UnSIAddr::decode_spec(b, at);
                lemma_array_of::<i8, SOCK_MAXADDRLEN>(i8s_at(b, at, SOCK_MAXADDRLEN as nat));
                assert(r.ua_dummy =~= d.ua_dummy);
            }
        }
        r
    }
}

/// A Unix domain socket.
///
/// The area is 528 bytes long.
#[derive(Clone, Copy, Debug)]
pub struct UnSockInfo {
    pub unsi_conn_so: u64,
    pub unsi_conn_pcb: u64,
    pub unsi_addr: UnSIAddr,
    pub unsi_caddr: UnSIAddr,
}

impl FixedRecord for UnSockInfo {
    open spec fn size_spec() -> nat {
        528
    }

    fn size() -> (n: usize) {
        528
    }

    open spec fn decode_spec(b: Seq<u8>, at: int) -> UnSockInfo {
        UnSockInfo {
            unsi_conn_so: u64_at(b, at),
            unsi_conn_pcb: u64_at(b, at + 8),
            unsi_addr: UnSIAddr::decode_spec(b, at + 16),
            unsi_caddr: UnSIAddr::decode_spec(b, at + 271),
        }
    }

    fn decode_at(b: &[u8], at: usize) -> (r: UnSockInfo) {
        UnSockInfo {
            unsi_conn_so: read_u64(b, at),
            unsi_conn_pcb: read_u64(b, at + 8),
            unsi_addr: UnSIAddr::decode_at(b, at + 16),
            unsi_caddr: UnSIAddr::decode_at(b, at + 271),
        }
    }
}

impl Default for UnSockInfo {
    fn default() -> (r: UnSockInfo)
        ensures
            reads_as_zero(r),
    {
        let r = UnSockInfo {
            unsi_conn_so: 0,
            unsi_conn_pcb: 0,
            unsi_addr: UnSIAddr::default(),
            unsi_caddr: UnSIAddr::default(),
        };
        r
    }
}

/// A raw network driver (PF_NDRV) socket.
///
/// The record is 24 bytes long.
#[derive(Clone, Copy, Debug)]
pub struct NdrvInfo {
    pub ndrvsi_if_family: u32,
    pub ndrvsi_if_unit: u32,
    pub ndrvsi_if_name: [i8; IF_NAMESIZE],
}

impl FixedRecord for NdrvInfo {
    open spec fn size_spec() -> nat {
        24
    }

    fn size() -> (n: usize) {
        24
    }

    open spec fn decode_spec(b: Seq<u8>, at: int) -> NdrvInfo {
        NdrvInfo {
            ndrvsi_if_family: u32_at(b, at),
            ndrvsi_if_unit: u32_at(b, at + 4),
            ndrvsi_if_name: array_of::<i8, IF_NAMESIZE>(i8s_at(b, at + 8, IF_NAMESIZE as nat)),
        }
    }

    fn decode_at(b: &[u8], at: usize) -> (r: NdrvInfo) {
        NdrvInfo {
            ndrvsi_if_family: read_u32(b, at),
            ndrvsi_if_unit: read_u32(b, at + 4),
            ndrvsi_if_name: read_i8_array::<IF_NAMESIZE>(b, at + 8),
        }
    }
}

impl Default for NdrvInfo {
    fn default() -> (r: NdrvInfo)
        ensures
            reads_as_zero(r),
    {
        let r = NdrvInfo {
            ndrvsi_if_family: 0,
            ndrvsi_if_unit: 0,
            ndrvsi_if_name: [0i8; IF_NAMESIZE],
        };
        proof {
            assert forall|b: Seq<u8>, at: int| b.len() <= at implies r
                == #[trigger] NdrvInfo::decode_spec(b, at) by {
                let d = NdrvInfo::decode_spec(b, at);
                lemma_array_of::<i8, IF_NAMESIZE>(i8s_at(b, at + 8, IF_NAMESIZE as nat));
                assert(r.ndrvsi_if_name =~= d.ndrvsi_if_name);
            }
        }
        r
    }
}

/// A kernel event socket.
///
/// The record is 12 bytes long.
#[derive(Clone, Copy, Debug)]
pub struct KernEventInfo {
    pub kesi_vendor_code_filter: u32,
    pub kesi_class_filter: u32,
    pub kesi_subclass_filter: u32,
}

impl FixedRecord for KernEventInfo {
    open spec fn size_spec() -> nat {
        12
    }

    fn size() -> (n: usize) {
        12
    }

    open spec fn decode_spec(b: Seq<u8>, at: int) -> KernEventInfo {
        KernEventInfo {
            kesi_vendor_code_filter: u32_at(b, at),
            kesi_class_filter: u32_at(b, at + 4),
            kesi_subclass_filter: u32_at(b, at + 8),
        }
    }

    fn decode_at(b: &[u8], at: usize) -> (r: KernEventInfo) {
        KernEventInfo {
            kesi_vendor_code_filter: read_u32(b, at),
            kesi_class_filter: read_u32(b, at + 4),
            kesi_subclass_filter: read_u32(b, at + 8),
        }
    }
}

impl Default for KernEventInfo {
    fn default() -> (r: KernEventInfo)
        ensures
            reads_as_zero(r),
    {
        let r = KernEventInfo {
            kesi_vendor_code_filter: 0,
            kesi_class_filter: 0,
            kesi_subclass_filter: 0,
        };
        r
    }
}

/// A kernel control socket.
///
/// The record is 120 bytes long.
#[derive(Clone, Copy, Debug)]
pub struct KernCtlInfo {
    pub kcsi_id: u32,
    pub kcsi_reg_unit: u32,
    pub kcsi_flags: u32,
    pub kcsi_recvbufsize: u32,
    pub kcsi_sendbufsize: u32,
    pub kcsi_unit: u32,
    pub kcsi_name: [i8; MAX_KCTL_NAME],
}

impl FixedRecord for KernCtlInfo {
    open spec fn size_spec() -> nat {
        120
    }

    fn size() -> (n: usize) {
        120
    }

    open spec fn decode_spec(b: Seq<u8>, at: int) -> KernCtlInfo {
        KernCtlInfo {
            kcsi_id: u32_at(b, at),
            kcsi_reg_unit: u32_at(b, at + 4),
            kcsi_flags: u32_at(b, at + 8),
            kcsi_recvbufsize: u32_at(b, at + 12),
            kcsi_sendbufsize: u32_at(b, at + 16),
            kcsi_unit: u32_at(b, at + 20),
            kcsi_name: array_of::<i8, MAX_KCTL_NAME>(i8s_at(b, at + 24, MAX_KCTL_NAME as nat)),
        }
    }

    fn decode_at(b: &[u8], at: usize) -> (r: KernCtlInfo) {
        KernCtlInfo {
            kcsi_id: read_u32(b, at),
            kcsi_reg_unit: read_u32(b, at + 4),
            kcsi_flags: read_u32(b, at + 8),
            kcsi_recvbufsize: read_u32(b, at + 12),
            kcsi_sendbufsize: read_u32(b, at + 16),
            kcsi_unit: read_u32(b, at + 20),
            kcsi_name: read_i8_array::<MAX_KCTL_NAME>(b, at + 24),
        }
    }
}

impl Default for KernCtlInfo {
    fn default() -> (r: KernCtlInfo)
        ensures
            reads_as_zero(r),
    {
        let r = KernCtlInfo {
            kcsi_id: 0,
            kcsi_reg_unit: 0,
            kcsi_flags: 0,
            kcsi_recvbufsize: 0,
            kcsi_sendbufsize: 0,
            kcsi_unit: 0,
            kcsi_name: [0i8; MAX_KCTL_NAME],
        };
        proof {
            assert forall|b: Seq<u8>, at: int| b.len() <= at implies r
                == #[trigger] KernCtlInfo::decode_spec(b, at) by {
                let d = KernCtlInfo::decode_spec(b, at);
                lemma_array_of::<i8, MAX_KCTL_NAME>(i8s_at(b, at + 24, MAX_KCTL_NAME as nat));
                assert(r.kcsi_name =~= d.kcsi_name);
            }
        }
        r
    }
}

/// The area of a socket record that holds its protocol-specific part, as the
/// bytes the kernel wrote. [`SocketInfo::proto`] reads it.
///
/// The area is 528 bytes long.
#[derive(Clone, Copy, Debug)]
pub struct SocketInfoProto {
    bytes: [u8; SOCKET_PROTO_SIZE],
}

impl View for SocketInfoProto {
    type V = Seq<u8>;

    /// The bytes of the area.
    closed spec fn view(&self) -> Seq<u8> {
        self.bytes@
    }
}

impl FixedRecord for SocketInfoProto {
    open spec fn size_spec() -> nat {
        528
    }

    fn size() -> (n: usize) {
        528
    }

    closed spec fn decode_spec(b: Seq<u8>, at: int) -> SocketInfoProto {
        SocketInfoProto {
            bytes: array_of::<u8, SOCKET_PROTO_SIZE>(u8s_at(b, at, SOCKET_PROTO_SIZE as nat)),
        }
    }

    fn decode_at(b: &[u8], at: usize) -> (r: SocketInfoProto) {
        SocketInfoProto { bytes: read_u8_array::<SOCKET_PROTO_SIZE>(b, at) }
    }
}

/// The area read at `at` holds the bytes of the buffer from `at` on.
pub proof fn lemma_proto_bytes(b: Seq<u8>, at: int)
    ensures
        SocketInfoProto::decode_spec(b, at)@ == u8s_at(b, at, SOCKET_PROTO_SIZE as nat),
{
    lemma_array_of::<u8, SOCKET_PROTO_SIZE>(u8s_at(b, at, SOCKET_PROTO_SIZE as nat));
}

impl Default for SocketInfoProto {
    fn default() -> (r: SocketInfoProto)
        ensures
            reads_as_zero(r),
    {
        let r = SocketInfoProto { bytes: [0u8; SOCKET_PROTO_SIZE] };
        proof {
            assert forall|b: Seq<u8>, at: int| b.len() <= at implies r
                == #[trigger] SocketInfoProto::decode_spec(b, at) by {
                let d = SocketInfoProto::decode_spec(b, at);
                lemma_array_of::<u8, SOCKET_PROTO_SIZE>(u8s_at(b, at, SOCKET_PROTO_SIZE as nat));
                assert(r.bytes =~= d.bytes);
            }
        }
        r
    }
}

/// A socket: what all sockets have, the code of the kind of socket it is, and
/// the part that only sockets of that kind have.
///
/// The record is 768 bytes long.
#[derive(Clone, Copy, Debug)]
pub struct SocketInfo {
    pub soi_stat: VInfoStat,
    pub soi_so: u64,
    pub soi_pcb: u64,
    pub soi_type: i32,
    pub soi_protocol: i32,
    pub soi_family: i32,
    pub soi_options: i16,
    pub soi_linger: i16,
    pub soi_state: i16,
    pub soi_qlen: i16,
    pub soi_incqlen: i16,
    pub soi_qlimit: i16,
    pub soi_timeo: i16,
    pub soi_error: u16,
    pub soi_oobmark: u32,
    pub soi_rcv: SockBufInfo,
    pub soi_snd: SockBufInfo,
    /// the code that says which protocol-specific part `soi_proto` holds
    pub soi_kind: i32,
    /// reserved
    pub rfu_1: u32,
    pub soi_proto: SocketInfoProto,
}

impl FixedRecord for SocketInfo {
    open spec fn size_spec() -> nat {
        768
    }

    fn size() -> (n: usize) {
        768
    }

    open spec fn decode_spec(b: Seq<u8>, at: int) -> SocketInfo {
        SocketInfo {
            soi_stat: VInfoStat::decode_spec(b, at),
            soi_so: u64_at(b, at + 136),
            soi_pcb: u64_at(b, at + 144),
            soi_type: i32_at(b, at + 152),
            soi_protocol: i32_at(b, at + 156),
            soi_family: i32_at(b, at + 160),
            soi_options: i16_at(b, at + 164),
            soi_linger: i16_at(b, at + 166),
            soi_state: i16_at(b, at + 168),
            soi_qlen: i16_at(b, at + 170),
            soi_incqlen: i16_at(b, at + 172),
            soi_qlimit: i16_at(b, at + 174),
            soi_timeo: i16_at(b, at + 176),
            soi_error: u16_at(b, at + 178),
            soi_oobmark: u32_at(b, at + 180),
            soi_rcv: SockBufInfo::decode_spec(b, at + 184),
            soi_snd: SockBufInfo::decode_spec(b, at + 208),
            soi_kind: i32_at(b, at + 232),
            rfu_1: u32_at(b, at + 236),
            soi_proto: SocketInfoProto::decode_spec(b, at + 240),
        }
    }

    #[verifier::rlimit(30)]
    fn decode_at(b: &[u8], at: usize) -> (r: SocketInfo) {
        SocketInfo {
            soi_stat: VInfoStat::decode_at(b, at),
            soi_so: read_u64(b, at + 136),
            soi_pcb: read_u64(b, at + 144),
            soi_type: read_i32(b, at + 152),
            soi_protocol: read_i32(b, at + 156),
            soi_family: read_i32(b, at + 160),
            soi_options: read_i16(b, at + 164),
            soi_linger: read_i16(b, at + 166),
            soi_state: read_i16(b, at + 168),
            soi_qlen: read_i16(b, at + 170),
            soi_incqlen: read_i16(b, at + 172),
            soi_qlimit: read_i16(b, at + 174),
            soi_timeo: read_i16(b, at + 176),
            soi_error: read_u16(b, at + 178),
            soi_oobmark: read_u32(b, at + 180),
            soi_rcv: SockBufInfo::decode_at(b, at + 184),
            soi_snd: SockBufInfo::decode_at(b, at + 208),
            soi_kind: read_i32(b, at + 232),
            rfu_1: read_u32(b, at + 236),
            soi_proto: SocketInfoProto::decode_at(b, at + 240),
        }
    }
}

impl Default for SocketInfo {
    fn default() -> (r: SocketInfo)
        ensures
            reads_as_zero(r),
    {
        let r = SocketInfo {
            soi_stat: VInfoStat::default(),
            soi_so: 0,
            soi_pcb: 0,
            soi_type: 0,
            soi_protocol: 0,
            soi_family: 0,
            soi_options: 0,
            soi_linger: 0,
            soi_state: 0,
            soi_qlen: 0,
            soi_incqlen: 0,
            soi_qlimit: 0,
            soi_timeo: 0,
            soi_error: 0,
            soi_oobmark: 0,
            soi_rcv: SockBufInfo::default(),
            soi_snd: SockBufInfo::default(),
            soi_kind: 0,
            rfu_1: 0,
            soi_proto: SocketInfoProto::default(),
        };
        r
    }
}

/// What a per-descriptor query returns for a socket.
///
/// The record is 792 bytes long.
#[derive(Clone, Copy, Debug)]
pub struct SocketFDInfo {
    pub pfi: ProcFileInfo,
    pub psi: SocketInfo,
}

impl FixedRecord for SocketFDInfo {
    open spec fn size_spec() -> nat {
        792
    }

    fn size() -> (n: usize) {
        792
    }

    open spec fn decode_spec(b: Seq<u8>, at: int) -> SocketFDInfo {
        SocketFDInfo {
            pfi: ProcFileInfo::decode_spec(b, at),
            psi: SocketInfo::decode_spec(b, at + 24),
        }
    }

    fn decode_at(b: &[u8], at: usize) -> (r: SocketFDInfo) {
        SocketFDInfo {
            pfi: ProcFileInfo::decode_at(b, at),
            psi: SocketInfo::decode_at(b, at + 24),
        }
    }
}

impl Default for SocketFDInfo {
    fn default() -> (r: SocketFDInfo)
        ensures
            reads_as_zero(r),
    {
        let r = SocketFDInfo {
            pfi: ProcFileInfo::default(),
            psi: SocketInfo::default(),
        };
        r
    }
}

/// The protocol-specific part of a socket record.
#[derive(Clone, Copy, Debug)]
pub enum SocketProtoInfo {
    /// A socket with no protocol-specific part.
    Generic,
    In(InSockInfo),
    Tcp(TcpSockInfo),
    Un(UnSockInfo),
    Ndrv(NdrvInfo),
    KernEvent(KernEventInfo),
    KernCtl(KernCtlInfo),
    /// A socket of a kind that the protocol does not define.
    Unknown,
}

impl SocketInfo {
    /// The protocol-specific part: the area read as the part that `soi_kind`
    /// names, and as no other.
    pub open spec fn proto_spec(&self) -> SocketProtoInfo {
        match SocketInfoKind::of_code(self.soi_kind) {
            SocketInfoKind::Generic => SocketProtoInfo::Generic,
            SocketInfoKind::In => SocketProtoInfo::In(InSockInfo::decode_spec(self.soi_proto@, 0)),
            SocketInfoKind::Tcp => SocketProtoInfo::Tcp(
                TcpSockInfo::decode_spec(self.soi_proto@, 0),
            ),
            SocketInfoKind::Un => SocketProtoInfo::Un(UnSockInfo::decode_spec(self.soi_proto@, 0)),
            SocketInfoKind::Ndrv => SocketProtoInfo::Ndrv(
                NdrvInfo::decode_spec(self.soi_proto@, 0),
            ),
            SocketInfoKind::KernEvent => SocketProtoInfo::KernEvent(
                KernEventInfo::decode_spec(self.soi_proto@, 0),
            ),
            SocketInfoKind::KernCtl => SocketProtoInfo::KernCtl(
                KernCtlInfo::decode_spec(self.soi_proto@, 0),
            ),
            SocketInfoKind::Unknown => SocketProtoInfo::Unknown,
        }
    }

    /// Which protocol-specific part the record holds.
    pub fn kind(&self) -> (k: SocketInfoKind)
        ensures
            k == SocketInfoKind::of_code(self.soi_kind),
    {
        SocketInfoKind::from(self.soi_kind)
    }

    /// Reads the protocol-specific part that `soi_kind` names.
    pub fn proto(&self) -> (p: SocketProtoInfo)
        ensures
            p == self.proto_spec(),
    {
        let area = array_as_slice(&self.soi_proto.bytes);
        match SocketInfoKind::from(self.soi_kind) {
            SocketInfoKind::Generic => SocketProtoInfo::Generic,
            SocketInfoKind::In => SocketProtoInfo::In(InSockInfo::decode_at(area, 0)),
            SocketInfoKind::Tcp => SocketProtoInfo::Tcp(TcpSockInfo::decode_at(area, 0)),
            SocketInfoKind::Un => SocketProtoInfo::Un(UnSockInfo::decode_at(area, 0)),
            SocketInfoKind::Ndrv => SocketProtoInfo::Ndrv(NdrvInfo::decode_at(area, 0)),
            SocketInfoKind::KernEvent => SocketProtoInfo::KernEvent(
                KernEventInfo::decode_at(area, 0),
            ),
            SocketInfoKind::KernCtl => SocketProtoInfo::KernCtl(KernCtlInfo::decode_at(area, 0)),
            SocketInfoKind::Unknown => SocketProtoInfo::Unknown,
        }
    }

    /// The TCP part of the record, if it is the record of a TCP socket, and
    /// `None` for every other kind of socket.
    pub fn as_tcp(&self) -> (r: Option<TcpSockInfo>)
        ensures
            r is Some <==> SocketInfoKind::of_code(self.soi_kind) == SocketInfoKind::Tcp,
            r is Some ==> r == Some(TcpSockInfo::decode_spec(self.soi_proto@, 0)),
    {
        match SocketInfoKind::from(self.soi_kind) {
            SocketInfoKind::Tcp => Some(
                TcpSockInfo::decode_at(array_as_slice(&self.soi_proto.bytes), 0),
            ),
            _ => None,
        }
    }
}

impl TcpSockInfo {
    /// The state of the connection.
    pub fn state(&self) -> (s: TcpSIState)
        ensures
            s == TcpSIState::of_code(self.tcpsi_state),
    {
        TcpSIState::from(self.tcpsi_state)
    }
}

impl InSIAddr {
    /// The sixteen bytes read as an IPv4 address in the place of an IPv6
    /// address.
    pub open spec fn ina_46_spec(&self) -> In4In6Addr {
        In4In6Addr::decode_spec(self.ina_6.s6_addr@, 0)
    }

    /// Reads the sixteen bytes as an IPv4 address in the place of an IPv6
    /// address.
    pub fn ina_46(&self) -> (r: In4In6Addr)
        ensures
            r == self.ina_46_spec(),
    {
        In4In6Addr::decode_at(array_as_slice(&self.ina_6.s6_addr), 0)
    }
}

/// The byte that the signed byte `c` is in two's complement.
pub open spec fn byte_of(c: i8) -> u8 {
    if c >= 0 {
        c as u8
    } else {
        (c + 0x100) as u8
    }
}

fn to_byte(c: i8) -> (r: u8)
    ensures
        r == byte_of(c),
{
    if c >= 0 {
        c as u8
    } else {
        (c - i8::MIN) as u8 + 0x80
    }
}

impl UnSIAddr {
    /// The Unix domain socket address at the start of the place.
    pub open spec fn ua_sun_spec(&self) -> SockAddrUn {
        SockAddrUn {
            sun_len: byte_of(self.ua_dummy[0]),
            sun_family: byte_of(self.ua_dummy[1]),
            sun_path: array_of::<i8, SUN_PATH_LEN>(
                self.ua_dummy@.subrange(2, 2 + SUN_PATH_LEN as int),
            ),
        }
    }

    /// Reads the Unix domain socket address at the start of the place.
    pub fn ua_sun(&self) -> (r: SockAddrUn)
        ensures
            r == self.ua_sun_spec(),
    {
        let mut path: [i8; SUN_PATH_LEN] = [0i8; SUN_PATH_LEN];
        let mut k: usize = 0;
        while k < SUN_PATH_LEN
            invariant
                k <= SUN_PATH_LEN,
                forall|j: int| 0 <= j < k ==> path@[j] == self.ua_dummy@[2 + j],
            decreases SUN_PATH_LEN - k,
        {
            path[k] = self.ua_dummy[k + 2];
            k = k + 1;
        }
        proof {
            assert(path@ =~= self.ua_dummy@.subrange(2, 2 + SUN_PATH_LEN as int));
            lemma_array_of_view::<i8, SUN_PATH_LEN>(path);
        }
        SockAddrUn {
            sun_len: to_byte(self.ua_dummy[0]),
            sun_family: to_byte(self.ua_dummy[1]),
            sun_path: path,
        }
    }
}

impl PIDFDInfo for SocketFDInfo {
    open spec fn flavor_spec() -> PidFDInfoFlavor {
        PidFDInfoFlavor::SocketInfo
    }

    fn flavor() -> (f: PidFDInfoFlavor) {
        PidFDInfoFlavor::SocketInfo
    }
}

} // verus!
