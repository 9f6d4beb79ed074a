use libproc::error::ProcError;
use libproc::flavor::{SocketInfoKind, TcpSIState};
use libproc::inet::{addr_to_host, port_to_host, InEndpoint};
use libproc::proc_pid::{pidfdinfo, Answer};
use libproc::record::{decode, FixedRecord};
use libproc::socket::{
    In4In6Addr, InSIAddr, InSockInfo, KernCtlInfo, SocketFDInfo, SocketInfo, SocketInfoProto,
    SocketProtoInfo, TcpSockInfo, UnSIAddr, UnSockInfo, VInfoStat,
};

/// Where the socket record starts in the record of a socket descriptor.
const PSI: usize = 24;
/// Where the protocol-specific part starts in the record of a socket descriptor.
const PROTO: usize = 24 + 240;

fn put(buffer: &mut [u8], at: usize, bytes: &[u8]) {
    buffer[at..at + bytes.len()].copy_from_slice(bytes);
}

fn counting(len: usize) -> Vec<u8> {
    (0..len).map(|i| i as u8).collect()
}

fn le(start: u64, width: u64) -> u64 {
    (0..width).map(|k| ((start + k) % 256) << (8 * k)).sum()
}

/// The record of a socket descriptor of the given kind, all else zero.
fn socket_of_kind(kind: i32) -> Vec<u8> {
    let mut b = vec![0u8; 792];
    put(&mut b, PSI + 232, &kind.to_le_bytes());
    b
}

/// The record of a TCP socket bound to `addr` and `port`, as the kernel
/// writes it: port and address in network byte order.
fn tcp_socket(port: u16, addr: [u8; 4]) -> Vec<u8> {
    let mut b = socket_of_kind(2);
    put(&mut b, PROTO + 4, &port.to_be_bytes());
    put(&mut b, PROTO + 48 + 12, &addr);
    b
}

fn read(buffer: Vec<u8>) -> SocketFDInfo {
    let ret = buffer.len() as i32;
    pidfdinfo::<SocketFDInfo>(&Answer { ret, errno: 0, buffer }).unwrap()
}

#[test]
fn tcp_socket_round_trip() {
    // port 8080 is 0x1F90: the kernel writes 0x1F, then 0x90
    let b = tcp_socket(8080, [127, 0, 0, 1]);
    assert_eq!(&b[PROTO + 4..PROTO + 8], &[0x1f, 0x90, 0, 0]);
    let socket = read(b);
    assert_eq!(socket.psi.kind(), SocketInfoKind::Tcp);
    let tcp = socket.psi.as_tcp().unwrap();
    assert_eq!(tcp.tcpsi_ini.insi_lport, 0x901f);
    assert_eq!(tcp.tcpsi_ini.insi_laddr.ina_46().i46a_addr4.s_addr, 0x0100_007f);
    let local = tcp.tcpsi_ini.local_endpoint();
    assert_eq!(local.port, 8080);
    assert_eq!(local.addr, 0x7f00_0001);
    assert_eq!(local.octets(), [127, 0, 0, 1]);
    assert_eq!(local.addr_string(), "127.0.0.1");
    assert_eq!(local.to_string(), "127.0.0.1:8080");
    assert_eq!(socket.psi.tcp_local_endpoint(), Some(InEndpoint { addr: 0x7f00_0001, port: 8080 }));
}

#[test]
fn a_socket_that_is_not_tcp_has_no_tcp_part() {
    for kind in [0, 1, 3, 4, 5, 6, 7, 8, -1, -2, 258, i32::MAX, i32::MIN] {
        // the bytes are those of a TCP socket; only the kind differs
        let mut b = tcp_socket(8080, [127, 0, 0, 1]);
        put(&mut b, PSI + 232, &kind.to_le_bytes());
        let socket = read(b);
        assert_eq!(socket.psi.soi_kind, kind);
        assert_eq!(socket.psi.as_tcp().is_none(), true);
        assert_eq!(socket.psi.tcp_local_endpoint(), None);
        assert_eq!(matches!(socket.psi.proto(), SocketProtoInfo::Tcp(_)), false);
    }
    let socket = read(tcp_socket(8080, [127, 0, 0, 1]));
    assert_eq!(socket.psi.as_tcp().is_some(), true);
    assert_eq!(matches!(socket.psi.proto(), SocketProtoInfo::Tcp(_)), true);
}

#[test]
fn the_part_read_is_the_one_the_kind_names() {
    let mut b = counting(792);
    let part = |b: &mut Vec<u8>, kind: i32| {
        put(b, PSI + 232, &kind.to_le_bytes());
        read(b.clone()).psi.proto()
    };
    // the area starts at place 264, which the buffer holds as 8
    assert!(matches!(part(&mut b, 0), SocketProtoInfo::Generic));
    match part(&mut b, 1) {
        SocketProtoInfo::In(p) => {
            assert_eq!(p.insi_fport as u32 as u64, le(8, 4));
            assert_eq!(p.insi_v6.in6_hops as u16 as u64, le(8 + 78, 2));
        }
        _ => assert!(false, "not an internet socket"),
    }
    match part(&mut b, 2) {
        SocketProtoInfo::Tcp(p) => {
            assert_eq!(p.tcpsi_ini.insi_lport as u32 as u64, le(12, 4));
            assert_eq!(p.tcpsi_state as u32 as u64, le(8 + 80, 4));
            assert_eq!(p.tcpsi_tp, le(8 + 112, 8));
        }
        _ => assert!(false, "not a TCP socket"),
    }
    match part(&mut b, 3) {
        SocketProtoInfo::Un(p) => {
            assert_eq!(p.unsi_conn_so, le(8, 8));
            assert_eq!(p.unsi_addr.ua_dummy[0], 24);
            assert_eq!(p.unsi_caddr.ua_dummy[0], 23);
            assert_eq!(p.unsi_caddr.ua_dummy[254], 21);
        }
        _ => assert!(false, "not a Unix domain socket"),
    }
    match part(&mut b, 4) {
        SocketProtoInfo::Ndrv(p) => {
            assert_eq!(p.ndrvsi_if_family as u64, le(8, 4));
            assert_eq!(p.ndrvsi_if_unit as u64, le(12, 4));
            assert_eq!(p.ndrvsi_if_name.to_vec(), (16..32).collect::<Vec<i8>>());
        }
        _ => assert!(false, "not a network driver socket"),
    }
    match part(&mut b, 5) {
        SocketProtoInfo::KernEvent(p) => {
            assert_eq!(p.kesi_vendor_code_filter as u64, le(8, 4));
            assert_eq!(p.kesi_class_filter as u64, le(12, 4));
            assert_eq!(p.kesi_subclass_filter as u64, le(16, 4));
        }
        _ => assert!(false, "not a kernel event socket"),
    }
    match part(&mut b, 6) {
        SocketProtoInfo::KernCtl(p) => {
            assert_eq!(p.kcsi_id as u64, le(8, 4));
            assert_eq!(p.kcsi_unit as u64, le(28, 4));
            assert_eq!(p.kcsi_name.to_vec(), (32..128).map(|c| c as u8 as i8).collect::<Vec<i8>>());
        }
        _ => assert!(false, "not a kernel control socket"),
    }
    assert!(matches!(part(&mut b, 7), SocketProtoInfo::Unknown));
    assert!(matches!(part(&mut b, -1), SocketProtoInfo::Unknown));
}

#[test]
fn socket_record_layout() {
    let r: SocketFDInfo = decode(&counting(792));
    assert_eq!(r.pfi.fi_openflags as u64, le(0, 4));
    assert_eq!(r.pfi.fi_status as u64, le(4, 4));
    assert_eq!(r.pfi.fi_offset as u64, le(8, 8));
    assert_eq!(r.pfi.fi_type as u64, le(16, 4));
    assert_eq!(r.pfi.rfu_1 as u64, le(20, 4));
    let s = r.psi;
    assert_eq!(s.soi_stat.vst_dev as u64, le(24, 4));
    assert_eq!(s.soi_stat.vst_mode as u64, le(28, 2));
    assert_eq!(s.soi_stat.vst_nlink as u64, le(30, 2));
    assert_eq!(s.soi_stat.vst_ino, le(32, 8));
    assert_eq!(s.soi_stat.vst_uid as u64, le(40, 4));
    assert_eq!(s.soi_stat.vst_gid as u64, le(44, 4));
    assert_eq!(s.soi_stat.vst_atime as u64, le(48, 8));
    assert_eq!(s.soi_stat.vst_birthtimensec as u64, le(24 + 80, 8));
    assert_eq!(s.soi_stat.vst_size as u64, le(24 + 88, 8));
    assert_eq!(s.soi_stat.vst_blocks as u64, le(24 + 96, 8));
    assert_eq!(s.soi_stat.vst_blksize as u32 as u64, le(24 + 104, 4));
    assert_eq!(s.soi_stat.vst_rdev as u64, le(24 + 116, 4));
    assert_eq!(s.soi_stat.vst_qspare[1] as u64, le(24 + 128, 8));
    assert_eq!(s.soi_so, le(24 + 136, 8));
    assert_eq!(s.soi_pcb, le(24 + 144, 8));
    assert_eq!(s.soi_type as u32 as u64, le(24 + 152, 4));
    assert_eq!(s.soi_protocol as u32 as u64, le(24 + 156, 4));
    assert_eq!(s.soi_family as u32 as u64, le(24 + 160, 4));
    assert_eq!(s.soi_options as u16 as u64, le(24 + 164, 2));
    assert_eq!(s.soi_linger as u16 as u64, le(24 + 166, 2));
    assert_eq!(s.soi_state as u16 as u64, le(24 + 168, 2));
    assert_eq!(s.soi_qlen as u16 as u64, le(24 + 170, 2));
    assert_eq!(s.soi_incqlen as u16 as u64, le(24 + 172, 2));
    assert_eq!(s.soi_qlimit as u16 as u64, le(24 + 174, 2));
    assert_eq!(s.soi_timeo as u16 as u64, le(24 + 176, 2));
    assert_eq!(s.soi_error as u64, le(24 + 178, 2));
    assert_eq!(s.soi_oobmark as u64, le(24 + 180, 4));
    assert_eq!(s.soi_rcv.sbi_cc as u64, le(24 + 184, 4));
    assert_eq!(s.soi_rcv.sbi_flags as u16 as u64, le(24 + 204, 2));
    assert_eq!(s.soi_rcv.sbi_timeo as u16 as u64, le(24 + 206, 2));
    assert_eq!(s.soi_snd.sbi_cc as u64, le(24 + 208, 4));
    assert_eq!(s.soi_snd.sbi_lowat as u64, le(24 + 224, 4));
    assert_eq!(s.soi_kind as u32 as u64, le(24 + 232, 4));
    assert_eq!(s.rfu_1 as u64, le(24 + 236, 4));
    let stat = VInfoStat::decode_at(&counting(792), 24);
    assert_eq!(stat.vst_ino, s.soi_stat.vst_ino);
}

#[test]
fn internet_socket_layout() {
    let p = InSockInfo::decode_at(&counting(80), 0);
    assert_eq!(p.insi_fport as u64, le(0, 4));
    assert_eq!(p.insi_lport as u64, le(4, 4));
    assert_eq!(p.insi_gencnt, le(8, 8));
    assert_eq!(p.insi_flags as u64, le(16, 4));
    assert_eq!(p.insi_flow as u64, le(20, 4));
    assert_eq!(p.insi_vflag, 24);
    assert_eq!(p.insi_ip_ttl, 25);
    assert_eq!(p.rfu_1 as u64, le(28, 4));
    assert_eq!(p.insi_faddr.ina_6.s6_addr.to_vec(), (32..48).collect::<Vec<u8>>());
    assert_eq!(p.insi_laddr.ina_6.s6_addr.to_vec(), (48..64).collect::<Vec<u8>>());
    assert_eq!(p.insi_v4.in4_top, 64);
    assert_eq!(p.insi_v6.in6_hlim, 68);
    assert_eq!(p.insi_v6.in6_cksum as u64, le(72, 4));
    assert_eq!(p.insi_v6.in6_ifindex as u64, le(76, 2));
    assert_eq!(p.insi_v6.in6_hops as u64, le(78, 2));
    let t = TcpSockInfo::decode_at(&counting(120), 0);
    assert_eq!(t.tcpsi_ini.insi_flow, p.insi_flow);
    assert_eq!(t.tcpsi_state as u64, le(80, 4));
    assert_eq!(
        t.tcpsi_timer.to_vec(),
        vec![le(84, 4) as i32, le(88, 4) as i32, le(92, 4) as i32, le(96, 4) as i32]
    );
    assert_eq!(t.tcpsi_mss as u64, le(100, 4));
    assert_eq!(t.tcpsi_flags as u64, le(104, 4));
    assert_eq!(t.rfu_1 as u64, le(108, 4));
    assert_eq!(t.tcpsi_tp, le(112, 8));
}

#[test]
fn an_address_has_two_readings() {
    let a = InSIAddr::decode_at(&counting(32), 16);
    assert_eq!(a.ina_6.s6_addr.to_vec(), (16..32).collect::<Vec<u8>>());
    let v4: In4In6Addr = a.ina_46();
    assert_eq!(v4.i46a_pad32, [0x1312_1110, 0x1716_1514, 0x1b1a_1918]);
    assert_eq!(v4.i46a_addr4.s_addr, 0x1f1e_1d1c);
    let direct = In4In6Addr::decode_at(&counting(32), 16);
    assert_eq!(direct.i46a_addr4.s_addr, v4.i46a_addr4.s_addr);
}

#[test]
fn unix_socket_address() {
    let mut b = vec![0u8; 528];
    put(&mut b, 0, &0x1122_3344_5566_7788u64.to_le_bytes());
    put(&mut b, 8, &0x99u64.to_le_bytes());
    // length 0x6a, family 1 (AF_UNIX), then the path
    put(&mut b, 16, &[0x6a, 1]);
    put(&mut b, 18, b"/var/run/syslog");
    put(&mut b, 271, &[0xff, 0x80]);
    put(&mut b, 273 + 103, &[0xfe]);
    put(&mut b, 273 + 104, &[0x55]);
    let u = UnSockInfo::decode_at(&b, 0);
    assert_eq!(u.unsi_conn_so, 0x1122_3344_5566_7788);
    assert_eq!(u.unsi_conn_pcb, 0x99);
    let sun = u.unsi_addr.ua_sun();
    assert_eq!((sun.sun_len, sun.sun_family), (0x6a, 1));
    let path: Vec<u8> = sun.sun_path.iter().take_while(|c| **c != 0).map(|c| *c as u8).collect();
    assert_eq!(path, b"/var/run/syslog".to_vec());
    assert_eq!(sun.sun_path[15], 0);
    let peer = u.unsi_caddr.ua_sun();
    assert_eq!((peer.sun_len, peer.sun_family), (0xff, 0x80));
    assert_eq!(peer.sun_path[0], 0);
    assert_eq!(peer.sun_path[103], -2);
    assert_eq!(u.unsi_caddr.ua_dummy[106], 0x55);
    let place = UnSIAddr::decode_at(&b, 271);
    assert_eq!((place.ua_dummy[0], place.ua_dummy[1]), (-1, -128));
}

#[test]
fn tcp_state_of_a_socket() {
    let mut b = tcp_socket(22, [10, 0, 0, 5]);
    put(&mut b, PROTO + 80, &4i32.to_le_bytes());
    let tcp = read(b).psi.as_tcp().unwrap();
    assert_eq!(tcp.tcpsi_state, 4);
    assert_eq!(tcp.state(), TcpSIState::Established);
    let mut b = tcp_socket(22, [10, 0, 0, 5]);
    put(&mut b, PROTO + 80, &12i32.to_le_bytes());
    assert_eq!(read(b).psi.as_tcp().unwrap().state(), TcpSIState::Unknown);
}

#[test]
fn ports_are_in_network_byte_order() {
    assert_eq!(port_to_host(0x901f), 8080);
    assert_eq!(port_to_host(0xffff), 65535);
    assert_eq!(port_to_host(0), 0);
    assert_eq!(port_to_host(0x0100), 1);
    assert_eq!(port_to_host(0x0001), 256);
    assert_eq!(port_to_host(0x5000), 80);
    // only the two low bytes of the field count
    assert_eq!(port_to_host(0x7fff_901f), 8080);
    assert_eq!(port_to_host(-1), 65535);
    assert_eq!(port_to_host(i32::MIN), 0);
    assert_eq!(port_to_host(i32::MIN + 0x1600), 22);
    assert_eq!(port_to_host(-0x10000 + 0xbb01), 443);
}

#[test]
fn addresses_are_in_network_byte_order() {
    assert_eq!(addr_to_host(0x0100_007f), 0x7f00_0001);
    assert_eq!(addr_to_host(0), 0);
    assert_eq!(addr_to_host(u32::MAX), u32::MAX);
    assert_eq!(addr_to_host(0x0403_0201), 0x0102_0304);
    assert_eq!(addr_to_host(0xff00_0000), 0x0000_00ff);
    assert_eq!(addr_to_host(addr_to_host(0xdead_beef)), 0xdead_beef);
}

#[test]
fn endpoints_as_text() {
    let text = |addr: u32, port: u16| InEndpoint { addr, port }.to_string();
    assert_eq!(text(0, 0), "0.0.0.0:0");
    assert_eq!(text(u32::MAX, u16::MAX), "255.255.255.255:65535");
    assert_eq!(text(0x0a14_1e28, 80), "10.20.30.40:80");
    assert_eq!(text(0xc0a8_0164, 10000), "192.168.1.100:10000");
    assert_eq!(text(0x0100_0009, 9), "1.0.0.9:9");
    assert_eq!(InEndpoint { addr: 0x6409_000a, port: 1 }.addr_string(), "100.9.0.10");
    assert_eq!(InEndpoint { addr: 0x6409_000a, port: 1 }.octets(), [100, 9, 0, 10]);
}

#[test]
fn both_ends_of_a_connection() {
    let mut b = tcp_socket(65535, [192, 168, 1, 2]);
    put(&mut b, PROTO, &443u16.to_be_bytes());
    put(&mut b, PROTO + 32 + 12, &[93, 184, 216, 34]);
    let ini = read(b).psi.as_tcp().unwrap().tcpsi_ini;
    assert_eq!(ini.local_endpoint().to_string(), "192.168.1.2:65535");
    assert_eq!(ini.foreign_endpoint().to_string(), "93.184.216.34:443");
    assert_eq!(ini.insi_lport as u32, 65535);
}

#[test]
fn a_short_answer_reads_as_zero_from_where_it_ends() {
    // the kernel wrote the record up to and with the kind
    let mut buffer = socket_of_kind(2);
    buffer.truncate(PSI + 236);
    let ret = buffer.len() as i32;
    let socket = pidfdinfo::<SocketFDInfo>(&Answer { ret, errno: 0, buffer }).unwrap();
    let tcp = socket.psi.as_tcp().unwrap();
    assert_eq!((tcp.tcpsi_ini.insi_lport, tcp.tcpsi_state, tcp.tcpsi_tp), (0, 0, 0));
    assert_eq!(socket.psi.tcp_local_endpoint().unwrap().to_string(), "0.0.0.0:0");
    let d = SocketFDInfo::default();
    assert_eq!((d.pfi.fi_type, d.psi.soi_kind, d.psi.soi_so), (0, 0, 0));
    assert_eq!(d.psi.kind(), SocketInfoKind::Generic);
    assert_eq!(d.psi.as_tcp().is_none(), true);
    let d = SocketInfo::default();
    assert!(matches!(d.proto(), SocketProtoInfo::Generic));
    let d = KernCtlInfo::default();
    assert_eq!((d.kcsi_id, d.kcsi_unit, d.kcsi_name), (0, 0, [0i8; 96]));
    let d = In4In6Addr::default();
    assert_eq!((d.i46a_pad32, d.i46a_addr4.s_addr), ([0; 3], 0));
    assert_eq!(InSIAddr::default().ina_6.s6_addr, [0u8; 16]);
    assert_eq!(UnSIAddr::default().ua_dummy, [0i8; 255]);
    assert_eq!(SocketInfoProto::size(), 528);
    assert_eq!(TcpSockInfo::default().tcpsi_timer, [0; 4]);
}

#[test]
fn a_failed_descriptor_query_gives_no_record() {
    let answer = Answer { ret: 0, errno: 9, buffer: tcp_socket(80, [1, 2, 3, 4]) };
    assert_eq!(pidfdinfo::<SocketFDInfo>(&answer).err(), Some(ProcError::Os(9)));
}
