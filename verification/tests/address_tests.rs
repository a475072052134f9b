use nmsg::address::{
    extract_path, nng_sockaddr, nng_sockaddr_path, InetAddr, SocketAddr, NNG_AF_INET,
    NNG_AF_INET6, NNG_AF_INPROC, NNG_AF_IPC, NNG_AF_UNSPEC, NNG_AF_ZT, NNG_MAXADDRLEN,
    SOCKADDR_SIZE,
};
use nmsg::error::{Error, NNG_EINVAL};

fn record(family: u16) -> Vec<u8> {
    let mut bytes = vec![0u8; SOCKADDR_SIZE];
    bytes[0] = (family & 0xff) as u8;
    bytes[1] = (family >> 8) as u8;
    bytes
}

fn decode(bytes: &[u8]) -> SocketAddr {
    SocketAddr::from(nng_sockaddr::from_bytes(bytes).unwrap())
}

#[test]
fn record_has_a_fixed_size() {
    assert_eq!(SOCKADDR_SIZE, 136);
    assert_eq!(NNG_MAXADDRLEN, 128);
    assert!(nng_sockaddr::from_bytes(&vec![0u8; 136]).is_ok());
    assert_eq!(nng_sockaddr::unspecified().as_bytes(), &vec![0u8; 136][..]);
}

#[test]
fn record_of_another_size_is_invalid() {
    for len in [0usize, 1, 130, 135, 137, 272] {
        match nng_sockaddr::from_bytes(&vec![0u8; len]) {
            Err(e) => assert_eq!(e, Error::Nng(NNG_EINVAL)),
            Ok(_) => panic!("a record of {} bytes was accepted", len),
        }
    }
}

#[test]
fn record_keeps_its_bytes() {
    let mut bytes = record(NNG_AF_INET);
    bytes[100] = 77;
    let rec = nng_sockaddr::from_bytes(&bytes).unwrap();
    assert_eq!(rec.as_bytes(), &bytes[..]);
    assert_eq!(rec.clone().as_bytes(), &bytes[..]);
    assert_eq!(rec.s_family(), NNG_AF_INET);
}

#[test]
fn family_is_read_least_significant_byte_first() {
    let mut bytes = record(0);
    bytes[0] = 0x34;
    bytes[1] = 0x12;
    assert_eq!(nng_sockaddr::from_bytes(&bytes).unwrap().s_family(), 0x1234);
}

#[test]
fn inproc_address_ends_at_the_first_nul() {
    let mut bytes = record(NNG_AF_INPROC);
    bytes[2..6].copy_from_slice(b"test");
    bytes[7] = b'x';
    match decode(&bytes) {
        SocketAddr::InProc(path) => assert_eq!(path, b"test"),
        _ => panic!("not an in-process address"),
    }
}

#[test]
fn ipc_address_holds_the_path() {
    let mut bytes = record(NNG_AF_IPC);
    bytes[2..11].copy_from_slice(b"/tmp/sock");
    match decode(&bytes) {
        SocketAddr::Ipc(path) => assert_eq!(path, b"/tmp/sock"),
        _ => panic!("not an IPC address"),
    }
}

#[test]
fn path_without_nul_is_taken_whole() {
    let mut bytes = record(NNG_AF_IPC);
    for i in 2..130 {
        bytes[i] = b'a';
    }
    match decode(&bytes) {
        SocketAddr::Ipc(path) => assert_eq!(path, vec![b'a'; 128]),
        _ => panic!("not an IPC address"),
    }
}

#[test]
fn empty_path_is_empty() {
    match decode(&record(NNG_AF_INPROC)) {
        SocketAddr::InProc(path) => assert!(path.is_empty()),
        _ => panic!("not an in-process address"),
    }
}

#[test]
fn inet_address_holds_host_and_port() {
    let mut bytes = record(NNG_AF_INET);
    bytes[2] = 0x90;
    bytes[3] = 0x1f;
    bytes[4..8].copy_from_slice(&[0x01, 0x00, 0x00, 0x7f]);
    match decode(&bytes) {
        SocketAddr::Inet(InetAddr::V4 { addr, port }) => {
            assert_eq!(port, 0x1f90);
            assert_eq!(addr, 0x7f000001);
        }
        _ => panic!("not an IPv4 address"),
    }
}

#[test]
fn inet6_address_holds_host_and_port() {
    let mut bytes = record(NNG_AF_INET6);
    bytes[2] = 0x35;
    bytes[3] = 0x00;
    let host: [u8; 16] = [0, 0, 0, 0, 0, 0, 0, 0, 0, 0, 0, 0, 0, 0, 0, 1];
    bytes[4..20].copy_from_slice(&host);
    match decode(&bytes) {
        SocketAddr::Inet(InetAddr::V6 { addr, port }) => {
            assert_eq!(port, 53);
            assert_eq!(addr, host);
        }
        _ => panic!("not an IPv6 address"),
    }
}

#[test]
fn zerotier_address_holds_its_three_numbers() {
    let mut bytes = record(NNG_AF_ZT);
    bytes[8..16].copy_from_slice(&0x0102030405060708u64.to_le_bytes());
    bytes[16..24].copy_from_slice(&0xa1a2a3a4a5u64.to_le_bytes());
    bytes[24..28].copy_from_slice(&9993u32.to_le_bytes());
    match decode(&bytes) {
        SocketAddr::ZeroTier { nwid, nodeid, port } => {
            assert_eq!(nwid, 0x0102030405060708);
            assert_eq!(nodeid, 0xa1a2a3a4a5);
            assert_eq!(port, 9993);
        }
        _ => panic!("not a ZeroTier address"),
    }
}

#[test]
fn unknown_family_is_unspecified() {
    for family in [NNG_AF_UNSPEC, 6, 7, 255, 256, 0xffff] {
        let mut bytes = record(family);
        bytes[2..6].copy_from_slice(b"junk");
        assert!(matches!(decode(&bytes), SocketAddr::Unspecified));
    }
}

#[test]
fn views_read_the_same_bytes() {
    let mut bytes = record(NNG_AF_INET);
    bytes[2] = 1;
    bytes[3] = 2;
    bytes[4..8].copy_from_slice(&[3, 4, 5, 6]);
    let rec = nng_sockaddr::from_bytes(&bytes).unwrap();
    let v4 = rec.s_in();
    assert_eq!(v4.sa_family, NNG_AF_INET);
    assert_eq!(v4.sa_port, 0x0201);
    assert_eq!(v4.sa_addr, 0x06050403);
    let v6 = rec.s_in6();
    assert_eq!(v6.sa_port, 0x0201);
    assert_eq!(&v6.sa_addr[..4], &[3u8, 4, 5, 6]);
    let path = rec.s_path();
    assert_eq!(&path.sa_path[..6], &[1u8, 2, 3, 4, 5, 6]);
    assert_eq!(rec.s_inproc().sa_path, path.sa_path);
    let zt = rec.s_zt();
    assert_eq!(zt.sa_family, NNG_AF_INET);
    assert_eq!(zt.sa_nwid, 0);
}

#[test]
fn extract_path_stops_at_nul() {
    let mut sa_path = [0u8; 128];
    sa_path[..3].copy_from_slice(b"abc");
    sa_path[4] = b'z';
    let addr = nng_sockaddr_path { sa_family: NNG_AF_IPC, sa_path };
    assert_eq!(extract_path(&addr), b"abc");
    let full = nng_sockaddr_path { sa_family: NNG_AF_IPC, sa_path: [7u8; 128] };
    assert_eq!(extract_path(&full).len(), 128);
    let none = nng_sockaddr_path { sa_family: NNG_AF_IPC, sa_path: [0u8; 128] };
    assert!(extract_path(&none).is_empty());
}

#[test]
fn only_internet_addresses_resolve() {
    let inet = SocketAddr::Inet(InetAddr::V4 { addr: 1, port: 2 });
    match inet.to_socket_addrs() {
        Some(InetAddr::V4 { addr, port }) => {
            assert_eq!(addr, 1);
            assert_eq!(port, 2);
        }
        _ => panic!("no address"),
    }
    assert!(SocketAddr::Unspecified.to_socket_addrs().is_none());
    assert!(SocketAddr::InProc(vec![1]).to_socket_addrs().is_none());
    assert!(SocketAddr::Ipc(vec![1]).to_socket_addrs().is_none());
    let zt = SocketAddr::ZeroTier { nwid: 1, nodeid: 2, port: 3 };
    assert!(zt.to_socket_addrs().is_none());
}
