//! Socket addresses, and the record in which the engine reports them.

use vstd::prelude::*;
use crate::bytes::{find_nul, le_value, nul_index, read_le};
use crate::error::{Error, NNG_EINVAL};

verus! {

/// The longest path that an address record holds.
pub const NNG_MAXADDRLEN: usize = 128;

/// The size of an address record in bytes.
pub const SOCKADDR_SIZE: usize = 136;

pub const NNG_AF_UNSPEC: u16 = 0;
pub const NNG_AF_INPROC: u16 = 1;
pub const NNG_AF_IPC: u16 = 2;
pub const NNG_AF_INET: u16 = 3;
pub const NNG_AF_INET6: u16 = 4;
pub const NNG_AF_ZT: u16 = 5;

/// The record read as an in-process or IPC address.
#[allow(non_camel_case_types)]
#[derive(Clone, Copy, Debug)]
pub struct nng_sockaddr_path {
    pub sa_family: u16,
    pub sa_path: [u8; 128],
}

/// The record read as an IPv6 address.
#[allow(non_camel_case_types)]
#[derive(Clone, Copy, Debug)]
pub struct nng_sockaddr_in6 {
    pub sa_family: u16,
    pub sa_port: u16,
    pub sa_addr: [u8; 16],
}

/// The record read as an IPv4 address.
#[allow(non_camel_case_types)]
#[derive(Clone, Copy, Debug)]
pub struct nng_sockaddr_in {
    pub sa_family: u16,
    pub sa_port: u16,
    pub sa_addr: u32,
}

/// The record read as a ZeroTier address.
#[allow(non_camel_case_types)]
#[derive(Clone, Copy, Debug)]
pub struct nng_sockaddr_zt {
    pub sa_family: u16,
    pub sa_nwid: u64,
    pub sa_nodeid: u64,
    pub sa_port: u32,
}

/// An address record as the engine fills it: one region of `SOCKADDR_SIZE`
/// bytes that is read in one of several ways, chosen by the family in its
/// first two bytes. Integers are stored least significant byte first.
#[allow(non_camel_case_types)]
#[derive(Debug)]
pub struct nng_sockaddr {
    record: Vec<u8>,
}

/// An internet address: the host and the port.
#[allow(inconsistent_fields)]
#[derive(Clone, Copy, Debug)]
pub enum InetAddr {
    /// The four octets of `addr` from the most significant byte down.
    V4 { addr: u32, port: u16 },
    V6 { addr: [u8; 16], port: u16 },
}

/// An address of a socket, endpoint or pipe.
#[allow(inconsistent_fields)]
#[derive(Clone, Debug)]
pub enum SocketAddr {
    Unspecified,
    InProc(Vec<u8>),
    Ipc(Vec<u8>),
    Inet(InetAddr),
    ZeroTier { nwid: u64, nodeid: u64, port: u32 },
}

/// What a `SocketAddr` holds.
#[allow(inconsistent_fields)]
pub enum AddrView {
    Unspecified,
    InProc(Seq<u8>),
    Ipc(Seq<u8>),
    V4 { addr: u32, port: u16 },
    V6 { addr: Seq<u8>, port: u16 },
    ZeroTier { nwid: u64, nodeid: u64, port: u32 },
}

impl View for SocketAddr {
    type V = AddrView;

    open spec fn view(&self) -> AddrView {
        match *self {
            SocketAddr::Unspecified => AddrView::Unspecified,
            SocketAddr::InProc(path) => AddrView::InProc(path@),
            SocketAddr::Ipc(path) => AddrView::Ipc(path@),
            SocketAddr::Inet(InetAddr::V4 { addr, port }) => AddrView::V4 { addr, port },
            SocketAddr::Inet(InetAddr::V6 { addr, port }) => AddrView::V6 { addr: addr@, port },
            SocketAddr::ZeroTier { nwid, nodeid, port } => AddrView::ZeroTier { nwid, nodeid, port },
        }
    }
}

/// The little-endian number in `record` from `start` to `end`.
pub open spec fn field(record: Seq<u8>, start: int, end: int) -> nat {
    le_value(record.subrange(start, end))
}

/// The path of a record: the bytes after the family up to the first NUL,
/// all `NNG_MAXADDRLEN` of them where there is none.
pub open spec fn record_path(record: Seq<u8>) -> Seq<u8> {
    let path = record.subrange(2, 130);
    path.subrange(0, nul_index(path))
}

/// The address that a record of `SOCKADDR_SIZE` bytes stands for. A family
/// that is not known gives `Unspecified`.
pub open spec fn decode_record(record: Seq<u8>) -> AddrView {
    let family = field(record, 0, 2);
    if family == NNG_AF_INPROC {
        AddrView::InProc(record_path(record))
    } else if family == NNG_AF_IPC {
        AddrView::Ipc(record_path(record))
    } else if family == NNG_AF_INET {
        AddrView::V4 { addr: field(record, 4, 8) as u32, port: field(record, 2, 4) as u16 }
    } else if family == NNG_AF_INET6 {
        AddrView::V6 { addr: record.subrange(4, 20), port: field(record, 2, 4) as u16 }
    } else if family == NNG_AF_ZT {
        AddrView::ZeroTier {
            nwid: field(record, 8, 16) as u64,
            nodeid: field(record, 16, 24) as u64,
            port: field(record, 24, 28) as u32,
        }
    } else {
        AddrView::Unspecified
    }
}

impl View for nng_sockaddr {
    type V = Seq<u8>;

    closed spec fn view(&self) -> Seq<u8> {
        self.record@
    }
}

impl Clone for nng_sockaddr {
    fn clone(&self) -> (copy: nng_sockaddr)
        ensures
            copy@ == self@,
    {
        proof {
            use_type_invariant(self);
        }
        let record = self.record.clone();
        assert(record@ =~= self.record@);
        nng_sockaddr { record }
    }
}

impl nng_sockaddr {
    #[verifier::type_invariant]
    spec fn well_formed(self) -> bool {
        self.record@.len() == SOCKADDR_SIZE
    }

    /// Takes a record as the engine filled it. Bytes of any other length
    /// than `SOCKADDR_SIZE` are refused as invalid, never cut or padded.
    pub fn from_bytes(bytes: &[u8]) -> (r: Result<nng_sockaddr, Error>)
        ensures
            bytes@.len() == SOCKADDR_SIZE ==> r is Ok && r->Ok_0@ == bytes@,
            bytes@.len() != SOCKADDR_SIZE ==> r == Err::<nng_sockaddr, Error>(Error::Nng(NNG_EINVAL)),
    {
        if bytes.len() != SOCKADDR_SIZE {
            return Err(Error::Nng(NNG_EINVAL));
        }
        let mut record: Vec<u8> = Vec::new();
        record.extend_from_slice(bytes);
        assert(record@ =~= bytes@);
        Ok(nng_sockaddr { record })
    }

    /// The record of no address: every byte zero.
    pub fn unspecified() -> (r: nng_sockaddr)
        ensures
            r@ == Seq::new(SOCKADDR_SIZE as nat, |i: int| 0u8),
    {
        let mut record: Vec<u8> = Vec::new();
        let mut i: usize = 0;
        while i < SOCKADDR_SIZE
            invariant
                i <= SOCKADDR_SIZE,
                record@ == Seq::new(i as nat, |k: int| 0u8),
            decreases SOCKADDR_SIZE - i,
        {
            record.push(0u8);
            i = i + 1;
            assert(record@ =~= Seq::new(i as nat, |k: int| 0u8));
        }
        nng_sockaddr { record }
    }

    /// The bytes of the record.
    pub fn as_bytes(&self) -> (bytes: &[u8])
        ensures
            bytes@ == self@,
            bytes@.len() == SOCKADDR_SIZE,
    {
        proof {
            use_type_invariant(self);
        }
        self.record.as_slice()
    }

    /// The family that says how the record is to be read.
    pub fn s_family(&self) -> (family: u16)
        ensures
            family == field(self@, 0, 2),
    {
        proof {
            use_type_invariant(self);
            crate::bytes::le_value_bound(self@.subrange(0, 2));
            crate::bytes::radix_pow_small(2);
        }
        read_le(self.record.as_slice(), 0, 2) as u16
    }

    /// The record read as a path address.
    pub fn s_path(&self) -> (view: nng_sockaddr_path)
        ensures
            view.sa_family == field(self@, 0, 2),
            view.sa_path@ == self@.subrange(2, 130),
    {
        proof {
            use_type_invariant(self);
        }
        let mut sa_path: [u8; 128] = [0u8; 128];
        let mut i: usize = 0;
        while i < 128
            invariant
                i <= 128,
                self.record@.len() == SOCKADDR_SIZE,
                forall|k: int| 0 <= k < i ==> sa_path@[k] == self.record@[k + 2],
            decreases 128 - i,
        {
            sa_path[i] = self.record[i + 2];
            i = i + 1;
        }
        assert(sa_path@ =~= self@.subrange(2, 130));
        nng_sockaddr_path { sa_family: self.s_family(), sa_path }
    }

    /// The record read as an in-process address: the same reading as
    /// `s_path`.
    pub fn s_inproc(&self) -> (view: nng_sockaddr_path)
        ensures
            view.sa_family == field(self@, 0, 2),
            view.sa_path@ == self@.subrange(2, 130),
    {
        self.s_path()
    }

    /// The record read as an IPv4 address.
    pub fn s_in(&self) -> (view: nng_sockaddr_in)
        ensures
            view.sa_family == field(self@, 0, 2),
            view.sa_port == field(self@, 2, 4),
            view.sa_addr == field(self@, 4, 8),
    {
        proof {
            use_type_invariant(self);
            crate::bytes::le_value_bound(self@.subrange(2, 4));
            crate::bytes::le_value_bound(self@.subrange(4, 8));
            crate::bytes::radix_pow_small(2);
            crate::bytes::radix_pow_small(4);
        }
        let bytes = self.record.as_slice();
        nng_sockaddr_in {
            sa_family: self.s_family(),
            sa_port: read_le(bytes, 2, 2) as u16,
            sa_addr: read_le(bytes, 4, 4) as u32,
        }
    }

    /// The record read as an IPv6 address.
    pub fn s_in6(&self) -> (view: nng_sockaddr_in6)
        ensures
            view.sa_family == field(self@, 0, 2),
            view.sa_port == field(self@, 2, 4),
            view.sa_addr@ == self@.subrange(4, 20),
    {
        proof {
            use_type_invariant(self);
            crate::bytes::le_value_bound(self@.subrange(2, 4));
            crate::bytes::radix_pow_small(2);
        }
        let mut sa_addr: [u8; 16] = [0u8; 16];
        let mut i: usize = 0;
        while i < 16
            invariant
                i <= 16,
                self.record@.len() == SOCKADDR_SIZE,
                forall|k: int| 0 <= k < i ==> sa_addr@[k] == self.record@[k + 4],
            decreases 16 - i,
        {
            sa_addr[i] = self.record[i + 4];
            i = i + 1;
        }
        assert(sa_addr@ =~= self@.subrange(4, 20));
        nng_sockaddr_in6 {
            sa_family: self.s_family(),
            sa_port: read_le(self.record.as_slice(), 2, 2) as u16,
            sa_addr,
        }
    }

    /// The record read as a ZeroTier address.
    pub fn s_zt(&self) -> (view: nng_sockaddr_zt)
        ensures
            view.sa_family == field(self@, 0, 2),
            view.sa_nwid == field(self@, 8, 16),
            view.sa_nodeid == field(self@, 16, 24),
            view.sa_port == field(self@, 24, 28),
    {
        proof {
            use_type_invariant(self);
            crate::bytes::le_value_bound(self@.subrange(24, 28));
            crate::bytes::radix_pow_small(4);
        }
        let bytes = self.record.as_slice();
        nng_sockaddr_zt {
            sa_family: self.s_family(),
            sa_nwid: read_le(bytes, 8, 8),
            sa_nodeid: read_le(bytes, 16, 8),
            sa_port: read_le(bytes, 24, 4) as u32,
        }
    }
}

/// The path that a path address holds: its bytes up to the first NUL, all
/// of them where there is none.
pub fn extract_path(addr: &nng_sockaddr_path) -> (path: Vec<u8>)
    ensures
        path@ == addr.sa_path@.subrange(0, nul_index(addr.sa_path@)),
        forall|i: int| 0 <= i < path@.len() ==> path@[i] != 0,
        path@.len() == NNG_MAXADDRLEN || addr.sa_path@[path@.len() as int] == 0,
{
    let bytes: &[u8] = addr.sa_path.as_slice();
    proof {
        crate::bytes::nul_index_is_first(bytes@);
    }
    let end: usize = match find_nul(bytes) {
        Some(i) => i,
        None => bytes.len(),
    };
    let mut path: Vec<u8> = Vec::new();
    path.extend_from_slice(vstd::slice::slice_subrange(bytes, 0, end));
    assert(path@ =~= addr.sa_path@.subrange(0, nul_index(addr.sa_path@)));
    path
}

impl SocketAddr {
    /// Reads the address out of a record, by its family. A family that is
    /// not known gives `Unspecified`.
    pub fn from(sockaddr: nng_sockaddr) -> (addr: SocketAddr)
        ensures
            addr@ == decode_record(sockaddr@),
    {
        let family: u16 = sockaddr.s_family();
        if family == NNG_AF_INPROC {
            SocketAddr::InProc(extract_path(&sockaddr.s_inproc()))
        } else if family == NNG_AF_IPC {
            SocketAddr::Ipc(extract_path(&sockaddr.s_path()))
        } else if family == NNG_AF_INET {
            let view = sockaddr.s_in();
            SocketAddr::Inet(InetAddr::V4 { addr: view.sa_addr, port: view.sa_port })
        } else if family == NNG_AF_INET6 {
            let view = sockaddr.s_in6();
            SocketAddr::Inet(InetAddr::V6 { addr: view.sa_addr, port: view.sa_port })
        } else if family == NNG_AF_ZT {
            let view = sockaddr.s_zt();
            SocketAddr::ZeroTier { nwid: view.sa_nwid, nodeid: view.sa_nodeid, port: view.sa_port }
        } else {
            SocketAddr::Unspecified
        }
    }

    /// The internet address, where the address is one.
    pub fn to_socket_addrs(&self) -> (inet: Option<InetAddr>)
        ensures
            match *self {
                SocketAddr::Inet(a) => inet == Some(a),
                _ => inet is None,
            },
    {
        match self {
            SocketAddr::Inet(a) => Some(*a),
            _ => None,
        }
    }
}

} // verus!
