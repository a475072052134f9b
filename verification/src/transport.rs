//! The interface to the transport engine.
//!
//! The library never calls the engine. It says which call is to be made, as
//! a [`Call`], and decides from the engine's answer what follows. This
//! module holds the calls and what goes into them: address strings, handles
//! and flags.

use vstd::prelude::*;
use vstd::string::StringSliceAdditionalSpecFns;
use crate::buffer::MessageBuffer;
use crate::bytes::{find_nul, nul_index};
use crate::error::{Error, NNG_EINVAL, NNG_ENOTSUP};
use crate::message::Message;

verus! {

/// The engine hands out the memory that a received message lies in.
pub const NNG_FLAG_ALLOC: i32 = 1;

/// The call must not wait: where it cannot be done at once, it fails as a
/// call that would block.
pub const NNG_FLAG_NONBLOCK: i32 = 2;

/// The domain of ordinary sockets.
pub const AF_SP: i32 = 1;

/// The domain of raw sockets, which devices forward between.
pub const AF_SP_RAW: i32 = 2;

/// Whether a socket takes part in its protocol or only carries messages
/// for a device.
#[derive(Clone, Copy, Debug, PartialEq, Eq, Structural)]
pub enum Domain {
    SP,
    SPRaw,
}

impl Domain {
    /// The engine's number for the domain.
    pub open spec fn spec_code(self) -> i32 {
        match self {
            Domain::SP => AF_SP,
            Domain::SPRaw => AF_SP_RAW,
        }
    }

    /// The domain with the engine's number `code`, if there is one.
    pub open spec fn spec_from_code(code: i32) -> Option<Domain> {
        if code == AF_SP {
            Some(Domain::SP)
        } else if code == AF_SP_RAW {
            Some(Domain::SPRaw)
        } else {
            None
        }
    }

    /// The engine's number for the domain.
    pub fn code(&self) -> (c: i32)
        ensures
            c == self.spec_code(),
    {
        match self {
            Domain::SP => AF_SP,
            Domain::SPRaw => AF_SP_RAW,
        }
    }

    /// The domain with the engine's number `code`, if there is one.
    pub fn from_code(code: i32) -> (d: Option<Domain>)
        ensures
            d == Domain::spec_from_code(code),
    {
        if code == AF_SP {
            Some(Domain::SP)
        } else if code == AF_SP_RAW {
            Some(Domain::SPRaw)
        } else {
            None
        }
    }
}

/// Every domain is found again by its number.
pub proof fn domain_code_round_trip(domain: Domain)
    ensures
        Domain::spec_from_code(domain.spec_code()) == Some(domain),
{
}

/// The group that an option belongs to.
#[derive(Clone, Copy, Debug, PartialEq, Eq, Structural)]
pub enum Level {
    /// Options that every socket has.
    Socket,
    /// Options of one protocol.
    Protocol,
    /// Options of one transport.
    Transport,
}

/// What an option is read from or set on.
#[derive(Clone, Copy, Debug, PartialEq, Eq, Structural)]
pub enum Target {
    Socket(u32),
    Dialer(u32),
    Listener(u32),
    Pipe(u32),
}

/// The transport that an address belongs to.
#[derive(Clone, Copy, Debug, PartialEq, Eq, Structural)]
pub enum Scheme {
    /// `inproc`: within the process.
    InProc,
    /// `ipc`: between processes of one machine.
    Ipc,
    /// `tcp`: TCP over IPv4 or IPv6.
    Tcp,
    /// `tcp6`: TCP over IPv6 only.
    Tcp6,
    /// `zt`: the ZeroTier overlay network.
    ZeroTier,
}

/// The bytes of `inproc`.
pub open spec fn inproc_name() -> Seq<u8> {
    seq![105u8, 110u8, 112u8, 114u8, 111u8, 99u8]
}

/// The bytes of `ipc`.
pub open spec fn ipc_name() -> Seq<u8> {
    seq![105u8, 112u8, 99u8]
}

/// The bytes of `tcp`.
pub open spec fn tcp_name() -> Seq<u8> {
    seq![116u8, 99u8, 112u8]
}

/// The bytes of `tcp6`.
pub open spec fn tcp6_name() -> Seq<u8> {
    seq![116u8, 99u8, 112u8, 54u8]
}

/// The bytes of `zt`.
pub open spec fn zt_name() -> Seq<u8> {
    seq![122u8, 116u8]
}

/// The scheme with the given name, if it is one that the library knows.
pub open spec fn scheme_named(name: Seq<u8>) -> Option<Scheme> {
    if name == inproc_name() {
        Some(Scheme::InProc)
    } else if name == ipc_name() {
        Some(Scheme::Ipc)
    } else if name == tcp_name() {
        Some(Scheme::Tcp)
    } else if name == tcp6_name() {
        Some(Scheme::Tcp6)
    } else if name == zt_name() {
        Some(Scheme::ZeroTier)
    } else {
        None
    }
}

/// Whether the three bytes of `bytes` from `at` on are `://`.
pub open spec fn separator_at(bytes: Seq<u8>, at: int) -> bool {
    &&& 0 <= at
    &&& at + 3 <= bytes.len()
    &&& bytes[at] == 58
    &&& bytes[at + 1] == 47
    &&& bytes[at + 2] == 47
}

/// The index of the first `://` in `bytes` at or after `from`, or the
/// length of `bytes` where there is none.
pub open spec fn separator_from(bytes: Seq<u8>, from: int) -> int
    decreases bytes.len() - from,
{
    if from < 0 || from + 3 > bytes.len() {
        bytes.len() as int
    } else if separator_at(bytes, from) {
        from
    } else {
        separator_from(bytes, from + 1)
    }
}

/// `separator_from` finds the first separator: none lies between `from`
/// and it, and it is one unless it is the length.
pub proof fn separator_is_first(bytes: Seq<u8>, from: int)
    requires
        0 <= from,
    ensures
        from <= separator_from(bytes, from) || separator_from(bytes, from) == bytes.len(),
        separator_from(bytes, from) <= bytes.len(),
        separator_from(bytes, from) < bytes.len() ==> separator_at(bytes, separator_from(bytes, from)),
        forall|i: int| from <= i < separator_from(bytes, from) ==> !separator_at(bytes, i),
    decreases bytes.len() - from,
{
    if from + 3 > bytes.len() {
    } else if separator_at(bytes, from) {
    } else {
        separator_is_first(bytes, from + 1);
    }
}

/// What an address string parses to: the scheme and the index of its
/// separator. A NUL byte is reported with its index, whatever else the
/// string holds; a string without `://` is invalid; a scheme that is not
/// known is not supported.
pub open spec fn parsed(bytes: Seq<u8>) -> Result<(Scheme, int), Error> {
    if nul_index(bytes) < bytes.len() {
        Err(Error::NulByte(nul_index(bytes) as usize))
    } else if separator_from(bytes, 0) >= bytes.len() {
        Err(Error::Nng(NNG_EINVAL))
    } else {
        match scheme_named(bytes.subrange(0, separator_from(bytes, 0))) {
            Some(scheme) => Ok((scheme, separator_from(bytes, 0))),
            None => Err(Error::Nng(NNG_ENOTSUP)),
        }
    }
}

/// An address string that has been checked: `scheme://payload`, with a
/// scheme that the library knows and no NUL byte.
#[derive(Debug)]
pub struct Url {
    scheme: Scheme,
    text: Vec<u8>,
    separator: usize,
}

impl View for Url {
    type V = Seq<u8>;

    /// The bytes of the whole string.
    closed spec fn view(&self) -> Seq<u8> {
        self.text@
    }
}

/// Finds the first `://` of `bytes`.
fn find_separator(bytes: &[u8]) -> (at: Option<usize>)
    ensures
        match at {
            Some(i) => i == separator_from(bytes@, 0) && i + 3 <= bytes@.len(),
            None => separator_from(bytes@, 0) == bytes@.len(),
        },
{
    let total: usize = bytes.len();
    if total < 3 {
        return None;
    }
    let last: usize = total - 3;
    let mut i: usize = 0;
    while i <= last
        invariant
            total == bytes@.len(),
            last + 3 == total,
            i <= last + 1,
            separator_from(bytes@, 0) == separator_from(bytes@, i as int),
        decreases last + 1 - i,
    {
        if bytes[i] == 58 && bytes[i + 1] == 47 && bytes[i + 2] == 47 {
            return Some(i);
        }
        i = i + 1;
    }
    None
}

/// Whether `bytes` are exactly `name`.
fn is_name(bytes: &[u8], name: &[u8]) -> (same: bool)
    ensures
        same == (bytes@ == name@),
{
    if bytes.len() != name.len() {
        return false;
    }
    let total: usize = bytes.len();
    let mut i: usize = 0;
    while i < total
        invariant
            i <= total,
            total == bytes@.len(),
            total == name@.len(),
            forall|k: int| 0 <= k < i ==> bytes@[k] == name@[k],
        decreases total - i,
    {
        if bytes[i] != name[i] {
            return false;
        }
        i = i + 1;
    }
    assert(bytes@ =~= name@);
    true
}

/// The scheme with the given name.
fn scheme_of(name: &[u8]) -> (scheme: Option<Scheme>)
    ensures
        scheme == scheme_named(name@),
{
    let inproc: [u8; 6] = [105u8, 110u8, 112u8, 114u8, 111u8, 99u8];
    let ipc: [u8; 3] = [105u8, 112u8, 99u8];
    let tcp: [u8; 3] = [116u8, 99u8, 112u8];
    let tcp6: [u8; 4] = [116u8, 99u8, 112u8, 54u8];
    let zt: [u8; 2] = [122u8, 116u8];
    assert(inproc@ =~= inproc_name());
    assert(ipc@ =~= ipc_name());
    assert(tcp@ =~= tcp_name());
    assert(tcp6@ =~= tcp6_name());
    assert(zt@ =~= zt_name());
    if is_name(name, inproc.as_slice()) {
        Some(Scheme::InProc)
    } else if is_name(name, ipc.as_slice()) {
        Some(Scheme::Ipc)
    } else if is_name(name, tcp.as_slice()) {
        Some(Scheme::Tcp)
    } else if is_name(name, tcp6.as_slice()) {
        Some(Scheme::Tcp6)
    } else if is_name(name, zt.as_slice()) {
        Some(Scheme::ZeroTier)
    } else {
        None
    }
}

impl Url {
    /// The transport that the address belongs to.
    pub closed spec fn spec_scheme(&self) -> Scheme {
        self.scheme
    }

    /// The index at which `://` begins.
    pub closed spec fn spec_separator(&self) -> int {
        self.separator as int
    }

    #[verifier::type_invariant]
    spec fn well_formed(&self) -> bool {
        parsed(self.text@) == Ok::<(Scheme, int), Error>((self.scheme, self.separator as int))
    }

    /// Checks an address string. It is accepted where `parsed` gives a
    /// scheme, and then holds the bytes of the string; every other string
    /// is refused with the error that `parsed` gives.
    pub fn parse(text: &str) -> (r: Result<Url, Error>)
        ensures
            match parsed(text.spec_bytes()) {
                Ok((scheme, separator)) => r matches Ok(url) && url@ == text.spec_bytes()
                    && url.spec_scheme() == scheme && url.spec_separator() == separator,
                Err(e) => r matches Err(x) && x == e,
            },
    {
        let bytes: &[u8] = text.as_bytes();
        match find_nul(bytes) {
            Some(at) => {
                return Err(Error::NulByte(at));
            },
            None => {},
        }
        let separator: usize = match find_separator(bytes) {
            Some(at) => at,
            None => {
                return Err(Error::Nng(NNG_EINVAL));
            },
        };
        match scheme_of(vstd::slice::slice_subrange(bytes, 0, separator)) {
            Some(scheme) => {
                let mut owned: Vec<u8> = Vec::new();
                owned.extend_from_slice(bytes);
                assert(owned@ =~= bytes@);
                Ok(Url { scheme, text: owned, separator })
            },
            None => Err(Error::Nng(NNG_ENOTSUP)),
        }
    }

    /// The transport that the address belongs to.
    pub fn scheme(&self) -> (scheme: Scheme)
        ensures
            scheme == self.spec_scheme(),
            parsed(self@) == Ok::<(Scheme, int), Error>((scheme, self.spec_separator())),
    {
        proof {
            use_type_invariant(self);
        }
        self.scheme
    }

    /// The bytes of the whole string. None of them is NUL.
    pub fn as_bytes(&self) -> (bytes: &[u8])
        ensures
            bytes@ == self@,
            nul_index(bytes@) == bytes@.len(),
    {
        proof {
            use_type_invariant(self);
            crate::bytes::nul_index_is_first(self.text@);
        }
        self.text.as_slice()
    }

    /// The part of the string behind `://`, which the transport reads.
    pub fn payload(&self) -> (bytes: &[u8])
        ensures
            self.spec_separator() + 3 <= self@.len(),
            bytes@ == self@.subrange(self.spec_separator() + 3, self@.len() as int),
    {
        proof {
            use_type_invariant(self);
            separator_is_first(self.text@, 0);
        }
        let total: usize = self.text.len();
        vstd::slice::slice_subrange(self.text.as_slice(), self.separator + 3, total)
    }
}

/// Checks that a string can be handed to the engine as it is: it holds no
/// NUL byte. The result is its bytes, or the index of the first NUL.
pub fn c_string(text: &str) -> (r: Result<Vec<u8>, Error>)
    ensures
        match r {
            Ok(bytes) => bytes@ == text.spec_bytes() && nul_index(text.spec_bytes())
                == text.spec_bytes().len(),
            Err(e) => nul_index(text.spec_bytes()) < text.spec_bytes().len() && e == Error::NulByte(
                nul_index(text.spec_bytes()) as usize,
            ),
        },
{
    let bytes: &[u8] = text.as_bytes();
    match find_nul(bytes) {
        Some(at) => Err(Error::NulByte(at)),
        None => {
            let mut owned: Vec<u8> = Vec::new();
            owned.extend_from_slice(bytes);
            assert(owned@ =~= bytes@);
            Ok(owned)
        },
    }
}

/// The messaging patterns.
#[derive(Clone, Copy, Debug, PartialEq, Eq, Structural)]
pub enum Pattern {
    Pub,
    Sub,
    Bus,
    Req,
    Rep,
    Push,
    Pull,
    Surveyor,
    Respondent,
    Pair,
}

impl Pattern {
    /// Whether sockets of the pattern send.
    pub open spec fn spec_can_send(self) -> bool {
        self != Pattern::Sub && self != Pattern::Pull
    }

    /// Whether sockets of the pattern receive.
    pub open spec fn spec_can_receive(self) -> bool {
        self != Pattern::Pub && self != Pattern::Push
    }

    /// Whether a socket of the pattern can be forwarded to itself.
    pub open spec fn spec_can_loopback(self) -> bool {
        self == Pattern::Bus || self == Pattern::Pair
    }

    /// The one pattern that a socket of this pattern may be bridged to by
    /// a device.
    pub open spec fn spec_companion(self) -> Pattern {
        match self {
            Pattern::Pub => Pattern::Sub,
            Pattern::Sub => Pattern::Pub,
            Pattern::Bus => Pattern::Bus,
            Pattern::Req => Pattern::Rep,
            Pattern::Rep => Pattern::Req,
            Pattern::Push => Pattern::Pull,
            Pattern::Pull => Pattern::Push,
            Pattern::Surveyor => Pattern::Respondent,
            Pattern::Respondent => Pattern::Surveyor,
            Pattern::Pair => Pattern::Pair,
        }
    }

    /// The engine's number for the pattern.
    pub open spec fn spec_code(self) -> i32 {
        match self {
            Pattern::Pub => 32,
            Pattern::Sub => 33,
            Pattern::Bus => 112,
            Pattern::Req => 48,
            Pattern::Rep => 49,
            Pattern::Push => 80,
            Pattern::Pull => 81,
            Pattern::Surveyor => 98,
            Pattern::Respondent => 99,
            Pattern::Pair => 16,
        }
    }

    /// Whether sockets of the pattern send.
    pub fn can_send(&self) -> (b: bool)
        ensures
            b == self.spec_can_send(),
    {
        match self {
            Pattern::Sub => false,
            Pattern::Pull => false,
            _ => true,
        }
    }

    /// Whether sockets of the pattern receive.
    pub fn can_receive(&self) -> (b: bool)
        ensures
            b == self.spec_can_receive(),
    {
        match self {
            Pattern::Pub => false,
            Pattern::Push => false,
            _ => true,
        }
    }

    /// Whether a socket of the pattern can be forwarded to itself.
    pub fn can_loopback(&self) -> (b: bool)
        ensures
            b == self.spec_can_loopback(),
    {
        match self {
            Pattern::Bus => true,
            Pattern::Pair => true,
            _ => false,
        }
    }

    /// The one pattern that a socket of this pattern may be bridged to.
    pub fn companion(&self) -> (p: Pattern)
        ensures
            p == self.spec_companion(),
    {
        match self {
            Pattern::Pub => Pattern::Sub,
            Pattern::Sub => Pattern::Pub,
            Pattern::Bus => Pattern::Bus,
            Pattern::Req => Pattern::Rep,
            Pattern::Rep => Pattern::Req,
            Pattern::Push => Pattern::Pull,
            Pattern::Pull => Pattern::Push,
            Pattern::Surveyor => Pattern::Respondent,
            Pattern::Respondent => Pattern::Surveyor,
            Pattern::Pair => Pattern::Pair,
        }
    }

    /// The engine's number for the pattern.
    pub fn code(&self) -> (c: i32)
        ensures
            c == self.spec_code(),
    {
        match self {
            Pattern::Pub => 32,
            Pattern::Sub => 33,
            Pattern::Bus => 112,
            Pattern::Req => 48,
            Pattern::Rep => 49,
            Pattern::Push => 80,
            Pattern::Pull => 81,
            Pattern::Surveyor => 98,
            Pattern::Respondent => 99,
            Pattern::Pair => 16,
        }
    }
}

/// The companion of a pattern's companion is the pattern itself; what one
/// side of a bridge sends the other receives; every pattern sends or
/// receives; and a pattern that can be forwarded to itself is its own
/// companion and does both.
pub proof fn companions_pair_up(pattern: Pattern)
    ensures
        pattern.spec_companion().spec_companion() == pattern,
        pattern.spec_can_send() == pattern.spec_companion().spec_can_receive(),
        pattern.spec_can_receive() == pattern.spec_companion().spec_can_send(),
        pattern.spec_can_send() || pattern.spec_can_receive(),
        pattern.spec_can_loopback() ==> pattern.spec_companion() == pattern
            && pattern.spec_can_send() && pattern.spec_can_receive(),
{
}

/// Two patterns with the same number are the same pattern.
pub proof fn pattern_codes_differ(a: Pattern, b: Pattern)
    requires
        a.spec_code() == b.spec_code(),
    ensures
        a == b,
{
}

/// The name of an option: the group it belongs to and its key.
#[derive(Clone, Copy, Debug)]
pub struct OptionName<'a> {
    pub level: Level,
    pub key: &'a str,
}

impl<'a> OptionName<'a> {
    /// Names an option by a key that the caller supplies. A key with a NUL
    /// byte cannot be handed to the engine and is refused with the index of
    /// that byte.
    pub fn new(level: Level, key: &'a str) -> (r: Result<OptionName<'a>, Error>)
        ensures
            r == (if nul_index(key.spec_bytes()) < key.spec_bytes().len() {
                Err::<OptionName<'a>, Error>(Error::NulByte(nul_index(key.spec_bytes()) as usize))
            } else {
                Ok::<OptionName<'a>, Error>((OptionName { level, key }))
            }),
    {
        proof {
            crate::bytes::nul_index_is_first(key.spec_bytes());
        }
        match find_nul(key.as_bytes()) {
            Some(at) => Err(Error::NulByte(at)),
            None => Ok(OptionName { level, key }),
        }
    }
}

/// A call for the engine to make.
#[derive(Debug)]
pub enum Call<'a> {
    /// Open a socket.
    Open { domain: Domain, pattern: Pattern },
    /// Close a socket, an endpoint or a pipe.
    Close { target: Target },
    /// Create a listener at `url` and start it.
    Listen { socket: u32, url: Url, flags: i32 },
    /// Create a dialer to `url` and start it.
    Dial { socket: u32, url: Url, flags: i32 },
    /// Create a listener at `url` without starting it.
    CreateListener { socket: u32, url: Url },
    /// Create a dialer to `url` without starting it.
    CreateDialer { socket: u32, url: Url },
    /// Start an endpoint.
    Start { endpoint: Target, flags: i32 },
    /// Send a message. The engine owns it from then on.
    SendMessage { socket: u32, message: Message, flags: i32 },
    /// Receive a message.
    ReceiveMessage { socket: u32, flags: i32 },
    /// Send a buffer. The engine owns it from then on.
    Send { socket: u32, buffer: MessageBuffer, flags: i32 },
    /// Receive a buffer.
    Receive { socket: u32, flags: i32 },
    /// Forward between two sockets until the engine fails. A second socket
    /// of zero forwards the first to itself.
    Device { first: u32, second: u32 },
    /// Read an option into a buffer of `capacity` bytes.
    GetOption { target: Target, name: OptionName<'a>, capacity: usize },
    /// Set an option to the bytes of `value`.
    SetOption { target: Target, name: OptionName<'a>, value: Vec<u8> },
}

/// Decides what a call that answers with a status code and a value gave:
/// the value where the code is zero, else the error that carries the code.
pub fn answer<T>(code: i32, value: T) -> (r: Result<T, Error>)
    ensures
        r == (if code == 0 {
            Ok::<T, Error>(value)
        } else {
            Err::<T, Error>(Error::Nng(code))
        }),
{
    if code != 0 {
        return Err(Error::from_raw(code));
    }
    Ok(value)
}

} // verus!
