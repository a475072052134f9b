//! The protocol sockets.
//!
//! There is one type for each messaging pattern. What a socket of a pattern
//! can do is decided by the type: the operations live in capability traits,
//! and a type has only those that its pattern supports.

use vstd::prelude::*;
use crate::error::Error;
use crate::socket::Socket;
use crate::transport::{answer, Call, Domain, Pattern};

verus! {

/// A socket that is bound to one messaging pattern.
pub trait Protocol: Sized {
    /// The pattern of the type.
    spec fn spec_pattern() -> Pattern;

    /// The socket inside.
    spec fn spec_socket(&self) -> Socket;

    /// The pattern of the type.
    fn pattern() -> (p: Pattern)
        ensures
            p == Self::spec_pattern(),
    ;

    /// Binds `sock` to the pattern of the type. The socket must have been
    /// opened for that pattern.
    fn from_socket(sock: Socket) -> (protocol: Self)
        ensures
            protocol.spec_socket() == sock,
    ;

    /// The socket inside.
    fn socket(&self) -> (sock: &Socket)
        ensures
            *sock == self.spec_socket(),
    ;

    /// The socket inside, to be changed.
    fn socket_mut(&mut self) -> (sock: &mut Socket)
        ensures
            *sock == old(self).spec_socket(),
            final(self).spec_socket() == *final(sock),
    ;

    /// The call that opens a socket of the pattern. Its answer is decided
    /// by `opened`.
    fn new() -> (call: Call<'static>)
        ensures
            call == (Call::Open { domain: Domain::SP, pattern: Self::spec_pattern() }),
    {
        Call::Open { domain: Domain::SP, pattern: Self::pattern() }
    }

    /// The call that opens a raw socket of the pattern, which a device can
    /// forward between.
    fn new_raw() -> (call: Call<'static>)
        ensures
            call == (Call::Open { domain: Domain::SPRaw, pattern: Self::spec_pattern() }),
    {
        Call::Open { domain: Domain::SPRaw, pattern: Self::pattern() }
    }

    /// Decides what a call to open the socket gave: the socket with the
    /// handle `raw` where `code` is zero, else the error of that code.
    fn opened(code: i32, raw: u32) -> (r: Result<Self, Error>)
        ensures
            code == 0 ==> (r matches Ok(protocol) && protocol.spec_socket().spec_raw() == raw),
            code != 0 ==> (r matches Err(e) && e == Error::Nng(code)),
    {
        if code != 0 {
            return Err(Error::from_raw(code));
        }
        Ok(Self::from_socket(Socket::from_raw(raw)))
    }
}

/// A socket that broadcasts to every other socket on the bus and receives from all of them.
#[derive(Debug)]
pub struct Bus {
    sock: Socket,
}

impl Protocol for Bus {
    open spec fn spec_pattern() -> Pattern {
        Pattern::Bus
    }

    closed spec fn spec_socket(&self) -> Socket {
        self.sock
    }

    fn pattern() -> (p: Pattern) {
        Pattern::Bus
    }

    fn from_socket(sock: Socket) -> (protocol: Bus) {
        Bus { sock }
    }

    fn socket(&self) -> (sock: &Socket) {
        &self.sock
    }

    fn socket_mut(&mut self) -> (sock: &mut Socket) {
        &mut self.sock
    }
}

/// A socket that talks to exactly one other pair socket.
#[derive(Debug)]
pub struct Pair {
    sock: Socket,
}

impl Protocol for Pair {
    open spec fn spec_pattern() -> Pattern {
        Pattern::Pair
    }

    closed spec fn spec_socket(&self) -> Socket {
        self.sock
    }

    fn pattern() -> (p: Pattern) {
        Pattern::Pair
    }

    fn from_socket(sock: Socket) -> (protocol: Pair) {
        Pair { sock }
    }

    fn socket(&self) -> (sock: &Socket) {
        &self.sock
    }

    fn socket_mut(&mut self) -> (sock: &mut Socket) {
        &mut self.sock
    }
}

/// A socket that pushes messages into a pipeline.
#[derive(Debug)]
pub struct Push {
    sock: Socket,
}

impl Protocol for Push {
    open spec fn spec_pattern() -> Pattern {
        Pattern::Push
    }

    closed spec fn spec_socket(&self) -> Socket {
        self.sock
    }

    fn pattern() -> (p: Pattern) {
        Pattern::Push
    }

    fn from_socket(sock: Socket) -> (protocol: Push) {
        Push { sock }
    }

    fn socket(&self) -> (sock: &Socket) {
        &self.sock
    }

    fn socket_mut(&mut self) -> (sock: &mut Socket) {
        &mut self.sock
    }
}

/// A socket that pulls messages out of a pipeline.
#[derive(Debug)]
pub struct Pull {
    sock: Socket,
}

impl Protocol for Pull {
    open spec fn spec_pattern() -> Pattern {
        Pattern::Pull
    }

    closed spec fn spec_socket(&self) -> Socket {
        self.sock
    }

    fn pattern() -> (p: Pattern) {
        Pattern::Pull
    }

    fn from_socket(sock: Socket) -> (protocol: Pull) {
        Pull { sock }
    }

    fn socket(&self) -> (sock: &Socket) {
        &self.sock
    }

    fn socket_mut(&mut self) -> (sock: &mut Socket) {
        &mut self.sock
    }
}

/// A socket that publishes messages to the subscribers.
#[derive(Debug)]
pub struct Pub {
    sock: Socket,
}

impl Protocol for Pub {
    open spec fn spec_pattern() -> Pattern {
        Pattern::Pub
    }

    closed spec fn spec_socket(&self) -> Socket {
        self.sock
    }

    fn pattern() -> (p: Pattern) {
        Pattern::Pub
    }

    fn from_socket(sock: Socket) -> (protocol: Pub) {
        Pub { sock }
    }

    fn socket(&self) -> (sock: &Socket) {
        &self.sock
    }

    fn socket_mut(&mut self) -> (sock: &mut Socket) {
        &mut self.sock
    }
}

/// A socket that receives the published messages it has subscribed to.
#[derive(Debug)]
pub struct Sub {
    sock: Socket,
}

impl Protocol for Sub {
    open spec fn spec_pattern() -> Pattern {
        Pattern::Sub
    }

    closed spec fn spec_socket(&self) -> Socket {
        self.sock
    }

    fn pattern() -> (p: Pattern) {
        Pattern::Sub
    }

    fn from_socket(sock: Socket) -> (protocol: Sub) {
        Sub { sock }
    }

    fn socket(&self) -> (sock: &Socket) {
        &self.sock
    }

    fn socket_mut(&mut self) -> (sock: &mut Socket) {
        &mut self.sock
    }
}

/// A socket that sends requests and receives the replies.
#[derive(Debug)]
pub struct Req {
    sock: Socket,
}

impl Protocol for Req {
    open spec fn spec_pattern() -> Pattern {
        Pattern::Req
    }

    closed spec fn spec_socket(&self) -> Socket {
        self.sock
    }

    fn pattern() -> (p: Pattern) {
        Pattern::Req
    }

    fn from_socket(sock: Socket) -> (protocol: Req) {
        Req { sock }
    }

    fn socket(&self) -> (sock: &Socket) {
        &self.sock
    }

    fn socket_mut(&mut self) -> (sock: &mut Socket) {
        &mut self.sock
    }
}

/// A socket that receives requests and sends the replies.
#[derive(Debug)]
pub struct Rep {
    sock: Socket,
}

impl Protocol for Rep {
    open spec fn spec_pattern() -> Pattern {
        Pattern::Rep
    }

    closed spec fn spec_socket(&self) -> Socket {
        self.sock
    }

    fn pattern() -> (p: Pattern) {
        Pattern::Rep
    }

    fn from_socket(sock: Socket) -> (protocol: Rep) {
        Rep { sock }
    }

    fn socket(&self) -> (sock: &Socket) {
        &self.sock
    }

    fn socket_mut(&mut self) -> (sock: &mut Socket) {
        &mut self.sock
    }
}

/// A socket that answers the surveys of a surveyor.
#[derive(Debug)]
pub struct Respondent {
    sock: Socket,
}

impl Protocol for Respondent {
    open spec fn spec_pattern() -> Pattern {
        Pattern::Respondent
    }

    closed spec fn spec_socket(&self) -> Socket {
        self.sock
    }

    fn pattern() -> (p: Pattern) {
        Pattern::Respondent
    }

    fn from_socket(sock: Socket) -> (protocol: Respondent) {
        Respondent { sock }
    }

    fn socket(&self) -> (sock: &Socket) {
        &self.sock
    }

    fn socket_mut(&mut self) -> (sock: &mut Socket) {
        &mut self.sock
    }
}

/// A socket that sends out surveys and collects the responses.
#[derive(Debug)]
pub struct Surveyor {
    sock: Socket,
}

impl Protocol for Surveyor {
    open spec fn spec_pattern() -> Pattern {
        Pattern::Surveyor
    }

    closed spec fn spec_socket(&self) -> Socket {
        self.sock
    }

    fn pattern() -> (p: Pattern) {
        Pattern::Surveyor
    }

    fn from_socket(sock: Socket) -> (protocol: Surveyor) {
        Surveyor { sock }
    }

    fn socket(&self) -> (sock: &Socket) {
        &self.sock
    }

    fn socket_mut(&mut self) -> (sock: &mut Socket) {
        &mut self.sock
    }
}

} // verus!
