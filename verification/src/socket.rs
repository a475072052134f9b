//! Sockets and their endpoints.
//!
//! A handle says which call the engine is to make; `error_guard`, `answer`
//! and the `opened` function of each handle decide what the engine's answer
//! means. Options are read through the engine itself, handed in as a
//! function.

use vstd::prelude::*;
use vstd::string::StringSliceAdditionalSpecFns;
use crate::error::Error;
use crate::message::Message;
use crate::options::{
    can_ask, read_option, reads, sets, write_option, GetOption, Milliseconds, OptionReading, SetOption, NNG_OPT_RECVBUF,
    NNG_OPT_RECVTIMEO, NNG_OPT_SENDBUF, NNG_OPT_SENDTIMEO, NNG_OPT_SOCKNAME,
};
use crate::transport::{
    answer, parsed, Call, Domain, Level, OptionName, Pattern, Target, Url, NNG_FLAG_NONBLOCK,
};

verus! {

/// A socket of the engine. There is one `Socket` for each: it cannot be
/// copied, and closing or bridging it uses it up.
#[derive(Debug)]
pub struct Socket(u32);

/// A dialer: an endpoint that connects a socket to an address.
#[derive(Debug)]
pub struct Dialer(u32);

/// A listener: an endpoint at which a socket accepts connections.
#[derive(Debug)]
pub struct Listener(u32);

/// Whether `r` is the call that attaches `socket` to the address `text`:
/// where the address parses, `r` is a call of the kind that `listens`
/// selects, for this socket, for exactly this address, with no flags;
/// where it does not, `r` is the error of `parsed` and no call is made.
pub open spec fn attaches<'a>(r: Result<Call<'a>, Error>, socket: u32, text: Seq<u8>, listens: bool) -> bool {
    match parsed(text) {
        Ok((scheme, separator)) => match r {
            Ok(Call::Listen { socket: s, url, flags }) => listens && s == socket && flags == 0
                && url@ == text && url.spec_scheme() == scheme,
            Ok(Call::Dial { socket: s, url, flags }) => !listens && s == socket && flags == 0
                && url@ == text && url.spec_scheme() == scheme,
            _ => false,
        },
        Err(e) => r matches Err(x) && x == e,
    }
}

/// Whether `r` is the call that creates an endpoint of `socket` for the
/// address `text` without starting it, or the error of `parsed`.
pub open spec fn creates<'a>(r: Result<Call<'a>, Error>, socket: u32, text: Seq<u8>, listens: bool) -> bool {
    match parsed(text) {
        Ok((scheme, separator)) => match r {
            Ok(Call::CreateListener { socket: s, url }) => listens && s == socket && url@ == text
                && url.spec_scheme() == scheme,
            Ok(Call::CreateDialer { socket: s, url }) => !listens && s == socket && url@ == text
                && url.spec_scheme() == scheme,
            _ => false,
        },
        Err(e) => r matches Err(x) && x == e,
    }
}

impl Socket {
    /// The engine's handle.
    pub closed spec fn spec_raw(&self) -> u32 {
        self.0
    }

    /// Takes over the socket with the engine's handle `raw`.
    pub fn from_raw(raw: u32) -> (socket: Socket)
        ensures
            socket.spec_raw() == raw,
    {
        Socket(raw)
    }

    /// The engine's handle.
    pub fn as_raw(&self) -> (raw: u32)
        ensures
            raw == self.spec_raw(),
    {
        self.0
    }

    /// The call that opens a socket of `pattern` in `domain`. The pair is
    /// fixed for the life of the socket. The answer is decided by
    /// `opened`; the engine refuses a pair that it does not support.
    pub fn new(domain: Domain, pattern: Pattern) -> (call: Call<'static>)
        ensures
            call == (Call::Open { domain, pattern }),
    {
        Call::Open { domain, pattern }
    }

    /// Decides what a call to open a socket gave: the socket with the
    /// handle `raw` where `code` is zero, else the error of that code.
    pub fn opened(code: i32, raw: u32) -> (r: Result<Socket, Error>)
        ensures
            code == 0 ==> (r matches Ok(socket) && socket.spec_raw() == raw),
            code != 0 ==> (r matches Err(e) && e == Error::Nng(code)),
    {
        answer(code, Socket(raw))
    }

    /// The call that adds a local endpoint at `addr`, which others can
    /// connect to. Its answer is decided by `Listener::opened`.
    pub fn bind(&self, addr: &str) -> (r: Result<Call<'static>, Error>)
        ensures
            attaches(r, self.spec_raw(), addr.spec_bytes(), true),
    {
        match Url::parse(addr) {
            Ok(url) => Ok(Call::Listen { socket: self.0, url, flags: 0 }),
            Err(e) => Err(e),
        }
    }

    /// The call that adds a remote endpoint at `addr`, which the engine
    /// connects to. Its answer is decided by `Dialer::opened`.
    pub fn connect(&self, addr: &str) -> (r: Result<Call<'static>, Error>)
        ensures
            attaches(r, self.spec_raw(), addr.spec_bytes(), false),
    {
        match Url::parse(addr) {
            Ok(url) => Ok(Call::Dial { socket: self.0, url, flags: 0 }),
            Err(e) => Err(e),
        }
    }

    /// The call that makes the socket listen at `url`. Its answer is
    /// decided by `Listener::opened`.
    pub fn listen(&mut self, url: &str) -> (r: Result<Call<'static>, Error>)
        ensures
            attaches(r, old(self).spec_raw(), url.spec_bytes(), true),
            final(self).spec_raw() == old(self).spec_raw(),
    {
        self.bind(url)
    }

    /// The call that connects the socket to `url`. Its answer is decided by
    /// `Dialer::opened`.
    pub fn dial(&mut self, url: &str) -> (r: Result<Call<'static>, Error>)
        ensures
            attaches(r, old(self).spec_raw(), url.spec_bytes(), false),
            final(self).spec_raw() == old(self).spec_raw(),
    {
        self.connect(url)
    }

    /// The call that sends `msg` and waits until it can be sent. The
    /// message goes into the call; its answer is decided by `error_guard`.
    pub fn send(&self, msg: Message) -> (call: Call<'static>)
        ensures
            call == (Call::SendMessage { socket: self.spec_raw(), message: msg, flags: 0 }),
    {
        Call::SendMessage { socket: self.0, message: msg, flags: 0 }
    }

    /// The call that sends `msg` if that can be done at once and fails as
    /// a call that would block if not.
    pub fn send_nonblocking(&self, msg: Message) -> (call: Call<'static>)
        ensures
            call == (Call::SendMessage {
                socket: self.spec_raw(),
                message: msg,
                flags: NNG_FLAG_NONBLOCK,
            }),
    {
        Call::SendMessage { socket: self.0, message: msg, flags: NNG_FLAG_NONBLOCK }
    }

    /// The call that waits for a message. Its answer is decided by
    /// `answer`.
    pub fn receive(&self) -> (call: Call<'static>)
        ensures
            call == (Call::ReceiveMessage { socket: self.spec_raw(), flags: 0 }),
    {
        Call::ReceiveMessage { socket: self.0, flags: 0 }
    }

    /// The call that takes a message if one is there and fails as a call
    /// that would block if not.
    pub fn receive_nonblocking(&self) -> (call: Call<'static>)
        ensures
            call == (Call::ReceiveMessage { socket: self.spec_raw(), flags: NNG_FLAG_NONBLOCK }),
    {
        Call::ReceiveMessage { socket: self.0, flags: NNG_FLAG_NONBLOCK }
    }

    /// The call that forwards every message between this socket and
    /// `other` until the engine fails. Both sockets go into the call.
    pub fn device(self, other: Socket) -> (call: Call<'static>)
        ensures
            call == (Call::Device { first: self.spec_raw(), second: other.spec_raw() }),
    {
        Call::Device { first: self.0, second: other.0 }
    }

    /// The call that forwards every message of this socket back to it
    /// until the engine fails.
    pub fn loopback_device(self) -> (call: Call<'static>)
        ensures
            call == (Call::Device { first: self.spec_raw(), second: 0 }),
    {
        Call::Device { first: self.0, second: 0 }
    }

    /// The call that closes the socket. The socket goes into the call, so
    /// it is closed once.
    pub fn close(self) -> (call: Call<'static>)
        ensures
            call == (Call::Close { target: Target::Socket(self.spec_raw()) }),
    {
        Call::Close { target: Target::Socket(self.0) }
    }

    /// Reads the option `name` of the socket as a `T`.
    pub fn get_option<'a, T: GetOption, E: Fn(Call<'a>) -> Result<OptionReading, Error>>(
        &self,
        name: OptionName<'a>,
        engine: E,
    ) -> (r: Result<T, Error>)
        requires
            can_ask(engine, Target::Socket(self.spec_raw()), name),
        ensures
            reads(engine, Target::Socket(self.spec_raw()), name, r),
    {
        read_option(Target::Socket(self.0), name, engine)
    }

    /// The call that sets the option `name` of the socket to `value`.
    pub fn set_option<'a, T: SetOption>(&mut self, name: OptionName<'a>, value: &T) -> (call: Call<'a>)
        ensures
            sets(call, Target::Socket(old(self).spec_raw()), name, value.spec_encode()),
            final(self).spec_raw() == old(self).spec_raw(),
    {
        write_option(Target::Socket(self.0), name, value)
    }

    /// How long a receive waits before it times out.
    pub fn receive_timeout<E: Fn(Call<'static>) -> Result<OptionReading, Error>>(&self, engine: E) -> (r:
        Result<Milliseconds, Error>)
        requires
            can_ask(
                engine,
                Target::Socket(self.spec_raw()),
                (OptionName { level: Level::Socket, key: NNG_OPT_RECVTIMEO }),
            ),
        ensures
            reads(
                engine,
                Target::Socket(self.spec_raw()),
                (OptionName { level: Level::Socket, key: NNG_OPT_RECVTIMEO }),
                r,
            ),
    {
        self.get_option(OptionName { level: Level::Socket, key: NNG_OPT_RECVTIMEO }, engine)
    }

    /// How long a send waits before it times out.
    pub fn send_timeout<E: Fn(Call<'static>) -> Result<OptionReading, Error>>(&self, engine: E) -> (r:
        Result<Milliseconds, Error>)
        requires
            can_ask(
                engine,
                Target::Socket(self.spec_raw()),
                (OptionName { level: Level::Socket, key: NNG_OPT_SENDTIMEO }),
            ),
        ensures
            reads(
                engine,
                Target::Socket(self.spec_raw()),
                (OptionName { level: Level::Socket, key: NNG_OPT_SENDTIMEO }),
                r,
            ),
    {
        self.get_option(OptionName { level: Level::Socket, key: NNG_OPT_SENDTIMEO }, engine)
    }

    /// The number of messages that the send queue holds.
    pub fn send_buffer<E: Fn(Call<'static>) -> Result<OptionReading, Error>>(&self, engine: E) -> (r:
        Result<usize, Error>)
        requires
            can_ask(
                engine,
                Target::Socket(self.spec_raw()),
                (OptionName { level: Level::Socket, key: NNG_OPT_SENDBUF }),
            ),
        ensures
            reads(
                engine,
                Target::Socket(self.spec_raw()),
                (OptionName { level: Level::Socket, key: NNG_OPT_SENDBUF }),
                r,
            ),
    {
        self.get_option(OptionName { level: Level::Socket, key: NNG_OPT_SENDBUF }, engine)
    }

    /// The number of messages that the receive queue holds.
    pub fn receive_buffer<E: Fn(Call<'static>) -> Result<OptionReading, Error>>(&self, engine: E) -> (r:
        Result<usize, Error>)
        requires
            can_ask(
                engine,
                Target::Socket(self.spec_raw()),
                (OptionName { level: Level::Socket, key: NNG_OPT_RECVBUF }),
            ),
        ensures
            reads(
                engine,
                Target::Socket(self.spec_raw()),
                (OptionName { level: Level::Socket, key: NNG_OPT_RECVBUF }),
                r,
            ),
    {
        self.get_option(OptionName { level: Level::Socket, key: NNG_OPT_RECVBUF }, engine)
    }

    /// The name of the socket.
    pub fn name<E: Fn(Call<'static>) -> Result<OptionReading, Error>>(&self, engine: E) -> (r: Result<
        String,
        Error,
    >)
        requires
            can_ask(
                engine,
                Target::Socket(self.spec_raw()),
                (OptionName { level: Level::Socket, key: NNG_OPT_SOCKNAME }),
            ),
        ensures
            reads(
                engine,
                Target::Socket(self.spec_raw()),
                (OptionName { level: Level::Socket, key: NNG_OPT_SOCKNAME }),
                r,
            ),
    {
        self.get_option(OptionName { level: Level::Socket, key: NNG_OPT_SOCKNAME }, engine)
    }
}

/// What listeners and dialers have in common.
pub trait Endpoint: Sized {
    /// The endpoint as the target of a call.
    spec fn spec_target(&self) -> Target;

    /// Whether endpoints of the type listen; they dial where they do not.
    spec fn listens() -> bool;

    /// The endpoint of the type with the engine's handle `raw`, as the
    /// target of a call.
    spec fn target_of(raw: u32) -> Target;

    /// The call that creates an endpoint of `sock` for `url` without
    /// starting it. Its answer is decided by `opened`.
    fn new(sock: &Socket, url: &str) -> (r: Result<Call<'static>, Error>)
        ensures
            creates(r, sock.spec_raw(), url.spec_bytes(), Self::listens()),
    ;

    /// Decides what a call to create or attach an endpoint gave: the
    /// endpoint with the handle `raw` where `code` is zero, else the error
    /// of that code.
    fn opened(code: i32, raw: u32) -> (r: Result<Self, Error>)
        ensures
            code == 0 ==> (r matches Ok(endpoint) && endpoint.spec_target() == Self::target_of(raw)),
            code != 0 ==> (r matches Err(e) && e == Error::Nng(code)),
    ;

    /// The call that starts the endpoint with the given flags. Its answer
    /// is decided by `error_guard`.
    fn start_with_flags(&mut self, flags: i32) -> (call: Call<'static>)
        ensures
            call == (Call::Start { endpoint: old(self).spec_target(), flags }),
            final(self).spec_target() == old(self).spec_target(),
    ;

    /// The call that starts the endpoint and waits until it is up.
    fn start(&mut self) -> (call: Call<'static>)
        ensures
            call == (Call::Start { endpoint: old(self).spec_target(), flags: 0 }),
            final(self).spec_target() == old(self).spec_target(),
    {
        self.start_with_flags(0)
    }

    /// The call that starts the endpoint in the background.
    fn start_nonblocking(&mut self) -> (call: Call<'static>)
        ensures
            call == (Call::Start { endpoint: old(self).spec_target(), flags: NNG_FLAG_NONBLOCK }),
            final(self).spec_target() == old(self).spec_target(),
    {
        self.start_with_flags(NNG_FLAG_NONBLOCK)
    }

    /// The call that closes the endpoint. The socket it belongs to stays
    /// open.
    fn close(self) -> (call: Call<'static>)
        ensures
            call == (Call::Close { target: self.spec_target() }),
    ;

    /// Reads the option `name` of the endpoint as a `T`.
    fn get_option<'a, T: GetOption, E: Fn(Call<'a>) -> Result<OptionReading, Error>>(
        &self,
        name: OptionName<'a>,
        engine: E,
    ) -> (r: Result<T, Error>)
        requires
            can_ask(engine, self.spec_target(), name),
        ensures
            reads(engine, self.spec_target(), name, r),
    ;

    /// The call that sets the option `name` of the endpoint to `value`.
    fn set_option<'a, T: SetOption>(&mut self, name: OptionName<'a>, value: &T) -> (call: Call<'a>)
        ensures
            sets(call, old(self).spec_target(), name, value.spec_encode()),
            final(self).spec_target() == old(self).spec_target(),
    ;
}

impl Listener {
    /// The engine's handle.
    pub closed spec fn spec_raw(&self) -> u32 {
        self.0
    }

    /// Takes over the listener with the engine's handle `raw`.
    pub fn from_raw(raw: u32) -> (endpoint: Listener)
        ensures
            endpoint.spec_raw() == raw,
    {
        Listener(raw)
    }

    /// The engine's handle.
    pub fn as_raw(&self) -> (raw: u32)
        ensures
            raw == self.spec_raw(),
    {
        self.0
    }
}

impl Endpoint for Listener {
    open spec fn spec_target(&self) -> Target {
        Target::Listener(self.spec_raw())
    }

    open spec fn target_of(raw: u32) -> Target {
        Target::Listener(raw)
    }

    open spec fn listens() -> bool {
        true
    }

    fn new(sock: &Socket, url: &str) -> (r: Result<Call<'static>, Error>) {
        match Url::parse(url) {
            Ok(url) => Ok(Call::CreateListener { socket: sock.as_raw(), url }),
            Err(e) => Err(e),
        }
    }

    fn opened(code: i32, raw: u32) -> (r: Result<Listener, Error>)
        ensures
            code == 0 ==> (r matches Ok(endpoint) && endpoint.spec_raw() == raw),
    {
        answer(code, Listener(raw))
    }

    fn start_with_flags(&mut self, flags: i32) -> (call: Call<'static>) {
        Call::Start { endpoint: Target::Listener(self.0), flags }
    }

    fn close(self) -> (call: Call<'static>) {
        Call::Close { target: Target::Listener(self.0) }
    }

    fn get_option<'a, T: GetOption, E: Fn(Call<'a>) -> Result<OptionReading, Error>>(
        &self,
        name: OptionName<'a>,
        engine: E,
    ) -> (r: Result<T, Error>) {
        read_option(Target::Listener(self.0), name, engine)
    }

    fn set_option<'a, T: SetOption>(&mut self, name: OptionName<'a>, value: &T) -> (call: Call<'a>) {
        write_option(Target::Listener(self.0), name, value)
    }
}

impl Dialer {
    /// The engine's handle.
    pub closed spec fn spec_raw(&self) -> u32 {
        self.0
    }

    /// Takes over the dialer with the engine's handle `raw`.
    pub fn from_raw(raw: u32) -> (endpoint: Dialer)
        ensures
            endpoint.spec_raw() == raw,
    {
        Dialer(raw)
    }

    /// The engine's handle.
    pub fn as_raw(&self) -> (raw: u32)
        ensures
            raw == self.spec_raw(),
    {
        self.0
    }
}

impl Endpoint for Dialer {
    open spec fn spec_target(&self) -> Target {
        Target::Dialer(self.spec_raw())
    }

    open spec fn target_of(raw: u32) -> Target {
        Target::Dialer(raw)
    }

    open spec fn listens() -> bool {
        false
    }

    fn new(sock: &Socket, url: &str) -> (r: Result<Call<'static>, Error>) {
        match Url::parse(url) {
            Ok(url) => Ok(Call::CreateDialer { socket: sock.as_raw(), url }),
            Err(e) => Err(e),
        }
    }

    fn opened(code: i32, raw: u32) -> (r: Result<Dialer, Error>)
        ensures
            code == 0 ==> (r matches Ok(endpoint) && endpoint.spec_raw() == raw),
    {
        answer(code, Dialer(raw))
    }

    fn start_with_flags(&mut self, flags: i32) -> (call: Call<'static>) {
        Call::Start { endpoint: Target::Dialer(self.0), flags }
    }

    fn close(self) -> (call: Call<'static>) {
        Call::Close { target: Target::Dialer(self.0) }
    }

    fn get_option<'a, T: GetOption, E: Fn(Call<'a>) -> Result<OptionReading, Error>>(
        &self,
        name: OptionName<'a>,
        engine: E,
    ) -> (r: Result<T, Error>) {
        read_option(Target::Dialer(self.0), name, engine)
    }

    fn set_option<'a, T: SetOption>(&mut self, name: OptionName<'a>, value: &T) -> (call: Call<'a>) {
        write_option(Target::Dialer(self.0), name, value)
    }
}

} // verus!
