//! What the sockets of each pattern can do, and the exchanges built on it.
//!
//! `SPSend` holds the operations of a socket that sends, `SPRecv` those of
//! a socket that receives, `Loopback` that of a socket which can be
//! forwarded to itself. A protocol type has the traits that its pattern
//! supports and no others, so an operation that the pattern lacks cannot be
//! written down.
//!
//! An operation gives the call that the engine is to make. An exchange of
//! several steps is taken apart into one function for each step: it takes
//! what the engine answered to the step before and gives the next call, or
//! the result.

use vstd::prelude::*;
use vstd::string::StringSliceAdditionalSpecFns;
use crate::buffer::MessageBuffer;
use crate::error::{Error, NNG_EINVAL};
use crate::message::shorter;
use crate::options::{
    can_ask, reads, sets, write_option, OptionReading, SetOption, NNG_OPT_DOMAIN, NNG_OPT_IPV4ONLY,
    NNG_OPT_MAXTTL, NNG_OPT_RECONNMAXT, NNG_OPT_RECONNMINT, NNG_OPT_RECVBUF, NNG_OPT_RECVFD,
    NNG_OPT_RECVMAXSZ, NNG_OPT_RECVPRIO, NNG_OPT_RECVTIMEO, NNG_OPT_SENDBUF, NNG_OPT_SENDFD,
    NNG_OPT_SENDPRIO, NNG_OPT_SENDTIMEO, NNG_OPT_TCP_NODELAY,
};
use crate::protocols::{
    Bus, Pair, Protocol, Pub, Pull, Push, Rep, Req, Respondent, Sub, Surveyor,
};
use crate::socket::attaches;
use crate::transport::{Call, Domain, Level, OptionName, Pattern, Target, NNG_FLAG_NONBLOCK};

verus! {

/// The domain that a reading of the domain option stands for: an error of
/// the reading stays, a number that names no domain is invalid.
pub open spec fn domain_of(code: Result<i32, Error>) -> Result<Domain, Error> {
    match code {
        Err(e) => Err(e),
        Ok(c) => match Domain::spec_from_code(c) {
            Some(d) => Ok(d),
            None => Err(Error::Nng(NNG_EINVAL)),
        },
    }
}

/// What every protocol socket can do.
pub trait SPSocket: Protocol {
    /// The type of the sockets that a socket of this type may be bridged to
    /// by a device: `Sub` for `Pub`, `Pair` for `Pair`.
    type Companion: Protocol;

    /// The pattern of the companion type is the companion of the pattern.
    proof fn companion_is_paired()
        ensures
            <Self::Companion as Protocol>::spec_pattern() == Self::spec_pattern().spec_companion(),
    ;

    /// The pattern of the socket.
    fn protocol(&self) -> (p: Pattern)
        ensures
            p == Self::spec_pattern(),
    {
        Self::pattern()
    }

    /// The call that adds a local endpoint at `addr`.
    fn bind(&self, addr: &str) -> (r: Result<Call<'static>, Error>)
        ensures
            attaches(r, self.spec_socket().spec_raw(), addr.spec_bytes(), true),
    {
        self.socket().bind(addr)
    }

    /// The call that adds a remote endpoint at `addr`.
    fn connect(&self, addr: &str) -> (r: Result<Call<'static>, Error>)
        ensures
            attaches(r, self.spec_socket().spec_raw(), addr.spec_bytes(), false),
    {
        self.socket().connect(addr)
    }

    /// The call that forwards every message between this socket and
    /// `companion` until the engine fails. Only a socket of the companion
    /// type can be named.
    fn device(&self, companion: &Self::Companion) -> (call: Call<'static>)
        ensures
            call == (Call::Device {
                first: self.spec_socket().spec_raw(),
                second: companion.spec_socket().spec_raw(),
            }),
    {
        Call::Device { first: self.socket().as_raw(), second: companion.socket().as_raw() }
    }

    /// Reads the domain of the socket.
    fn domain<E: Fn(Call<'static>) -> Result<OptionReading, Error>>(&self, engine: E) -> (r: Result<Domain, Error>)
        requires
            can_ask(
                engine,
                Target::Socket(self.spec_socket().spec_raw()),
                (OptionName { level: Level::Socket, key: NNG_OPT_DOMAIN }),
            ),
        ensures
            exists|code: Result<i32, Error>| #[trigger]
                reads(
                    engine,
                    Target::Socket(self.spec_socket().spec_raw()),
                    (OptionName { level: Level::Socket, key: NNG_OPT_DOMAIN }),
                    code,
                ) && r == domain_of(code),
    {
        let code: Result<i32, Error> = self.socket().get_option(
            OptionName { level: Level::Socket, key: NNG_OPT_DOMAIN },
            engine,
        );
        match code {
            Err(e) => Err(e),
            Ok(c) => match Domain::from_code(c) {
                Some(d) => Ok(d),
                None => Err(Error::Nng(NNG_EINVAL)),
            },
        }
    }

    /// Reads how long to wait, in milliseconds, before a broken connection is set up again.
    fn reconnect_interval<E: Fn(Call<'static>) -> Result<OptionReading, Error>>(&self, engine: E) -> (r: Result<i32, Error>)
        requires
            can_ask(
                engine,
                Target::Socket(self.spec_socket().spec_raw()),
                (OptionName { level: Level::Socket, key: NNG_OPT_RECONNMINT }),
            ),
        ensures
            reads(
                engine,
                Target::Socket(self.spec_socket().spec_raw()),
                (OptionName { level: Level::Socket, key: NNG_OPT_RECONNMINT }),
                r,
            ),
    {
        self.socket().get_option(OptionName { level: Level::Socket, key: NNG_OPT_RECONNMINT }, engine)
    }

    /// The call that sets how long to wait, in milliseconds, before a broken connection is set up again.
    fn set_reconnect_interval(&self, val: i32) -> (call: Call<'static>)
        ensures
            sets(
                call,
                Target::Socket(self.spec_socket().spec_raw()),
                (OptionName { level: Level::Socket, key: NNG_OPT_RECONNMINT }),
                val.spec_encode(),
            ),
    {
        write_option(
            Target::Socket(self.socket().as_raw()),
            OptionName { level: Level::Socket, key: NNG_OPT_RECONNMINT },
            &val,
        )
    }

    /// Reads the longest wait, in milliseconds, between two attempts to set up a connection again.
    fn max_reconnect_interval<E: Fn(Call<'static>) -> Result<OptionReading, Error>>(&self, engine: E) -> (r: Result<i32, Error>)
        requires
            can_ask(
                engine,
                Target::Socket(self.spec_socket().spec_raw()),
                (OptionName { level: Level::Socket, key: NNG_OPT_RECONNMAXT }),
            ),
        ensures
            reads(
                engine,
                Target::Socket(self.spec_socket().spec_raw()),
                (OptionName { level: Level::Socket, key: NNG_OPT_RECONNMAXT }),
                r,
            ),
    {
        self.socket().get_option(OptionName { level: Level::Socket, key: NNG_OPT_RECONNMAXT }, engine)
    }

    /// The call that sets the longest wait, in milliseconds, between two attempts to set up a connection again.
    fn set_max_reconnect_interval(&self, val: i32) -> (call: Call<'static>)
        ensures
            sets(
                call,
                Target::Socket(self.spec_socket().spec_raw()),
                (OptionName { level: Level::Socket, key: NNG_OPT_RECONNMAXT }),
                val.spec_encode(),
            ),
    {
        write_option(
            Target::Socket(self.socket().as_raw()),
            OptionName { level: Level::Socket, key: NNG_OPT_RECONNMAXT },
            &val,
        )
    }

    /// Reads the number of hops after which a message is dropped.
    fn max_ttl<E: Fn(Call<'static>) -> Result<OptionReading, Error>>(&self, engine: E) -> (r: Result<i32, Error>)
        requires
            can_ask(
                engine,
                Target::Socket(self.spec_socket().spec_raw()),
                (OptionName { level: Level::Socket, key: NNG_OPT_MAXTTL }),
            ),
        ensures
            reads(
                engine,
                Target::Socket(self.spec_socket().spec_raw()),
                (OptionName { level: Level::Socket, key: NNG_OPT_MAXTTL }),
                r,
            ),
    {
        self.socket().get_option(OptionName { level: Level::Socket, key: NNG_OPT_MAXTTL }, engine)
    }

    /// The call that sets the number of hops after which a message is dropped.
    fn set_max_ttl(&self, val: i32) -> (call: Call<'static>)
        ensures
            sets(
                call,
                Target::Socket(self.spec_socket().spec_raw()),
                (OptionName { level: Level::Socket, key: NNG_OPT_MAXTTL }),
                val.spec_encode(),
            ),
    {
        write_option(
            Target::Socket(self.socket().as_raw()),
            OptionName { level: Level::Socket, key: NNG_OPT_MAXTTL },
            &val,
        )
    }

    /// Reads whether only IPv4 addresses are used.
    fn ipv4_only<E: Fn(Call<'static>) -> Result<OptionReading, Error>>(&self, engine: E) -> (r: Result<bool, Error>)
        requires
            can_ask(
                engine,
                Target::Socket(self.spec_socket().spec_raw()),
                (OptionName { level: Level::Socket, key: NNG_OPT_IPV4ONLY }),
            ),
        ensures
            reads(
                engine,
                Target::Socket(self.spec_socket().spec_raw()),
                (OptionName { level: Level::Socket, key: NNG_OPT_IPV4ONLY }),
                r,
            ),
    {
        self.socket().get_option(OptionName { level: Level::Socket, key: NNG_OPT_IPV4ONLY }, engine)
    }

    /// The call that sets whether only IPv4 addresses are used.
    fn set_ipv4_only(&self, val: bool) -> (call: Call<'static>)
        ensures
            sets(
                call,
                Target::Socket(self.spec_socket().spec_raw()),
                (OptionName { level: Level::Socket, key: NNG_OPT_IPV4ONLY }),
                val.spec_encode(),
            ),
    {
        write_option(
            Target::Socket(self.socket().as_raw()),
            OptionName { level: Level::Socket, key: NNG_OPT_IPV4ONLY },
            &val,
        )
    }

    /// Reads whether Nagle's algorithm is switched off. The engine fails the call on a transport other than TCP.
    fn tcp_nodelay<E: Fn(Call<'static>) -> Result<OptionReading, Error>>(&self, engine: E) -> (r: Result<bool, Error>)
        requires
            can_ask(
                engine,
                Target::Socket(self.spec_socket().spec_raw()),
                (OptionName { level: Level::Transport, key: NNG_OPT_TCP_NODELAY }),
            ),
        ensures
            reads(
                engine,
                Target::Socket(self.spec_socket().spec_raw()),
                (OptionName { level: Level::Transport, key: NNG_OPT_TCP_NODELAY }),
                r,
            ),
    {
        self.socket().get_option(OptionName { level: Level::Transport, key: NNG_OPT_TCP_NODELAY }, engine)
    }

    /// The call that switches Nagle's algorithm off or on.
    fn set_tcp_nodelay(&self, delay: bool) -> (call: Call<'static>)
        ensures
            sets(
                call,
                Target::Socket(self.spec_socket().spec_raw()),
                (OptionName { level: Level::Transport, key: NNG_OPT_TCP_NODELAY }),
                delay.spec_encode(),
            ),
    {
        write_option(
            Target::Socket(self.socket().as_raw()),
            OptionName { level: Level::Transport, key: NNG_OPT_TCP_NODELAY },
            &delay,
        )
    }
}

/// Whether `r` is what copying a received message into `buffer` gives: an
/// error stays and leaves the buffer as it was; of a message as much as the
/// buffer has room for is copied to its start, and the result is the length
/// of the message, which may be more than was copied.
pub open spec fn copied(
    before: Seq<u8>,
    after: Seq<u8>,
    received: Result<MessageBuffer, Error>,
    r: Result<usize, Error>,
) -> bool {
    match received {
        Err(e) => r == Err::<usize, Error>(e) && after == before,
        Ok(message) => {
            let n = shorter(before.len(), message@.len()) as int;
            r == Ok::<usize, Error>(message@.len() as usize) && after == message@.subrange(0, n)
                + before.subrange(n, before.len() as int)
        },
    }
}

/// What a socket that receives can do.
pub trait SPRecv: SPSocket {
    /// The pattern of the type receives.
    proof fn receives()
        ensures
            Self::spec_pattern().spec_can_receive(),
    ;

    /// The call that waits for a message.
    fn recv(&self) -> (call: Call<'static>)
        ensures
            call == (Call::Receive { socket: self.spec_socket().spec_raw(), flags: 0 }),
    {
        Call::Receive { socket: self.socket().as_raw(), flags: 0 }
    }

    /// The call that takes a message if one is there and fails as a call
    /// that would block if not.
    fn recv_nb(&self) -> (call: Call<'static>)
        ensures
            call == (Call::Receive {
                socket: self.spec_socket().spec_raw(),
                flags: NNG_FLAG_NONBLOCK,
            }),
    {
        Call::Receive { socket: self.socket().as_raw(), flags: NNG_FLAG_NONBLOCK }
    }

    /// Copies what `recv` or `recv_nb` gave into `buffer`. A message that
    /// is longer than the buffer is cut; the result is its full length.
    fn recv_buf(&self, buffer: &mut [u8], received: Result<MessageBuffer, Error>) -> (r: Result<
        usize,
        Error,
    >)
        ensures
            copied(old(buffer)@, final(buffer)@, received, r),
    {
        match received {
            Err(e) => Err(e),
            Ok(message) => {
                let room: usize = buffer.len();
                let have: usize = message.len();
                let n: usize = if room <= have { room } else { have };
                let mut i: usize = 0;
                while i < n
                    invariant
                        i <= n,
                        n <= room,
                        n <= have,
                        have == message@.len(),
                        room == buffer@.len(),
                        room == old(buffer)@.len(),
                        forall|k: int| 0 <= k < i ==> buffer@[k] == message@[k],
                        forall|k: int| i <= k < room ==> buffer@[k] == old(buffer)@[k],
                    decreases n - i,
                {
                    buffer[i] = message.index(i);
                    i = i + 1;
                }
                assert(buffer@ =~= message@.subrange(0, n as int) + old(buffer)@.subrange(
                    n as int,
                    room as int,
                ));
                Ok(have)
            },
        }
    }

    /// Reads the size of the receive buffer.
    fn rcv_buffer<E: Fn(Call<'static>) -> Result<OptionReading, Error>>(&self, engine: E) -> (r: Result<i32, Error>)
        requires
            can_ask(
                engine,
                Target::Socket(self.spec_socket().spec_raw()),
                (OptionName { level: Level::Socket, key: NNG_OPT_RECVBUF }),
            ),
        ensures
            reads(
                engine,
                Target::Socket(self.spec_socket().spec_raw()),
                (OptionName { level: Level::Socket, key: NNG_OPT_RECVBUF }),
                r,
            ),
    {
        self.socket().get_option(OptionName { level: Level::Socket, key: NNG_OPT_RECVBUF }, engine)
    }

    /// The call that sets the size of the receive buffer.
    fn set_rcv_buffer(&self, val: i32) -> (call: Call<'static>)
        ensures
            sets(
                call,
                Target::Socket(self.spec_socket().spec_raw()),
                (OptionName { level: Level::Socket, key: NNG_OPT_RECVBUF }),
                val.spec_encode(),
            ),
    {
        write_option(
            Target::Socket(self.socket().as_raw()),
            OptionName { level: Level::Socket, key: NNG_OPT_RECVBUF },
            &val,
        )
    }

    /// Reads the largest message that is received; a negative number stands for no limit.
    fn rcv_max_size<E: Fn(Call<'static>) -> Result<OptionReading, Error>>(&self, engine: E) -> (r: Result<i32, Error>)
        requires
            can_ask(
                engine,
                Target::Socket(self.spec_socket().spec_raw()),
                (OptionName { level: Level::Socket, key: NNG_OPT_RECVMAXSZ }),
            ),
        ensures
            reads(
                engine,
                Target::Socket(self.spec_socket().spec_raw()),
                (OptionName { level: Level::Socket, key: NNG_OPT_RECVMAXSZ }),
                r,
            ),
    {
        self.socket().get_option(OptionName { level: Level::Socket, key: NNG_OPT_RECVMAXSZ }, engine)
    }

    /// The call that sets the largest message that is received; a negative number stands for no limit.
    fn set_rcv_max_size(&self, val: i32) -> (call: Call<'static>)
        ensures
            sets(
                call,
                Target::Socket(self.spec_socket().spec_raw()),
                (OptionName { level: Level::Socket, key: NNG_OPT_RECVMAXSZ }),
                val.spec_encode(),
            ),
    {
        write_option(
            Target::Socket(self.socket().as_raw()),
            OptionName { level: Level::Socket, key: NNG_OPT_RECVMAXSZ },
            &val,
        )
    }

    /// Reads how long a receive waits, in milliseconds.
    fn rcv_timeout<E: Fn(Call<'static>) -> Result<OptionReading, Error>>(&self, engine: E) -> (r: Result<i32, Error>)
        requires
            can_ask(
                engine,
                Target::Socket(self.spec_socket().spec_raw()),
                (OptionName { level: Level::Socket, key: NNG_OPT_RECVTIMEO }),
            ),
        ensures
            reads(
                engine,
                Target::Socket(self.spec_socket().spec_raw()),
                (OptionName { level: Level::Socket, key: NNG_OPT_RECVTIMEO }),
                r,
            ),
    {
        self.socket().get_option(OptionName { level: Level::Socket, key: NNG_OPT_RECVTIMEO }, engine)
    }

    /// The call that sets how long a receive waits, in milliseconds.
    fn set_rcv_timeout(&self, val: i32) -> (call: Call<'static>)
        ensures
            sets(
                call,
                Target::Socket(self.spec_socket().spec_raw()),
                (OptionName { level: Level::Socket, key: NNG_OPT_RECVTIMEO }),
                val.spec_encode(),
            ),
    {
        write_option(
            Target::Socket(self.socket().as_raw()),
            OptionName { level: Level::Socket, key: NNG_OPT_RECVTIMEO },
            &val,
        )
    }

    /// Reads the receiving priority of the endpoints that are added from now on.
    fn rcv_priority<E: Fn(Call<'static>) -> Result<OptionReading, Error>>(&self, engine: E) -> (r: Result<i32, Error>)
        requires
            can_ask(
                engine,
                Target::Socket(self.spec_socket().spec_raw()),
                (OptionName { level: Level::Socket, key: NNG_OPT_RECVPRIO }),
            ),
        ensures
            reads(
                engine,
                Target::Socket(self.spec_socket().spec_raw()),
                (OptionName { level: Level::Socket, key: NNG_OPT_RECVPRIO }),
                r,
            ),
    {
        self.socket().get_option(OptionName { level: Level::Socket, key: NNG_OPT_RECVPRIO }, engine)
    }

    /// The call that sets the receiving priority of the endpoints that are added from now on.
    fn set_rcv_priority(&self, val: i32) -> (call: Call<'static>)
        ensures
            sets(
                call,
                Target::Socket(self.spec_socket().spec_raw()),
                (OptionName { level: Level::Socket, key: NNG_OPT_RECVPRIO }),
                val.spec_encode(),
            ),
    {
        write_option(
            Target::Socket(self.socket().as_raw()),
            OptionName { level: Level::Socket, key: NNG_OPT_RECVPRIO },
            &val,
        )
    }

    /// Reads the file descriptor that becomes readable when a message can be received.
    fn recv_poll_fd<E: Fn(Call<'static>) -> Result<OptionReading, Error>>(&self, engine: E) -> (r: Result<i32, Error>)
        requires
            can_ask(
                engine,
                Target::Socket(self.spec_socket().spec_raw()),
                (OptionName { level: Level::Socket, key: NNG_OPT_RECVFD }),
            ),
        ensures
            reads(
                engine,
                Target::Socket(self.spec_socket().spec_raw()),
                (OptionName { level: Level::Socket, key: NNG_OPT_RECVFD }),
                r,
            ),
    {
        self.socket().get_option(OptionName { level: Level::Socket, key: NNG_OPT_RECVFD }, engine)
    }
}

/// What a socket that sends can do.
pub trait SPSend: SPSocket {
    /// The pattern of the type sends.
    proof fn sends()
        ensures
            Self::spec_pattern().spec_can_send(),
    ;

    /// The call that sends `buffer` and waits until it can be sent. The
    /// buffer goes into the call.
    fn send(&self, buffer: MessageBuffer) -> (call: Call<'static>)
        ensures
            call == (Call::Send { socket: self.spec_socket().spec_raw(), buffer, flags: 0 }),
    {
        Call::Send { socket: self.socket().as_raw(), buffer, flags: 0 }
    }

    /// The call that sends `buffer` if that can be done at once and fails
    /// as a call that would block if not.
    fn send_nb(&self, buffer: MessageBuffer) -> (call: Call<'static>)
        ensures
            call == (Call::Send {
                socket: self.spec_socket().spec_raw(),
                buffer,
                flags: NNG_FLAG_NONBLOCK,
            }),
    {
        Call::Send { socket: self.socket().as_raw(), buffer, flags: NNG_FLAG_NONBLOCK }
    }

    /// The call that sends a copy of `buffer` and waits until it can be
    /// sent.
    fn send_buf(&self, buffer: &[u8]) -> (call: Call<'static>)
        ensures
            call matches Call::Send { socket, buffer: copy, flags } && socket
                == self.spec_socket().spec_raw() && copy@ == buffer@ && flags == 0,
    {
        Call::Send { socket: self.socket().as_raw(), buffer: MessageBuffer::from_slice(buffer), flags: 0 }
    }

    /// The call that sends a copy of `buffer` if that can be done at once.
    fn send_buf_nb(&self, buffer: &[u8]) -> (call: Call<'static>)
        ensures
            call matches Call::Send { socket, buffer: copy, flags } && socket
                == self.spec_socket().spec_raw() && copy@ == buffer@ && flags == NNG_FLAG_NONBLOCK,
    {
        Call::Send {
            socket: self.socket().as_raw(),
            buffer: MessageBuffer::from_slice(buffer),
            flags: NNG_FLAG_NONBLOCK,
        }
    }

    /// Reads the size of the send buffer.
    fn send_buffer<E: Fn(Call<'static>) -> Result<OptionReading, Error>>(&self, engine: E) -> (r: Result<i32, Error>)
        requires
            can_ask(
                engine,
                Target::Socket(self.spec_socket().spec_raw()),
                (OptionName { level: Level::Socket, key: NNG_OPT_SENDBUF }),
            ),
        ensures
            reads(
                engine,
                Target::Socket(self.spec_socket().spec_raw()),
                (OptionName { level: Level::Socket, key: NNG_OPT_SENDBUF }),
                r,
            ),
    {
        self.socket().get_option(OptionName { level: Level::Socket, key: NNG_OPT_SENDBUF }, engine)
    }

    /// The call that sets the size of the send buffer.
    fn set_send_buffer(&self, val: i32) -> (call: Call<'static>)
        ensures
            sets(
                call,
                Target::Socket(self.spec_socket().spec_raw()),
                (OptionName { level: Level::Socket, key: NNG_OPT_SENDBUF }),
                val.spec_encode(),
            ),
    {
        write_option(
            Target::Socket(self.socket().as_raw()),
            OptionName { level: Level::Socket, key: NNG_OPT_SENDBUF },
            &val,
        )
    }

    /// Reads how long a send waits, in milliseconds.
    fn send_timeout<E: Fn(Call<'static>) -> Result<OptionReading, Error>>(&self, engine: E) -> (r: Result<i32, Error>)
        requires
            can_ask(
                engine,
                Target::Socket(self.spec_socket().spec_raw()),
                (OptionName { level: Level::Socket, key: NNG_OPT_SENDTIMEO }),
            ),
        ensures
            reads(
                engine,
                Target::Socket(self.spec_socket().spec_raw()),
                (OptionName { level: Level::Socket, key: NNG_OPT_SENDTIMEO }),
                r,
            ),
    {
        self.socket().get_option(OptionName { level: Level::Socket, key: NNG_OPT_SENDTIMEO }, engine)
    }

    /// The call that sets how long a send waits, in milliseconds.
    fn set_send_timeout(&self, val: i32) -> (call: Call<'static>)
        ensures
            sets(
                call,
                Target::Socket(self.spec_socket().spec_raw()),
                (OptionName { level: Level::Socket, key: NNG_OPT_SENDTIMEO }),
                val.spec_encode(),
            ),
    {
        write_option(
            Target::Socket(self.socket().as_raw()),
            OptionName { level: Level::Socket, key: NNG_OPT_SENDTIMEO },
            &val,
        )
    }

    /// Reads the sending priority of the endpoints that are added from now on.
    fn send_priority<E: Fn(Call<'static>) -> Result<OptionReading, Error>>(&self, engine: E) -> (r: Result<i32, Error>)
        requires
            can_ask(
                engine,
                Target::Socket(self.spec_socket().spec_raw()),
                (OptionName { level: Level::Socket, key: NNG_OPT_SENDPRIO }),
            ),
        ensures
            reads(
                engine,
                Target::Socket(self.spec_socket().spec_raw()),
                (OptionName { level: Level::Socket, key: NNG_OPT_SENDPRIO }),
                r,
            ),
    {
        self.socket().get_option(OptionName { level: Level::Socket, key: NNG_OPT_SENDPRIO }, engine)
    }

    /// The call that sets the sending priority of the endpoints that are added from now on.
    fn set_send_priority(&self, val: i32) -> (call: Call<'static>)
        ensures
            sets(
                call,
                Target::Socket(self.spec_socket().spec_raw()),
                (OptionName { level: Level::Socket, key: NNG_OPT_SENDPRIO }),
                val.spec_encode(),
            ),
    {
        write_option(
            Target::Socket(self.socket().as_raw()),
            OptionName { level: Level::Socket, key: NNG_OPT_SENDPRIO },
            &val,
        )
    }

    /// Reads the file descriptor that becomes readable when a message can be sent.
    fn send_poll_fd<E: Fn(Call<'static>) -> Result<OptionReading, Error>>(&self, engine: E) -> (r: Result<i32, Error>)
        requires
            can_ask(
                engine,
                Target::Socket(self.spec_socket().spec_raw()),
                (OptionName { level: Level::Socket, key: NNG_OPT_SENDFD }),
            ),
        ensures
            reads(
                engine,
                Target::Socket(self.spec_socket().spec_raw()),
                (OptionName { level: Level::Socket, key: NNG_OPT_SENDFD }),
                r,
            ),
    {
        self.socket().get_option(OptionName { level: Level::Socket, key: NNG_OPT_SENDFD }, engine)
    }
}

/// What a socket can do that talks to sockets of its own type.
pub trait Loopback: SPSocket {
    /// The pattern of the type can be forwarded to itself.
    proof fn loops()
        ensures
            Self::spec_pattern().spec_can_loopback(),
    ;

    /// The call that forwards every message of this socket back to it
    /// until the engine fails.
    fn loopback_device(&self) -> (call: Call<'static>)
        ensures
            call == (Call::Device { first: self.spec_socket().spec_raw(), second: 0 }),
    {
        Call::Device { first: self.socket().as_raw(), second: 0 }
    }
}

impl SPSocket for Pub {
    type Companion = Sub;

    proof fn companion_is_paired() {
    }
}

impl SPSend for Pub {
    proof fn sends() {
    }
}

impl SPSocket for Sub {
    type Companion = Pub;

    proof fn companion_is_paired() {
    }
}

impl SPRecv for Sub {
    proof fn receives() {
    }
}

impl SPSocket for Bus {
    type Companion = Bus;

    proof fn companion_is_paired() {
    }
}

impl SPSend for Bus {
    proof fn sends() {
    }
}

impl SPRecv for Bus {
    proof fn receives() {
    }
}

impl Loopback for Bus {
    proof fn loops() {
    }
}

impl SPSocket for Req {
    type Companion = Rep;

    proof fn companion_is_paired() {
    }
}

impl SPSend for Req {
    proof fn sends() {
    }
}

impl SPRecv for Req {
    proof fn receives() {
    }
}

impl SPSocket for Rep {
    type Companion = Req;

    proof fn companion_is_paired() {
    }
}

impl SPSend for Rep {
    proof fn sends() {
    }
}

impl SPRecv for Rep {
    proof fn receives() {
    }
}

impl SPSocket for Push {
    type Companion = Pull;

    proof fn companion_is_paired() {
    }
}

impl SPSend for Push {
    proof fn sends() {
    }
}

impl SPSocket for Pull {
    type Companion = Push;

    proof fn companion_is_paired() {
    }
}

impl SPRecv for Pull {
    proof fn receives() {
    }
}

impl SPSocket for Surveyor {
    type Companion = Respondent;

    proof fn companion_is_paired() {
    }
}

impl SPSend for Surveyor {
    proof fn sends() {
    }
}

impl SPRecv for Surveyor {
    proof fn receives() {
    }
}

impl SPSocket for Respondent {
    type Companion = Surveyor;

    proof fn companion_is_paired() {
    }
}

impl SPSend for Respondent {
    proof fn sends() {
    }
}

impl SPRecv for Respondent {
    proof fn receives() {
    }
}

impl SPSocket for Pair {
    type Companion = Pair;

    proof fn companion_is_paired() {
    }
}

impl SPSend for Pair {
    proof fn sends() {
    }
}

impl SPRecv for Pair {
    proof fn receives() {
    }
}

impl Loopback for Pair {
    proof fn loops() {
    }
}

/// A type that has the operations of a receiver is neither a publisher
/// nor a pusher: no impl of `SPRecv` for one of them can be verified.
pub proof fn receiver_is_not_send_only<T: SPRecv>()
    ensures
        T::spec_pattern() != Pattern::Pub,
        T::spec_pattern() != Pattern::Push,
{
    T::receives();
}

/// A type that has the operations of a sender is neither a subscriber nor
/// a puller.
pub proof fn sender_is_not_receive_only<T: SPSend>()
    ensures
        T::spec_pattern() != Pattern::Sub,
        T::spec_pattern() != Pattern::Pull,
{
    T::sends();
}

/// A type that can be forwarded to itself is a bus or a pair, and is its
/// own companion.
pub proof fn loopback_is_its_own_companion<T: Loopback>()
    ensures
        T::spec_pattern() == Pattern::Bus || T::spec_pattern() == Pattern::Pair,
        <T::Companion as Protocol>::spec_pattern() == T::spec_pattern(),
{
    T::loops();
    T::companion_is_paired();
}

/// A device bridges a sender to a receiver and a receiver to a sender: the
/// companion of a type that sends has a pattern that receives, and the
/// other way round.
pub proof fn device_bridges_opposites<T: SPSocket>()
    ensures
        T::spec_pattern().spec_can_send() == <T::Companion as Protocol>::spec_pattern().spec_can_receive(),
        T::spec_pattern().spec_can_receive() == <T::Companion as Protocol>::spec_pattern().spec_can_send(),
{
    T::companion_is_paired();
    crate::transport::companions_pair_up(T::spec_pattern());
}

} // verus!
