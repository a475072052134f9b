//! Pipes: single connections between two nodes.

use vstd::prelude::*;
use vstd::string::StringSliceAdditionalSpecFns;
use crate::address::SocketAddr;
use crate::bytes::nul_index;
use crate::error::Error;
use crate::options::{
    can_ask, read_option, reads, GetOption, OptionReading, NNG_OPT_LOCADDR, NNG_OPT_REMADDR,
};
use crate::transport::{Call, Level, OptionName, Target};

verus! {

/// One connection between two nodes, named by the engine's handle. A
/// message carries the pipe it arrived on, or is to leave by; the handle is
/// a tag and owns nothing.
#[derive(Clone, Copy, Debug, PartialEq, Eq, Structural)]
pub struct Pipe(u32);

impl Pipe {
    /// The engine's handle.
    pub closed spec fn spec_raw(self) -> u32 {
        self.0
    }

    /// Names the pipe with the engine's handle `raw`.
    pub fn from_raw(raw: u32) -> (pipe: Pipe)
        ensures
            pipe.spec_raw() == raw,
    {
        Pipe(raw)
    }

    /// The engine's handle.
    pub fn as_raw(&self) -> (raw: u32)
        ensures
            raw == self.spec_raw(),
    {
        self.0
    }
}

/// The address that a reading of an address option gives: the address
/// that was read, or none where the reading failed.
pub open spec fn address_of(read: Result<SocketAddr, Error>) -> Option<SocketAddr> {
    match read {
        Ok(addr) => Some(addr),
        Err(_) => None,
    }
}

impl Pipe {
    /// The call that closes the pipe. That can serve to cut off a peer
    /// that is not trusted; ordinarily pipes are closed by the engine.
    pub fn close(&self) -> (call: Call<'static>)
        ensures
            call == (Call::Close { target: Target::Pipe(self.spec_raw()) }),
    {
        Call::Close { target: Target::Pipe(self.0) }
    }

    /// Reads the option `name` of the pipe as a `T`. A name with a NUL
    /// byte is refused with the index of that byte, before the engine is
    /// asked.
    pub fn get_option<'a, T: GetOption, E: Fn(Call<'a>) -> Result<OptionReading, Error>>(
        &self,
        name: &'a str,
        engine: E,
    ) -> (r: Result<T, Error>)
        requires
            can_ask(
                engine,
                Target::Pipe(self.spec_raw()),
                (OptionName { level: Level::Socket, key: name }),
            ),
        ensures
            nul_index(name.spec_bytes()) < name.spec_bytes().len() ==> (r matches Err(e) && e
                == Error::NulByte(nul_index(name.spec_bytes()) as usize)),
            nul_index(name.spec_bytes()) >= name.spec_bytes().len() ==> reads(
                engine,
                Target::Pipe(self.spec_raw()),
                (OptionName { level: Level::Socket, key: name }),
                r,
            ),
    {
        match OptionName::new(Level::Socket, name) {
            Ok(option) => read_option(Target::Pipe(self.0), option, engine),
            Err(e) => Err(e),
        }
    }

    /// The address of the other end of the pipe, or none where the engine
    /// does not give one.
    pub fn remote_addr<E: Fn(Call<'static>) -> Result<OptionReading, Error>>(&self, engine: E) -> (addr:
        Option<SocketAddr>)
        requires
            can_ask(
                engine,
                Target::Pipe(self.spec_raw()),
                (OptionName { level: Level::Socket, key: NNG_OPT_REMADDR }),
            ),
        ensures
            exists|read: Result<SocketAddr, Error>| #[trigger]
                reads(
                    engine,
                    Target::Pipe(self.spec_raw()),
                    (OptionName { level: Level::Socket, key: NNG_OPT_REMADDR }),
                    read,
                ) && addr == address_of(read),
    {
        let read: Result<SocketAddr, Error> = read_option(
            Target::Pipe(self.0),
            OptionName { level: Level::Socket, key: NNG_OPT_REMADDR },
            engine,
        );
        let ghost witness = read;
        let addr = match read {
            Ok(addr) => Some(addr),
            Err(_) => None,
        };
        assert(reads(
            engine,
            Target::Pipe(self.spec_raw()),
            (OptionName { level: Level::Socket, key: NNG_OPT_REMADDR }),
            witness,
        ) && addr == address_of(witness));
        addr
    }

    /// The address of this end of the pipe, or none where the engine does
    /// not give one.
    pub fn local_addr<E: Fn(Call<'static>) -> Result<OptionReading, Error>>(&self, engine: E) -> (addr:
        Option<SocketAddr>)
        requires
            can_ask(
                engine,
                Target::Pipe(self.spec_raw()),
                (OptionName { level: Level::Socket, key: NNG_OPT_LOCADDR }),
            ),
        ensures
            exists|read: Result<SocketAddr, Error>| #[trigger]
                reads(
                    engine,
                    Target::Pipe(self.spec_raw()),
                    (OptionName { level: Level::Socket, key: NNG_OPT_LOCADDR }),
                    read,
                ) && addr == address_of(read),
    {
        let read: Result<SocketAddr, Error> = read_option(
            Target::Pipe(self.0),
            OptionName { level: Level::Socket, key: NNG_OPT_LOCADDR },
            engine,
        );
        let ghost witness = read;
        let addr = match read {
            Ok(addr) => Some(addr),
            Err(_) => None,
        };
        assert(reads(
            engine,
            Target::Pipe(self.spec_raw()),
            (OptionName { level: Level::Socket, key: NNG_OPT_LOCADDR }),
            witness,
        ) && addr == address_of(witness));
        addr
    }
}

/// Two pipes with the same handle are the same pipe.
pub proof fn pipe_is_its_handle(a: Pipe, b: Pipe)
    requires
        a.spec_raw() == b.spec_raw(),
    ensures
        a == b,
{
}

} // verus!
