//! Typed socket options.
//!
//! An option crosses the engine boundary as bytes. Reading one is a
//! dialogue: the library offers a capacity, the engine answers with the
//! size of the value and the buffer as it filled it. A value of fixed width
//! must come back with exactly that width. A value of any length is probed
//! with `BUF_SIZE` bytes and, where it is longer, asked for once more with
//! the size that the engine reported.

use vstd::prelude::*;
use crate::address::{decode_record, nng_sockaddr, SocketAddr, SOCKADDR_SIZE};
use crate::bytes::{find_nul, le_digits, le_value, nul_index, read_le, write_le};
use crate::error::{Error, NNG_EINVAL};
use crate::transport::{Call, OptionName, Target};
use vstd::utf8::{encode_utf8, valid_utf8};

verus! {

/// The capacity offered first for a value of any length.
pub const BUF_SIZE: usize = 128;

pub const NNG_OPT_SOCKNAME: &'static str = "socket-name";
pub const NNG_OPT_RAW: &'static str = "raw";
pub const NNG_OPT_LINGER: &'static str = "linger";
pub const NNG_OPT_RECVBUF: &'static str = "recv-buffer";
pub const NNG_OPT_SENDBUF: &'static str = "send-buffer";
pub const NNG_OPT_RECVFD: &'static str = "recv-fd";
pub const NNG_OPT_SENDFD: &'static str = "send-fd";
pub const NNG_OPT_RECVTIMEO: &'static str = "recv-timeout";
pub const NNG_OPT_SENDTIMEO: &'static str = "send-timeout";
pub const NNG_OPT_LOCADDR: &'static str = "local-address";
pub const NNG_OPT_REMADDR: &'static str = "remote-address";
pub const NNG_OPT_URL: &'static str = "url";
pub const NNG_OPT_MAXTTL: &'static str = "ttl-max";
pub const NNG_OPT_PROTOCOL: &'static str = "protocol";
pub const NNG_OPT_TRANSPORT: &'static str = "transport";
pub const NNG_OPT_RECVMAXSZ: &'static str = "recv-size-max";
pub const NNG_OPT_RECONNMINT: &'static str = "reconnect-time-min";
pub const NNG_OPT_RECONNMAXT: &'static str = "reconnect-time-max";
pub const NNG_OPT_DOMAIN: &'static str = "domain";
pub const NNG_OPT_IPV4ONLY: &'static str = "ipv4-only";
pub const NNG_OPT_RECVPRIO: &'static str = "recv-priority";
pub const NNG_OPT_SENDPRIO: &'static str = "send-priority";
pub const NNG_OPT_TCP_NODELAY: &'static str = "tcp-nodelay";
pub const NNG_OPT_SUB_SUBSCRIBE: &'static str = "sub:subscribe";
pub const NNG_OPT_SUB_UNSUBSCRIBE: &'static str = "sub:unsubscribe";
pub const NNG_OPT_SURVEYOR_SURVEYTIME: &'static str = "surveyor:survey-time";

/// A duration in milliseconds.
#[derive(Copy, Clone, Eq, PartialEq, Structural, Debug)]
pub struct Milliseconds(i32);

impl Milliseconds {
    /// The number of milliseconds.
    pub closed spec fn spec_value(self) -> i32 {
        self.0
    }

    /// The duration of `ms` milliseconds.
    pub fn new(ms: i32) -> (d: Milliseconds)
        ensures
            d.spec_value() == ms,
    {
        Milliseconds(ms)
    }

    /// The number of milliseconds.
    pub fn deref(&self) -> (ms: &i32)
        ensures
            *ms == self.spec_value(),
    {
        &self.0
    }
}

/// Two durations of the same number of milliseconds are equal.
pub proof fn milliseconds_is_its_value(a: Milliseconds, b: Milliseconds)
    requires
        a.spec_value() == b.spec_value(),
    ensures
        a == b,
{
}

/// What the engine answers when asked for an option with a buffer of some
/// capacity: the size of the value, and the buffer as the engine left it.
/// Where the value did not fit, `size` is larger than the capacity offered.
#[derive(Debug)]
pub struct OptionReading {
    pub size: usize,
    pub data: Vec<u8>,
}

/// Where a first answer leaves the dialogue.
pub enum Probed {
    /// The value is there: these are its bytes.
    Value(Seq<u8>),
    /// The value is longer than what was offered: ask once more, with this
    /// capacity.
    Retry(usize),
    /// The option cannot be had.
    Failed(Error),
}

/// The capacity offered first: the width of a value that has one,
/// `BUF_SIZE` otherwise.
pub open spec fn first_capacity(width: Option<usize>) -> usize {
    match width {
        Some(n) => n,
        None => BUF_SIZE,
    }
}

/// What the first answer means. An error of the engine ends the dialogue
/// with that error. A value of fixed width must have exactly that size. A
/// value of any length is taken if it fits in `BUF_SIZE` and asked for
/// again if it does not. A buffer shorter than the size it is said to hold
/// is invalid.
pub open spec fn probed(width: Option<usize>, answer: Result<OptionReading, Error>) -> Probed {
    match answer {
        Err(e) => Probed::Failed(e),
        Ok(reading) => match width {
            Some(n) => if reading.size == n && reading.data@.len() >= n {
                Probed::Value(reading.data@.subrange(0, n as int))
            } else {
                Probed::Failed(Error::Nng(NNG_EINVAL))
            },
            None => if reading.size > BUF_SIZE {
                Probed::Retry(reading.size)
            } else if reading.data@.len() >= reading.size {
                Probed::Value(reading.data@.subrange(0, reading.size as int))
            } else {
                Probed::Failed(Error::Nng(NNG_EINVAL))
            },
        },
    }
}

/// What the second answer means. There is no third: a value that has grown
/// beyond the capacity offered is invalid.
pub open spec fn retried(capacity: usize, answer: Result<OptionReading, Error>) -> Result<
    Seq<u8>,
    Error,
> {
    match answer {
        Err(e) => Err(e),
        Ok(reading) => if reading.size <= capacity && reading.data@.len() >= reading.size {
            Ok(reading.data@.subrange(0, reading.size as int))
        } else {
            Err(Error::Nng(NNG_EINVAL))
        },
    }
}

/// What an engine may answer: `answers(capacity, answer)` holds where
/// `answer` can come back when `capacity` bytes are offered.
pub type Answers = spec_fn(usize, Result<OptionReading, Error>) -> bool;

/// What `getter` may answer.
pub open spec fn answers_of<F: Fn(usize) -> Result<OptionReading, Error>>(getter: F) -> Answers {
    |capacity: usize, answer: Result<OptionReading, Error>| call_ensures(getter, (capacity,), answer)
}

/// Whether `bytes` is what a second call, with `capacity`, can end in.
pub open spec fn obtains_again(
    answers: Answers,
    capacity: usize,
    bytes: Result<Seq<u8>, Error>,
) -> bool {
    exists|second: Result<OptionReading, Error>| #[trigger]
        answers(capacity, second) && bytes == retried(capacity, second)
}

/// Whether `bytes` is what the dialogue can end in, for a value of the
/// given width: some first answer, and where that asks for a retry some
/// second answer, lead to it.
pub open spec fn obtains(answers: Answers, width: Option<usize>, bytes: Result<Seq<u8>, Error>) -> bool {
    exists|first: Result<OptionReading, Error>| #[trigger]
        answers(first_capacity(width), first) && match probed(width, first) {
            Probed::Value(b) => bytes == Ok::<Seq<u8>, Error>(b),
            Probed::Failed(e) => bytes == Err::<Seq<u8>, Error>(e),
            Probed::Retry(capacity) => obtains_again(answers, capacity, bytes),
        }
}

/// Whether the vector or error in `r` is the sequence or error in `bytes`.
pub open spec fn holds(r: Result<Vec<u8>, Error>, bytes: Result<Seq<u8>, Error>) -> bool {
    match (r, bytes) {
        (Ok(v), Ok(b)) => v@ == b,
        (Err(x), Err(e)) => x == e,
        _ => false,
    }
}

/// What follows a first answer.
#[derive(Debug)]
pub enum Probe {
    Value(Vec<u8>),
    Retry(usize),
    Failed(Error),
}

impl View for Probe {
    type V = Probed;

    open spec fn view(&self) -> Probed {
        match *self {
            Probe::Value(v) => Probed::Value(v@),
            Probe::Retry(capacity) => Probed::Retry(capacity),
            Probe::Failed(e) => Probed::Failed(e),
        }
    }
}

/// The capacity to offer first.
pub fn probe_capacity(width: Option<usize>) -> (capacity: usize)
    ensures
        capacity == first_capacity(width),
{
    match width {
        Some(n) => n,
        None => BUF_SIZE,
    }
}

/// Decides what follows the first answer.
pub fn after_probe(width: Option<usize>, answer: Result<OptionReading, Error>) -> (p: Probe)
    ensures
        p@ == probed(width, answer),
{
    match answer {
        Err(e) => Probe::Failed(e),
        Ok(reading) => {
            let size: usize = reading.size;
            let mut data: Vec<u8> = reading.data;
            match width {
                Some(n) => {
                    if size == n && data.len() >= n {
                        data.truncate(n);
                        Probe::Value(data)
                    } else {
                        Probe::Failed(Error::Nng(NNG_EINVAL))
                    }
                },
                None => {
                    if size > BUF_SIZE {
                        Probe::Retry(size)
                    } else if data.len() >= size {
                        data.truncate(size);
                        Probe::Value(data)
                    } else {
                        Probe::Failed(Error::Nng(NNG_EINVAL))
                    }
                },
            }
        },
    }
}

/// Decides what the second answer gives.
pub fn after_retry(capacity: usize, answer: Result<OptionReading, Error>) -> (r: Result<
    Vec<u8>,
    Error,
>)
    ensures
        holds(r, retried(capacity, answer)),
{
    match answer {
        Err(e) => Err(e),
        Ok(reading) => {
            let size: usize = reading.size;
            let mut data: Vec<u8> = reading.data;
            if size <= capacity && data.len() >= size {
                data.truncate(size);
                Ok(data)
            } else {
                Err(Error::Nng(NNG_EINVAL))
            }
        },
    }
}

/// Reads the bytes of an option through `getter`: one call, and a second
/// one only where the first says that a value of any length needs more
/// room than `BUF_SIZE`.
pub fn fetch<F: Fn(usize) -> Result<OptionReading, Error>>(width: Option<usize>, getter: F) -> (r:
    Result<Vec<u8>, Error>)
    requires
        forall|capacity: usize| call_requires(getter, (capacity,)),
    ensures
        exists|bytes: Result<Seq<u8>, Error>| #[trigger]
            obtains(answers_of(getter), width, bytes) && holds(r, bytes),
{
    let first = getter(probe_capacity(width));
    let ghost first_answer = first;
    match after_probe(width, first) {
        Probe::Value(v) => {
            proof {
                let bytes = Ok::<Seq<u8>, Error>(v@);
                assert(answers_of(getter)(first_capacity(width), first_answer));
                assert(obtains(answers_of(getter), width, bytes));
            }
            Ok(v)
        },
        Probe::Failed(e) => {
            proof {
                let bytes = Err::<Seq<u8>, Error>(e);
                assert(answers_of(getter)(first_capacity(width), first_answer));
                assert(obtains(answers_of(getter), width, bytes));
            }
            Err(e)
        },
        Probe::Retry(capacity) => {
            let second = getter(capacity);
            let ghost second_answer = second;
            let r = after_retry(capacity, second);
            proof {
                let bytes = retried(capacity, second_answer);
                assert(answers_of(getter)(first_capacity(width), first_answer));
                assert(answers_of(getter)(capacity, second_answer));
                assert(obtains_again(answers_of(getter), capacity, bytes));
                assert(obtains(answers_of(getter), width, bytes));
            }
            r
        },
    }
}

/// The 32-bit two's complement number in four little-endian bytes.
pub open spec fn signed32(bytes: Seq<u8>) -> int {
    let unsigned = le_value(bytes);
    if unsigned >= 0x8000_0000 {
        unsigned - 0x1_0000_0000
    } else {
        unsigned as int
    }
}

/// The number below 2^32 that stands for `value` in two's complement.
pub open spec fn unsigned32(value: i32) -> nat {
    if value < 0 {
        (value + 0x1_0000_0000) as nat
    } else {
        value as nat
    }
}

/// Reads four bytes as a signed number.
fn read_i32(bytes: &[u8]) -> (value: i32)
    requires
        bytes@.len() == 4,
    ensures
        value == signed32(bytes@),
{
    proof {
        crate::bytes::le_value_bound(bytes@);
        crate::bytes::radix_pow_small(4);
        assert(bytes@.subrange(0, 4) =~= bytes@);
    }
    let unsigned: u64 = read_le(bytes, 0, 4);
    if unsigned >= 0x8000_0000 {
        let shifted: i64 = unsigned as i64 - 0x1_0000_0000;
        shifted as i32
    } else {
        unsigned as i32
    }
}

/// Writes a signed number as four bytes.
fn write_i32(value: i32) -> (bytes: Vec<u8>)
    ensures
        bytes@ == le_digits(unsigned32(value), 4),
{
    let unsigned: u64 = if value < 0 {
        (value as i64 + 0x1_0000_0000) as u64
    } else {
        value as u64
    };
    let mut bytes: Vec<u8> = Vec::new();
    write_le(&mut bytes, unsigned, 4);
    assert(bytes@ =~= le_digits(unsigned32(value), 4));
    bytes
}

/// A type that an option can be read as.
pub trait GetOption: Sized {
    /// The width in bytes of every value of the type, or `None` for a type
    /// whose values have any length.
    spec fn spec_width() -> Option<usize>;

    /// Whether `r` is what the bytes of an option decode to.
    spec fn decoded(bytes: Seq<u8>, r: Result<Self, Error>) -> bool;

    /// The width in bytes of every value of the type, or `None`.
    fn width() -> (w: Option<usize>)
        ensures
            w == Self::spec_width(),
    ;

    /// Decodes the bytes of an option.
    fn decode(bytes: Vec<u8>) -> (r: Result<Self, Error>)
        ensures
            Self::decoded(bytes@, r),
    ;

    /// Reads an option through `getter`, which asks the engine with the
    /// capacity it is given. The bytes are those that the dialogue of
    /// `fetch` ends in; an error of the getter or of the dialogue is
    /// returned as it is.
    fn get_option<F: Fn(usize) -> Result<OptionReading, Error>>(getter: F) -> (r: Result<
        Self,
        Error,
    >)
        requires
            forall|capacity: usize| call_requires(getter, (capacity,)),
        ensures
            exists|bytes: Result<Seq<u8>, Error>| #[trigger]
                obtains(answers_of(getter), Self::spec_width(), bytes) && match bytes {
                    Ok(b) => Self::decoded(b, r),
                    Err(e) => r matches Err(x) && x == e,
                },
    {
        match fetch(Self::width(), getter) {
            Ok(bytes) => Self::decode(bytes),
            Err(e) => Err(e),
        }
    }
}

/// A type that an option can be set from.
pub trait SetOption: Sized {
    /// The bytes that stand for the value.
    spec fn spec_encode(&self) -> Seq<u8>;

    /// The bytes that are handed to the engine.
    fn encode(&self) -> (bytes: Vec<u8>)
        ensures
            bytes@ == self.spec_encode(),
    ;

    /// The number of bytes that are handed to the engine.
    fn size(&self) -> (n: usize)
        ensures
            n == self.spec_encode().len(),
    ;
}

impl GetOption for i32 {
    open spec fn spec_width() -> Option<usize> {
        Some(4)
    }

    open spec fn decoded(bytes: Seq<u8>, r: Result<i32, Error>) -> bool {
        if bytes.len() == 4 {
            r == Ok::<i32, Error>(signed32(bytes) as i32)
        } else {
            r == Err::<i32, Error>(Error::Nng(NNG_EINVAL))
        }
    }

    fn width() -> (w: Option<usize>) {
        Some(4)
    }

    fn decode(bytes: Vec<u8>) -> (r: Result<i32, Error>) {
        if bytes.len() != 4 {
            return Err(Error::Nng(NNG_EINVAL));
        }
        Ok(read_i32(bytes.as_slice()))
    }
}

impl SetOption for i32 {
    open spec fn spec_encode(&self) -> Seq<u8> {
        le_digits(unsigned32(*self), 4)
    }

    fn encode(&self) -> (bytes: Vec<u8>) {
        write_i32(*self)
    }

    fn size(&self) -> (n: usize) {
        proof {
            crate::bytes::le_digits_len(unsigned32(*self), 4);
        }
        4
    }
}

impl GetOption for u64 {
    open spec fn spec_width() -> Option<usize> {
        Some(8)
    }

    open spec fn decoded(bytes: Seq<u8>, r: Result<u64, Error>) -> bool {
        if bytes.len() == 8 {
            r == Ok::<u64, Error>(le_value(bytes) as u64)
        } else {
            r == Err::<u64, Error>(Error::Nng(NNG_EINVAL))
        }
    }

    fn width() -> (w: Option<usize>) {
        Some(8)
    }

    fn decode(bytes: Vec<u8>) -> (r: Result<u64, Error>) {
        if bytes.len() != 8 {
            return Err(Error::Nng(NNG_EINVAL));
        }
        assert(bytes@.subrange(0, 8) =~= bytes@);
        Ok(read_le(bytes.as_slice(), 0, 8))
    }
}

impl SetOption for u64 {
    open spec fn spec_encode(&self) -> Seq<u8> {
        le_digits(*self as nat, 8)
    }

    fn encode(&self) -> (bytes: Vec<u8>) {
        let mut bytes: Vec<u8> = Vec::new();
        write_le(&mut bytes, *self, 8);
        assert(bytes@ =~= le_digits(*self as nat, 8));
        bytes
    }

    fn size(&self) -> (n: usize) {
        proof {
            crate::bytes::le_digits_len(*self as nat, 8);
        }
        8
    }
}

/// A size is exchanged as eight bytes.
impl GetOption for usize {
    open spec fn spec_width() -> Option<usize> {
        Some(8)
    }

    open spec fn decoded(bytes: Seq<u8>, r: Result<usize, Error>) -> bool {
        if bytes.len() == 8 && le_value(bytes) <= usize::MAX {
            r == Ok::<usize, Error>(le_value(bytes) as usize)
        } else {
            r == Err::<usize, Error>(Error::Nng(NNG_EINVAL))
        }
    }

    fn width() -> (w: Option<usize>) {
        Some(8)
    }

    fn decode(bytes: Vec<u8>) -> (r: Result<usize, Error>) {
        if bytes.len() != 8 {
            return Err(Error::Nng(NNG_EINVAL));
        }
        assert(bytes@.subrange(0, 8) =~= bytes@);
        let value: u64 = read_le(bytes.as_slice(), 0, 8);
        if value > usize::MAX as u64 {
            return Err(Error::Nng(NNG_EINVAL));
        }
        Ok(value as usize)
    }
}

impl SetOption for usize {
    open spec fn spec_encode(&self) -> Seq<u8> {
        le_digits(*self as nat, 8)
    }

    fn encode(&self) -> (bytes: Vec<u8>) {
        let mut bytes: Vec<u8> = Vec::new();
        write_le(&mut bytes, *self as u64, 8);
        assert(bytes@ =~= le_digits(*self as nat, 8));
        bytes
    }

    fn size(&self) -> (n: usize) {
        proof {
            crate::bytes::le_digits_len(*self as nat, 8);
        }
        8
    }
}

/// A flag is exchanged as a 32-bit number: zero is `false`, every other
/// number `true`.
impl GetOption for bool {
    open spec fn spec_width() -> Option<usize> {
        Some(4)
    }

    open spec fn decoded(bytes: Seq<u8>, r: Result<bool, Error>) -> bool {
        if bytes.len() == 4 {
            r == Ok::<bool, Error>(signed32(bytes) != 0)
        } else {
            r == Err::<bool, Error>(Error::Nng(NNG_EINVAL))
        }
    }

    fn width() -> (w: Option<usize>) {
        Some(4)
    }

    fn decode(bytes: Vec<u8>) -> (r: Result<bool, Error>) {
        if bytes.len() != 4 {
            return Err(Error::Nng(NNG_EINVAL));
        }
        Ok(read_i32(bytes.as_slice()) != 0)
    }
}

impl SetOption for bool {
    open spec fn spec_encode(&self) -> Seq<u8> {
        le_digits(if *self { 1 } else { 0 }, 4)
    }

    fn encode(&self) -> (bytes: Vec<u8>) {
        write_i32(if *self { 1 } else { 0 })
    }

    fn size(&self) -> (n: usize) {
        proof {
            crate::bytes::le_digits_len(if *self { 1 } else { 0 }, 4);
        }
        4
    }
}

impl GetOption for Milliseconds {
    open spec fn spec_width() -> Option<usize> {
        Some(4)
    }

    open spec fn decoded(bytes: Seq<u8>, r: Result<Milliseconds, Error>) -> bool {
        if bytes.len() == 4 {
            r matches Ok(d) && d.spec_value() == signed32(bytes)
        } else {
            r == Err::<Milliseconds, Error>(Error::Nng(NNG_EINVAL))
        }
    }

    fn width() -> (w: Option<usize>) {
        Some(4)
    }

    fn decode(bytes: Vec<u8>) -> (r: Result<Milliseconds, Error>) {
        if bytes.len() != 4 {
            return Err(Error::Nng(NNG_EINVAL));
        }
        Ok(Milliseconds::new(read_i32(bytes.as_slice())))
    }
}

impl SetOption for Milliseconds {
    open spec fn spec_encode(&self) -> Seq<u8> {
        le_digits(unsigned32(self.spec_value()), 4)
    }

    fn encode(&self) -> (bytes: Vec<u8>) {
        write_i32(*self.deref())
    }

    fn size(&self) -> (n: usize) {
        proof {
            crate::bytes::le_digits_len(unsigned32(self.spec_value()), 4);
        }
        4
    }
}

/// Bytes are taken as they come.
impl GetOption for Vec<u8> {
    open spec fn spec_width() -> Option<usize> {
        None
    }

    open spec fn decoded(bytes: Seq<u8>, r: Result<Vec<u8>, Error>) -> bool {
        r matches Ok(v) && v@ == bytes
    }

    fn width() -> (w: Option<usize>) {
        None
    }

    fn decode(bytes: Vec<u8>) -> (r: Result<Vec<u8>, Error>) {
        Ok(bytes)
    }
}

impl SetOption for Vec<u8> {
    open spec fn spec_encode(&self) -> Seq<u8> {
        self@
    }

    fn encode(&self) -> (bytes: Vec<u8>) {
        let bytes = self.clone();
        assert(bytes@ =~= self@);
        bytes
    }

    fn size(&self) -> (n: usize) {
        self.len()
    }
}

impl GetOption for nng_sockaddr {
    open spec fn spec_width() -> Option<usize> {
        Some(SOCKADDR_SIZE)
    }

    open spec fn decoded(bytes: Seq<u8>, r: Result<nng_sockaddr, Error>) -> bool {
        if bytes.len() == SOCKADDR_SIZE {
            r matches Ok(record) && record@ == bytes
        } else {
            r == Err::<nng_sockaddr, Error>(Error::Nng(NNG_EINVAL))
        }
    }

    fn width() -> (w: Option<usize>) {
        Some(SOCKADDR_SIZE)
    }

    fn decode(bytes: Vec<u8>) -> (r: Result<nng_sockaddr, Error>) {
        nng_sockaddr::from_bytes(bytes.as_slice())
    }
}

impl GetOption for SocketAddr {
    open spec fn spec_width() -> Option<usize> {
        Some(SOCKADDR_SIZE)
    }

    open spec fn decoded(bytes: Seq<u8>, r: Result<SocketAddr, Error>) -> bool {
        if bytes.len() == SOCKADDR_SIZE {
            r matches Ok(addr) && addr@ == decode_record(bytes)
        } else {
            r matches Err(e) && e == Error::Nng(NNG_EINVAL)
        }
    }

    fn width() -> (w: Option<usize>) {
        Some(SOCKADDR_SIZE)
    }

    fn decode(bytes: Vec<u8>) -> (r: Result<SocketAddr, Error>) {
        match nng_sockaddr::from_bytes(bytes.as_slice()) {
            Ok(record) => Ok(SocketAddr::from(record)),
            Err(e) => Err(e),
        }
    }
}

/// The text of an option: its bytes up to the first NUL, all of them where
/// there is none.
pub open spec fn text_bytes(bytes: Seq<u8>) -> Seq<u8> {
    bytes.subrange(0, nul_index(bytes))
}

/// Calls `String::from_utf8` and keeps the string it gives. Bytes that are
/// valid UTF-8 become the string that has exactly these bytes; for any other
/// bytes there is no string.
#[verifier::external_body]
fn string_from_utf8(bytes: Vec<u8>) -> (text: Option<String>)
    ensures
        text is Some <==> valid_utf8(bytes@),
        text is Some ==> encode_utf8(text->Some_0@) == bytes@,
{
    String::from_utf8(bytes).ok()
}

/// Text ends at the first NUL byte and must be valid UTF-8.
impl GetOption for String {
    open spec fn spec_width() -> Option<usize> {
        None
    }

    open spec fn decoded(bytes: Seq<u8>, r: Result<String, Error>) -> bool {
        if valid_utf8(text_bytes(bytes)) {
            r matches Ok(s) && encode_utf8(s@) == text_bytes(bytes)
        } else {
            r matches Err(e) && e == Error::Utf8Error(text_bytes(bytes).len() as usize)
        }
    }

    fn width() -> (w: Option<usize>) {
        None
    }

    fn decode(bytes: Vec<u8>) -> (r: Result<String, Error>) {
        let mut text: Vec<u8> = bytes;
        proof {
            crate::bytes::nul_index_is_first(text@);
        }
        match find_nul(text.as_slice()) {
            Some(end) => text.truncate(end),
            None => {},
        }
        assert(text@ =~= text_bytes(bytes@));
        let count: usize = text.len();
        match string_from_utf8(text) {
            Some(s) => Ok(s),
            None => Err(Error::Utf8Error(count)),
        }
    }
}

/// A type whose values can be both set and read: what is set is what is
/// read.
pub trait OptionValue: GetOption + SetOption {
    /// The bytes that stand for a value have the width of the type and
    /// decode to the value.
    proof fn round_trip(&self)
        ensures
            Self::spec_width() matches Some(n) ==> self.spec_encode().len() == n,
            Self::decoded(self.spec_encode(), Ok(*self)),
    ;
}

impl OptionValue for i32 {
    proof fn round_trip(&self) {
        crate::bytes::radix_pow_small(4);
        crate::bytes::le_digits_len(unsigned32(*self), 4);
        crate::bytes::le_value_of_digits(unsigned32(*self), 4);
    }
}

impl OptionValue for u64 {
    proof fn round_trip(&self) {
        crate::bytes::radix_pow_small(8);
        crate::bytes::le_digits_len(*self as nat, 8);
        crate::bytes::le_value_of_digits(*self as nat, 8);
    }
}

impl OptionValue for usize {
    proof fn round_trip(&self) {
        crate::bytes::radix_pow_small(8);
        crate::bytes::le_digits_len(*self as nat, 8);
        crate::bytes::le_value_of_digits(*self as nat, 8);
    }
}

impl OptionValue for bool {
    proof fn round_trip(&self) {
        let number: nat = if *self { 1 } else { 0 };
        crate::bytes::radix_pow_small(4);
        crate::bytes::le_digits_len(number, 4);
        crate::bytes::le_value_of_digits(number, 4);
    }
}

impl OptionValue for Milliseconds {
    proof fn round_trip(&self) {
        crate::bytes::radix_pow_small(4);
        crate::bytes::le_digits_len(unsigned32(self.spec_value()), 4);
        crate::bytes::le_value_of_digits(unsigned32(self.spec_value()), 4);
    }
}

impl OptionValue for Vec<u8> {
    proof fn round_trip(&self) {
    }
}

/// Whether `answer` reports the stored bytes `value` as an engine does
/// that keeps what it was given: the size is that of the value, and where
/// the value fits in `capacity`, the buffer starts with it.
pub open spec fn faithful(capacity: usize, value: Seq<u8>, answer: Result<OptionReading, Error>) -> bool {
    answer matches Ok(reading) && reading.size == value.len() && (value.len() <= capacity ==> {
        &&& reading.data@.len() >= value.len()
        &&& reading.data@.subrange(0, value.len() as int) == value
    })
}

/// Against an engine that hands back what was stored, the dialogue ends in
/// the stored bytes: at once where they fit in what was offered first, and
/// after the one retry, with their own length as capacity, where they do
/// not. This holds for a value of any length and for one whose fixed width
/// is the length of the stored bytes.
pub proof fn stored_bytes_are_read_back(
    width: Option<usize>,
    value: Seq<u8>,
    first: Result<OptionReading, Error>,
    second: Result<OptionReading, Error>,
)
    requires
        value.len() <= usize::MAX,
        width matches Some(n) ==> n == value.len(),
        faithful(first_capacity(width), value, first),
        faithful(value.len() as usize, value, second),
    ensures
        match probed(width, first) {
            Probed::Value(bytes) => bytes == value,
            Probed::Retry(capacity) => capacity == value.len() && value.len() > BUF_SIZE && retried(
                capacity,
                second,
            ) == Ok::<Seq<u8>, Error>(value),
            Probed::Failed(_) => false,
        },
{
}

/// What `engine` may answer when it is asked for the option `name` of
/// `target`.
pub open spec fn engine_answers<'a, E: Fn(Call<'a>) -> Result<OptionReading, Error>>(
    engine: E,
    target: Target,
    name: OptionName<'a>,
) -> Answers {
    |capacity: usize, answer: Result<OptionReading, Error>|
        call_ensures(engine, (Call::GetOption { target, name, capacity },), answer)
}

/// Whether `engine` can be asked for the option `name` of `target`,
/// whatever capacity is offered.
pub open spec fn can_ask<'a, E: Fn(Call<'a>) -> Result<OptionReading, Error>>(
    engine: E,
    target: Target,
    name: OptionName<'a>,
) -> bool {
    forall|capacity: usize| call_requires(engine, (Call::GetOption { target, name, capacity },))
}

/// Whether `r` is what reading the option `name` of `target` as a `T` can
/// give: the dialogue with the engine ends in some bytes, which decode to
/// `r`, or in an error, which `r` is.
pub open spec fn reads<'a, T: GetOption, E: Fn(Call<'a>) -> Result<OptionReading, Error>>(
    engine: E,
    target: Target,
    name: OptionName<'a>,
    r: Result<T, Error>,
) -> bool {
    exists|bytes: Result<Seq<u8>, Error>| #[trigger]
        obtains(engine_answers(engine, target, name), T::spec_width(), bytes) && match bytes {
            Ok(b) => T::decoded(b, r),
            Err(e) => r matches Err(x) && x == e,
        }
}

/// Reads the option `name` of `target` as a `T`. The engine is asked once,
/// or twice for a value of any length that needs more room than
/// `BUF_SIZE`, and with nothing but calls to read this option.
pub fn read_option<'a, T: GetOption, E: Fn(Call<'a>) -> Result<OptionReading, Error>>(
    target: Target,
    name: OptionName<'a>,
    engine: E,
) -> (r: Result<T, Error>)
    requires
        can_ask(engine, target, name),
    ensures
        reads(engine, target, name, r),
{
    let width: Option<usize> = T::width();
    let first = engine(Call::GetOption { target, name, capacity: probe_capacity(width) });
    let ghost answers = engine_answers(engine, target, name);
    let ghost first_answer = first;
    assert(answers(first_capacity(width), first_answer));
    match after_probe(width, first) {
        Probe::Value(v) => {
            assert(obtains(answers, width, Ok::<Seq<u8>, Error>(v@)));
            T::decode(v)
        },
        Probe::Failed(e) => {
            assert(obtains(answers, width, Err::<Seq<u8>, Error>(e)));
            Err(e)
        },
        Probe::Retry(capacity) => {
            let second = engine(Call::GetOption { target, name, capacity });
            let ghost second_answer = second;
            assert(answers(capacity, second_answer));
            assert(obtains_again(answers, capacity, retried(capacity, second_answer)));
            assert(obtains(answers, width, retried(capacity, second_answer)));
            match after_retry(capacity, second) {
                Ok(v) => T::decode(v),
                Err(e) => Err(e),
            }
        },
    }
}

/// Whether `call` sets the option `name` of `target` to `bytes`.
pub open spec fn sets<'a>(call: Call<'a>, target: Target, name: OptionName<'a>, bytes: Seq<u8>) -> bool {
    call matches Call::SetOption { target: t, name: n, value } && t == target && n == name && value@
        == bytes
}

/// The call that sets the option `name` of `target` to `value`. Its answer
/// is decided by `error_guard`.
pub fn write_option<'a, T: SetOption>(target: Target, name: OptionName<'a>, value: &T) -> (call: Call<
    'a,
>)
    ensures
        sets(call, target, name, value.spec_encode()),
{
    Call::SetOption { target, name, value: value.encode() }
}

/// An option that is set and then read gives the value that was set, for
/// every type that can be both set and read and on every kind of handle,
/// where the engine hands back the bytes that it was given: the dialogue
/// ends in bytes that decode to the value, at once or after the one retry.
pub proof fn option_set_is_option_read<T: OptionValue>(
    value: T,
    first: Result<OptionReading, Error>,
    second: Result<OptionReading, Error>,
)
    requires
        value.spec_encode().len() <= usize::MAX,
        faithful(first_capacity(T::spec_width()), value.spec_encode(), first),
        faithful(value.spec_encode().len() as usize, value.spec_encode(), second),
    ensures
        match probed(T::spec_width(), first) {
            Probed::Value(bytes) => T::decoded(bytes, Ok(value)),
            Probed::Retry(capacity) => retried(capacity, second) matches Ok(bytes) && T::decoded(
                bytes,
                Ok(value),
            ),
            Probed::Failed(_) => false,
        },
{
    value.round_trip();
    stored_bytes_are_read_back(T::spec_width(), value.spec_encode(), first, second);
}

} // verus!
