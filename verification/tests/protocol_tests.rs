use nmsg::buffer::MessageBuffer;
use nmsg::error::{Error, NNG_ECLOSED, NNG_EINVAL, NNG_ENOTSUP, NNG_ETIMEDOUT};
use nmsg::options::OptionReading;
use nmsg::protocol::{Loopback, SPRecv, SPSend, SPSocket};
use nmsg::protocols::{
    Bus, Pair, Protocol, Pub, Pull, Push, Rep, Req, Respondent, Sub, Surveyor,
};
use nmsg::socket::Socket;
use nmsg::transport::{Call, Domain, Level, Pattern, Target};

fn open<P: Protocol>(raw: u32) -> P {
    P::opened(0, raw).unwrap()
}

fn number(value: i32, key: &'static str, level: Level) -> impl Fn(Call<'static>) -> Result<OptionReading, Error> {
    move |call| match call {
        Call::GetOption { target: Target::Socket(_), name, capacity }
            if name.key == key && name.level == level && capacity == 4 =>
        {
            Ok(OptionReading { size: 4, data: value.to_le_bytes().to_vec() })
        }
        _ => Err(Error::Nng(NNG_ENOTSUP)),
    }
}

fn assert_sets(call: Call, raw: u32, key: &str, level: Level, bytes: &[u8]) {
    match call {
        Call::SetOption { target, name, value } => {
            assert_eq!(target, Target::Socket(raw));
            assert_eq!(name.key, key);
            assert_eq!(name.level, level);
            assert_eq!(value, bytes);
        }
        other => panic!("{:?}", other),
    }
}

#[test]
fn each_type_opens_its_own_pattern() {
    assert!(matches!(Pub::new(), Call::Open { domain: Domain::SP, pattern: Pattern::Pub }));
    assert!(matches!(Sub::new(), Call::Open { domain: Domain::SP, pattern: Pattern::Sub }));
    assert!(matches!(Bus::new(), Call::Open { domain: Domain::SP, pattern: Pattern::Bus }));
    assert!(matches!(Req::new(), Call::Open { domain: Domain::SP, pattern: Pattern::Req }));
    assert!(matches!(Rep::new(), Call::Open { domain: Domain::SP, pattern: Pattern::Rep }));
    assert!(matches!(Push::new(), Call::Open { domain: Domain::SP, pattern: Pattern::Push }));
    assert!(matches!(Pull::new(), Call::Open { domain: Domain::SP, pattern: Pattern::Pull }));
    assert!(matches!(
        Surveyor::new(),
        Call::Open { domain: Domain::SP, pattern: Pattern::Surveyor }
    ));
    assert!(matches!(
        Respondent::new(),
        Call::Open { domain: Domain::SP, pattern: Pattern::Respondent }
    ));
    assert!(matches!(Pair::new(), Call::Open { domain: Domain::SP, pattern: Pattern::Pair }));
}

#[test]
fn raw_sockets_open_in_the_raw_domain() {
    assert!(matches!(Pub::new_raw(), Call::Open { domain: Domain::SPRaw, pattern: Pattern::Pub }));
    assert!(matches!(Rep::new_raw(), Call::Open { domain: Domain::SPRaw, pattern: Pattern::Rep }));
    assert!(matches!(Pair::new_raw(), Call::Open { domain: Domain::SPRaw, pattern: Pattern::Pair }));
}

#[test]
fn opened_wraps_the_socket_or_gives_the_error() {
    let p: Pub = open(12);
    assert_eq!(p.socket().as_raw(), 12);
    assert_eq!(p.protocol(), Pattern::Pub);
    assert_eq!(Pub::pattern(), Pattern::Pub);
    assert!(matches!(Pub::opened(9, 12), Err(e) if e == Error::Nng(NNG_ENOTSUP)));
    assert!(matches!(Surveyor::opened(2, 1), Err(e) if e == Error::Nng(2)));
    let s = Sub::from_socket(Socket::from_raw(5));
    assert_eq!(s.socket().as_raw(), 5);
    assert_eq!(s.protocol(), Pattern::Sub);
}

#[test]
fn socket_mut_reaches_the_socket() {
    let mut b: Bus = open(3);
    let call = b.socket_mut().listen("inproc://bus");
    assert!(matches!(call, Ok(Call::Listen { socket: 3, flags: 0, .. })));
    assert_eq!(b.socket().as_raw(), 3);
}

#[test]
fn the_type_agrees_with_the_capability_matrix() {
    fn sends<T: SPSend>() -> Pattern {
        T::pattern()
    }
    fn receives<T: SPRecv>() -> Pattern {
        T::pattern()
    }
    fn loops<T: Loopback>() -> Pattern {
        T::pattern()
    }
    for p in [
        sends::<Pub>(),
        sends::<Push>(),
        sends::<Bus>(),
        sends::<Req>(),
        sends::<Rep>(),
        sends::<Surveyor>(),
        sends::<Respondent>(),
        sends::<Pair>(),
    ] {
        assert!(p.can_send());
    }
    for p in [
        receives::<Sub>(),
        receives::<Pull>(),
        receives::<Bus>(),
        receives::<Req>(),
        receives::<Rep>(),
        receives::<Surveyor>(),
        receives::<Respondent>(),
        receives::<Pair>(),
    ] {
        assert!(p.can_receive());
    }
    for p in [loops::<Bus>(), loops::<Pair>()] {
        assert!(p.can_loopback());
    }
    assert!(!Pub::pattern().can_receive());
    assert!(!Push::pattern().can_receive());
    assert!(!Sub::pattern().can_send());
    assert!(!Pull::pattern().can_send());
}

#[test]
fn the_companion_type_has_the_companion_pattern() {
    fn companion<T: SPSocket>() -> Pattern {
        <T::Companion as Protocol>::pattern()
    }
    assert_eq!(companion::<Pub>(), Pattern::Sub);
    assert_eq!(companion::<Sub>(), Pattern::Pub);
    assert_eq!(companion::<Req>(), Pattern::Rep);
    assert_eq!(companion::<Rep>(), Pattern::Req);
    assert_eq!(companion::<Push>(), Pattern::Pull);
    assert_eq!(companion::<Pull>(), Pattern::Push);
    assert_eq!(companion::<Surveyor>(), Pattern::Respondent);
    assert_eq!(companion::<Respondent>(), Pattern::Surveyor);
    assert_eq!(companion::<Bus>(), Pattern::Bus);
    assert_eq!(companion::<Pair>(), Pattern::Pair);
    assert_eq!(companion::<Pub>(), Pub::pattern().companion());
    assert_eq!(companion::<Pair>(), Pair::pattern().companion());
}

#[test]
fn device_bridges_a_socket_and_its_companion() {
    let p: Pub = open(1);
    let s: Sub = open(2);
    assert!(matches!(p.device(&s), Call::Device { first: 1, second: 2 }));
    assert!(matches!(s.device(&p), Call::Device { first: 2, second: 1 }));
    let a: Pair = open(3);
    let b: Pair = open(4);
    assert!(matches!(a.device(&b), Call::Device { first: 3, second: 4 }));
    let req: Req = open(5);
    let rep: Rep = open(6);
    assert!(matches!(req.device(&rep), Call::Device { first: 5, second: 6 }));
}

#[test]
fn loopback_forwards_a_socket_to_itself() {
    let b: Bus = open(9);
    assert!(matches!(b.loopback_device(), Call::Device { first: 9, second: 0 }));
    let p: Pair = open(10);
    assert!(matches!(p.loopback_device(), Call::Device { first: 10, second: 0 }));
}

#[test]
fn bind_and_connect_attach_endpoints() {
    let p: Push = open(4);
    match p.bind("ipc:///tmp/pipeline.ipc") {
        Ok(Call::Listen { socket, url, flags }) => {
            assert_eq!(socket, 4);
            assert_eq!(url.payload(), b"/tmp/pipeline.ipc");
            assert_eq!(flags, 0);
        }
        other => panic!("{:?}", other),
    }
    let q: Pull = open(5);
    assert!(matches!(q.connect("ipc:///tmp/pipeline.ipc"), Ok(Call::Dial { socket: 5, flags: 0, .. })));
    assert!(matches!(q.connect("ipc:/tmp"), Err(e) if e == Error::Nng(NNG_EINVAL)));
    assert!(matches!(p.bind("tcp://a\0b"), Err(e) if e == Error::NulByte(7)));
}

#[test]
fn send_carries_the_buffer_unchanged() {
    let p: Pub = open(1);
    match p.send(MessageBuffer::from_slice(b"payload")) {
        Call::Send { socket, buffer, flags } => {
            assert_eq!(socket, 1);
            assert_eq!(buffer.as_slice(), b"payload");
            assert_eq!(flags, 0);
        }
        other => panic!("{:?}", other),
    }
    match p.send_nb(MessageBuffer::new(0)) {
        Call::Send { socket, buffer, flags } => {
            assert_eq!(socket, 1);
            assert_eq!(buffer.len(), 0);
            assert_eq!(flags, 2);
        }
        other => panic!("{:?}", other),
    }
}

#[test]
fn send_buf_sends_a_copy() {
    let p: Push = open(2);
    let data = [1u8, 2, 3];
    match p.send_buf(&data) {
        Call::Send { socket, buffer, flags } => {
            assert_eq!(socket, 2);
            assert_eq!(buffer.as_slice(), &data);
            assert_eq!(flags, 0);
        }
        other => panic!("{:?}", other),
    }
    match p.send_buf_nb(&[]) {
        Call::Send { buffer, flags, .. } => {
            assert_eq!(buffer.len(), 0);
            assert_eq!(flags, 2);
        }
        other => panic!("{:?}", other),
    }
}

#[test]
fn recv_waits_and_recv_nb_does_not() {
    let s: Sub = open(3);
    assert!(matches!(s.recv(), Call::Receive { socket: 3, flags: 0 }));
    assert!(matches!(s.recv_nb(), Call::Receive { socket: 3, flags: 2 }));
}

#[test]
fn recv_buf_copies_and_reports_the_full_length() {
    let s: Pull = open(3);
    let mut buffer = [b'.'; 6];
    let r = s.recv_buf(&mut buffer, Ok(MessageBuffer::from_slice(b"abc")));
    assert_eq!(r, Ok(3));
    assert_eq!(&buffer, b"abc...");
    let r = s.recv_buf(&mut buffer, Ok(MessageBuffer::from_slice(b"0123456789")));
    assert_eq!(r, Ok(10));
    assert_eq!(&buffer, b"012345");
    let r = s.recv_buf(&mut buffer, Ok(MessageBuffer::new(0)));
    assert_eq!(r, Ok(0));
    assert_eq!(&buffer, b"012345");
    let r = s.recv_buf(&mut buffer, Err(Error::Nng(NNG_ETIMEDOUT)));
    assert_eq!(r, Err(Error::Nng(NNG_ETIMEDOUT)));
    assert_eq!(&buffer, b"012345");
    let mut none: [u8; 0] = [];
    assert_eq!(s.recv_buf(&mut none, Ok(MessageBuffer::from_slice(b"xy"))), Ok(2));
}

#[test]
fn domain_is_read_from_its_number() {
    let p: Pair = open(1);
    assert_eq!(p.domain(number(1, "domain", Level::Socket)), Ok(Domain::SP));
    assert_eq!(p.domain(number(2, "domain", Level::Socket)), Ok(Domain::SPRaw));
    assert_eq!(p.domain(number(0, "domain", Level::Socket)), Err(Error::Nng(NNG_EINVAL)));
    assert_eq!(p.domain(number(3, "domain", Level::Socket)), Err(Error::Nng(NNG_EINVAL)));
    assert_eq!(
        p.domain(|_call: Call<'static>| Err(Error::Nng(NNG_ECLOSED))),
        Err(Error::Nng(NNG_ECLOSED))
    );
}

#[test]
fn common_options_are_read_and_set() {
    let p: Pair = open(6);
    assert_eq!(p.reconnect_interval(number(100, "reconnect-time-min", Level::Socket)), Ok(100));
    assert_eq!(p.max_reconnect_interval(number(0, "reconnect-time-max", Level::Socket)), Ok(0));
    assert_eq!(p.max_ttl(number(8, "ttl-max", Level::Socket)), Ok(8));
    assert_eq!(p.ipv4_only(number(1, "ipv4-only", Level::Socket)), Ok(true));
    assert_eq!(p.tcp_nodelay(number(0, "tcp-nodelay", Level::Transport)), Ok(false));
    assert_eq!(
        p.tcp_nodelay(number(0, "tcp-nodelay", Level::Socket)),
        Err(Error::Nng(NNG_ENOTSUP))
    );
    assert_sets(p.set_reconnect_interval(250), 6, "reconnect-time-min", Level::Socket, &[250, 0, 0, 0]);
    assert_sets(p.set_max_reconnect_interval(0), 6, "reconnect-time-max", Level::Socket, &[0; 4]);
    assert_sets(p.set_max_ttl(17), 6, "ttl-max", Level::Socket, &[17, 0, 0, 0]);
    assert_sets(p.set_ipv4_only(false), 6, "ipv4-only", Level::Socket, &[0; 4]);
    assert_sets(p.set_tcp_nodelay(true), 6, "tcp-nodelay", Level::Transport, &[1, 0, 0, 0]);
}

#[test]
fn receive_options_are_read_and_set() {
    let s: Sub = open(7);
    assert_eq!(s.rcv_buffer(number(4096, "recv-buffer", Level::Socket)), Ok(4096));
    assert_eq!(s.rcv_max_size(number(-1, "recv-size-max", Level::Socket)), Ok(-1));
    assert_eq!(s.rcv_timeout(number(1000, "recv-timeout", Level::Socket)), Ok(1000));
    assert_eq!(s.rcv_priority(number(8, "recv-priority", Level::Socket)), Ok(8));
    assert_eq!(s.recv_poll_fd(number(5, "recv-fd", Level::Socket)), Ok(5));
    assert_sets(s.set_rcv_buffer(1), 7, "recv-buffer", Level::Socket, &[1, 0, 0, 0]);
    assert_sets(s.set_rcv_max_size(-1), 7, "recv-size-max", Level::Socket, &[0xff; 4]);
    assert_sets(s.set_rcv_timeout(1000), 7, "recv-timeout", Level::Socket, &[0xe8, 3, 0, 0]);
    assert_sets(s.set_rcv_priority(16), 7, "recv-priority", Level::Socket, &[16, 0, 0, 0]);
}

#[test]
fn send_options_are_read_and_set() {
    let p: Pub = open(8);
    assert_eq!(p.send_buffer(number(128, "send-buffer", Level::Socket)), Ok(128));
    assert_eq!(p.send_timeout(number(-1, "send-timeout", Level::Socket)), Ok(-1));
    assert_eq!(p.send_priority(number(1, "send-priority", Level::Socket)), Ok(1));
    assert_eq!(p.send_poll_fd(number(6, "send-fd", Level::Socket)), Ok(6));
    assert_sets(p.set_send_buffer(2), 8, "send-buffer", Level::Socket, &[2, 0, 0, 0]);
    assert_sets(p.set_send_timeout(500), 8, "send-timeout", Level::Socket, &[0xf4, 1, 0, 0]);
    assert_sets(p.set_send_priority(3), 8, "send-priority", Level::Socket, &[3, 0, 0, 0]);
}

#[test]
fn a_timeout_that_is_set_is_read_back() {
    let p: Pair = open(1);
    for ms in [0, 1, 1000, -1, i32::MAX] {
        let stored = match p.set_rcv_timeout(ms) {
            Call::SetOption { value, .. } => value,
            other => panic!("{:?}", other),
        };
        let engine = move |call: Call<'static>| match call {
            Call::GetOption { .. } => Ok(OptionReading { size: stored.len(), data: stored.clone() }),
            _ => Err(Error::Nng(NNG_EINVAL)),
        };
        assert_eq!(p.rcv_timeout(engine), Ok(ms));
    }
}
