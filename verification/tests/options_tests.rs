use std::cell::RefCell;

use nmsg::address::{nng_sockaddr, InetAddr, SocketAddr};
use nmsg::error::{Error, NNG_ECLOSED, NNG_EINVAL};
use nmsg::options::{
    after_probe, after_retry, fetch, probe_capacity, read_option, write_option, GetOption,
    Milliseconds, OptionReading, Probe, SetOption, BUF_SIZE, NNG_OPT_RECVTIMEO,
};
use nmsg::transport::{Call, Level, OptionName, Target};

fn padded(value: &[u8], capacity: usize) -> Vec<u8> {
    let mut data = vec![0u8; capacity];
    let n = value.len().min(capacity);
    data[..n].copy_from_slice(&value[..n]);
    data
}

fn stored(value: Vec<u8>) -> impl Fn(usize) -> Result<OptionReading, Error> {
    move |capacity| Ok(OptionReading { size: value.len(), data: padded(&value, capacity) })
}

#[test]
fn first_probe_offers_the_width_or_the_buffer_size() {
    assert_eq!(BUF_SIZE, 128);
    assert_eq!(probe_capacity(None), 128);
    assert_eq!(probe_capacity(Some(4)), 4);
    assert_eq!(probe_capacity(Some(0)), 0);
    assert_eq!(<i32 as GetOption>::width(), Some(4));
    assert_eq!(<u64 as GetOption>::width(), Some(8));
    assert_eq!(<usize as GetOption>::width(), Some(8));
    assert_eq!(<bool as GetOption>::width(), Some(4));
    assert_eq!(<Milliseconds as GetOption>::width(), Some(4));
    assert_eq!(<Vec<u8> as GetOption>::width(), None);
    assert_eq!(<String as GetOption>::width(), None);
    assert_eq!(<nng_sockaddr as GetOption>::width(), Some(136));
    assert_eq!(<SocketAddr as GetOption>::width(), Some(136));
}

#[test]
fn i32_is_four_bytes_in_twos_complement() {
    assert_eq!(1i32.encode(), vec![1, 0, 0, 0]);
    assert_eq!((-2i32).encode(), vec![0xfe, 0xff, 0xff, 0xff]);
    assert_eq!(0x01020304i32.encode(), vec![4, 3, 2, 1]);
    assert_eq!(i32::MIN.encode(), vec![0, 0, 0, 0x80]);
    assert_eq!(i32::MAX.encode(), vec![0xff, 0xff, 0xff, 0x7f]);
    assert_eq!(7i32.size(), 4);
    assert_eq!(i32::decode(vec![1, 0, 0, 0]), Ok(1));
    assert_eq!(i32::decode(vec![0xfe, 0xff, 0xff, 0xff]), Ok(-2));
    assert_eq!(i32::decode(vec![0, 0, 0, 0x80]), Ok(i32::MIN));
    assert_eq!(i32::decode(vec![0xff, 0xff, 0xff, 0x7f]), Ok(i32::MAX));
}

#[test]
fn scalar_of_the_wrong_size_is_invalid() {
    let invalid = Error::Nng(NNG_EINVAL);
    assert_eq!(i32::decode(vec![1, 0, 0]), Err(invalid));
    assert_eq!(i32::decode(vec![1, 0, 0, 0, 0]), Err(invalid));
    assert_eq!(i32::decode(Vec::new()), Err(invalid));
    assert_eq!(u64::decode(vec![1, 0, 0, 0]), Err(invalid));
    assert_eq!(usize::decode(vec![0; 9]), Err(invalid));
    assert_eq!(bool::decode(vec![1]), Err(invalid));
    assert_eq!(Milliseconds::decode(vec![0; 8]), Err(invalid));
    assert!(matches!(nng_sockaddr::decode(vec![0; 135]), Err(e) if e == invalid));
    assert!(matches!(SocketAddr::decode(vec![0; 137]), Err(e) if e == invalid));
}

#[test]
fn u64_and_usize_are_eight_bytes() {
    assert_eq!(0x0102030405060708u64.encode(), vec![8, 7, 6, 5, 4, 3, 2, 1]);
    assert_eq!(0u64.size(), 8);
    assert_eq!(u64::decode(vec![8, 7, 6, 5, 4, 3, 2, 1]), Ok(0x0102030405060708));
    assert_eq!(u64::decode(vec![0xff; 8]), Ok(u64::MAX));
    assert_eq!(258usize.encode(), vec![2, 1, 0, 0, 0, 0, 0, 0]);
    assert_eq!(258usize.size(), 8);
    assert_eq!(usize::decode(vec![2, 1, 0, 0, 0, 0, 0, 0]), Ok(258));
}

#[test]
fn bool_is_a_number_that_is_zero_or_not() {
    assert_eq!(true.encode(), vec![1, 0, 0, 0]);
    assert_eq!(false.encode(), vec![0, 0, 0, 0]);
    assert_eq!(true.size(), 4);
    assert_eq!(bool::decode(vec![0, 0, 0, 0]), Ok(false));
    assert_eq!(bool::decode(vec![1, 0, 0, 0]), Ok(true));
    assert_eq!(bool::decode(vec![0, 0, 1, 0]), Ok(true));
    assert_eq!(bool::decode(vec![0xff; 4]), Ok(true));
}

#[test]
fn milliseconds_is_a_signed_number() {
    let d = Milliseconds::new(1500);
    assert_eq!(*d.deref(), 1500);
    assert_eq!(d.encode(), vec![0xdc, 0x05, 0, 0]);
    assert_eq!(d.size(), 4);
    assert!(Milliseconds::decode(vec![0xdc, 0x05, 0, 0]) == Ok(d));
    assert!(Milliseconds::decode(vec![0xff; 4]) == Ok(Milliseconds::new(-1)));
    assert!(Milliseconds::decode(vec![0xfe, 0xff, 0xff, 0xff]) == Ok(Milliseconds::new(-2)));
}

#[test]
fn bytes_are_taken_as_they_come() {
    assert_eq!(<Vec<u8>>::decode(vec![1, 0, 2]), Ok(vec![1, 0, 2]));
    assert_eq!(<Vec<u8>>::decode(Vec::new()), Ok(Vec::new()));
    assert_eq!(vec![5u8, 6].encode(), vec![5, 6]);
    assert_eq!(vec![5u8, 6].size(), 2);
}

#[test]
fn text_is_decoded_as_utf8() {
    assert_eq!(String::decode(b"socket-1".to_vec()), Ok(String::from("socket-1")));
    assert_eq!(String::decode(vec![0x68, 0xc3, 0xa9]), Ok(String::from("h\u{e9}")));
    assert_eq!(String::decode(Vec::new()), Ok(String::new()));
}

#[test]
fn text_ends_at_the_first_nul() {
    assert_eq!(String::decode(b"name\0".to_vec()), Ok(String::from("name")));
    assert_eq!(String::decode(b"ab\0cd\0".to_vec()), Ok(String::from("ab")));
    assert_eq!(String::decode(b"ok\0\xff\xfe".to_vec()), Ok(String::from("ok")));
    assert_eq!(String::decode(vec![0]), Ok(String::new()));
}

#[test]
fn text_that_is_not_utf8_is_refused() {
    assert_eq!(String::decode(vec![0xff, 0xfe]), Err(Error::Utf8Error(2)));
    assert_eq!(String::decode(vec![b'a', 0xc3]), Err(Error::Utf8Error(2)));
    assert_eq!(String::decode(vec![0xc3, 0x28, 0, b'x']), Err(Error::Utf8Error(2)));
    assert_eq!(String::decode(vec![0xed, 0xa0, 0x80]), Err(Error::Utf8Error(3)));
}

#[test]
fn address_option_is_decoded_by_family() {
    let mut bytes = vec![0u8; 136];
    bytes[0] = 3;
    bytes[2] = 80;
    bytes[4] = 1;
    match SocketAddr::decode(bytes.clone()) {
        Ok(SocketAddr::Inet(InetAddr::V4 { addr, port })) => {
            assert_eq!(addr, 1);
            assert_eq!(port, 80);
        }
        _ => panic!("not an IPv4 address"),
    }
    assert_eq!(nng_sockaddr::decode(bytes.clone()).unwrap().as_bytes(), &bytes[..]);
    bytes[0] = 200;
    assert!(matches!(SocketAddr::decode(bytes), Ok(SocketAddr::Unspecified)));
}

#[test]
fn after_probe_takes_a_value_that_fits() {
    let reading = OptionReading { size: 3, data: vec![7, 8, 9, 0, 0] };
    match after_probe(None, Ok(reading)) {
        Probe::Value(v) => assert_eq!(v, vec![7, 8, 9]),
        other => panic!("{:?}", other),
    }
    let exact = OptionReading { size: 128, data: vec![1; 128] };
    match after_probe(None, Ok(exact)) {
        Probe::Value(v) => assert_eq!(v, vec![1; 128]),
        other => panic!("{:?}", other),
    }
    let empty = OptionReading { size: 0, data: vec![0; 128] };
    match after_probe(None, Ok(empty)) {
        Probe::Value(v) => assert!(v.is_empty()),
        other => panic!("{:?}", other),
    }
    let fixed = OptionReading { size: 4, data: vec![1, 2, 3, 4, 5, 6] };
    match after_probe(Some(4), Ok(fixed)) {
        Probe::Value(v) => assert_eq!(v, vec![1, 2, 3, 4]),
        other => panic!("{:?}", other),
    }
}

#[test]
fn after_probe_asks_again_for_a_longer_value() {
    let reading = OptionReading { size: 129, data: vec![0; 128] };
    assert!(matches!(after_probe(None, Ok(reading)), Probe::Retry(129)));
    let big = OptionReading { size: 4096, data: Vec::new() };
    assert!(matches!(after_probe(None, Ok(big)), Probe::Retry(4096)));
}

#[test]
fn after_probe_refuses_what_does_not_match() {
    let invalid = Error::Nng(NNG_EINVAL);
    let short = OptionReading { size: 2, data: vec![1, 2, 3, 4] };
    assert!(matches!(after_probe(Some(4), Ok(short)), Probe::Failed(e) if e == invalid));
    let long = OptionReading { size: 8, data: vec![0; 8] };
    assert!(matches!(after_probe(Some(4), Ok(long)), Probe::Failed(e) if e == invalid));
    let hollow = OptionReading { size: 4, data: vec![0; 3] };
    assert!(matches!(after_probe(Some(4), Ok(hollow)), Probe::Failed(e) if e == invalid));
    let thin = OptionReading { size: 10, data: vec![0; 9] };
    assert!(matches!(after_probe(None, Ok(thin)), Probe::Failed(e) if e == invalid));
    let closed = Error::Nng(NNG_ECLOSED);
    assert!(matches!(after_probe(None, Err(closed)), Probe::Failed(e) if e == closed));
    assert!(matches!(after_probe(Some(4), Err(closed)), Probe::Failed(e) if e == closed));
}

#[test]
fn after_retry_takes_what_fits_and_never_asks_again() {
    let fits = OptionReading { size: 200, data: vec![3; 200] };
    assert_eq!(after_retry(200, Ok(fits)), Ok(vec![3; 200]));
    let shrunk = OptionReading { size: 150, data: vec![3; 200] };
    assert_eq!(after_retry(200, Ok(shrunk)), Ok(vec![3; 150]));
    let grown = OptionReading { size: 201, data: vec![3; 200] };
    assert_eq!(after_retry(200, Ok(grown)), Err(Error::Nng(NNG_EINVAL)));
    let hollow = OptionReading { size: 200, data: vec![3; 199] };
    assert_eq!(after_retry(200, Ok(hollow)), Err(Error::Nng(NNG_EINVAL)));
    assert_eq!(after_retry(200, Err(Error::Nng(NNG_ECLOSED))), Err(Error::Nng(NNG_ECLOSED)));
}

#[test]
fn fetch_asks_once_for_a_value_that_fits() {
    let asked = RefCell::new(Vec::new());
    let r = fetch(None, |capacity| {
        asked.borrow_mut().push(capacity);
        Ok(OptionReading { size: 5, data: padded(b"hello", capacity) })
    });
    assert_eq!(r, Ok(b"hello".to_vec()));
    assert_eq!(*asked.borrow(), vec![128]);
}

#[test]
fn fetch_asks_exactly_once_more_for_a_longer_value() {
    let value: Vec<u8> = (0..200).map(|i| i as u8).collect();
    let asked = RefCell::new(Vec::new());
    let r = fetch(None, |capacity| {
        asked.borrow_mut().push(capacity);
        Ok(OptionReading { size: value.len(), data: padded(&value, capacity) })
    });
    assert_eq!(r, Ok(value.clone()));
    assert_eq!(*asked.borrow(), vec![128, 200]);
}

#[test]
fn fetch_gives_up_when_the_value_grows_between_calls() {
    let asked = RefCell::new(Vec::new());
    let r = fetch(None, |capacity| {
        asked.borrow_mut().push(capacity);
        Ok(OptionReading { size: capacity + 100, data: vec![0; capacity] })
    });
    assert_eq!(r, Err(Error::Nng(NNG_EINVAL)));
    assert_eq!(*asked.borrow(), vec![128, 228]);
}

#[test]
fn fetch_of_a_fixed_width_asks_once_with_that_width() {
    let asked = RefCell::new(Vec::new());
    let r = fetch(Some(4), |capacity| {
        asked.borrow_mut().push(capacity);
        Ok(OptionReading { size: 4, data: vec![9, 0, 0, 0] })
    });
    assert_eq!(r, Ok(vec![9, 0, 0, 0]));
    assert_eq!(*asked.borrow(), vec![4]);
    let wide = fetch(Some(4), |_| Ok(OptionReading { size: 300, data: vec![0; 4] }));
    assert_eq!(wide, Err(Error::Nng(NNG_EINVAL)));
}

#[test]
fn fetch_returns_the_error_of_the_getter() {
    let closed = Error::Nng(NNG_ECLOSED);
    assert_eq!(fetch(None, |_| Err(closed)), Err(closed));
    let asked = RefCell::new(0);
    let second = fetch(None, |capacity| {
        *asked.borrow_mut() += 1;
        if capacity == 128 {
            Ok(OptionReading { size: 500, data: vec![0; 128] })
        } else {
            Err(closed)
        }
    });
    assert_eq!(second, Err(closed));
    assert_eq!(*asked.borrow(), 2);
}

#[test]
fn get_option_decodes_what_the_getter_gives() {
    assert_eq!(i32::get_option(stored(vec![0x2a, 0, 0, 0])), Ok(42));
    assert_eq!(u64::get_option(stored(vec![1, 0, 0, 0, 0, 0, 0, 1])), Ok((1 << 56) + 1));
    assert_eq!(bool::get_option(stored(vec![1, 0, 0, 0])), Ok(true));
    assert_eq!(<Vec<u8>>::get_option(stored(vec![1, 2, 3])), Ok(vec![1, 2, 3]));
    assert_eq!(String::get_option(stored(b"pair0\0".to_vec())), Ok(String::from("pair0")));
    assert_eq!(<Vec<u8>>::get_option(stored(vec![7; 1000])), Ok(vec![7; 1000]));
}

#[test]
fn get_option_of_a_mismatched_size_is_invalid() {
    let invalid = Error::Nng(NNG_EINVAL);
    assert_eq!(i32::get_option(stored(vec![1, 0, 0, 0, 0, 0, 0, 0])), Err(invalid));
    assert_eq!(u64::get_option(stored(vec![1, 0, 0, 0])), Err(invalid));
    assert_eq!(usize::get_option(stored(vec![1])), Err(invalid));
    assert!(Milliseconds::get_option(stored(Vec::new())) == Err(invalid));
    assert!(matches!(SocketAddr::get_option(stored(vec![0; 128])), Err(e) if e == invalid));
}

#[test]
fn a_scalar_that_is_set_is_read_back() {
    for v in [0i32, 1, -1, 1000, i32::MIN, i32::MAX] {
        assert_eq!(i32::get_option(stored(v.encode())), Ok(v));
        let d = Milliseconds::new(v);
        assert!(Milliseconds::get_option(stored(d.encode())) == Ok(d));
    }
    for v in [0u64, 1, 0xdead_beef_cafe, u64::MAX] {
        assert_eq!(u64::get_option(stored(v.encode())), Ok(v));
    }
    for v in [0usize, 1, 65536, usize::MAX] {
        assert_eq!(usize::get_option(stored(v.encode())), Ok(v));
    }
    for v in [false, true] {
        assert_eq!(bool::get_option(stored(v.encode())), Ok(v));
    }
    for v in [Vec::new(), vec![0u8], vec![9u8; 128], vec![9u8; 129], vec![1u8; 5000]] {
        assert_eq!(<Vec<u8>>::get_option(stored(v.encode())), Ok(v));
    }
}

#[test]
fn read_option_asks_the_engine_for_that_option() {
    let asked = RefCell::new(Vec::new());
    let name = OptionName { level: Level::Socket, key: NNG_OPT_RECVTIMEO };
    let r: Result<i32, Error> = read_option(Target::Dialer(5), name, |call: Call| match call {
        Call::GetOption { target, name, capacity } => {
            asked.borrow_mut().push((target, name.level, name.key.to_string(), capacity));
            Ok(OptionReading { size: 4, data: vec![0x10, 0x27, 0, 0] })
        }
        _ => Err(Error::Nng(NNG_EINVAL)),
    });
    assert_eq!(r, Ok(10000));
    assert_eq!(
        *asked.borrow(),
        vec![(Target::Dialer(5), Level::Socket, String::from("recv-timeout"), 4usize)]
    );
}

#[test]
fn read_option_retries_once_through_the_engine() {
    let value = vec![b'x'; 300];
    let asked = RefCell::new(Vec::new());
    let name = OptionName { level: Level::Protocol, key: "topics" };
    let r: Result<Vec<u8>, Error> = read_option(Target::Socket(1), name, |call: Call| match call {
        Call::GetOption { capacity, .. } => {
            asked.borrow_mut().push(capacity);
            Ok(OptionReading { size: value.len(), data: padded(&value, capacity) })
        }
        _ => Err(Error::Nng(NNG_EINVAL)),
    });
    assert_eq!(r, Ok(value.clone()));
    assert_eq!(*asked.borrow(), vec![128, 300]);
}

#[test]
fn write_option_hands_over_the_encoded_value() {
    let name = OptionName { level: Level::Socket, key: NNG_OPT_RECVTIMEO };
    match write_option(Target::Listener(8), name, &Milliseconds::new(250)) {
        Call::SetOption { target, name, value } => {
            assert_eq!(target, Target::Listener(8));
            assert_eq!(name.level, Level::Socket);
            assert_eq!(name.key, "recv-timeout");
            assert_eq!(value, vec![250, 0, 0, 0]);
        }
        other => panic!("{:?}", other),
    }
}
