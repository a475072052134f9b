use nmsg::error::{Error, NNG_EINVAL, NNG_ENOTSUP};
use nmsg::transport::{
    answer, c_string, Domain, Level, OptionName, Pattern, Scheme, Url, AF_SP, AF_SP_RAW,
    NNG_FLAG_ALLOC, NNG_FLAG_NONBLOCK,
};

const PATTERNS: [Pattern; 10] = [
    Pattern::Pub,
    Pattern::Sub,
    Pattern::Bus,
    Pattern::Req,
    Pattern::Rep,
    Pattern::Push,
    Pattern::Pull,
    Pattern::Surveyor,
    Pattern::Respondent,
    Pattern::Pair,
];

fn refused(text: &str) -> Error {
    match Url::parse(text) {
        Err(e) => e,
        Ok(_) => panic!("{:?} was accepted", text),
    }
}

#[test]
fn url_with_a_known_scheme_is_accepted() {
    let cases = [
        ("inproc://test", Scheme::InProc, "test"),
        ("ipc:///tmp/reqrep.ipc", Scheme::Ipc, "/tmp/reqrep.ipc"),
        ("tcp://127.0.0.1:5555", Scheme::Tcp, "127.0.0.1:5555"),
        ("tcp6://[::1]:5555", Scheme::Tcp6, "[::1]:5555"),
        ("zt://a09acf02337b057b:9993", Scheme::ZeroTier, "a09acf02337b057b:9993"),
        ("inproc://", Scheme::InProc, ""),
        ("tcp://a://b", Scheme::Tcp, "a://b"),
    ];
    for (text, scheme, payload) in cases.iter() {
        let url = Url::parse(text).unwrap();
        assert_eq!(url.scheme(), *scheme);
        assert_eq!(url.as_bytes(), text.as_bytes());
        assert_eq!(url.payload(), payload.as_bytes());
    }
}

#[test]
fn url_with_a_nul_byte_is_refused_with_its_index() {
    assert_eq!(refused("tcp://a\0b"), Error::NulByte(7));
    assert_eq!(refused("\0tcp://ab"), Error::NulByte(0));
    assert_eq!(refused("nothing\0"), Error::NulByte(7));
    assert_eq!(refused("a\0b\0c"), Error::NulByte(1));
}

#[test]
fn url_without_separator_is_invalid() {
    for text in ["", "tcp", "tcp:", "tcp:/", "tcp:/host", "tcp//host", "host:80", ":/"] {
        assert_eq!(refused(text), Error::Nng(NNG_EINVAL));
    }
}

#[test]
fn url_with_an_unknown_scheme_is_not_supported() {
    for text in ["http://host", "://host", "TCP://host", "tcp4://host", "inprocx://a", " tcp://a"] {
        assert_eq!(refused(text), Error::Nng(NNG_ENOTSUP));
    }
}

#[test]
fn c_string_refuses_nul() {
    assert_eq!(c_string("recv-timeout"), Ok(b"recv-timeout".to_vec()));
    assert_eq!(c_string(""), Ok(Vec::new()));
    assert_eq!(c_string("a\0"), Err(Error::NulByte(1)));
    assert_eq!(c_string("\0\0"), Err(Error::NulByte(0)));
}

#[test]
fn option_name_refuses_nul() {
    let name = OptionName::new(Level::Transport, "tcp-nodelay").unwrap();
    assert_eq!(name.level, Level::Transport);
    assert_eq!(name.key, "tcp-nodelay");
    match OptionName::new(Level::Socket, "bad\0name") {
        Err(e) => assert_eq!(e, Error::NulByte(3)),
        Ok(_) => panic!("a name with NUL was accepted"),
    }
}

#[test]
fn domains_have_the_numbers_of_the_engine() {
    assert_eq!(Domain::SP.code(), AF_SP);
    assert_eq!(Domain::SPRaw.code(), AF_SP_RAW);
    assert_eq!(AF_SP, 1);
    assert_eq!(AF_SP_RAW, 2);
    assert_eq!(Domain::from_code(1), Some(Domain::SP));
    assert_eq!(Domain::from_code(2), Some(Domain::SPRaw));
    assert_eq!(Domain::from_code(0), None);
    assert_eq!(Domain::from_code(3), None);
    assert_eq!(Domain::from_code(-1), None);
}

#[test]
fn flags_have_the_numbers_of_the_engine() {
    assert_eq!(NNG_FLAG_ALLOC, 1);
    assert_eq!(NNG_FLAG_NONBLOCK, 2);
}

#[test]
fn capability_matrix_is_as_specified() {
    let send_only = [Pattern::Pub, Pattern::Push];
    let receive_only = [Pattern::Sub, Pattern::Pull];
    for p in PATTERNS.iter() {
        assert_eq!(p.can_send(), !receive_only.contains(p));
        assert_eq!(p.can_receive(), !send_only.contains(p));
        assert_eq!(p.can_loopback(), *p == Pattern::Bus || *p == Pattern::Pair);
        assert!(p.can_send() || p.can_receive());
    }
}

#[test]
fn companions_pair_up() {
    assert_eq!(Pattern::Pub.companion(), Pattern::Sub);
    assert_eq!(Pattern::Sub.companion(), Pattern::Pub);
    assert_eq!(Pattern::Req.companion(), Pattern::Rep);
    assert_eq!(Pattern::Rep.companion(), Pattern::Req);
    assert_eq!(Pattern::Push.companion(), Pattern::Pull);
    assert_eq!(Pattern::Pull.companion(), Pattern::Push);
    assert_eq!(Pattern::Surveyor.companion(), Pattern::Respondent);
    assert_eq!(Pattern::Respondent.companion(), Pattern::Surveyor);
    assert_eq!(Pattern::Bus.companion(), Pattern::Bus);
    assert_eq!(Pattern::Pair.companion(), Pattern::Pair);
    for p in PATTERNS.iter() {
        assert_eq!(p.companion().companion(), *p);
        assert_eq!(p.can_send(), p.companion().can_receive());
        assert_eq!(p.can_receive(), p.companion().can_send());
    }
}

#[test]
fn pattern_numbers_are_those_of_the_engine() {
    assert_eq!(Pattern::Pair.code(), 16);
    assert_eq!(Pattern::Pub.code(), 32);
    assert_eq!(Pattern::Sub.code(), 33);
    assert_eq!(Pattern::Req.code(), 48);
    assert_eq!(Pattern::Rep.code(), 49);
    assert_eq!(Pattern::Push.code(), 80);
    assert_eq!(Pattern::Pull.code(), 81);
    assert_eq!(Pattern::Surveyor.code(), 98);
    assert_eq!(Pattern::Respondent.code(), 99);
    assert_eq!(Pattern::Bus.code(), 112);
}

#[test]
fn answer_gives_the_value_on_success_only() {
    assert_eq!(answer(0, 17u32), Ok(17));
    assert_eq!(answer(7, 17u32), Err(Error::Nng(7)));
    assert_eq!(answer(-3, "x"), Err(Error::Nng(-3)));
}
