use nmsg::buffer::MessageBuffer;

#[test]
fn new_buffer_has_the_size_asked_for() {
    let b = MessageBuffer::new(5);
    assert_eq!(b.len(), 5);
    assert_eq!(b.as_slice(), &[0u8, 0, 0, 0, 0]);
}

#[test]
fn zeroed_buffer_is_zero() {
    let b = MessageBuffer::zeroed(3);
    assert_eq!(b.as_slice(), &[0u8, 0, 0]);
}

#[test]
fn buffer_of_size_zero_is_empty() {
    let b = MessageBuffer::new(0);
    assert_eq!(b.len(), 0);
    assert_eq!(b.as_slice(), &[] as &[u8]);
    let z = MessageBuffer::zeroed(0);
    assert_eq!(z.len(), 0);
}

#[test]
fn resize_keeps_the_shared_prefix() {
    let mut b = MessageBuffer::from_slice(&[1, 2, 3, 4]);
    b.resize(2);
    assert_eq!(b.as_slice(), &[1u8, 2]);
    b.resize(5);
    assert_eq!(b.as_slice(), &[1u8, 2, 0, 0, 0]);
    b.resize(5);
    assert_eq!(b.as_slice(), &[1u8, 2, 0, 0, 0]);
    b.resize(0);
    assert_eq!(b.len(), 0);
}

#[test]
fn grow_then_shrink_gives_the_bytes_back() {
    let mut b = MessageBuffer::from_slice(&[9, 8, 7]);
    b.resize(10);
    assert_eq!(b.len(), 10);
    b.resize(3);
    assert_eq!(b.as_slice(), &[9u8, 8, 7]);
}

#[test]
fn buffer_from_text_holds_its_utf8_bytes() {
    assert_eq!(MessageBuffer::from_str("hi").as_slice(), b"hi");
    assert_eq!(
        MessageBuffer::from_str("h\u{e9}").as_slice(),
        &[0x68u8, 0xc3, 0xa9]
    );
    assert_eq!(
        MessageBuffer::from_string(String::from("abc")).as_slice(),
        b"abc"
    );
    assert_eq!(MessageBuffer::from_str("").len(), 0);
}

#[test]
fn buffer_from_vec_and_back() {
    let b = MessageBuffer::from_vec(vec![4, 5, 6]);
    assert_eq!(b.len(), 3);
    assert_eq!(b.into_vec(), vec![4u8, 5, 6]);
}

#[test]
fn buffer_bytes_can_be_read_and_set() {
    let mut b = MessageBuffer::from_slice(&[1, 2, 3]);
    assert_eq!(b.index(0), 1);
    assert_eq!(b.index(2), 3);
    b.set(1, 20);
    assert_eq!(b.as_slice(), &[1u8, 20, 3]);
    b.as_mut_slice()[0] = 10;
    assert_eq!(b.as_slice(), &[10u8, 20, 3]);
}

#[test]
fn copy_from_slice_overwrites_a_range() {
    let mut b = MessageBuffer::new(6);
    b.copy_from_slice(0, b"ab");
    b.copy_from_slice(2, b"cde");
    assert_eq!(b.as_slice(), &[b'a', b'b', b'c', b'd', b'e', 0]);
    b.copy_from_slice(6, b"");
    assert_eq!(b.len(), 6);
    b.copy_from_slice(5, b"z");
    assert_eq!(b.as_slice(), b"abcdez");
}

#[test]
fn clone_of_a_buffer_is_equal_and_apart() {
    let mut b = MessageBuffer::from_slice(&[1, 2]);
    let c = b.clone();
    b.set(0, 9);
    assert_eq!(c.as_slice(), &[1u8, 2]);
    assert_eq!(b.as_slice(), &[9u8, 2]);
}
