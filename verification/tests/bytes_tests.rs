use nmsg::bytes::{find_nul, read_le, write_le};

#[test]
fn read_le_reads_least_significant_byte_first() {
    let bytes = [0x01u8, 0x02, 0x03, 0x04, 0x05, 0x06, 0x07, 0x08, 0x09];
    assert_eq!(read_le(&bytes, 0, 0), 0);
    assert_eq!(read_le(&bytes, 0, 1), 0x01);
    assert_eq!(read_le(&bytes, 0, 2), 0x0201);
    assert_eq!(read_le(&bytes, 1, 4), 0x05040302);
    assert_eq!(read_le(&bytes, 1, 8), 0x0908070605040302);
    assert_eq!(read_le(&bytes, 9, 0), 0);
    assert_eq!(read_le(&[0xff; 8], 0, 8), u64::MAX);
}

#[test]
fn write_le_appends_the_digits() {
    let mut out = vec![0xaau8];
    write_le(&mut out, 0x0102, 2);
    assert_eq!(out, vec![0xaa, 0x02, 0x01]);
    write_le(&mut out, 0x0102, 0);
    assert_eq!(out.len(), 3);
    write_le(&mut out, 0x1_0000_0001, 4);
    assert_eq!(out, vec![0xaa, 0x02, 0x01, 0x01, 0, 0, 0]);
    let mut wide = Vec::new();
    write_le(&mut wide, u64::MAX, 8);
    assert_eq!(wide, vec![0xff; 8]);
}

#[test]
fn write_then_read_gives_the_number_back() {
    for value in [0u64, 1, 255, 256, 0xdead_beef, u64::MAX] {
        let mut out = Vec::new();
        write_le(&mut out, value, 8);
        assert_eq!(read_le(&out, 0, 8), value);
    }
}

#[test]
fn find_nul_gives_the_first() {
    assert_eq!(find_nul(b"ab\0cd\0"), Some(2));
    assert_eq!(find_nul(b"\0"), Some(0));
    assert_eq!(find_nul(b"abc"), None);
    assert_eq!(find_nul(b""), None);
}
