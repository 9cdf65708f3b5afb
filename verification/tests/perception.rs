use core_agent::perception::{capture_screen, encode_base64, Screenshot};

#[test]
fn capture_returns_stub() {
    let s = capture_screen().unwrap();
    assert_eq!(s.width, 0);
    assert!(s.data.is_empty());
}

#[test]
fn base64_known_vectors() {
    assert_eq!(encode_base64(b""), "");
    assert_eq!(encode_base64(b"f"), "Zg==");
    assert_eq!(encode_base64(b"fo"), "Zm8=");
    assert_eq!(encode_base64(b"foo"), "Zm9v");
    assert_eq!(encode_base64(b"foob"), "Zm9vYg==");
    assert_eq!(encode_base64(b"fooba"), "Zm9vYmE=");
    assert_eq!(encode_base64(b"foobar"), "Zm9vYmFy");
    assert_eq!(encode_base64(&[0xfb, 0xff, 0xbf]), "+/+/");
}

#[test]
fn base64_length_law() {
    for n in 0..20usize {
        let data = vec![7u8; n];
        assert_eq!(encode_base64(&data).len(), 4 * ((n + 2) / 3));
    }
    let shot = Screenshot { width: 1, height: 1, data: b"Man".to_vec() };
    assert_eq!(shot.png_base64(), "TWFu");
}
