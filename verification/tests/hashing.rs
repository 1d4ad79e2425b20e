use checkgate::hashing::murmurhash3_x86_32;

#[test]
fn test_murmurhash3_x86_32() {
    assert_eq!(murmurhash3_x86_32(b"hello", 0), 613153351);
    assert_eq!(murmurhash3_x86_32(b"hello world", 42), 3926694905);
    assert_eq!(murmurhash3_x86_32(b"", 0), 0);
}
