use icns::byte_order::bytes_equal;
use icns::byte_order::bytes_less;

#[test]
fn byte_strings_compare_lexicographically() {
    assert!(bytes_less(b"abc", b"abd"));
    assert!(bytes_less(b"ab", b"abc"));
    assert!(bytes_less(b"", b"a"));
    assert!(!bytes_less(b"abc", b"abc"));
    assert!(!bytes_less(b"b", b"abc"));
    assert!(bytes_less(b"Z", b"a"));
}

#[test]
fn byte_strings_equal() {
    assert!(bytes_equal(b"abc", b"abc"));
    assert!(!bytes_equal(b"abc", b"ab"));
    assert!(!bytes_equal(b"abc", b"abd"));
    assert!(bytes_equal(b"", b""));
}
