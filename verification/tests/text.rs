use compass::text::{
    append_bytes, bytes_eq, contains_nul, join_present_with_space, join_with_space,
    nul_free_or_empty, to_owned_bytes,
};

#[test]
fn nul_free_string_is_kept() {
    assert_eq!(nul_free_or_empty(b"php app.php".to_vec()), b"php app.php".to_vec());
    assert_eq!(nul_free_or_empty(Vec::new()), Vec::<u8>::new());
}

#[test]
fn string_with_nul_becomes_empty() {
    assert_eq!(nul_free_or_empty(b"a\0b".to_vec()), Vec::<u8>::new());
    assert_eq!(nul_free_or_empty(vec![0]), Vec::<u8>::new());
}

#[test]
fn nul_detection() {
    assert!(contains_nul(b"x\0"));
    assert!(!contains_nul(b"xyz"));
    assert!(!contains_nul(b""));
}

#[test]
fn byte_equality() {
    assert!(bytes_eq(b"cli", b"cli"));
    assert!(!bytes_eq(b"cli", b"cgi"));
    assert!(!bytes_eq(b"cli", b"cli-server"));
    assert!(bytes_eq(b"", b""));
}

#[test]
fn append_and_copy() {
    let mut v = b"ab".to_vec();
    append_bytes(&mut v, b"cd");
    assert_eq!(v, b"abcd".to_vec());
    assert_eq!(to_owned_bytes(b"xyz"), b"xyz".to_vec());
}

#[test]
fn join_puts_single_spaces_between_parts() {
    let parts = vec![b"drush".to_vec(), b"cr".to_vec(), b"-y".to_vec()];
    assert_eq!(join_with_space(&parts), b"drush cr -y".to_vec());
    assert_eq!(join_with_space(&vec![b"one".to_vec()]), b"one".to_vec());
    assert_eq!(join_with_space(&Vec::new()), Vec::<u8>::new());
    assert_eq!(join_with_space(&vec![Vec::new(), Vec::new()]), b" ".to_vec());
}

#[test]
fn join_skips_absent_items() {
    let items = vec![None, Some(b"node:1".to_vec()), None, Some(b"user:2".to_vec()), None];
    assert_eq!(join_present_with_space(&items), b"node:1 user:2".to_vec());
    assert_eq!(join_present_with_space(&vec![None, None]), Vec::<u8>::new());
    assert_eq!(join_present_with_space(&Vec::new()), Vec::<u8>::new());
}
