use snapshotter::integrity::StreamVerifier;
use snapshotter::BackupError;

#[test]
fn identical_streams_verify() {
    let mut v = StreamVerifier::new();
    v.feed(b"hello wor", b"hello wor").unwrap();
    v.feed(b"ld", b"ld").unwrap();
    assert!(v.finish().is_ok());
}

#[test]
fn empty_streams_verify() {
    let v = StreamVerifier::new();
    assert!(v.finish().is_ok());
}

#[test]
fn single_byte_change_is_hash_mismatch() {
    let mut v = StreamVerifier::new();
    v.feed(b"hello", b"hellp").unwrap();
    let r = v.finish();
    assert!(matches!(r, Err(BackupError::HashMismatch)));
}

#[test]
fn truncated_destination_is_size_mismatch() {
    let mut v = StreamVerifier::new();
    v.feed(b"hell", b"hell").unwrap();
    let r = v.feed(b"o", b"");
    assert!(matches!(r, Err(BackupError::SizeMismatch)));
}

#[test]
fn mismatch_found_across_chunks() {
    let mut v = StreamVerifier::new();
    v.feed(b"same", b"same").unwrap();
    v.feed(b"diff", b"DIFF").unwrap();
    assert!(matches!(v.finish(), Err(BackupError::HashMismatch)));
}
