use somebuild::downloader::TransferState;
use somebuild::errors::BuildError;

const EMPTY_DIGEST: &str = "af1349b9f5f9a1a6a0404dea36dcc9499bcb25c9adc112b7cc9a93cae41f3262";

#[test]
fn digest_of_empty_stream() {
    let t = TransferState::new(0);
    let found = t.verify(EMPTY_DIGEST).expect("empty stream must match its digest");
    assert_eq!(found, EMPTY_DIGEST);
}

#[test]
fn incremental_hash_matches_one_shot() {
    let mut t = TransferState::new(0);
    t.process_chunk(b"hello ");
    t.process_chunk(b"world");
    let expected = blake3::hash(b"hello world").to_hex().to_string();
    let found = t.verify(&expected).expect("digest of the concatenation must match");
    assert_eq!(found, expected);
}

#[test]
fn chunking_does_not_change_the_digest() {
    let data = b"some archive bytes, split at an arbitrary boundary";
    let mut one = TransferState::new(0);
    one.process_chunk(data);
    let mut two = TransferState::new(0);
    two.process_chunk(&data[..17]);
    two.process_chunk(&data[17..]);
    let expected = blake3::hash(data).to_hex().to_string();
    assert!(one.verify(&expected).is_ok());
    assert!(two.verify(&expected).is_ok());
}

#[test]
fn mismatch_reports_both_digests() {
    let mut t = TransferState::new(0);
    t.process_chunk(b"payload");
    let real = blake3::hash(b"payload").to_hex().to_string();
    match t.verify("deadbeef") {
        Err(BuildError::Integrity { expected, found }) => {
            assert_eq!(expected, "deadbeef");
            assert_eq!(found, real);
        },
        _ => panic!("expected an integrity error"),
    }
}

#[test]
fn digest_comparison_is_case_sensitive() {
    let t = TransferState::new(0);
    assert!(t.verify(&EMPTY_DIGEST.to_uppercase()).is_err());
}
