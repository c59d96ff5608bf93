use somebuild::command::{BuildOutcome, PhaseExecutor};
use somebuild::downloader::{Download, TransferState};
use somebuild::errors::BuildError;
use somebuild::format::ArchiveFormat;

#[test]
fn end_to_end_success_scenario() {
    // Dispatch the archive name taken from the manifest's URL.
    let down = Download::new("https://example.com/dist/pkg-1.0.tar.xz").expect("supported url");
    assert_eq!(down.full_file_name, "pkg-1.0.tar.xz");
    assert_eq!(down.file_name, "pkg-1.0");
    assert_eq!(down.extension, ".tar.xz");
    assert!(matches!(down.format, ArchiveFormat::Xz));

    // Stream the served bytes through the transfer state, then compare
    // the digest with the manifest's.
    let served: &[u8] = b"pretend archive bytes";
    let manifest_hash = blake3::hash(served).to_hex().to_string();
    let mut t = TransferState::new(served.len() as u64);
    t.process_chunk(&served[..7]);
    t.process_chunk(&served[7..]);
    assert_eq!(t.bytes_consumed(), served.len() as u64);
    t.verify(&manifest_hash).expect("integrity must pass");

    // Run the three phases in order; all succeed.
    let mut e = PhaseExecutor::new(
        "echo setup".to_string(),
        "echo build".to_string(),
        "echo install".to_string(),
        ".".to_string(),
        "/tmp/somebuild-out".to_string(),
    );
    e.run_to_end().expect("commands should launch");
    assert_eq!(e.codes(), &vec![0, 0, 0]);
    assert!(matches!(e.into_outcome(), Some(BuildOutcome::Success)));
}

#[test]
fn url_query_is_not_part_of_the_name() {
    let down = Download::new("https://host/a/pkg-2.3.tar.gz?x=1&y=2").expect("supported url");
    assert_eq!(down.full_file_name, "pkg-2.3.tar.gz");
    assert_eq!(down.file_name, "pkg-2.3");
    assert!(matches!(down.format, ArchiveFormat::Gzip));
}

#[test]
fn deep_paths_use_only_the_final_segment() {
    let down =
        Download::new("https://mirror.example.org/pub/sources/n/name/name-9.9.tar.bz2")
            .expect("supported url");
    assert_eq!(down.file_name, "name-9.9");
    assert!(matches!(down.format, ArchiveFormat::Bzip2));
}

#[test]
fn bad_url_is_a_network_error() {
    match Download::new("not a url") {
        Err(BuildError::Network { detail }) => {
            assert_eq!(detail, "Invalid source URL: not a url");
        },
        _ => panic!("expected a network error"),
    }
}

#[test]
fn unsupported_suffix_from_url_names_the_filename() {
    match Download::new("https://host/files/pkg.zip") {
        Err(BuildError::UnsupportedFormat { filename }) => {
            assert_eq!(filename, "pkg.zip");
        },
        _ => panic!("expected an unsupported-format error"),
    }
}

#[test]
fn integrity_mismatch_scenario() {
    let served: &[u8] = b"the served bytes";
    let mut t = TransferState::new(0);
    t.process_chunk(served);
    let real = blake3::hash(served).to_hex().to_string();
    let wrong = blake3::hash(b"different bytes").to_hex().to_string();
    match t.verify(&wrong) {
        Err(BuildError::Integrity { expected, found }) => {
            assert_eq!(expected, wrong);
            assert_eq!(found, real);
        },
        _ => panic!("expected an integrity error"),
    }
}
