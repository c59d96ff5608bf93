//! The verified core of the fetch-verify-extract pipeline: naming the
//! archive from the source URL, per-chunk transfer accounting (hash tap
//! and progress counter), and the final integrity comparison. Opening the
//! network stream and feeding the extractor are a collaborator's job; it
//! hands every received chunk to `TransferState::process_chunk` in stream
//! order, before requesting the next chunk.
use vstd::prelude::*;

use crate::errors::BuildError;
use crate::format::{dispatch, spec_dispatch, spec_suffix, ArchiveFormat};
use crate::hash::{blake3_hex, HashStream};
use crate::strutil::{str_eq, trim, trim_spec};

verus! {

/// The final path segment that url's parser finds in a URL text; a
/// function of the text alone. None when the text does not parse as an
/// absolute URL or the URL cannot carry path segments.
pub uninterp spec fn url_last_segment(url: Seq<char>) -> Option<Seq<char>>;

/// Relies on url::Url::parse and url::Url::path_segments: the last
/// segment of the parsed URL's path (query and fragment excluded), None
/// when parsing fails or the URL is cannot-be-a-base.
#[verifier::external_body]
fn last_path_segment(url: &str) -> (r: Option<String>)
    ensures
        match r {
            Some(s) => url_last_segment(url@) == Some(s@),
            None => url_last_segment(url@) is None,
        },
{
    match url::Url::parse(url) {
        Ok(parsed) => match parsed.path_segments() {
            Some(segments) => match segments.last() {
                Some(seg) => Some(seg.to_string()),
                None => None,
            },
            None => None,
        },
        Err(_) => None,
    }
}

/// One download, named: the archive filename taken from the URL, the base
/// name with the recognized suffix stripped (the eventual extraction
/// root), and the suffix itself with its format.
pub struct Download {
    pub full_file_name: String,
    pub file_name: String,
    pub extension: String,
    pub format: ArchiveFormat,
}

impl Download {
    /// Derives the archive filename from the URL's final path segment and
    /// dispatches it to an archive format. A URL without a usable final
    /// segment is a network-level failure; a segment with no recognized
    /// suffix is an unsupported format naming that exact filename.
    pub fn new(url: &str) -> (r: Result<Download, BuildError>)
        ensures
            match url_last_segment(url@) {
                Some(seg) => {
                    let name = trim_spec(seg);
                    match spec_dispatch(name) {
                        Some(p) => r matches Ok(d) && d.format == p.0 && d.full_file_name@ == name
                            && d.file_name@ == p.1 && d.extension@ == spec_suffix(p.0),
                        None => r matches Err(e) && e matches BuildError::UnsupportedFormat {
                            filename,
                        } && filename@ == name,
                    }
                },
                None => r matches Err(e) && e matches BuildError::Network { detail } && detail@
                    == "Invalid source URL: "@ + url@,
            },
    {
        match last_path_segment(url) {
            Some(seg) => {
                let name = trim(seg.as_str());
                match dispatch(name.as_str()) {
                    Ok((format, base)) => {
                        let extension = format.suffix();
                        Ok(
                            Download {
                                full_file_name: name,
                                file_name: base,
                                extension,
                                format,
                            },
                        )
                    },
                    Err(e) => Err(e),
                }
            },
            None => {
                let mut detail = String::from_str("Invalid source URL: ");
                detail.append(url);
                Err(BuildError::Network { detail })
            },
        }
    }
}

/// The next progress position after consuming `len` more bytes: advanced
/// by the chunk, but never past a known total; with the total unknown
/// (zero), the plain running count, saturating at the counter's width.
pub open spec fn spec_advance(consumed: u64, total: u64, len: nat) -> u64 {
    if total > 0 {
        if consumed + len <= total {
            (consumed + len) as u64
        } else {
            total
        }
    } else {
        if consumed + len <= u64::MAX {
            (consumed + len) as u64
        } else {
            u64::MAX
        }
    }
}

/// Per-transfer mutable state: the progress counter against the declared
/// total (zero when the server reported no length), and the live hash
/// accumulator fed by the same chunks, in the same order.
pub struct TransferState {
    consumed: u64,
    total: u64,
    hasher: HashStream,
}

impl TransferState {
    /// The cumulative progress position.
    pub closed spec fn position(&self) -> u64 {
        self.consumed
    }

    /// The declared total; zero means unknown.
    pub closed spec fn spec_total(&self) -> u64 {
        self.total
    }

    /// The concatenation of every chunk consumed so far.
    pub closed spec fn stream(&self) -> Seq<u8> {
        self.hasher.bytes()
    }

    /// A fresh transfer against a declared total (zero if the server did
    /// not report a length).
    pub fn new(expected_total: u64) -> (r: TransferState)
        ensures
            r.position() == 0,
            r.spec_total() == expected_total,
            r.stream() == Seq::<u8>::empty(),
    {
        TransferState { consumed: 0, total: expected_total, hasher: HashStream::new() }
    }

    /// The declared total; zero means unknown.
    pub fn total(&self) -> (r: u64)
        ensures
            r == self.spec_total(),
    {
        self.total
    }

    /// The cumulative progress position, for the progress reporter.
    pub fn bytes_consumed(&self) -> (r: u64)
        ensures
            r == self.position(),
    {
        self.consumed
    }

    /// Consumes one chunk: folds it into the hash accumulator and
    /// advances the progress counter, never past a known declared total.
    pub fn process_chunk(&mut self, chunk: &[u8])
        ensures
            final(self).stream() == old(self).stream() + chunk@,
            final(self).spec_total() == old(self).spec_total(),
            final(self).position() == spec_advance(
                old(self).position(),
                old(self).spec_total(),
                chunk@.len(),
            ),
            old(self).spec_total() > 0 ==> final(self).position() <= old(self).spec_total(),
    {
        self.hasher.update(chunk);
        let len: u64 = chunk.len() as u64;
        if self.total > 0 {
            if self.consumed < self.total {
                let room = self.total - self.consumed;
                if len <= room {
                    self.consumed = self.consumed + len;
                } else {
                    self.consumed = self.total;
                }
            } else {
                self.consumed = self.total;
            }
        } else {
            if len <= u64::MAX - self.consumed {
                self.consumed = self.consumed + len;
            } else {
                self.consumed = u64::MAX;
            }
        }
    }

    /// Finalizes the digest of everything consumed and compares it, as a
    /// case-sensitive exact string, against the manifest's expected
    /// digest. Success exactly when they agree; on mismatch, both digests
    /// are reported.
    pub fn verify(&self, expected: &str) -> (r: Result<String, BuildError>)
        ensures
            r is Ok <==> expected@ == blake3_hex(self.stream()),
            match r {
                Ok(found) => found@ == blake3_hex(self.stream()),
                Err(e) => e matches BuildError::Integrity { expected: e2, found } && e2@
                    == expected@ && found@ == blake3_hex(self.stream()),
            },
    {
        let found = self.hasher.finalize_hex();
        if str_eq(expected, found.as_str()) {
            Ok(found)
        } else {
            Err(BuildError::Integrity { expected: expected.to_owned(), found })
        }
    }
}

} // verus!
