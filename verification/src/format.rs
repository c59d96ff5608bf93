//! The codec dispatcher: maps an archive filename to the archive format
//! its suffix names, together with the base name left when the suffix is
//! stripped. Dispatch is derived from the filename text alone.
use vstd::prelude::*;

use crate::errors::BuildError;
use crate::strutil::{ends_with, str_ends_with};

verus! {

/// The closed set of supported codecs, each recognized by one filename
/// suffix. The suffix set is disjoint: no string ends with two distinct
/// suffixes from this set, so at most one matches any filename.
#[derive(Clone, Copy, PartialEq, Eq, Structural, Debug)]
pub enum ArchiveFormat {
    Zstd,
    Xz,
    Gzip,
    Bzip2,
}

/// The filename suffix that names a format.
pub open spec fn spec_suffix(f: ArchiveFormat) -> Seq<char> {
    match f {
        ArchiveFormat::Zstd => ".tar.zst"@,
        ArchiveFormat::Xz => ".tar.xz"@,
        ArchiveFormat::Gzip => ".tar.gz"@,
        ArchiveFormat::Bzip2 => ".tar.bz2"@,
    }
}

impl ArchiveFormat {
    /// The filename suffix that names this format.
    pub fn suffix(&self) -> (r: String)
        ensures
            r@ == spec_suffix(*self),
    {
        match self {
            ArchiveFormat::Zstd => String::from_str(".tar.zst"),
            ArchiveFormat::Xz => String::from_str(".tar.xz"),
            ArchiveFormat::Gzip => String::from_str(".tar.gz"),
            ArchiveFormat::Bzip2 => String::from_str(".tar.bz2"),
        }
    }
}

/// The format whose suffix ends `name`, with the base name left after
/// stripping that suffix; None when no supported suffix matches. Matching
/// is exact, case-sensitive, full-suffix comparison.
pub open spec fn spec_dispatch(name: Seq<char>) -> Option<(ArchiveFormat, Seq<char>)> {
    if ends_with(name, ".tar.zst"@) {
        Some((ArchiveFormat::Zstd, name.take(name.len() - ".tar.zst"@.len())))
    } else if ends_with(name, ".tar.xz"@) {
        Some((ArchiveFormat::Xz, name.take(name.len() - ".tar.xz"@.len())))
    } else if ends_with(name, ".tar.gz"@) {
        Some((ArchiveFormat::Gzip, name.take(name.len() - ".tar.gz"@.len())))
    } else if ends_with(name, ".tar.bz2"@) {
        Some((ArchiveFormat::Bzip2, name.take(name.len() - ".tar.bz2"@.len())))
    } else {
        None
    }
}

/// Determines which archive format applies to `name` and strips the
/// matched suffix; a filename with no supported suffix is rejected,
/// naming that exact filename.
pub fn dispatch(name: &str) -> (r: Result<(ArchiveFormat, String), BuildError>)
    ensures
        match spec_dispatch(name@) {
            Some(p) => r matches Ok(d) && d.0 == p.0 && d.1@ == p.1,
            None => r matches Err(e) && e matches BuildError::UnsupportedFormat { filename }
                && filename@ == name@,
        },
{
    let n = name.unicode_len();
    if str_ends_with(name, ".tar.zst") {
        proof {
            reveal_strlit(".tar.zst");
        }
        let base = name.substring_char(0, n - 8);
        Ok((ArchiveFormat::Zstd, base.to_owned()))
    } else if str_ends_with(name, ".tar.xz") {
        proof {
            reveal_strlit(".tar.xz");
        }
        let base = name.substring_char(0, n - 7);
        Ok((ArchiveFormat::Xz, base.to_owned()))
    } else if str_ends_with(name, ".tar.gz") {
        proof {
            reveal_strlit(".tar.gz");
        }
        let base = name.substring_char(0, n - 7);
        Ok((ArchiveFormat::Gzip, base.to_owned()))
    } else if str_ends_with(name, ".tar.bz2") {
        proof {
            reveal_strlit(".tar.bz2");
        }
        let base = name.substring_char(0, n - 8);
        Ok((ArchiveFormat::Bzip2, base.to_owned()))
    } else {
        Err(BuildError::UnsupportedFormat { filename: name.to_owned() })
    }
}

/// Dispatch fails exactly on the filenames that no supported suffix
/// ends; `dispatch` then reports that filename as unsupported.
pub proof fn lemma_dispatch_none_iff_no_suffix(name: Seq<char>)
    ensures
        spec_dispatch(name) is None <==> (forall|f: ArchiveFormat|
            !ends_with(name, spec_suffix(f))),
{
    if spec_dispatch(name) is None {
        assert forall|f: ArchiveFormat| !ends_with(name, spec_suffix(f)) by {
            match f {
                ArchiveFormat::Zstd => {},
                ArchiveFormat::Xz => {},
                ArchiveFormat::Gzip => {},
                ArchiveFormat::Bzip2 => {},
            }
        }
    }
    if forall|f: ArchiveFormat| !ends_with(name, spec_suffix(f)) {
        assert(!ends_with(name, spec_suffix(ArchiveFormat::Zstd)));
        assert(!ends_with(name, spec_suffix(ArchiveFormat::Xz)));
        assert(!ends_with(name, spec_suffix(ArchiveFormat::Gzip)));
        assert(!ends_with(name, spec_suffix(ArchiveFormat::Bzip2)));
    }
}

/// A successful dispatch splits the filename exactly: the base name
/// followed by the matched format's suffix is the whole filename again.
pub proof fn lemma_dispatch_splits_name(name: Seq<char>, f: ArchiveFormat, base: Seq<char>)
    requires
        spec_dispatch(name) == Some((f, base)),
    ensures
        name == base + spec_suffix(f),
{
    assert(name =~= name.take(name.len() - spec_suffix(f).len()) + name.subrange(
        name.len() - spec_suffix(f).len(),
        name.len() as int,
    ));
}

/// Appending a supported suffix to any base name dispatches to exactly
/// that suffix's format and recovers exactly that base name. The suffix
/// set is disjoint, so this holds whatever the base name ends with.
pub proof fn lemma_dispatch_of_suffixed_name(base: Seq<char>, f: ArchiveFormat)
    ensures
        spec_dispatch(base + spec_suffix(f)) == Some((f, base)),
{
    reveal_strlit(".tar.zst");
    reveal_strlit(".tar.xz");
    reveal_strlit(".tar.gz");
    reveal_strlit(".tar.bz2");
    let s = base + spec_suffix(f);
    assert(ends_with(s, spec_suffix(f))) by {
        assert(s.subrange(s.len() - spec_suffix(f).len(), s.len() as int) =~= spec_suffix(f));
    }
    assert(s.take(s.len() - spec_suffix(f).len()) =~= base);
    match f {
        ArchiveFormat::Zstd => {
        },
        ArchiveFormat::Xz => {
            assert(!ends_with(s, ".tar.zst"@)) by {
                if ends_with(s, ".tar.zst"@) {
                    assert(s.subrange(s.len() - 8, s.len() as int)[7] == s[s.len() - 1]);
                    assert(s[s.len() - 1] == ".tar.xz"@[6]);
                }
            }
        },
        ArchiveFormat::Gzip => {
            assert(!ends_with(s, ".tar.zst"@)) by {
                if ends_with(s, ".tar.zst"@) {
                    assert(s.subrange(s.len() - 8, s.len() as int)[7] == s[s.len() - 1]);
                    assert(s[s.len() - 1] == ".tar.gz"@[6]);
                }
            }
            assert(!ends_with(s, ".tar.xz"@)) by {
                if ends_with(s, ".tar.xz"@) {
                    assert(s.subrange(s.len() - 7, s.len() as int)[5] == s[s.len() - 2]);
                    assert(s[s.len() - 2] == ".tar.gz"@[5]);
                }
            }
        },
        ArchiveFormat::Bzip2 => {
            assert(!ends_with(s, ".tar.zst"@)) by {
                if ends_with(s, ".tar.zst"@) {
                    assert(s.subrange(s.len() - 8, s.len() as int)[7] == s[s.len() - 1]);
                    assert(s[s.len() - 1] == ".tar.bz2"@[7]);
                }
            }
            assert(!ends_with(s, ".tar.xz"@)) by {
                if ends_with(s, ".tar.xz"@) {
                    assert(s.subrange(s.len() - 7, s.len() as int)[6] == s[s.len() - 1]);
                    assert(s[s.len() - 1] == ".tar.bz2"@[7]);
                }
            }
            assert(!ends_with(s, ".tar.gz"@)) by {
                if ends_with(s, ".tar.gz"@) {
                    assert(s.subrange(s.len() - 7, s.len() as int)[6] == s[s.len() - 1]);
                    assert(s[s.len() - 1] == ".tar.bz2"@[7]);
                }
            }
        },
    }
}

} // verus!
