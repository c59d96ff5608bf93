//! The integrity verifier's hash accumulator: a streaming blake3 hasher
//! together with ghost bookkeeping of exactly the bytes fed to it, so that
//! the finalized digest can be spoken of as a function of the whole
//! consumed stream.
use vstd::prelude::*;

verus! {

/// Declares blake3::Hasher so it can stand in a field; its values are
/// opaque here and only touched through the wrappers below.
#[verifier::external_type_specification]
#[verifier::external_body]
pub struct ExBlake3Hasher(blake3::Hasher);

/// The hex digest (64 lowercase hexadecimal characters) that blake3
/// assigns to a byte sequence; a function of the bytes alone.
pub uninterp spec fn blake3_hex(bytes: Seq<u8>) -> Seq<char>;

/// An incremental hash accumulator. The ghost field records the
/// concatenation of every chunk fed so far; the wrapped hasher's state is
/// always the blake3 state over exactly those bytes, because every path
/// that feeds it goes through `update`.
pub struct HashStream {
    inner: blake3::Hasher,
    fed: Ghost<Seq<u8>>,
}

impl HashStream {
    /// The concatenation of all chunks fed so far.
    pub closed spec fn bytes(&self) -> Seq<u8> {
        self.fed@
    }

    /// Relies on blake3::Hasher::new: a fresh hasher over the empty input.
    #[verifier::external_body]
    pub fn new() -> (r: HashStream)
        ensures
            r.bytes() == Seq::<u8>::empty(),
    {
        HashStream { inner: blake3::Hasher::new(), fed: Ghost(Seq::empty()) }
    }

    /// Relies on blake3::Hasher::update: folds `chunk` into the running
    /// state, exactly as if the bytes had been appended to the input.
    #[verifier::external_body]
    pub fn update(&mut self, chunk: &[u8])
        ensures
            final(self).bytes() == old(self).bytes() + chunk@,
    {
        self.inner.update(chunk);
    }

    /// Relies on blake3::Hasher::finalize and blake3::Hash::to_hex: the
    /// digest of all bytes fed so far, printed as 64 lowercase hex
    /// characters.
    #[verifier::external_body]
    pub fn finalize_hex(&self) -> (r: String)
        ensures
            r@ == blake3_hex(self.bytes()),
            r@.len() == 64,
    {
        self.inner.finalize().to_hex().as_str().to_string()
    }
}

} // verus!
