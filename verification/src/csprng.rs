//! Cryptographic random generator: ChaCha20 keyed from a seed, whose
//! caller's copy is wiped as soon as the key is taken.

use vstd::prelude::*;
use rand_chacha::ChaCha20Rng;
use rand_core::{Rng, SeedableRng};
use zeroize::Zeroize;

verus! {

#[derive(Clone, Copy, Debug, Eq, PartialEq, Structural)]
pub enum Error {
    Uninitialized,
}

/// The ChaCha20 keystream of `seed` on stream `stream`: the `len` bytes
/// that start at the 32-bit word `word_pos`, each word little-endian.
pub uninterp spec fn chacha20_keystream(seed: Seq<u8>, stream: u64, word_pos: u128, len: nat) -> Seq<u8>;

/// Words in one ChaCha20 stream: positions count modulo this.
pub const STREAM_WORDS: u128 = 0x10_0000_0000_0000_0000;

/// A word position `len` bytes on: every word a fill touches is used up,
/// and positions count modulo the 2^68 words of a stream.
pub open spec fn word_advance(word_pos: u128, len: nat) -> u128 {
    ((word_pos + (len + 3) / 4) % (STREAM_WORDS as int)) as u128
}

/// `ChaCha20Rng::from_seed` on `seed`, then `set_word_pos(word_pos)`,
/// `Rng::fill_bytes` on `destination` and `get_word_pos`. A fresh
/// generator is on stream 0; `destination` receives the keystream from
/// `word_pos` on, and the position returned has moved past every word the
/// fill touched.
#[verifier::external_body]
fn keystream_fill(seed: &[u8; 32], word_pos: u128, destination: &mut [u8]) -> (next: u128)
    requires
        word_pos < STREAM_WORDS,
    ensures
        final(destination)@ == chacha20_keystream(seed@, 0, word_pos, old(destination)@.len()),
        final(destination)@.len() == old(destination)@.len(),
        next == word_advance(word_pos, old(destination)@.len()),
{
    let mut generator = ChaCha20Rng::from_seed(*seed);
    generator.set_word_pos(word_pos);
    generator.fill_bytes(destination);
    generator.get_word_pos()
}

/// `Zeroize::zeroize` on a seed: every byte becomes zero.
#[verifier::external_body]
fn wipe_seed(seed: &mut [u8; 32])
    ensures
        final(seed)@ == Seq::new(32, |i: int| 0u8),
{
    seed.zeroize()
}

/// The kernel's random generator: the ChaCha20 key it was given and where
/// in the key's stream 0 it stands; unusable until it is keyed.
pub struct Csprng {
    key: Option<[u8; 32]>,
    word_pos: u128,
}

impl Csprng {
    /// The seed the generator was keyed with, if it was.
    pub closed spec fn keyed_with(&self) -> Option<Seq<u8>> {
        match self.key {
            Some(k) => Some(k@),
            None => None,
        }
    }

    /// The word of the keystream the next fill starts at.
    pub closed spec fn position(&self) -> u128 {
        self.word_pos
    }

    #[verifier::type_invariant]
    spec fn wf(&self) -> bool {
        self.word_pos < STREAM_WORDS
    }

    pub fn uninitialized() -> (c: Self)
        ensures
            c.keyed_with() is None,
    {
        Csprng { key: None, word_pos: 0 }
    }

    /// Keys the generator with `seed`, at the start of its stream, and
    /// wipes the seed.
    pub fn initialize(&mut self, seed: &mut [u8; 32])
        ensures
            final(self).keyed_with() == Some(old(seed)@),
            final(self).position() == 0,
            final(seed)@ == Seq::new(32, |i: int| 0u8),
    {
        *self = Csprng { key: Some(*seed), word_pos: 0 };
        wipe_seed(seed);
    }

    /// Fills `destination` with the next bytes of the keystream and moves
    /// past them; refused until keyed, leaving `destination` as it was.
    pub fn fill(&mut self, destination: &mut [u8]) -> (r: Result<(), Error>)
        ensures
            final(self).keyed_with() == old(self).keyed_with(),
            match old(self).keyed_with() {
                None => r == Err::<(), Error>(Error::Uninitialized) && final(destination)@ == old(destination)@
                    && final(self).position() == old(self).position(),
                Some(seed) => r is Ok
                    && final(destination)@ == chacha20_keystream(seed, 0, old(self).position(), old(destination)@.len())
                    && final(self).position() == word_advance(old(self).position(), old(destination)@.len()),
            },
    {
        proof {
            use_type_invariant(&*self);
        }
        match &self.key {
            Some(key) => {
                let next = keystream_fill(key, self.word_pos, destination);
                self.word_pos = next;
                Ok(())
            },
            None => Err(Error::Uninitialized),
        }
    }

    pub fn is_initialized(&self) -> (r: bool)
        ensures
            r == (self.keyed_with() is Some),
    {
        self.key.is_some()
    }
}

} // verus!
