//! Seeding of the kernel random generator: firmware and hardware entropy,
//! health-checked and mixed through SHA-256.

use vstd::prelude::*;
use vstd::string::StringSliceAdditionalSpecFns;
use crate::csprng::Csprng;
use crate::le::{le_encode, put_le, lemma_le_encode_len};
use crate::policy::signature::{sha256, sha256_digest};

verus! {

pub const RDRAND_SEED_WORDS: usize = 8;

#[derive(Clone, Copy, Debug, PartialEq, Eq, Structural)]
pub enum RandomError {
    HardwareUnavailable,
    HardwareHealthFailure,
    Uninitialized,
}

/// Hardware samples used: those the hardware returned, at most eight.
pub open spec fn used_samples(hardware: Seq<u64>) -> int {
    if hardware.len() < 8 { hardware.len() as int } else { 8 }
}

/// Whether two consecutive used samples are equal, a sign of a stuck source.
pub open spec fn repeated_sample(hardware: Seq<u64>) -> bool {
    exists|i: int| 0 < i < used_samples(hardware) && #[trigger] hardware[i] == hardware[i - 1]
}

/// The bytes hashed into the seed: a domain label, the firmware seed when
/// valid, each used hardware sample with the time it was read, the boot
/// entropy and the generator's address, integers little-endian.
pub open spec fn seed_material(
    firmware_seed: Seq<u8>,
    firmware_seed_valid: bool,
    hardware: Seq<u64>,
    timestamps: Seq<u64>,
    boot_entropy: u64,
    generator_address: u64,
) -> Seq<u8> {
    "mnu kernel CSPRNG seed v1".spec_bytes()
        + (if firmware_seed_valid { "UEFI RNG".spec_bytes() + firmware_seed } else { Seq::empty() })
        + sample_bytes(hardware, timestamps, used_samples(hardware))
        + le_encode(boot_entropy as nat, 8) + le_encode(generator_address as nat, 8)
}

/// The first `n` samples, each followed by its timestamp, little-endian.
pub open spec fn sample_bytes(hardware: Seq<u64>, timestamps: Seq<u64>, n: int) -> Seq<u8>
    decreases n,
{
    if n <= 0 {
        Seq::empty()
    } else {
        sample_bytes(hardware, timestamps, n - 1) + le_encode(hardware[n - 1] as nat, 8)
            + le_encode(timestamps[n - 1] as nat, 8)
    }
}

fn append_bytes(out: &mut Vec<u8>, bytes: &[u8])
    ensures
        final(out)@ == old(out)@ + bytes@,
{
    let mut i: usize = 0;
    while i < bytes.len()
        invariant
            i <= bytes@.len(),
            out@ == old(out)@ + bytes@.take(i as int),
        decreases bytes@.len() - i,
    {
        out.push(bytes[i]);
        i = i + 1;
        assert(out@ =~= old(out)@ + bytes@.take(i as int));
    }
    assert(bytes@.take(bytes@.len() as int) =~= bytes@);
}

fn append_u64(out: &mut Vec<u8>, value: u64)
    ensures
        final(out)@ == old(out)@ + le_encode(value as nat, 8),
{
    let mut word = [0u8; 8];
    put_le(&mut word, 0, value, 8);
    proof {
        lemma_le_encode_len(value as nat, 8);
        assert(word@ =~= le_encode(value as nat, 8));
    }
    append_bytes(out, &word);
}

/// Keys `generator` from the firmware seed, when valid, and from up to eight
/// hardware samples, each read at the matching timestamp; `hardware` lists
/// what the hardware returned before it first failed. Refused when two
/// consecutive samples repeat, or when neither a valid firmware seed nor all
/// eight samples are there.
pub fn initialize(
    generator: &mut Csprng,
    firmware_seed: &[u8; 32],
    firmware_seed_valid: bool,
    hardware: &[u64],
    timestamps: &[u64],
    boot_entropy: u64,
    generator_address: u64,
) -> (r: Result<(), RandomError>)
    requires
        timestamps@.len() >= used_samples(hardware@),
    ensures
        repeated_sample(hardware@) ==> r == Err::<(), RandomError>(RandomError::HardwareHealthFailure)
            && final(generator).keyed_with() == old(generator).keyed_with()
            && final(generator).position() == old(generator).position(),
        !repeated_sample(hardware@) && !firmware_seed_valid && used_samples(hardware@) != 8
            ==> r == Err::<(), RandomError>(RandomError::HardwareUnavailable)
            && final(generator).keyed_with() == old(generator).keyed_with()
            && final(generator).position() == old(generator).position(),
        !repeated_sample(hardware@) && (firmware_seed_valid || used_samples(hardware@) == 8) ==> r is Ok
            && final(generator).keyed_with() == Some(sha256(seed_material(
                firmware_seed@,
                firmware_seed_valid,
                hardware@,
                timestamps@,
                boot_entropy,
                generator_address,
            )))
            && final(generator).position() == 0,
{
    let mut material: Vec<u8> = Vec::new();
    append_bytes(&mut material, "mnu kernel CSPRNG seed v1".as_bytes());
    if firmware_seed_valid {
        append_bytes(&mut material, "UEFI RNG".as_bytes());
        append_bytes(&mut material, firmware_seed);
    }
    let ghost header = material@;
    let mut previous: Option<u64> = None;
    let mut count: usize = 0;
    while count < RDRAND_SEED_WORDS && count < hardware.len()
        invariant
            count <= used_samples(hardware@),
            timestamps@.len() >= used_samples(hardware@),
            previous == (if count == 0 { None::<u64> } else { Some(hardware@[count - 1]) }),
            forall|i: int| 0 < i < count ==> #[trigger] hardware@[i] != hardware@[i - 1],
            material@ == header + sample_bytes(hardware@, timestamps@, count as int),
        decreases RDRAND_SEED_WORDS - count,
    {
        let sample = hardware[count];
        if previous == Some(sample) {
            assert(hardware@[count as int] == hardware@[count - 1]);
            return Err(RandomError::HardwareHealthFailure);
        }
        previous = Some(sample);
        append_u64(&mut material, sample);
        append_u64(&mut material, timestamps[count]);
        count = count + 1;
    }
    assert(count == used_samples(hardware@));
    if !firmware_seed_valid && count != RDRAND_SEED_WORDS {
        return Err(RandomError::HardwareUnavailable);
    }
    append_u64(&mut material, boot_entropy);
    append_u64(&mut material, generator_address);
    let mut seed = sha256_digest(material.as_slice());
    proof {
        assert(material@ =~= seed_material(firmware_seed@, firmware_seed_valid, hardware@, timestamps@, boot_entropy, generator_address));
    }
    generator.initialize(&mut seed);
    Ok(())
}

/// Random bytes from the keyed generator: the next bytes of its keystream.
pub fn fill(generator: &mut Csprng, destination: &mut [u8]) -> (r: Result<(), RandomError>)
    ensures
        final(generator).keyed_with() == old(generator).keyed_with(),
        match old(generator).keyed_with() {
            None => r == Err::<(), RandomError>(RandomError::Uninitialized) && final(destination)@ == old(destination)@
                && final(generator).position() == old(generator).position(),
            Some(seed) => r is Ok && final(destination)@ == crate::csprng::chacha20_keystream(
                seed,
                0,
                old(generator).position(),
                old(destination)@.len(),
            ) && final(generator).position() == crate::csprng::word_advance(
                old(generator).position(),
                old(destination)@.len(),
            ),
        },
{
    match generator.fill(destination) {
        Ok(()) => Ok(()),
        Err(_) => Err(RandomError::Uninitialized),
    }
}

} // verus!
