use mnu::csprng::{Csprng, Error};
use rand_chacha::ChaCha20Rng;
use rand_core::{Rng, SeedableRng};

#[test]
fn rejects_fill_before_initialization() {
    let mut generator = Csprng::uninitialized();
    let mut output = [0u8; 32];
    assert_eq!(generator.fill(&mut output), Err(Error::Uninitialized));
    assert_eq!(output, [0; 32]);
}

#[test]
fn initialized_generator_fills_and_advances() {
    let mut generator = Csprng::uninitialized();
    let mut seed = [0x5a; 32];
    generator.initialize(&mut seed);
    assert_eq!(seed, [0; 32]);
    let mut first = [0u8; 32];
    let mut second = [0u8; 32];
    assert_eq!(generator.fill(&mut first), Ok(()));
    assert_eq!(generator.fill(&mut second), Ok(()));
    assert_ne!(first, [0; 32]);
    assert_ne!(first, second);
}

#[test]
fn same_seed_has_deterministic_stream_for_health_testing() {
    let mut left = Csprng::uninitialized();
    let mut right = Csprng::uninitialized();
    let mut left_seed = [7; 32];
    let mut right_seed = [7; 32];
    left.initialize(&mut left_seed);
    right.initialize(&mut right_seed);
    let mut left_output = [0u8; 64];
    let mut right_output = [0u8; 64];
    assert_eq!(left.fill(&mut left_output), Ok(()));
    assert_eq!(right.fill(&mut right_output), Ok(()));
    assert_eq!(left_output, right_output);
}

#[test]
fn initialization_is_reported() {
    let mut generator = Csprng::uninitialized();
    assert!(!generator.is_initialized());
    let mut seed = [1u8; 32];
    generator.initialize(&mut seed);
    assert!(generator.is_initialized());
}

#[test]
fn fills_continue_the_keyed_chacha20_stream() {
    let mut reference = ChaCha20Rng::from_seed([0x5a; 32]);
    let mut expected = [0u8; 64];
    reference.fill_bytes(&mut expected);
    let mut generator = Csprng::uninitialized();
    let mut seed = [0x5a; 32];
    generator.initialize(&mut seed);
    let mut first = [0u8; 32];
    let mut second = [0u8; 32];
    assert_eq!(generator.fill(&mut first), Ok(()));
    assert_eq!(generator.fill(&mut second), Ok(()));
    assert_eq!(first[..], expected[..32]);
    assert_eq!(second[..], expected[32..]);
}

#[test]
fn a_partial_word_is_not_handed_out_again() {
    let mut reference = ChaCha20Rng::from_seed([3; 32]);
    let mut expected = [0u8; 8];
    reference.fill_bytes(&mut expected);
    let mut generator = Csprng::uninitialized();
    let mut seed = [3; 32];
    generator.initialize(&mut seed);
    let mut three = [0u8; 3];
    let mut four = [0u8; 4];
    assert_eq!(generator.fill(&mut three), Ok(()));
    assert_eq!(generator.fill(&mut four), Ok(()));
    assert_eq!(three[..], expected[..3]);
    assert_eq!(four[..], expected[4..]);
}

#[test]
fn keying_again_starts_the_new_stream_at_its_beginning() {
    let mut generator = Csprng::uninitialized();
    let mut seed = [9; 32];
    generator.initialize(&mut seed);
    let mut first = [0u8; 16];
    assert_eq!(generator.fill(&mut first), Ok(()));
    let mut again = [9; 32];
    generator.initialize(&mut again);
    let mut second = [0u8; 16];
    assert_eq!(generator.fill(&mut second), Ok(()));
    assert_eq!(first, second);
}
