use std::cell::Cell;
use std::rc::Rc;

use mnu::csprng::Csprng;
use mnu::interrupt::dispatch::{IrqHandlers, EINVAL};
use mnu::random::{fill, initialize, RandomError};

fn counting_handler(seen: &Rc<Cell<u32>>) -> Box<dyn Fn(u8)> {
    let seen = seen.clone();
    Box::new(move |irq: u8| seen.set(seen.get() * 100 + irq as u32))
}

#[test]
fn reserved_lines_cannot_be_claimed() {
    let seen = Rc::new(Cell::new(0));
    let mut handlers: IrqHandlers<Box<dyn Fn(u8)>> = IrqHandlers::new();
    for irq in [0u8, 1, 2, 12, 16, 200] {
        assert_eq!(handlers.register_handler(irq, counting_handler(&seen), |_| true), EINVAL);
    }
    handlers.dispatch(1);
    assert_eq!(seen.get(), 0);
}

#[test]
fn claimed_lines_dispatch_to_their_handler() {
    let seen = Rc::new(Cell::new(0));
    let mut handlers: IrqHandlers<Box<dyn Fn(u8)>> = IrqHandlers::new();
    assert_eq!(handlers.register_handler(5, counting_handler(&seen), |irq| irq == 5), 0);
    handlers.dispatch(5);
    handlers.dispatch(6);
    assert_eq!(seen.get(), 5);
    assert_eq!(handlers.register_handler(11, counting_handler(&seen), |_| false), EINVAL);
    handlers.dispatch(11);
    assert_eq!(seen.get(), 511);
}

const HARDWARE: [u64; 8] = [11, 22, 33, 44, 55, 66, 77, 88];
const TIMES: [u64; 8] = [1, 2, 3, 4, 5, 6, 7, 8];

#[test]
fn random_fill_needs_initialization() {
    let mut generator = Csprng::uninitialized();
    let mut out = [9u8; 16];
    assert_eq!(fill(&mut generator, &mut out), Err(RandomError::Uninitialized));
    assert_eq!(out, [9u8; 16]);
}

#[test]
fn firmware_seed_alone_is_enough() {
    let mut generator = Csprng::uninitialized();
    assert_eq!(initialize(&mut generator, &[3; 32], true, &[], &[], 1, 2), Ok(()));
    let mut out = [0u8; 32];
    assert_eq!(fill(&mut generator, &mut out), Ok(()));
    assert_ne!(out, [0u8; 32]);
}

#[test]
fn eight_hardware_samples_are_enough() {
    let mut generator = Csprng::uninitialized();
    assert_eq!(initialize(&mut generator, &[0; 32], false, &HARDWARE, &TIMES, 1, 2), Ok(()));
    assert!(generator.is_initialized());
}

#[test]
fn too_few_hardware_samples_without_firmware_seed() {
    let mut generator = Csprng::uninitialized();
    assert_eq!(
        initialize(&mut generator, &[0; 32], false, &HARDWARE[..3], &TIMES[..3], 1, 2),
        Err(RandomError::HardwareUnavailable)
    );
    assert!(!generator.is_initialized());
}

#[test]
fn repeated_hardware_sample_fails_health_check() {
    let mut generator = Csprng::uninitialized();
    let stuck = [5u64, 6, 6, 7];
    assert_eq!(
        initialize(&mut generator, &[1; 32], true, &stuck, &TIMES[..4], 1, 2),
        Err(RandomError::HardwareHealthFailure)
    );
    assert!(!generator.is_initialized());
}

#[test]
fn seed_depends_on_every_input() {
    let stream = |entropy: u64, address: u64| {
        let mut generator = Csprng::uninitialized();
        assert_eq!(initialize(&mut generator, &[0; 32], false, &HARDWARE, &TIMES, entropy, address), Ok(()));
        let mut out = [0u8; 32];
        assert_eq!(fill(&mut generator, &mut out), Ok(()));
        out
    };
    assert_eq!(stream(1, 2), stream(1, 2));
    assert_ne!(stream(1, 2), stream(1, 3));
    assert_ne!(stream(1, 2), stream(4, 2));
}
