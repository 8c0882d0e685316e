use riscv_clic::peripheral::{Latch, Peripherals};

#[test]
fn take_twice_gives_the_peripherals_once() {
    let mut latch = Latch::new();
    assert!(!latch.taken());
    let first = Peripherals::take(&mut latch);
    assert!(first.is_some());
    assert!(latch.taken());
    let second = Peripherals::take(&mut latch);
    assert!(second.is_none());
    assert!(latch.taken());
    assert!(Peripherals::take(&mut latch).is_none());
}

#[test]
fn steal_shuts_out_take() {
    let mut latch = Latch::new();
    let _stolen = Peripherals::steal(&mut latch);
    assert!(latch.taken());
    assert!(Peripherals::take(&mut latch).is_none());
}

#[test]
fn steal_after_take_still_returns_the_peripherals() {
    let mut latch = Latch::new();
    let taken = Peripherals::take(&mut latch);
    assert!(taken.is_some());
    let _again = Peripherals::steal(&mut latch);
    assert!(latch.taken());
}

#[test]
fn take_inside_a_critical_section() {
    // Critical sections nest: a `take` from inside one is served as any
    // other.
    let mut latch = Latch::new();
    let served = critical_section::with(|_| Peripherals::take(&mut latch).is_some());
    assert!(served);
    assert!(latch.taken());
}
