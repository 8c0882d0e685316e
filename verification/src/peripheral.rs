//! Core peripherals: the interrupt controller and the system timer, and the
//! latch that lets the handles to them be handed out exactly once.

pub mod clic;
pub mod syst;

use vstd::prelude::*;

verus! {

/// Core-local interrupt controller: the handle that stands for the right to
/// reconfigure it.
#[allow(clippy::upper_case_acronyms)]
pub struct CLIC {
    _marker: (),
}

/// System timer: the handle that stands for the right to drive it.
#[allow(clippy::upper_case_acronyms)]
pub struct SYST {
    _marker: (),
}

/// Core peripherals. The two handles cannot be made outside this module, so
/// neither can a value of this type.
#[allow(non_snake_case)]
pub struct Peripherals {
    /// Core-local interrupt controller
    pub CLIC: CLIC,
    /// System timer
    pub SYST: SYST,
}

/// The one-shot latch in front of the peripherals. It starts out clear and
/// is set for good by the first `take` or `steal`; nothing clears it again.
pub struct Latch {
    taken: bool,
}

/// What a `take` does at a latch that is or is not yet set: whether it hands
/// the peripherals out, and whether the latch is set afterwards.
pub open spec fn take_outcome(taken: bool) -> (bool, bool) {
    (!taken, true)
}

/// The peripherals are handed out at most once: whatever state the latch is
/// in, it is set after a `take`, and the `take` that follows is refused. At
/// a latch that was never used the first `take` succeeds.
pub proof fn lemma_take_at_most_once(taken: bool)
    ensures
        take_outcome(taken).1,
        !take_outcome(take_outcome(taken).1).0,
        take_outcome(false).0,
{
}

impl Latch {
    /// Whether the peripherals have been handed out.
    pub closed spec fn is_taken(&self) -> bool {
        self.taken
    }

    /// A latch through which nothing has been handed out yet.
    pub fn new() -> (latch: Latch)
        ensures
            !latch.is_taken(),
    {
        Latch { taken: false }
    }

    /// Returns whether the peripherals have been handed out.
    pub fn taken(&self) -> (taken: bool)
        ensures
            taken == self.is_taken(),
    {
        self.taken
    }

    /// The test-and-set of `Peripherals::take`, without the critical
    /// section around it.
    fn acquire(&mut self) -> (peripherals: Option<Peripherals>)
        ensures
            (peripherals is Some, final(self).is_taken()) == take_outcome(old(self).is_taken()),
    {
        if self.taken {
            None
        } else {
            Some(Peripherals::steal(self))
        }
    }
}

/// `critical_section::with` around the test-and-set of a latch: the outside
/// function enters a critical section, calls the closure once, leaves the
/// section and returns what the closure returned. So what holds after
/// `Latch::acquire` holds after this call.
#[verifier::external_body]
fn acquire_in_critical_section(latch: &mut Latch) -> (peripherals: Option<Peripherals>)
    ensures
        (peripherals is Some, final(latch).is_taken()) == take_outcome(old(latch).is_taken()),
{
    critical_section::with(|_| latch.acquire())
}

impl Peripherals {
    /// Returns all the core peripherals *once*: at a latch that is still
    /// clear. Testing the latch and setting it happen inside one critical
    /// section, so that of two callers that race only one is served.
    pub fn take(latch: &mut Latch) -> (peripherals: Option<Self>)
        ensures
            (peripherals is Some, final(latch).is_taken()) == take_outcome(old(latch).is_taken()),
    {
        acquire_in_critical_section(latch)
    }

    /// Unchecked version of `Peripherals::take`: sets the latch and returns
    /// the peripherals whether or not they were handed out before. It is for
    /// the caller to know that no other handle is in use.
    pub fn steal(latch: &mut Latch) -> (peripherals: Self)
        ensures
            final(latch).is_taken(),
    {
        latch.taken = true;

        Peripherals { CLIC: CLIC { _marker: () }, SYST: SYST { _marker: () } }
    }
}

} // verus!
