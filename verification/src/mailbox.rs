//! The wake mailbox: a single slot that holds at most one pending wake target.
use atomic_waker::AtomicWaker;
use core::task::Waker;
use vstd::prelude::*;

verus! {

/// `core::task::Waker`, a handle that wakes one task. Opaque here.
#[verifier::external_type_specification]
#[verifier::external_body]
pub struct ExWaker(Waker);

/// `atomic_waker::AtomicWaker`, the slot a mailbox is made of. Opaque here.
#[verifier::external_type_specification]
#[verifier::external_body]
pub struct ExAtomicWaker(AtomicWaker);

/// Whether a slot that a single party owns holds a waker.
pub uninterp spec fn holds_waker(slot: AtomicWaker) -> bool;

/// `AtomicWaker::new`: the new slot holds no waker.
#[verifier::external_body]
fn slot_new() -> (slot: AtomicWaker)
    ensures
        !holds_waker(slot),
{
    AtomicWaker::new()
}

/// `AtomicWaker::register` on a slot nobody else can reach: afterwards the
/// slot holds a waker for the task of `waker`, whatever it held before.
#[verifier::external_body]
fn slot_register(slot: &mut AtomicWaker, waker: &Waker)
    ensures
        holds_waker(*final(slot)),
{
    slot.register(waker)
}

/// `AtomicWaker::wake` on a slot nobody else can reach, spelled out as its
/// source has it so that the outcome can be reported: `AtomicWaker::take`
/// takes the waker out, if the slot held one, and `Waker::wake` wakes it.
/// The result says whether a waker was woken, and the slot is left empty.
#[verifier::external_body]
fn slot_wake(slot: &mut AtomicWaker) -> (woke: bool)
    ensures
        woke == holds_waker(*old(slot)),
        !holds_waker(*final(slot)),
{
    match slot.take() {
        Some(waker) => {
            waker.wake();
            true
        },
        None => false,
    }
}

/// A single-slot holder of at most one pending wake target.
///
/// Registering replaces whatever was held. Notifying takes the target out and
/// wakes it; on an empty mailbox it does nothing. The mailbox counts the
/// targets it has woken.
pub struct WakeMailbox {
    slot: AtomicWaker,
    woken: Ghost<nat>,
}

impl WakeMailbox {
    /// Whether a wake target is held.
    pub closed spec fn is_armed(&self) -> bool {
        holds_waker(self.slot)
    }

    /// The number of targets this mailbox has woken since it was made.
    pub closed spec fn wakes(&self) -> nat {
        self.woken@
    }

    /// The number of targets a notify wakes: the one that is held, if any.
    pub open spec fn due(&self) -> nat {
        if self.is_armed() {
            1
        } else {
            0
        }
    }

    /// An empty mailbox that has woken nobody.
    pub fn new() -> (mailbox: WakeMailbox)
        ensures
            !mailbox.is_armed(),
            mailbox.wakes() == 0,
    {
        WakeMailbox { slot: slot_new(), woken: Ghost(0) }
    }

    /// Stores `target` as the pending wake target, in place of any earlier
    /// one. Nobody is woken.
    pub fn register(&mut self, target: &Waker)
        ensures
            final(self).is_armed(),
            final(self).wakes() == old(self).wakes(),
    {
        slot_register(&mut self.slot, target)
    }

    /// Takes the pending wake target out, if there is one, and wakes it.
    /// Returns whether a target was woken.
    pub fn notify(&mut self) -> (woke: bool)
        ensures
            woke == old(self).is_armed(),
            !final(self).is_armed(),
            final(self).wakes() == old(self).wakes() + old(self).due(),
    {
        let woke = slot_wake(&mut self.slot);
        proof {
            if woke {
                self.woken = Ghost((self.woken@ + 1) as nat);
            }
        }
        woke
    }
}

} // verus!
