//! What an interrupt handler carries while it runs.
use crate::bindings::BaseType_t;
use vstd::prelude::*;

verus! {

/// Keeps track of whether we need to yield the execution to a different
/// task at the end of the interrupt.
#[derive(Debug)]
pub struct InterruptContext {
    x_higher_priority_task_woken: BaseType_t,
}

impl Default for InterruptContext {
    fn default() -> (context: InterruptContext)
        ensures
            context.spec_higher_priority_task_woken() == 0,
    {
        InterruptContext::new()
    }
}

impl InterruptContext {
    /// The flag the kernel raises when a call from the interrupt has made a
    /// task of higher priority ready.
    pub closed spec fn spec_higher_priority_task_woken(&self) -> BaseType_t {
        self.x_higher_priority_task_woken
    }

    /// Instantiate a new context: no task has been woken yet.
    pub fn new() -> (context: InterruptContext)
        ensures
            context.spec_higher_priority_task_woken() == 0,
    {
        InterruptContext { x_higher_priority_task_woken: 0 }
    }

    /// Lends out the flag, for the kernel to write to.
    pub fn get_task_field_mut(&mut self) -> (field: &mut BaseType_t)
        ensures
            *field == old(self).spec_higher_priority_task_woken(),
            final(self).spec_higher_priority_task_woken() == *final(field),
    {
        &mut self.x_higher_priority_task_woken
    }

    /// Returns the flag.
    #[verifier::when_used_as_spec(spec_higher_priority_task_woken)]
    pub fn higher_priority_task_woken(&self) -> (woken: BaseType_t)
        ensures
            woken == self.spec_higher_priority_task_woken(),
    {
        self.x_higher_priority_task_woken
    }

    /// Whether the interrupt has to end with a yield: exactly when the flag
    /// is one.
    pub fn yield_requested(&self) -> (requested: bool)
        ensures
            requested == (self.spec_higher_priority_task_woken() == 1),
    {
        self.x_higher_priority_task_woken == 1
    }
}

} // verus!
