//! Synchronous notification dispatch.
//!
//! A dispatcher holds an ordered list of listeners and, on an event, invokes
//! every one of them in registration order. The listeners are opaque,
//! possibly-slow external collaborators; a listener's failure never prevents
//! the remaining listeners from running. Failures are collected and handed
//! back to the caller as one aggregate report after all listeners ran.

use vstd::prelude::*;

verus! {

/// A collaborator that receives a computed result, in cents, and may fail
/// with a message. The dispatcher never inspects a listener and does not
/// assume it is idempotent.
pub trait CalculationListener {
    fn on_result(&self, value: i64) -> Result<(), String>;
}

/// One listener's failure: the index the listener was registered at and its
/// message.
pub struct ListenerFailure {
    pub index: usize,
    pub message: String,
}

/// An ordered list of listeners, notified synchronously and in registration
/// order.
pub struct NotificationDispatcher<L: CalculationListener> {
    listeners: Vec<L>,
}

impl<L: CalculationListener> NotificationDispatcher<L> {
    /// The registered listeners, in registration order.
    pub closed spec fn spec_listeners(self) -> Seq<L> {
        self.listeners@
    }

    /// A dispatcher with no listeners.
    pub fn new() -> (dispatcher: NotificationDispatcher<L>)
        ensures
            dispatcher.spec_listeners() =~= Seq::<L>::empty(),
    {
        NotificationDispatcher { listeners: Vec::new() }
    }

    /// Registers one more listener, after every listener registered so far.
    pub fn register(&mut self, listener: L)
        ensures
            final(self).spec_listeners() =~= old(self).spec_listeners().push(listener),
    {
        self.listeners.push(listener);
    }

    /// How many listeners are registered.
    pub fn listener_count(&self) -> (count: usize)
        ensures
            count == self.spec_listeners().len(),
    {
        self.listeners.len()
    }

    /// Notifies every listener of a computed result, in registration order,
    /// collecting each failure instead of aborting the remaining listeners.
    /// The report holds at most one entry per listener, indexed by the
    /// failing listener's registration position, in ascending order.
    pub fn notify(&self, value: i64) -> (failures: Vec<ListenerFailure>)
        ensures
            failures@.len() <= self.spec_listeners().len(),
            forall|k: int|
                0 <= k < failures@.len() ==> (#[trigger] failures@[k]).index
                    < self.spec_listeners().len(),
            forall|j: int, k: int|
                0 <= j < k < failures@.len() ==> failures@[j].index < failures@[k].index,
    {
        let mut failures: Vec<ListenerFailure> = Vec::new();
        let mut i: usize = 0;
        while i < self.listeners.len()
            invariant
                i <= self.spec_listeners().len(),
                failures@.len() <= i,
                forall|k: int|
                    0 <= k < failures@.len() ==> (#[trigger] failures@[k]).index < i,
                forall|j: int, k: int|
                    0 <= j < k < failures@.len() ==> failures@[j].index < failures@[k].index,
            decreases self.spec_listeners().len() - i,
        {
            let listener = &self.listeners[i];
            match listener.on_result(value) {
                Ok(()) => {},
                Err(message) => {
                    failures.push(ListenerFailure { index: i, message });
                },
            }
            i = i + 1;
        }
        failures
    }
}

} // verus!
