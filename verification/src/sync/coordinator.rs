use vstd::prelude::*;
use std::sync::atomic::{AtomicBool, Ordering};
use tokio::sync::Notify;

verus! {

#[verifier::external_type_specification]
#[verifier::external_body]
pub struct ExNotify(Notify);

/// `Notify::new`: a notifier with no waiter and no stored permit.
pub assume_specification[ Notify::new ]() -> Notify;

/// `Notify::notify_waiters`: wakes every task that is waiting on the notifier now.
pub assume_specification[ Notify::notify_waiters ](notify: &Notify);

/// A shared on/off decision that tasks can wait on.
pub struct AsyncCoordinator {
    decision: AtomicBool,
    notifier: Notify,
}

impl AsyncCoordinator {
    /// The notifier that the coordinator wakes its waiting tasks with.
    pub closed spec fn notifier_of(&self) -> Notify {
        self.notifier
    }

    /// A coordinator whose decision is off.
    pub fn new() -> Self {
        AsyncCoordinator { decision: AtomicBool::new(false), notifier: Notify::new() }
    }

    /// Turns the decision on and wakes the waiting tasks.
    pub fn shutdown(&self) {
        self.change_state(true);
    }

    /// Sets the decision to `new_state` (it is left alone when it already has that value) and
    /// wakes the waiting tasks.
    pub fn change_state(&self, new_state: bool) {
        let _ = self.decision.compare_exchange(!new_state, new_state, Ordering::Release, Ordering::Relaxed);
        self.notifier.notify_waiters();
    }

    /// The current decision, as `on_state_change` reads it after a wake-up.
    pub fn decision(&self) -> bool {
        self.decision.load(Ordering::Acquire)
    }

    /// The notifier that `wait_on_change` waits on.
    pub fn notifier(&self) -> (notifier: &Notify)
        ensures
            *notifier == self.notifier_of(),
    {
        &self.notifier
    }
}

} // verus!
