//! The beginning and the end of the process.

use vstd::prelude::*;

verus! {

/// What the system answered when the daemon asked to be the only one.
#[derive(Debug, Clone, Copy, PartialEq, Eq, Structural)]
pub enum OwnershipAnswer {
    /// The lock could not be made.
    Failed,
    /// Another process has it.
    AlreadyExists,
    Created,
    /// The system does not ask for it.
    NotNeeded,
}

#[derive(Debug, Clone, Copy, PartialEq, Eq, Structural)]
pub enum OwnershipError {
    LockFailed,
    /// Another daemon runs in this session.
    AlreadyActive,
}

/// The right to run the daemon in a session, held as long as it runs.
pub struct RuntimeOwner {
    /// Whether a lock has to be given back.
    pub locked: bool,
}

impl RuntimeOwner {
    /// Takes the right, if no other process has it.
    pub fn acquire(answer: OwnershipAnswer) -> (r: Result<Self, OwnershipError>)
        ensures
            r == match answer {
                OwnershipAnswer::Failed => Err::<RuntimeOwner, OwnershipError>(
                    OwnershipError::LockFailed,
                ),
                OwnershipAnswer::AlreadyExists => Err(OwnershipError::AlreadyActive),
                OwnershipAnswer::Created => Ok(RuntimeOwner { locked: true }),
                OwnershipAnswer::NotNeeded => Ok(RuntimeOwner { locked: false }),
            },
    {
        match answer {
            OwnershipAnswer::Failed => Err(OwnershipError::LockFailed),
            OwnershipAnswer::AlreadyExists => Err(OwnershipError::AlreadyActive),
            OwnershipAnswer::Created => Ok(RuntimeOwner { locked: true }),
            OwnershipAnswer::NotNeeded => Ok(RuntimeOwner { locked: false }),
        }
    }
}

/// What is done before the process ends.
pub struct ShutdownHook<F: Fn()> {
    pub hook: Option<F>,
}

impl<F: Fn()> ShutdownHook<F> {
    pub fn new() -> (r: Self)
        ensures
            r.hook is None,
    {
        ShutdownHook { hook: None }
    }

    /// Registers it; only the first one counts.
    pub fn register_shutdown_hook(&mut self, hook: F)
        ensures
            final(self).hook == match old(self).hook {
                Some(first) => Some(first),
                None => Some(hook),
            },
    {
        if self.hook.is_none() {
            self.hook = Some(hook);
        }
    }

    /// Does it, if anything was registered; tells whether there was.
    pub fn run_shutdown_hook(&self) -> (r: bool)
        requires
            self.hook matches Some(h) ==> h.requires(()),
        ensures
            r == self.hook is Some,
            self.hook matches Some(h) ==> h.ensures((), ()),
    {
        match &self.hook {
            Some(h) => {
                h();
                true
            },
            None => false,
        }
    }
}

/// The daemon runs once: whoever finds it running is turned away, and one that
/// cannot tell is too.
pub proof fn the_daemon_runs_once(answer: OwnershipAnswer, r: Result<RuntimeOwner, OwnershipError>)
    requires
        call_ensures(RuntimeOwner::acquire, (answer,), r),
    ensures
        r is Ok <==> answer == OwnershipAnswer::Created || answer == OwnershipAnswer::NotNeeded,
        answer == OwnershipAnswer::AlreadyExists ==> r == Err::<RuntimeOwner, OwnershipError>(
            OwnershipError::AlreadyActive,
        ),
        answer == OwnershipAnswer::Failed ==> r == Err::<RuntimeOwner, OwnershipError>(
            OwnershipError::LockFailed,
        ),
        r matches Ok(o) ==> o.locked == (answer == OwnershipAnswer::Created),
{
}

} // verus!
