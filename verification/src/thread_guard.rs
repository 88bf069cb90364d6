//! The thread that the native library is bound to. Operations that the
//! native library restricts to that thread ask the guard first.

use vstd::prelude::*;

verus! {

/// Why an operation may not go on.
#[derive(Clone, Copy, Debug, PartialEq, Eq, Structural)]
pub enum AffinityError {
    /// The native library has not been initialized.
    NotInitialized,
    /// The caller is not on the thread that initialized the library.
    WrongThread,
}

/// The thread that initialized the native library, once one has.
#[derive(Clone, Copy, Debug, PartialEq, Eq, Structural)]
pub struct ThreadGuard {
    pub owner: Option<u64>,
}

/// The answer to a check made on `thread` against `owner`.
pub open spec fn verdict(owner: Option<u64>, thread: u64) -> Result<(), AffinityError> {
    match owner {
        None => Err(AffinityError::NotInitialized),
        Some(t) => if t == thread {
            Ok(())
        } else {
            Err(AffinityError::WrongThread)
        },
    }
}

/// The owner after `thread` has tried to initialize the library: the first
/// thread that tries stays the owner.
pub open spec fn claimed(owner: Option<u64>, thread: u64) -> Option<u64> {
    match owner {
        None => Some(thread),
        Some(t) => Some(t),
    }
}

/// Once a thread owns the library, no later initialization takes it away,
/// and a check passes on that thread and on no other.
pub proof fn lemma_owner_is_stable(owner: Option<u64>, first: u64, later: u64, thread: u64)
    ensures
        claimed(claimed(owner, first), later) == claimed(owner, first),
        verdict(claimed(None, first), thread) is Ok <==> thread == first,
{
}

impl ThreadGuard {
    /// A guard for a library that nobody has initialized.
    pub fn new() -> (guard: ThreadGuard)
        ensures
            guard.owner is None,
    {
        ThreadGuard { owner: None }
    }

    /// Records that `thread` initializes the library. The first thread
    /// that does so becomes the owner; the same thread may come again; any
    /// other is turned down and changes nothing.
    pub fn initialize(&mut self, thread: u64) -> (answer: Result<(), AffinityError>)
        ensures
            final(self).owner == claimed(old(self).owner, thread),
            answer == verdict(final(self).owner, thread),
            answer is Err ==> answer == Err::<(), AffinityError>(AffinityError::WrongThread),
    {
        match self.owner {
            None => {
                self.owner = Some(thread);
                Ok(())
            },
            Some(t) => {
                if t == thread {
                    Ok(())
                } else {
                    Err(AffinityError::WrongThread)
                }
            },
        }
    }

    /// Whether an operation bound to the owner's thread may run on
    /// `thread`.
    pub fn check(&self, thread: u64) -> (answer: Result<(), AffinityError>)
        ensures
            answer == verdict(self.owner, thread),
    {
        match self.owner {
            None => Err(AffinityError::NotInitialized),
            Some(t) => {
                if t == thread {
                    Ok(())
                } else {
                    Err(AffinityError::WrongThread)
                }
            },
        }
    }
}

} // verus!
