//! Ownership of native handles: under which convention a handle reaches the
//! host, what the host owes the native reference count when it takes,
//! copies and gives up a wrapper, and how a handle is narrowed to a
//! subtype.

use vstd::prelude::*;

verus! {

/// The convention under which a native handle reaches the host.
#[derive(Clone, Copy, Debug, PartialEq, Eq, Structural)]
pub enum Transfer {
    /// The native call hands its reference over: the wrapper alone gives
    /// it up, once.
    Full,
    /// The wrapper looks at a handle that somebody else keeps alive for
    /// the length of a scope: it never gives anything up.
    Borrowed,
    /// The native side keeps its reference: the wrapper takes one of its
    /// own and gives that one up.
    Shared,
}

/// What the host asks of the native reference count.
#[derive(Clone, Copy, Debug, PartialEq, Eq, Structural)]
pub enum RefAction {
    /// Leave the count alone.
    Keep,
    /// Take one more reference.
    Ref,
    /// Give one reference up.
    Unref,
}

/// Why a handle could not be wrapped.
#[derive(Clone, Copy, Debug, PartialEq, Eq, Structural)]
pub enum AcquireError {
    /// The handle is null where an object was promised.
    Null,
    /// The object cannot be held as the type asked for.
    WrongType,
}

/// The change that an action makes to the native reference count.
pub open spec fn delta(action: RefAction) -> int {
    match action {
        RefAction::Keep => 0,
        RefAction::Ref => 1,
        RefAction::Unref => -1,
    }
}

/// What taking a handle under a convention asks of the native count.
pub open spec fn acquire_action(transfer: Transfer) -> RefAction {
    match transfer {
        Transfer::Full => RefAction::Keep,
        Transfer::Borrowed => RefAction::Keep,
        Transfer::Shared => RefAction::Ref,
    }
}

/// What destroying a wrapper taken under a convention asks of the
/// native count.
pub open spec fn release_action(transfer: Transfer) -> RefAction {
    match transfer {
        Transfer::Full => RefAction::Unref,
        Transfer::Borrowed => RefAction::Keep,
        Transfer::Shared => RefAction::Unref,
    }
}

/// The references that the native call handed over with the handle.
pub open spec fn handed_over(transfer: Transfer) -> int {
    match transfer {
        Transfer::Full => 1,
        Transfer::Borrowed => 0,
        Transfer::Shared => 0,
    }
}

/// The references that a wrapper holds while it lives.
pub open spec fn held(transfer: Transfer) -> int {
    handed_over(transfer) + delta(acquire_action(transfer))
}

/// The sum of the changes that a history of actions makes to the
/// native count.
pub open spec fn net_effect(history: Seq<RefAction>) -> int
    decreases history.len(),
{
    if history.len() == 0 {
        0
    } else {
        net_effect(history.drop_last()) + delta(history.last())
    }
}

/// How often an action occurs in a history.
pub open spec fn occurrences(history: Seq<RefAction>, action: RefAction) -> int
    decreases history.len(),
{
    if history.len() == 0 {
        0
    } else {
        occurrences(history.drop_last(), action) + if history.last() == action {
            1int
        } else {
            0int
        }
    }
}

/// A wrapper taken under any convention and destroyed at once gives up
/// exactly the references it holds: the one handed over under a full
/// transfer, the one it took itself under a shared one, none under a
/// borrow. Nothing is given up twice and nothing stays behind.
pub proof fn lemma_acquire_release_balanced(transfer: Transfer)
    ensures
        delta(acquire_action(transfer)) + delta(release_action(transfer)) == -handed_over(
            transfer,
        ),
        -delta(release_action(transfer)) == held(transfer),
        0 <= held(transfer) <= 1,
{
}

/// The net effect of a history is the number of references taken less the
/// number given up.
pub proof fn lemma_net_effect_counts(history: Seq<RefAction>)
    ensures
        net_effect(history) == occurrences(history, RefAction::Ref) - occurrences(
            history,
            RefAction::Unref,
        ),
    decreases history.len(),
{
    if history.len() > 0 {
        lemma_net_effect_counts(history.drop_last());
    }
}

/// One clone raises the native count by exactly one, one drop of a clone
/// lowers it by exactly one, and a history with as many drops as clones,
/// in any order, leaves the count where it started.
pub proof fn lemma_clones_and_drops_cancel(history: Seq<RefAction>)
    requires
        occurrences(history, RefAction::Ref) == occurrences(history, RefAction::Unref),
    ensures
        delta(RefAction::Ref) == 1,
        delta(release_action(Transfer::Shared)) == -1,
        net_effect(history) == 0,
{
    lemma_net_effect_counts(history);
}

/// A host value that stands for a native object: its address, the
/// convention it was taken under, and the tag of the type it is held as.
/// The address is never zero.
#[derive(Debug)]
pub struct ObjectRef {
    addr: usize,
    transfer: Transfer,
    type_tag: u64,
}

impl ObjectRef {
    #[verifier::type_invariant]
    spec fn non_null(self) -> bool {
        self.addr != 0
    }

    /// The address of the native object.
    pub closed spec fn addr(self) -> usize {
        self.addr
    }

    /// The convention the wrapper was taken under.
    pub closed spec fn transfer(self) -> Transfer {
        self.transfer
    }

    /// The tag of the type the object is held as.
    pub closed spec fn type_tag(self) -> u64 {
        self.type_tag
    }

    /// Wraps a handle that the native call promises to be present, to be
    /// held as the type `type_tag`, and says what the native count is owed
    /// for it. `lineage` is what the native side reports of the object: its
    /// own type and every type it can be held as. A null handle, or an
    /// object that cannot be held as `type_tag`, is the caller's error.
    pub fn acquire(addr: usize, transfer: Transfer, type_tag: u64, lineage: &[u64]) -> (taken: (
        ObjectRef,
        RefAction,
    ))
        requires
            addr != 0,
            lineage@.contains(type_tag),
        ensures
            taken.0.addr() == addr,
            taken.0.transfer() == transfer,
            taken.0.type_tag() == type_tag,
            taken.1 == acquire_action(transfer),
    {
        let action = match transfer {
            Transfer::Full => RefAction::Keep,
            Transfer::Borrowed => RefAction::Keep,
            Transfer::Shared => RefAction::Ref,
        };
        (ObjectRef { addr, transfer, type_tag }, action)
    }

    /// Wraps a handle that the native call may leave null: a null handle
    /// is an absent value, and asks nothing of the native count. An object
    /// that is there and cannot be held as `type_tag` is the caller's
    /// error.
    pub fn acquire_nullable(
        addr: usize,
        transfer: Transfer,
        type_tag: u64,
        lineage: &[u64],
    ) -> (taken: Option<(ObjectRef, RefAction)>)
        requires
            addr != 0 ==> lineage@.contains(type_tag),
        ensures
            taken is None <==> addr == 0,
            taken matches Some(pair) ==> {
                &&& pair.0.addr() == addr
                &&& pair.0.addr() != 0
                &&& pair.0.transfer() == transfer
                &&& pair.0.type_tag() == type_tag
                &&& pair.1 == acquire_action(transfer)
            },
    {
        if addr == 0 {
            None
        } else {
            Some(ObjectRef::acquire(addr, transfer, type_tag, lineage))
        }
    }

    /// Wraps a handle after testing what `acquire` asks of its caller: a
    /// null handle and an object of another type are turned down, and
    /// nothing is asked of the native count for them.
    pub fn try_acquire(addr: usize, transfer: Transfer, type_tag: u64, lineage: &[u64]) -> (taken:
        Result<(ObjectRef, RefAction), AcquireError>)
        ensures
            taken is Ok <==> addr != 0 && lineage@.contains(type_tag),
            taken matches Ok(pair) ==> {
                &&& pair.0.addr() == addr
                &&& pair.0.transfer() == transfer
                &&& pair.0.type_tag() == type_tag
                &&& pair.1 == acquire_action(transfer)
            },
            taken matches Err(e) ==> e == (if addr == 0 {
                AcquireError::Null
            } else {
                AcquireError::WrongType
            }),
    {
        if addr == 0 {
            Err(AcquireError::Null)
        } else if !is_a(lineage, type_tag) {
            Err(AcquireError::WrongType)
        } else {
            Ok(ObjectRef::acquire(addr, transfer, type_tag, lineage))
        }
    }

    /// The address to pass to a native call that only looks at the object.
    pub fn as_ptr(&self) -> (addr: usize)
        ensures
            addr == self.addr(),
            addr != 0,
    {
        proof {
            use_type_invariant(self);
        }
        self.addr
    }

    /// The convention the wrapper was taken under.
    pub fn mode(&self) -> (transfer: Transfer)
        ensures
            transfer == self.transfer(),
    {
        self.transfer
    }

    /// The tag of the type the object is held as.
    pub fn type_(&self) -> (tag: u64)
        ensures
            tag == self.type_tag(),
    {
        self.type_tag
    }

    /// Copies the wrapper. The copy holds a reference of its own, whatever
    /// the wrapper it is made from was taken under, so the native count goes
    /// up by one.
    pub fn duplicate(&self) -> (copy: (ObjectRef, RefAction))
        ensures
            copy.0.addr() == self.addr(),
            copy.0.type_tag() == self.type_tag(),
            copy.0.transfer() == Transfer::Shared,
            copy.1 == RefAction::Ref,
    {
        proof {
            use_type_invariant(self);
        }
        (
            ObjectRef { addr: self.addr, transfer: Transfer::Shared, type_tag: self.type_tag },
            RefAction::Ref,
        )
    }

    /// Destroys the wrapper and says what the native count is owed: the
    /// address, and whether the reference it held is to be given up.
    pub fn release(self) -> (owed: (usize, RefAction))
        ensures
            owed.0 == self.addr(),
            owed.0 != 0,
            owed.1 == release_action(self.transfer()),
    {
        proof {
            use_type_invariant(&self);
        }
        let action = match self.transfer {
            Transfer::Full => RefAction::Unref,
            Transfer::Borrowed => RefAction::Keep,
            Transfer::Shared => RefAction::Unref,
        };
        (self.addr, action)
    }

    /// Narrows the wrapper to the type `target`. `lineage` is what the
    /// native side reports of the object: its own type and every type it
    /// can be held as. The cast goes through exactly when `target` is
    /// among them; otherwise the wrapper comes back as it was.
    pub fn downcast(self, target: u64, lineage: &[u64]) -> (cast: Result<ObjectRef, ObjectRef>)
        ensures
            cast is Ok <==> lineage@.contains(target),
            cast matches Ok(narrow) ==> {
                &&& narrow.addr() == self.addr()
                &&& narrow.transfer() == self.transfer()
                &&& narrow.type_tag() == target
            },
            cast matches Err(same) ==> same == self,
    {
        proof {
            use_type_invariant(&self);
        }
        if is_a(lineage, target) {
            Ok(ObjectRef { addr: self.addr, transfer: self.transfer, type_tag: target })
        } else {
            Err(self)
        }
    }
}

/// Whether an object with the given lineage can be held as `target`.
pub fn is_a(lineage: &[u64], target: u64) -> (found: bool)
    ensures
        found == lineage@.contains(target),
{
    let mut i: usize = 0;
    while i < lineage.len()
        invariant
            i <= lineage.len(),
            forall|j: int| 0 <= j < i ==> lineage@[j] != target,
        decreases lineage.len() - i,
    {
        if lineage[i] == target {
            return true;
        }
        i += 1;
    }
    false
}

} // verus!
