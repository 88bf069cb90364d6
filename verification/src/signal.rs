//! Closures registered against native signals. The registry gives each
//! registration a token, which travels to the native side as the user data
//! of the connection; the trampoline hands the token back on every event,
//! and the registry decides whether the closure behind it is called.

use crate::translate::same_text;
use crate::value::{read_text, text_of};
use vstd::prelude::*;
use vstd::string::*;

verus! {

/// Where a registration stands in its life.
#[derive(Clone, Copy, Debug, PartialEq, Eq, Structural)]
pub enum Phase {
    /// A token is given out; the native side has not answered yet.
    Pending,
    /// The native side holds the connection and may fire it.
    Connected,
    /// The host has disconnected; the native side has not yet said that it
    /// let go of the closure.
    Disconnected,
    /// The native side let go of the closure: its storage is freed.
    Released,
}

/// What the trampoline does with an event.
#[derive(Clone, Copy, Debug, PartialEq, Eq, Structural)]
pub enum Decision {
    /// Call the closure.
    Invoke,
    /// Return to the dispatcher without calling anything.
    Skip,
}

/// Why the registry turned a request down.
#[derive(Clone, Copy, Debug, PartialEq, Eq, Structural)]
pub enum RegistryError {
    /// The registry never gave this token out.
    UnknownToken,
    /// The registration already has its answer from the native side.
    NotPending,
    /// The native side refused the connection.
    Refused,
    /// The registration is not connected.
    NotConnected,
    /// The closure was already released.
    AlreadyReleased,
}

/// One registration, as contracts see it.
pub struct RegistrationView {
    pub signal: Seq<char>,
    pub detail: Option<Seq<char>>,
    pub phase: Phase,
    pub handler_id: u64,
}

/// What happens to a registry.
pub enum Op {
    /// The host registers a closure against a signal.
    Register { signal: Seq<char>, detail: Option<Seq<char>> },
    /// The native side answers the connection with a handler id.
    Attach { token: usize, handler_id: u64 },
    /// The host disconnects.
    Disconnect { token: usize },
    /// The native side says that it let go of the closure.
    DestroyNotify { token: usize },
}

/// The text of an optional host string.
pub open spec fn opt_text(text: Option<&str>) -> Option<Seq<char>> {
    match text {
        Some(t) => Some(t@),
        None => None,
    }
}

/// The name a registration is connected under: the signal's name, and
/// behind `::` the detail if there is one.
pub open spec fn effective_name(signal: Seq<char>, detail: Option<Seq<char>>) -> Seq<char> {
    match detail {
        Some(d) => signal + seq![':', ':'] + d,
        None => signal,
    }
}

/// Whether a registration made with `registered` takes an event fired with
/// `fired`: one without a detail takes every event of its signal, one with
/// a detail only the events fired with that detail.
pub open spec fn accepts(registered: Option<Seq<char>>, fired: Option<Seq<char>>) -> bool {
    registered is None || registered == fired
}

/// Whether the registry gave `token` out.
pub open spec fn known(regs: Seq<RegistrationView>, token: usize) -> bool {
    token < regs.len()
}

/// Whether the registration behind `token` is connected.
pub open spec fn live(regs: Seq<RegistrationView>, token: usize) -> bool {
    known(regs, token) && regs[token as int].phase == Phase::Connected
}

/// Whether the storage of the closure behind `token` is still held: from
/// the registration until the release.
pub open spec fn stored(regs: Seq<RegistrationView>, token: usize) -> bool {
    known(regs, token) && regs[token as int].phase != Phase::Released
}

/// What the trampoline does with an event that reaches `token`.
pub open spec fn decision(
    regs: Seq<RegistrationView>,
    token: usize,
    fired: Option<Seq<char>>,
) -> Decision {
    if live(regs, token) && accepts(regs[token as int].detail, fired) {
        Decision::Invoke
    } else {
        Decision::Skip
    }
}

/// The events, out of those that reach `token` one after the other, on
/// which its closure is called, in the order they came.
pub open spec fn deliveries(
    regs: Seq<RegistrationView>,
    token: usize,
    events: Seq<Option<Seq<char>>>,
) -> Seq<Option<Seq<char>>> {
    events.filter(|fired: Option<Seq<char>>| decision(regs, token, fired) == Decision::Invoke)
}

/// The registration behind `token`, moved to `phase` under `handler_id`.
pub open spec fn moved(
    regs: Seq<RegistrationView>,
    token: usize,
    phase: Phase,
    handler_id: u64,
) -> Seq<RegistrationView> {
    regs.update(
        token as int,
        RegistrationView {
            signal: regs[token as int].signal,
            detail: regs[token as int].detail,
            phase,
            handler_id,
        },
    )
}

/// The answer of the registry to an operation.
pub open spec fn outcome(regs: Seq<RegistrationView>, op: Op) -> Result<(), RegistryError> {
    match op {
        Op::Register { .. } => Ok(()),
        Op::Attach { token, handler_id } => {
            if !known(regs, token) {
                Err(RegistryError::UnknownToken)
            } else if regs[token as int].phase != Phase::Pending {
                Err(RegistryError::NotPending)
            } else if handler_id == 0 {
                Err(RegistryError::Refused)
            } else {
                Ok(())
            }
        },
        Op::Disconnect { token } => {
            if !known(regs, token) {
                Err(RegistryError::UnknownToken)
            } else if regs[token as int].phase != Phase::Connected {
                Err(RegistryError::NotConnected)
            } else {
                Ok(())
            }
        },
        Op::DestroyNotify { token } => {
            if !known(regs, token) {
                Err(RegistryError::UnknownToken)
            } else if regs[token as int].phase == Phase::Released {
                Err(RegistryError::AlreadyReleased)
            } else if regs[token as int].phase == Phase::Pending {
                Err(RegistryError::NotConnected)
            } else {
                Ok(())
            }
        },
    }
}

/// The registry after an operation. A request that is turned down leaves
/// it as it was, with one exception: a connection that the native side
/// refused is released on the spot, since nobody else will ever do it.
pub open spec fn apply(regs: Seq<RegistrationView>, op: Op) -> Seq<RegistrationView> {
    match op {
        Op::Register { signal, detail } => regs.push(
            RegistrationView { signal, detail, phase: Phase::Pending, handler_id: 0 },
        ),
        Op::Attach { token, handler_id } => match outcome(regs, op) {
            Ok(_) => moved(regs, token, Phase::Connected, handler_id),
            Err(RegistryError::Refused) => moved(regs, token, Phase::Released, 0),
            Err(_) => regs,
        },
        Op::Disconnect { token } => match outcome(regs, op) {
            Ok(_) => moved(regs, token, Phase::Disconnected, regs[token as int].handler_id),
            Err(_) => regs,
        },
        Op::DestroyNotify { token } => match outcome(regs, op) {
            Ok(_) => moved(regs, token, Phase::Released, regs[token as int].handler_id),
            Err(_) => regs,
        },
    }
}

/// The registry after a history of operations.
pub open spec fn run(regs: Seq<RegistrationView>, history: Seq<Op>) -> Seq<RegistrationView>
    decreases history.len(),
{
    if history.len() == 0 {
        regs
    } else {
        apply(run(regs, history.drop_last()), history.last())
    }
}

/// How far a registration has come: a phase never goes back.
pub open spec fn rank(phase: Phase) -> int {
    match phase {
        Phase::Pending => 0,
        Phase::Connected => 1,
        Phase::Disconnected => 2,
        Phase::Released => 3,
    }
}

/// Every registration that the native side holds has the handler id that
/// the native side gave it, which is not zero.
pub open spec fn well_formed(regs: Seq<RegistrationView>) -> bool {
    forall|i: int|
        0 <= i < regs.len() ==> (#[trigger] regs[i].phase == Phase::Connected || regs[i].phase
            == Phase::Disconnected) ==> regs[i].handler_id != 0
}

/// An operation never removes a registration, never changes what it was
/// made for, and never moves it back to an earlier phase.
pub proof fn lemma_phase_never_goes_back(regs: Seq<RegistrationView>, op: Op, token: usize)
    requires
        known(regs, token),
    ensures
        known(apply(regs, op), token),
        apply(regs, op)[token as int].signal == regs[token as int].signal,
        apply(regs, op)[token as int].detail == regs[token as int].detail,
        rank(apply(regs, op)[token as int].phase) >= rank(regs[token as int].phase),
{
}

/// The same over a whole history of operations.
pub proof fn lemma_history_never_goes_back(
    regs: Seq<RegistrationView>,
    history: Seq<Op>,
    token: usize,
)
    requires
        known(regs, token),
    ensures
        known(run(regs, history), token),
        run(regs, history)[token as int].signal == regs[token as int].signal,
        run(regs, history)[token as int].detail == regs[token as int].detail,
        rank(run(regs, history)[token as int].phase) >= rank(regs[token as int].phase),
    decreases history.len(),
{
    if history.len() > 0 {
        lemma_history_never_goes_back(regs, history.drop_last(), token);
        lemma_phase_never_goes_back(run(regs, history.drop_last()), history.last(), token);
    }
}

/// Every operation keeps the handler ids of the registrations that the
/// native side holds away from zero.
pub proof fn lemma_apply_keeps_well_formed(regs: Seq<RegistrationView>, op: Op)
    requires
        well_formed(regs),
    ensures
        well_formed(apply(regs, op)),
{
    let after = apply(regs, op);
    assert forall|i: int|
        0 <= i < after.len() && (#[trigger] after[i].phase == Phase::Connected || after[i].phase
            == Phase::Disconnected) implies after[i].handler_id != 0 by {
        if i < regs.len() {
            assert(regs[i].phase == Phase::Connected || regs[i].phase == Phase::Disconnected
                ==> regs[i].handler_id != 0);
        }
    }
}

/// While a registration is connected, the native event fired K times
/// with a detail that the registration takes calls the closure K times:
/// on every one of the events, in the order they came.
pub proof fn lemma_accepted_events_are_delivered(
    regs: Seq<RegistrationView>,
    token: usize,
    events: Seq<Option<Seq<char>>>,
)
    requires
        live(regs, token),
        forall|i: int| 0 <= i < events.len() ==> accepts(regs[token as int].detail, events[i]),
    ensures
        deliveries(regs, token, events) == events,
        deliveries(regs, token, events).len() == events.len(),
    decreases events.len(),
{
    reveal(Seq::filter);
    if events.len() > 0 {
        lemma_accepted_events_are_delivered(regs, token, events.drop_last());
        assert(events.drop_last().push(events.last()) == events);
    }
}

/// A closure that is registered and connected receives every event that
/// its registration takes, from the first one on: K events call it K
/// times, in the order they came.
pub proof fn lemma_registered_closure_receives_every_event(
    regs: Seq<RegistrationView>,
    signal: Seq<char>,
    detail: Option<Seq<char>>,
    token: usize,
    handler_id: u64,
    events: Seq<Option<Seq<char>>>,
)
    requires
        token == regs.len(),
        handler_id != 0,
        forall|i: int| 0 <= i < events.len() ==> accepts(detail, events[i]),
    ensures
        outcome(apply(regs, Op::Register { signal, detail }), Op::Attach { token, handler_id })
            is Ok,
        deliveries(
            apply(apply(regs, Op::Register { signal, detail }), Op::Attach { token, handler_id }),
            token,
            events,
        ) == events,
{
    let registered = apply(regs, Op::Register { signal, detail });
    let connected = apply(registered, Op::Attach { token, handler_id });
    assert(registered[token as int].phase == Phase::Pending);
    lemma_accepted_events_are_delivered(connected, token, events);
}

/// A closure is called only while its registration is connected: before
/// the native side has answered, after a disconnect and after the release
/// no event reaches it, whatever it was fired with.
pub proof fn lemma_not_connected_delivers_nothing(
    regs: Seq<RegistrationView>,
    token: usize,
    events: Seq<Option<Seq<char>>>,
)
    requires
        !live(regs, token),
    ensures
        deliveries(regs, token, events) == Seq::<Option<Seq<char>>>::empty(),
    decreases events.len(),
{
    reveal(Seq::filter);
    if events.len() > 0 {
        lemma_not_connected_delivers_nothing(regs, token, events.drop_last());
    }
}

/// After a disconnect that the registry accepted, the closure is never
/// called again: not by events that the native side still fires, and not
/// after anything else that happens to the registry.
pub proof fn lemma_disconnect_is_final(
    regs: Seq<RegistrationView>,
    token: usize,
    history: Seq<Op>,
    events: Seq<Option<Seq<char>>>,
)
    requires
        outcome(regs, Op::Disconnect { token }) is Ok,
    ensures
        !live(run(apply(regs, Op::Disconnect { token }), history), token),
        deliveries(run(apply(regs, Op::Disconnect { token }), history), token, events) == Seq::<
            Option<Seq<char>>,
        >::empty(),
{
    let after = apply(regs, Op::Disconnect { token });
    lemma_history_never_goes_back(after, history, token);
    lemma_not_connected_delivers_nothing(run(after, history), token, events);
}

/// A registration made with a detail receives the events fired with that
/// detail and no others: none fired with another detail, none fired
/// without one. One made without a detail receives every event.
pub proof fn lemma_detail_selects_events(
    regs: Seq<RegistrationView>,
    token: usize,
    events: Seq<Option<Seq<char>>>,
)
    requires
        live(regs, token),
    ensures
        regs[token as int].detail matches Some(d) ==> deliveries(regs, token, events)
            == events.filter(|fired: Option<Seq<char>>| fired == Some(d)),
        regs[token as int].detail is None ==> deliveries(regs, token, events) == events,
    decreases events.len(),
{
    reveal(Seq::filter);
    if events.len() > 0 {
        lemma_detail_selects_events(regs, token, events.drop_last());
        assert(events.drop_last().push(events.last()) == events);
    }
}

/// An event fired with one detail never reaches a registration made
/// with another.
pub proof fn lemma_details_do_not_cross(
    regs: Seq<RegistrationView>,
    token: usize,
    fired: Option<Seq<char>>,
)
    requires
        known(regs, token),
        regs[token as int].detail is Some,
        regs[token as int].detail != fired,
    ensures
        decision(regs, token, fired) == Decision::Skip,
{
}

/// A closure that is called still has its storage, and the storage of a
/// closure goes only when the native side says that it let go of it, or
/// when the native side refused the connection in the first place. No
/// disconnect and no event frees it.
pub proof fn lemma_storage_outlives_every_call(
    regs: Seq<RegistrationView>,
    op: Op,
    token: usize,
    fired: Option<Seq<char>>,
)
    ensures
        decision(regs, token, fired) == Decision::Invoke ==> stored(regs, token),
        stored(regs, token) && !stored(apply(regs, op), token) ==> {
            ||| op == (Op::DestroyNotify { token }) && outcome(regs, op) is Ok
            ||| op matches Op::Attach { token: t, handler_id: 0 } && t == token
        },
{
}

/// The native side's notice that it let go of a closure is honoured once:
/// after the registry has answered it with `Ok`, it never does so again
/// for that token, whatever happens in between.
pub proof fn lemma_release_comes_once(regs: Seq<RegistrationView>, token: usize, history: Seq<Op>)
    requires
        outcome(regs, Op::DestroyNotify { token }) is Ok,
    ensures
        outcome(
            run(apply(regs, Op::DestroyNotify { token }), history),
            Op::DestroyNotify { token },
        ) == Err::<(), RegistryError>(RegistryError::AlreadyReleased),
        !live(run(apply(regs, Op::DestroyNotify { token }), history), token),
{
    let after = apply(regs, Op::DestroyNotify { token });
    lemma_history_never_goes_back(after, history, token);
}

/// The connection name for a signal and an optional detail.
pub fn detailed_signal_name(signal: &str, detail: Option<&str>) -> (name: String)
    ensures
        name@ == effective_name(signal@, opt_text(detail)),
{
    let mut name = String::from_str(signal);
    match detail {
        Some(d) => {
            proof {
                reveal_strlit("::");
            }
            name.append("::");
            name.append(d);
            assert("::"@ == seq![':', ':']);
        },
        None => {},
    }
    name
}

/// One registration.
struct Registration {
    signal: String,
    detail: Option<String>,
    phase: Phase,
    handler_id: u64,
}

impl View for Registration {
    type V = RegistrationView;

    closed spec fn view(&self) -> RegistrationView {
        RegistrationView {
            signal: self.signal@,
            detail: match self.detail {
                Some(d) => Some(d@),
                None => None,
            },
            phase: self.phase,
            handler_id: self.handler_id,
        }
    }
}

/// The registrations of closures against native signals, in the order
/// they were made. A token is the position of its registration.
pub struct Registry {
    entries: Vec<Registration>,
}

impl View for Registry {
    type V = Seq<RegistrationView>;

    closed spec fn view(&self) -> Seq<RegistrationView> {
        views(self.entries@)
    }
}

impl Registration {
    spec fn sound(self) -> bool {
        (self.phase == Phase::Connected || self.phase == Phase::Disconnected) ==> self.handler_id
            != 0
    }
}

/// The views of a run of registrations.
spec fn views(entries: Seq<Registration>) -> Seq<RegistrationView> {
    entries.map_values(|e: Registration| e@)
}

/// Moves the registration at `token` to `phase` under `handler_id`.
fn move_entry(entries: &mut Vec<Registration>, token: usize, phase: Phase, handler_id: u64)
    requires
        token < old(entries)@.len(),
    ensures
        views(final(entries)@) == moved(views(old(entries)@), token, phase, handler_id),
        final(entries)@.len() == old(entries)@.len(),
        forall|i: int|
            0 <= i < old(entries)@.len() && i != token ==> final(entries)@[i] == old(entries)@[i],
        final(entries)@[token as int].phase == phase,
        final(entries)@[token as int].handler_id == handler_id,
{
    entries[token].phase = phase;
    entries[token].handler_id = handler_id;
    assert(views(entries@) =~= moved(views(old(entries)@), token, phase, handler_id));
}

impl Registry {
    #[verifier::type_invariant]
    spec fn inv(self) -> bool {
        forall|i: int| 0 <= i < self.entries@.len() ==> (#[trigger] self.entries@[i]).sound()
    }

    proof fn lemma_well_formed(self)
        requires
            self.inv(),
        ensures
            well_formed(self@),
    {
        assert forall|i: int| 0 <= i < self@.len() && (#[trigger] self@[i].phase
            == Phase::Connected || self@[i].phase == Phase::Disconnected) implies self@[i].handler_id
            != 0 by {
            assert(self.entries@[i].sound());
        }
    }

    /// A registry that holds nothing.
    pub fn new() -> (registry: Registry)
        ensures
            registry@ == Seq::<RegistrationView>::empty(),
    {
        let registry = Registry { entries: Vec::new() };
        assert(registry@ =~= Seq::<RegistrationView>::empty());
        registry
    }

    /// How many tokens the registry has given out.
    pub fn len(&self) -> (count: usize)
        ensures
            count == self@.len(),
            well_formed(self@),
    {
        proof {
            use_type_invariant(self);
            self.lemma_well_formed();
        }
        self.entries.len()
    }

    /// The phase of the registration behind `token`, if there is one.
    pub fn phase(&self, token: usize) -> (phase: Option<Phase>)
        ensures
            phase == (if known(self@, token) {
                Some(self@[token as int].phase)
            } else {
                None
            }),
    {
        if token < self.entries.len() {
            Some(self.entries[token].phase)
        } else {
            None
        }
    }

    /// Starts a registration of a closure against `signal`, narrowed to
    /// `detail` if one is given. Hands out the token that travels as the
    /// connection's user data, and the name to connect under.
    pub fn register(&mut self, signal: &str, detail: Option<&str>) -> (plan: (usize, String))
        ensures
            final(self)@ == apply(
                old(self)@,
                Op::Register { signal: signal@, detail: opt_text(detail) },
            ),
            plan.0 == old(self)@.len(),
            plan.1@ == effective_name(signal@, opt_text(detail)),
    {
        proof {
            use_type_invariant(&*self);
        }
        let token = self.entries.len();
        let name = detailed_signal_name(signal, detail);
        let owned_detail = match detail {
            Some(d) => Some(String::from_str(d)),
            None => None,
        };
        let entry = Registration {
            signal: String::from_str(signal),
            detail: owned_detail,
            phase: Phase::Pending,
            handler_id: 0,
        };
        let mut entries: Vec<Registration> = Vec::new();
        std::mem::swap(&mut entries, &mut self.entries);
        entries.push(entry);
        self.entries = entries;
        assert(self@ =~= apply(
            old(self)@,
            Op::Register { signal: signal@, detail: opt_text(detail) },
        ));
        (token, name)
    }

    /// Records the native side's answer to the connection made for
    /// `token`: the handler id, where zero says that it refused.
    pub fn attach(&mut self, token: usize, handler_id: u64) -> (answer: Result<(), RegistryError>)
        ensures
            answer == outcome(old(self)@, Op::Attach { token, handler_id }),
            final(self)@ == apply(old(self)@, Op::Attach { token, handler_id }),
    {
        proof {
            use_type_invariant(&*self);
        }
        if token >= self.entries.len() {
            return Err(RegistryError::UnknownToken);
        }
        match self.entries[token].phase {
            Phase::Pending => {},
            _ => {
                return Err(RegistryError::NotPending);
            },
        }
        let mut entries: Vec<Registration> = Vec::new();
        std::mem::swap(&mut entries, &mut self.entries);
        if handler_id == 0 {
            move_entry(&mut entries, token, Phase::Released, 0);
            self.entries = entries;
            return Err(RegistryError::Refused);
        }
        move_entry(&mut entries, token, Phase::Connected, handler_id);
        self.entries = entries;
        Ok(())
    }

    /// Decides what the trampoline does with an event that the native
    /// dispatcher delivers to `token`, fired with the detail `fired`.
    pub fn dispatch(&self, token: usize, fired: Option<&str>) -> (verdict: Decision)
        ensures
            verdict == decision(self@, token, opt_text(fired)),
    {
        if token >= self.entries.len() {
            return Decision::Skip;
        }
        let entry = &self.entries[token];
        assert(self@[token as int] == entry@);
        match entry.phase {
            Phase::Connected => {},
            _ => {
                return Decision::Skip;
            },
        }
        let takes = match &entry.detail {
            None => true,
            Some(registered) => match fired {
                Some(f) => same_text(registered.as_str(), f),
                None => false,
            },
        };
        if takes {
            Decision::Invoke
        } else {
            Decision::Skip
        }
    }

    /// The trampoline of a signal that carries its detail as its
    /// argument, such as the name of the key that changed. Reads the
    /// argument out of the native buffer and decides on it: the text to
    /// call the closure with, or nothing if the closure is not called.
    /// An argument that is not UTF-8 reaches no closure.
    pub fn dispatch_keyed(&self, token: usize, key: &[u8]) -> (argument: Option<String>)
        ensures
            argument is Some <==> text_of(key@) is Some && decision(self@, token, text_of(key@))
                == Decision::Invoke,
            argument matches Some(text) ==> Some(text@) == text_of(key@),
    {
        match read_text(key) {
            None => None,
            Some(text) => {
                match self.dispatch(token, Some(text.as_str())) {
                    Decision::Invoke => Some(text),
                    Decision::Skip => None,
                }
            },
        }
    }

    /// Disconnects the registration behind `token` on the host's request.
    /// From here on its closure is never called again. Hands back the
    /// handler id to disconnect on the native side.
    pub fn disconnect(&mut self, token: usize) -> (answer: Result<u64, RegistryError>)
        ensures
            answer is Ok <==> outcome(old(self)@, Op::Disconnect { token }) is Ok,
            answer matches Ok(id) ==> id == old(self)@[token as int].handler_id && id != 0,
            answer matches Err(e) ==> outcome(old(self)@, Op::Disconnect { token }) == Err::<
                (),
                RegistryError,
            >(e),
            final(self)@ == apply(old(self)@, Op::Disconnect { token }),
    {
        proof {
            use_type_invariant(&*self);
        }
        if token >= self.entries.len() {
            return Err(RegistryError::UnknownToken);
        }
        assert(self@[token as int] == self.entries@[token as int]@);
        match self.entries[token].phase {
            Phase::Connected => {},
            _ => {
                return Err(RegistryError::NotConnected);
            },
        }
        let id = self.entries[token].handler_id;
        assert(self.entries@[token as int].sound());
        let mut entries: Vec<Registration> = Vec::new();
        std::mem::swap(&mut entries, &mut self.entries);
        move_entry(&mut entries, token, Phase::Disconnected, id);
        self.entries = entries;
        Ok(id)
    }

    /// Records that the native side let go of the closure behind `token`,
    /// after a disconnect or because the object went away. `Ok` tells the
    /// host to free the closure's storage, and comes once for a token.
    pub fn destroy_notify(&mut self, token: usize) -> (answer: Result<(), RegistryError>)
        ensures
            answer == outcome(old(self)@, Op::DestroyNotify { token }),
            final(self)@ == apply(old(self)@, Op::DestroyNotify { token }),
    {
        proof {
            use_type_invariant(&*self);
        }
        if token >= self.entries.len() {
            return Err(RegistryError::UnknownToken);
        }
        assert(self@[token as int] == self.entries@[token as int]@);
        match self.entries[token].phase {
            Phase::Released => {
                return Err(RegistryError::AlreadyReleased);
            },
            Phase::Pending => {
                return Err(RegistryError::NotConnected);
            },
            _ => {},
        }
        let id = self.entries[token].handler_id;
        let mut entries: Vec<Registration> = Vec::new();
        std::mem::swap(&mut entries, &mut self.entries);
        move_entry(&mut entries, token, Phase::Released, id);
        self.entries = entries;
        Ok(())
    }
}

} // verus!
