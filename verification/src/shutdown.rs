//! The shutdown coordinator: a one-shot, idempotent, broadcastable
//! termination signal, with the race-free double-check protocol a waiter
//! must follow.
//!
//! The observable state is a single monotonic flag. `shutdown` sets it and
//! wakes every waiter; `is_terminated` reads it; `reset` clears it between
//! independent server lifecycles, never concurrently with in-flight
//! waiters. A waiter must not simply check the flag and then subscribe to
//! the wake notification: a signal that fires between the check and the
//! subscription would then be missed forever. The correct protocol — check,
//! subscribe, check again, and only then suspend — is captured and proved
//! race-free here, over an interleaving model in which every atomic step
//! has a position on one global timeline.

use vstd::prelude::*;

verus! {

/// The shutdown coordinator's observable state.
#[derive(Clone, Copy, Debug, PartialEq, Eq, Structural)]
pub struct Shutdown {
    /// Whether the termination signal has fired; monotonic during one
    /// server lifecycle, cleared only by an explicit reset.
    pub terminated: bool,
}

/// What `shutdown` does to the coordinator's state, whatever it held.
pub open spec fn signal_transition(s: Shutdown) -> Shutdown {
    Shutdown { terminated: true }
}

impl Shutdown {
    /// Whether the termination signal has fired.
    pub open spec fn signaled(&self) -> bool {
        self.terminated
    }

    /// A fresh coordinator: not yet signaled.
    pub fn new() -> (s: Shutdown)
        ensures
            !s.signaled(),
    {
        Shutdown { terminated: false }
    }

    /// Initiates shutdown: sets the flag, whatever it held, so that every
    /// pending and subsequent wait resolves.
    pub fn shutdown(&mut self)
        ensures
            *final(self) == signal_transition(*old(self)),
            final(self).signaled(),
    {
        self.terminated = true;
    }

    /// Clears the flag for reuse between independent server lifecycles.
    pub fn reset(&mut self)
        ensures
            !final(self).signaled(),
    {
        self.terminated = false;
    }

    /// Non-blocking read of the current state.
    pub fn is_terminated(&self) -> (r: bool)
        ensures
            r == self.signaled(),
    {
        self.terminated
    }
}

impl Default for Shutdown {
    /// A fresh coordinator: not yet signaled.
    fn default() -> (s: Shutdown)
        ensures
            !s.signaled(),
    {
        Shutdown::new()
    }
}

/// Idempotent signal: signaling N times has the same observable effect as
/// signaling once — a second signal leaves the state exactly where the
/// first put it.
pub proof fn lemma_signal_idempotent(s: Shutdown)
    ensures
        signal_transition(signal_transition(s)) == signal_transition(s),
{
}

/// Signaling commutes with the state it starts from: every start state is
/// taken to the one signaled state, so concurrent signalers cannot
/// disagree about the outcome.
pub proof fn lemma_signal_converges(s1: Shutdown, s2: Shutdown)
    ensures
        signal_transition(s1) == signal_transition(s2),
{
}

/// What a waiter does after running the double-check protocol, given the
/// flag values it read at its two checks.
#[derive(Clone, Copy, Debug, PartialEq, Eq, Structural)]
pub enum WaitDecision {
    /// The first check saw the flag set: resolve at once, without
    /// subscribing.
    ResolveAtFirstCheck,
    /// The flag was set between the first check and the second: resolve
    /// without suspending — the subscription is abandoned.
    ResolveAtSecondCheck,
    /// Both checks saw the flag clear: suspend on the subscription until
    /// the wake notification arrives.
    Suspend,
}

/// The double-check wait protocol's decision, as a function of the two
/// flag reads: check the flag; if clear, subscribe to the notification and
/// check again; suspend only if the second check still saw the flag clear.
pub fn wait_decision(flag_at_first_check: bool, flag_at_second_check: bool) -> (d: WaitDecision)
    ensures
        d is ResolveAtFirstCheck <==> flag_at_first_check,
        d is ResolveAtSecondCheck <==> (!flag_at_first_check && flag_at_second_check),
        d is Suspend <==> (!flag_at_first_check && !flag_at_second_check),
{
    if flag_at_first_check {
        WaitDecision::ResolveAtFirstCheck
    } else if flag_at_second_check {
        WaitDecision::ResolveAtSecondCheck
    } else {
        WaitDecision::Suspend
    }
}

/// Whether the flag reads as set at a given position on the timeline: the
/// signaler's store happened strictly before that position.
pub open spec fn flag_set_at(set_flag_pos: int, pos: int) -> bool {
    set_flag_pos < pos
}

/// Shutdown race-freedom: no waiter blocks forever once the signal has
/// fired, however the waiter's steps interleave with the signaler's.
///
/// The waiter performs, in order: its first flag check, its subscription
/// to the wake notification, and its second flag check. The signaler
/// performs its flag store and then its broadcast wake. If the waiter
/// suspends — both checks read the flag as clear — then its subscription
/// was registered before the broadcast, so the broadcast reaches it and it
/// wakes; in every other interleaving the decision procedure resolves the
/// waiter without suspending at all. Either way the waiter resolves.
pub proof fn lemma_no_missed_wakeup(
    first_check: int,
    subscribe: int,
    second_check: int,
    set_flag: int,
    notify: int,
)
    requires
        first_check < subscribe < second_check,
        set_flag < notify,
        !flag_set_at(set_flag, first_check),
        !flag_set_at(set_flag, second_check),
    ensures
        subscribe < notify,
{
}

/// One waiter's three protocol steps, as positions on the global timeline.
pub struct WaitEpisode {
    /// When the waiter first read the flag.
    pub first_check: int,
    /// When the waiter registered its subscription to the wake
    /// notification.
    pub subscribe: int,
    /// When the waiter read the flag again, after subscribing.
    pub second_check: int,
}

/// The signaler's two steps: it stores the flag, then broadcasts the wake.
pub struct SignalEpisode {
    /// When the flag was stored.
    pub set_flag: int,
    /// When the broadcast wake was issued.
    pub notify: int,
}

/// A waiter that follows the protocol: check, then subscribe, then check
/// again.
pub open spec fn follows_protocol(w: WaitEpisode) -> bool {
    w.first_check < w.subscribe < w.second_check
}

/// A waiter suspends exactly when both of its checks read the flag as
/// clear.
pub open spec fn waiter_suspends(w: WaitEpisode, s: SignalEpisode) -> bool {
    !flag_set_at(s.set_flag, w.first_check) && !flag_set_at(s.set_flag, w.second_check)
}

/// The broadcast wakes every subscription registered before it was issued.
pub open spec fn waiter_is_woken(w: WaitEpisode, s: SignalEpisode) -> bool {
    w.subscribe < s.notify
}

/// A waiter resolves when it either never suspends — one of its checks saw
/// the flag — or suspends and is woken by the broadcast.
pub open spec fn waiter_resolves(w: WaitEpisode, s: SignalEpisode) -> bool {
    !waiter_suspends(w, s) || waiter_is_woken(w, s)
}

/// Shutdown race-freedom for any number of concurrent waiters: once the
/// signaler has stored the flag and issued its broadcast, every waiter
/// that follows the double-check protocol resolves, wherever its steps
/// fell on the timeline relative to the signaler's — none blocks forever.
pub proof fn lemma_every_waiter_resolves(ws: Seq<WaitEpisode>, s: SignalEpisode)
    requires
        s.set_flag < s.notify,
        forall|i: int| 0 <= i < ws.len() ==> follows_protocol(#[trigger] ws[i]),
    ensures
        forall|i: int| 0 <= i < ws.len() ==> waiter_resolves(#[trigger] ws[i], s),
{
    assert forall|i: int| 0 <= i < ws.len() implies waiter_resolves(#[trigger] ws[i], s) by {
        if waiter_suspends(ws[i], s) {
            lemma_no_missed_wakeup(
                ws[i].first_check,
                ws[i].subscribe,
                ws[i].second_check,
                s.set_flag,
                s.notify,
            );
        }
    }
}

} // verus!
