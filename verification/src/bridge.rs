//! The event bridge: binds one process's event and log deliveries to one
//! bounded outbound queue, and closes the queue exactly once, on the
//! terminal workflow event.
//!
//! The channel state machine is: `Open --(non-terminal item)--> Open`;
//! `Open --(terminal event)--> Closed`, with the terminal event enqueued as
//! the last item; `Closed --(anything)--> Closed`, the item silently
//! dropped. Enqueuing into a full queue never blocks and never errors: the
//! item is dropped and the caller is told so, so a slow consumer cannot
//! stall or fail the engine's callback threads.

use vstd::prelude::*;

use crate::events::{EngineEvent, LogRecord, WireEvent, engine_event_is_terminal,
    wire_event_is_terminal};
use crate::translate::{log_translates_to, translate_event, translate_log, translates_to};

verus! {

/// State of the outbound channel: exactly one of open or closed.
#[derive(Clone, Copy, Debug, PartialEq, Eq, Structural)]
pub enum ChannelState {
    /// Items are still accepted.
    Open,
    /// No further item is ever delivered to the consumer.
    Closed,
}

/// What became of one delivered item.
#[derive(Clone, Copy, Debug, PartialEq, Eq, Structural)]
pub enum DeliveryOutcome {
    /// The item was placed in the outbound queue.
    Enqueued,
    /// The queue was full; the item was dropped and should be reported in a
    /// diagnostic, never surfaced to the engine as an error.
    DroppedFull,
    /// The channel was already closed; the item was silently dropped.
    DroppedClosed,
}

/// The mathematical state of a bridge: its channel flag, the items handed
/// to the consumer so far, and the queue's capacity bound.
pub struct BridgeModel {
    /// Whether the channel is still open.
    pub open: bool,
    /// The items enqueued so far, oldest first.
    pub queue: Seq<WireEvent>,
    /// The bound on the queue's length.
    pub cap: nat,
}

/// One step of the bridge on an already-translated wire item: a closed
/// bridge drops it; an open bridge enqueues it if there is room, drops it
/// otherwise, and closes if the item is terminal.
pub open spec fn bridge_push(m: BridgeModel, w: WireEvent) -> BridgeModel {
    if !m.open {
        m
    } else {
        BridgeModel {
            open: !wire_event_is_terminal(w),
            queue: if m.queue.len() < m.cap {
                m.queue.push(w)
            } else {
                m.queue
            },
            cap: m.cap,
        }
    }
}

/// The bridge's state after a whole sequence of deliveries, first delivered
/// first.
pub open spec fn bridge_run(m: BridgeModel, ws: Seq<WireEvent>) -> BridgeModel
    decreases ws.len(),
{
    if ws.len() == 0 {
        m
    } else {
        bridge_push(bridge_run(m, ws.drop_last()), ws.last())
    }
}

/// The bridge's invariant over what it has delivered: only the last
/// enqueued item may be terminal, and while the channel is open no terminal
/// item has been enqueued at all. Together these give the exactly-once
/// closure guarantee: the stream holds at most one terminal item, it is the
/// last item, and nothing follows it.
pub open spec fn closure_invariant(m: BridgeModel) -> bool {
    &&& forall|i: int| 0 <= i < m.queue.len() - 1 ==> !wire_event_is_terminal(#[trigger] m.queue[i])
    &&& m.open ==> forall|i: int|
        0 <= i < m.queue.len() ==> !wire_event_is_terminal(#[trigger] m.queue[i])
}

/// One delivery preserves the closure invariant.
pub proof fn lemma_push_preserves_invariant(m: BridgeModel, w: WireEvent)
    requires
        closure_invariant(m),
    ensures
        closure_invariant(bridge_push(m, w)),
{
}

/// Exactly-once closure: under any sequence of deliveries — events and
/// logs, in any interleaving, with duplicate or late terminal-adjacent
/// items — a bridge that satisfies the closure invariant keeps it, so its
/// stream holds at most one terminal item and that item is the last one.
pub proof fn lemma_run_preserves_invariant(m: BridgeModel, ws: Seq<WireEvent>)
    requires
        closure_invariant(m),
    ensures
        closure_invariant(bridge_run(m, ws)),
    decreases ws.len(),
{
    if ws.len() > 0 {
        lemma_run_preserves_invariant(m, ws.drop_last());
        lemma_push_preserves_invariant(bridge_run(m, ws.drop_last()), ws.last());
    }
}

/// The stream a fresh bridge of the given capacity delivers for a
/// sequence of translated items.
pub open spec fn fresh_run_queue(cap: nat, ws: Seq<WireEvent>) -> Seq<WireEvent> {
    bridge_run(BridgeModel { open: true, queue: Seq::<WireEvent>::empty(), cap }, ws).queue
}

/// Exactly-once closure, from the start of a stream: whatever sequence of
/// translated events and logs is delivered to a fresh bridge — in any
/// interleaving, with duplicate or out-of-order terminal-adjacent items —
/// the outbound stream holds at most one terminal item, and if one is
/// present it is the last item delivered.
pub proof fn lemma_exactly_once_closure(cap: nat, ws: Seq<WireEvent>)
    ensures
        forall|i: int, j: int|
            0 <= i < fresh_run_queue(cap, ws).len() && 0 <= j < fresh_run_queue(cap, ws).len()
                && wire_event_is_terminal(#[trigger] fresh_run_queue(cap, ws)[i])
                && wire_event_is_terminal(#[trigger] fresh_run_queue(cap, ws)[j]) ==> i == j,
        forall|i: int|
            0 <= i < fresh_run_queue(cap, ws).len() && wire_event_is_terminal(
                #[trigger] fresh_run_queue(cap, ws)[i],
            ) ==> i == fresh_run_queue(cap, ws).len() - 1,
{
    let m0 = BridgeModel { open: true, queue: Seq::<WireEvent>::empty(), cap };
    lemma_run_preserves_invariant(m0, ws);
}

/// Once closed, a bridge is inert: no later delivery changes its state or
/// its stream, so no item is ever delivered after closure.
pub proof fn lemma_closed_is_inert(m: BridgeModel, ws: Seq<WireEvent>)
    requires
        !m.open,
    ensures
        bridge_run(m, ws) == m,
    decreases ws.len(),
{
    if ws.len() > 0 {
        lemma_closed_is_inert(m, ws.drop_last());
    }
}

/// The channel flag is monotonic: deliveries can close an open bridge but
/// never reopen a closed one, so the transition from open to closed happens
/// at most once.
pub proof fn lemma_close_is_monotonic(m: BridgeModel, ws: Seq<WireEvent>)
    ensures
        bridge_run(m, ws).open ==> m.open,
    decreases ws.len(),
{
    if ws.len() > 0 {
        lemma_close_is_monotonic(m, ws.drop_last());
    }
}

/// Deliveries only append: whatever was in the stream stays, in its place,
/// whatever arrives later.
pub proof fn lemma_run_appends(m: BridgeModel, ws: Seq<WireEvent>)
    ensures
        bridge_run(m, ws).queue.len() >= m.queue.len(),
        forall|i: int|
            0 <= i < m.queue.len() ==> bridge_run(m, ws).queue[i] == #[trigger] m.queue[i],
        bridge_run(m, ws).cap == m.cap,
    decreases ws.len(),
{
    if ws.len() > 0 {
        lemma_run_appends(m, ws.drop_last());
    }
}

/// The bridge for one process: the channel state and the bounded outbound
/// queue the engine callbacks feed and the streaming response drains.
#[derive(Debug)]
pub struct Bridge {
    state: ChannelState,
    queue: Vec<WireEvent>,
    capacity: usize,
}

impl Bridge {
    /// Whether the channel is open.
    pub closed spec fn is_open(&self) -> bool {
        self.state is Open
    }

    /// The items enqueued and not yet drained, oldest first.
    pub closed spec fn queue_model(&self) -> Seq<WireEvent> {
        self.queue@
    }

    /// The queue's capacity bound.
    pub closed spec fn cap(&self) -> nat {
        self.capacity as nat
    }

    /// The bridge as its mathematical state.
    pub open spec fn model(&self) -> BridgeModel {
        BridgeModel { open: self.is_open(), queue: self.queue_model(), cap: self.cap() }
    }

    /// The queue never exceeds its capacity.
    pub open spec fn wf(&self) -> bool {
        self.queue_model().len() <= self.cap()
    }

    /// A fresh, open bridge with an empty queue of the given capacity.
    pub fn new(capacity: usize) -> (b: Bridge)
        ensures
            b.wf(),
            b.is_open(),
            b.queue_model() == Seq::<WireEvent>::empty(),
            b.cap() == capacity,
    {
        Bridge { state: ChannelState::Open, queue: Vec::new(), capacity }
    }

    /// Delivers one already-translated wire item: the executable form of
    /// one `bridge_push` step. Never blocks, never errors, never panics; a
    /// full queue or a closed channel only makes it report a drop.
    pub fn offer(&mut self, w: WireEvent) -> (r: DeliveryOutcome)
        requires
            old(self).wf(),
        ensures
            final(self).wf(),
            final(self).model() == bridge_push(old(self).model(), w),
            r is Enqueued <==> (old(self).is_open() && old(self).queue_model().len() < old(
                self,
            ).cap()),
            r is DroppedFull <==> (old(self).is_open() && old(self).queue_model().len() == old(
                self,
            ).cap()),
            r is DroppedClosed <==> !old(self).is_open(),
    {
        match self.state {
            ChannelState::Closed => DeliveryOutcome::DroppedClosed,
            ChannelState::Open => {
                let terminal = match &w {
                    WireEvent::WorkflowSuccess { .. } => true,
                    WireEvent::WorkflowFailure { .. } => true,
                    WireEvent::WorkflowAbort { .. } => true,
                    _ => false,
                };
                let fits = self.queue.len() < self.capacity;
                let outcome: DeliveryOutcome = if fits {
                    self.queue.push(w);
                    DeliveryOutcome::Enqueued
                } else {
                    DeliveryOutcome::DroppedFull
                };
                if terminal {
                    self.state = ChannelState::Closed;
                }
                outcome
            },
        }
    }

    /// Handles one engine event, as the engine's event callback does:
    /// translates it, enqueues the translation while the channel is open
    /// and the queue has room, and closes the channel on a terminal event
    /// — with the terminal item, when it fits, as the last item ever
    /// enqueued.
    pub fn on_event(&mut self, e: &EngineEvent) -> (r: DeliveryOutcome)
        requires
            old(self).wf(),
        ensures
            final(self).wf(),
            final(self).cap() == old(self).cap(),
            final(self).is_open() == (old(self).is_open() && !engine_event_is_terminal(*e)),
            exists|w: WireEvent|
                translates_to(*e, w) && final(self).model() == bridge_push(old(self).model(), w),
            r is DroppedClosed <==> !old(self).is_open(),
            r is Enqueued <==> (old(self).is_open() && old(self).queue_model().len() < old(
                self,
            ).cap()),
            r is Enqueued ==> {
                &&& final(self).queue_model().len() == old(self).queue_model().len() + 1
                &&& translates_to(*e, final(self).queue_model().last())
            },
            !(r is Enqueued) ==> final(self).queue_model() == old(self).queue_model(),
    {
        let w = translate_event(e);
        let ghost gw = w;
        let r = self.offer(w);
        proof {
            assert(translates_to(*e, gw) && self.model() == bridge_push(old(self).model(), gw));
        }
        r
    }

    /// Handles one log record, as the engine's log callback does: enqueues
    /// its translation while the channel is open and the queue has room,
    /// drops it silently otherwise. A log never changes the channel state.
    pub fn on_log(&mut self, l: &LogRecord) -> (r: DeliveryOutcome)
        requires
            old(self).wf(),
        ensures
            final(self).wf(),
            final(self).cap() == old(self).cap(),
            final(self).is_open() == old(self).is_open(),
            exists|w: WireEvent|
                log_translates_to(*l, w) && final(self).model() == bridge_push(
                    old(self).model(),
                    w,
                ),
            r is DroppedClosed <==> !old(self).is_open(),
            r is Enqueued <==> (old(self).is_open() && old(self).queue_model().len() < old(
                self,
            ).cap()),
            r is Enqueued ==> {
                &&& final(self).queue_model().len() == old(self).queue_model().len() + 1
                &&& log_translates_to(*l, final(self).queue_model().last())
            },
            !(r is Enqueued) ==> final(self).queue_model() == old(self).queue_model(),
    {
        let w = translate_log(l);
        let ghost gw = w;
        let r = self.offer(w);
        proof {
            assert(log_translates_to(*l, gw) && self.model() == bridge_push(old(self).model(), gw));
        }
        r
    }

    /// Whether the channel is open, for the callback side's check.
    pub fn channel_is_open(&self) -> (r: bool)
        ensures
            r == self.is_open(),
    {
        match self.state {
            ChannelState::Open => true,
            ChannelState::Closed => false,
        }
    }

    /// How many items sit in the queue.
    pub fn queue_len(&self) -> (n: usize)
        ensures
            n == self.queue_model().len(),
    {
        self.queue.len()
    }

    /// Hands the consumer the oldest queued item, freeing one slot, as the
    /// streaming response does when it drains the queue; `None` when the
    /// queue is momentarily empty.
    pub fn pop_front(&mut self) -> (r: Option<WireEvent>)
        requires
            old(self).wf(),
        ensures
            final(self).wf(),
            final(self).is_open() == old(self).is_open(),
            final(self).cap() == old(self).cap(),
            old(self).queue_model().len() == 0 ==> r is None && final(self).queue_model() == old(
                self,
            ).queue_model(),
            old(self).queue_model().len() > 0 ==> {
                &&& r matches Some(w) && w == old(self).queue_model()[0]
                &&& final(self).queue_model() == old(self).queue_model().remove(0)
            },
    {
        if self.queue.len() == 0 {
            None
        } else {
            Some(self.queue.remove(0))
        }
    }

    /// Hands the whole stream out to the consumer, oldest item first.
    pub fn into_queue(self) -> (q: Vec<WireEvent>)
        ensures
            q@ == self.queue_model(),
    {
        self.queue
    }
}

} // verus!
