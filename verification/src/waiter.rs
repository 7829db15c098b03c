//! The progress waiter's coordination protocol. A wait runs two concurrent
//! tasks: the primary task sleeps for the requested duration, then raises a
//! stop signal and joins the ticker; the ticker emits a progress mark each
//! polling round until it observes the signal, then exits. This module holds
//! the decisions of that protocol — when the ticker emits, when it may exit,
//! and when the wait may return — so the driving loop only performs the
//! sleeps and the join.

use vstd::prelude::*;

verus! {

/// The shared coordination state: whether the primary task has raised the
/// stop signal, and whether the ticker has observed it and exited.
pub struct WaiterProtocol {
    pub stop_requested: bool,
    pub ticker_exited: bool,
}

impl WaiterProtocol {
    /// The single-writer flag discipline: the ticker exits only after the
    /// stop signal was raised, so an exited ticker implies the signal.
    pub open spec fn wf(self) -> bool {
        self.ticker_exited ==> self.stop_requested
    }

    /// A wait starts with the signal down and the ticker running.
    pub fn new() -> (w: WaiterProtocol)
        ensures
            w == (WaiterProtocol { stop_requested: false, ticker_exited: false }),
            w.wf(),
    {
        WaiterProtocol { stop_requested: false, ticker_exited: false }
    }

    /// One ticker polling round: emit a progress mark iff the stop signal is
    /// not yet raised; otherwise the ticker must exit this round.
    pub fn ticker_poll(&self) -> (emit: bool)
        ensures
            emit == !self.stop_requested,
    {
        !self.stop_requested
    }

    /// The primary task raises the stop signal once its sleep has elapsed.
    pub fn request_stop(&mut self)
        requires
            old(self).wf(),
        ensures
            *final(self) == (WaiterProtocol {
                stop_requested: true,
                ticker_exited: old(self).ticker_exited,
            }),
            final(self).wf(),
    {
        self.stop_requested = true;
    }

    /// The ticker records its exit; it can only do so after observing the
    /// stop signal, which keeps the protocol well formed.
    pub fn ticker_exit(&mut self)
        requires
            old(self).stop_requested,
        ensures
            *final(self) == (WaiterProtocol {
                stop_requested: old(self).stop_requested,
                ticker_exited: true,
            }),
            final(self).wf(),
    {
        self.ticker_exited = true;
    }

    /// Whether the wait may return: only once the signal is raised and the
    /// ticker has observed it and exited — the join has completed and no
    /// background work survives the call.
    pub fn may_return(&self) -> (r: bool)
        ensures
            r == (self.stop_requested && self.ticker_exited),
    {
        self.stop_requested && self.ticker_exited
    }
}

/// In any well-formed waiter state an exited ticker implies the stop signal
/// was raised first: the wait never loses its ticker while the signal is
/// down, so a completed join always means the ticker observed the stop.
pub proof fn lemma_exit_only_after_stop(w: WaiterProtocol)
    requires
        w.wf(),
        w.ticker_exited,
    ensures
        w.stop_requested,
{
}

/// The state-changing events of a wait: the primary task raising the stop
/// signal, and the ticker recording its exit.
pub enum WaiterEvent {
    RequestStop,
    TickerExit,
}

/// Whether an event is enabled in a state: the signal can always be raised,
/// but the ticker exits only after observing it.
pub open spec fn event_enabled(s: WaiterProtocol, e: WaiterEvent) -> bool {
    match e {
        WaiterEvent::RequestStop => true,
        WaiterEvent::TickerExit => s.stop_requested,
    }
}

/// The state an event leads to.
pub open spec fn event_step(s: WaiterProtocol, e: WaiterEvent) -> WaiterProtocol {
    match e {
        WaiterEvent::RequestStop => WaiterProtocol {
            stop_requested: true,
            ticker_exited: s.ticker_exited,
        },
        WaiterEvent::TickerExit => WaiterProtocol {
            stop_requested: s.stop_requested,
            ticker_exited: true,
        },
    }
}

/// Whether a whole schedule of events is allowed from a state, each event
/// enabled in the state the previous ones led to.
pub open spec fn schedule_allowed(s: WaiterProtocol, events: Seq<WaiterEvent>) -> bool
    decreases events.len(),
{
    events.len() == 0 || (event_enabled(s, events[0]) && schedule_allowed(
        event_step(s, events[0]),
        events.drop_first(),
    ))
}

/// The state a schedule of events leads to.
pub open spec fn schedule_run(s: WaiterProtocol, events: Seq<WaiterEvent>) -> WaiterProtocol
    decreases events.len(),
{
    if events.len() == 0 {
        s
    } else {
        schedule_run(event_step(s, events[0]), events.drop_first())
    }
}

/// Under any allowed schedule — any interleaving the two tasks can produce —
/// a well-formed waiter stays well formed: however the primary task and the
/// ticker are scheduled, the ticker's exit always comes after the stop
/// signal, so the join a wait ends with never completes early.
pub proof fn lemma_every_allowed_schedule_keeps_wf(s: WaiterProtocol, events: Seq<WaiterEvent>)
    requires
        s.wf(),
        schedule_allowed(s, events),
    ensures
        schedule_run(s, events).wf(),
    decreases events.len(),
{
    if events.len() > 0 {
        let next = event_step(s, events[0]);
        assert(next.wf());
        lemma_every_allowed_schedule_keeps_wf(next, events.drop_first());
    }
}

} // verus!
