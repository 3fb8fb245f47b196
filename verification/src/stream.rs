//! The per-widget tick state machine. A widget stream is driven by three
//! kinds of events: the interval timer firing, a sample completing, and
//! cancellation. The machine decides, for each event, the next phase and the
//! action the driver must take; the driver (the host's event loop) performs
//! the timer waits and hands events back.
//!
//! Scheduling is fixed-delay and strictly sequential per widget: a timer fire
//! that arrives while a sample is still in flight is deferred (no overlap, no
//! backlog). Cancellation is terminal: it stops the timer, abandons any
//! in-flight sample, and no item is ever emitted afterwards.

use vstd::prelude::*;
use crate::sample::{RawSample, SampleError};

verus! {

/// Where a running stream stands between events.
#[derive(Clone, Copy, Debug, PartialEq, Eq, Structural)]
pub enum StreamPhase {
    /// Between ticks, waiting for the interval timer.
    AwaitingTimer,
    /// A sample request is in flight.
    Sampling,
    /// Terminal: cancelled or dropped by the host.
    Cancelled,
}

/// What the driver observed.
#[derive(Debug, PartialEq, Eq)]
pub enum StreamEvent {
    /// The interval timer fired.
    TimerFired,
    /// The in-flight sample finished with this result.
    SampleDone(Result<RawSample, SampleError>),
    /// The host tore the stream down.
    Cancel,
}

/// What the driver must do next.
#[derive(Debug, PartialEq, Eq)]
pub enum StreamAction {
    /// Begin sampling for the next tick.
    StartSample,
    /// Yield this completed sample result to the host.
    Emit(Result<RawSample, SampleError>),
    /// Release the timer and any in-flight request; the stream is over.
    Stop,
    /// Nothing: keep waiting (a deferred timer fire, or a stray event).
    Wait,
}

/// The transition table: next phase and action for one event.
pub open spec fn spec_step(p: StreamPhase, ev: StreamEvent) -> (StreamPhase, StreamAction) {
    match (p, ev) {
        (StreamPhase::AwaitingTimer, StreamEvent::TimerFired) => (
            StreamPhase::Sampling,
            StreamAction::StartSample,
        ),
        (StreamPhase::AwaitingTimer, StreamEvent::SampleDone(_)) => (
            StreamPhase::AwaitingTimer,
            StreamAction::Wait,
        ),
        (StreamPhase::AwaitingTimer, StreamEvent::Cancel) => (
            StreamPhase::Cancelled,
            StreamAction::Stop,
        ),
        (StreamPhase::Sampling, StreamEvent::TimerFired) => (
            StreamPhase::Sampling,
            StreamAction::Wait,
        ),
        (StreamPhase::Sampling, StreamEvent::SampleDone(r)) => (
            StreamPhase::AwaitingTimer,
            StreamAction::Emit(r),
        ),
        (StreamPhase::Sampling, StreamEvent::Cancel) => (StreamPhase::Cancelled, StreamAction::Stop),
        (StreamPhase::Cancelled, _) => (StreamPhase::Cancelled, StreamAction::Stop),
    }
}

/// The phase after a whole event sequence.
pub open spec fn final_phase(p: StreamPhase, evs: Seq<StreamEvent>) -> StreamPhase
    decreases evs.len(),
{
    if evs.len() == 0 {
        p
    } else {
        final_phase(spec_step(p, evs[0]).0, evs.drop_first())
    }
}

/// The sample results the machine emits over an event sequence, in order.
pub open spec fn run_emits(p: StreamPhase, evs: Seq<StreamEvent>) -> Seq<
    Result<RawSample, SampleError>,
>
    decreases evs.len(),
{
    if evs.len() == 0 {
        Seq::empty()
    } else {
        let head: Seq<Result<RawSample, SampleError>> = match spec_step(p, evs[0]).1 {
            StreamAction::Emit(r) => seq![r],
            _ => Seq::empty(),
        };
        head + run_emits(spec_step(p, evs[0]).0, evs.drop_first())
    }
}

/// How many samples the machine starts over an event sequence.
pub open spec fn count_starts(p: StreamPhase, evs: Seq<StreamEvent>) -> nat
    decreases evs.len(),
{
    if evs.len() == 0 {
        0
    } else {
        (if spec_step(p, evs[0]).1 is StartSample {
            1nat
        } else {
            0nat
        }) + count_starts(spec_step(p, evs[0]).0, evs.drop_first())
    }
}

/// How many results the machine emits over an event sequence.
pub open spec fn count_emits(p: StreamPhase, evs: Seq<StreamEvent>) -> nat
    decreases evs.len(),
{
    if evs.len() == 0 {
        0
    } else {
        (if spec_step(p, evs[0]).1 is Emit {
            1nat
        } else {
            0nat
        }) + count_emits(spec_step(p, evs[0]).0, evs.drop_first())
    }
}

/// How many in-flight samples a cancellation abandons (0 or 1 over any run).
pub open spec fn count_aborts(p: StreamPhase, evs: Seq<StreamEvent>) -> nat
    decreases evs.len(),
{
    if evs.len() == 0 {
        0
    } else {
        (if p is Sampling && evs[0] is Cancel {
            1nat
        } else {
            0nat
        }) + count_aborts(spec_step(p, evs[0]).0, evs.drop_first())
    }
}

/// 1 if a sample is in flight in phase `p`, else 0.
pub open spec fn inflight(p: StreamPhase) -> nat {
    if p is Sampling {
        1
    } else {
        0
    }
}

/// The results carried by the `SampleDone` events of a sequence, in order.
pub open spec fn sample_results_of(evs: Seq<StreamEvent>) -> Seq<
    Result<RawSample, SampleError>,
>
    decreases evs.len(),
{
    if evs.len() == 0 {
        Seq::empty()
    } else {
        let head: Seq<Result<RawSample, SampleError>> = match evs[0] {
            StreamEvent::SampleDone(r) => seq![r],
            _ => Seq::empty(),
        };
        head + sample_results_of(evs.drop_first())
    }
}

/// A well-formed trace: the driver reports a completed sample only while one
/// is in flight (it never invents a completion, and after cancelling it
/// abandons the in-flight request instead of reporting it).
pub open spec fn wf_trace(p: StreamPhase, evs: Seq<StreamEvent>) -> bool
    decreases evs.len(),
{
    evs.len() == 0 || {
        &&& (evs[0] is SampleDone ==> p is Sampling)
        &&& wf_trace(spec_step(p, evs[0]).0, evs.drop_first())
    }
}

/// A cancelled stream is silent: no event sequence makes it emit anything.
pub proof fn lemma_cancelled_silent(evs: Seq<StreamEvent>)
    ensures
        run_emits(StreamPhase::Cancelled, evs) == Seq::<Result<RawSample, SampleError>>::empty(),
    decreases evs.len(),
{
    if evs.len() > 0 {
        lemma_cancelled_silent(evs.drop_first());
    }
    assert(run_emits(StreamPhase::Cancelled, evs) =~= Seq::<
        Result<RawSample, SampleError>,
    >::empty());
}

/// Cancellation is immediate and final: whatever the phase, a `Cancel` event
/// stops the timer, and nothing is emitted by it or by any later event. In
/// particular a stream cancelled right after construction yields zero items,
/// and one cancelled mid-sample yields nothing for the abandoned tick.
pub proof fn lemma_cancel_yields_no_items(p: StreamPhase, evs: Seq<StreamEvent>)
    requires
        evs.len() > 0,
        evs[0] is Cancel,
    ensures
        run_emits(p, evs) == Seq::<Result<RawSample, SampleError>>::empty(),
        spec_step(p, evs[0]).1 is Stop,
        final_phase(p, evs) is Cancelled,
{
    lemma_cancelled_silent(evs.drop_first());
    assert(run_emits(p, evs) =~= Seq::<Result<RawSample, SampleError>>::empty());
    lemma_cancelled_stays_cancelled(evs.drop_first());
}

/// The terminal phase is absorbing.
pub proof fn lemma_cancelled_stays_cancelled(evs: Seq<StreamEvent>)
    ensures
        final_phase(StreamPhase::Cancelled, evs) is Cancelled,
    decreases evs.len(),
{
    if evs.len() > 0 {
        lemma_cancelled_stays_cancelled(evs.drop_first());
    }
}

/// Exactly one item per completed tick, in completion order: over a
/// well-formed trace, the emitted results are precisely the `SampleDone`
/// results, in order, none dropped and none duplicated. A failed sample on
/// one tick followed by a success on the next is emitted as that failure
/// then that success.
pub proof fn lemma_emits_follow_samples(p: StreamPhase, evs: Seq<StreamEvent>)
    requires
        wf_trace(p, evs),
    ensures
        run_emits(p, evs) == sample_results_of(evs),
    decreases evs.len(),
{
    if evs.len() > 0 {
        lemma_emits_follow_samples(spec_step(p, evs[0]).0, evs.drop_first());
    }
    assert(run_emits(p, evs) =~= sample_results_of(evs));
}

/// A sample is started only from the idle phase by a timer fire: never while
/// another sample is still in flight.
pub proof fn lemma_start_only_when_idle(p: StreamPhase, ev: StreamEvent)
    ensures
        spec_step(p, ev).1 is StartSample <==> (p is AwaitingTimer && ev is TimerFired),
{
}

proof fn lemma_balance(p: StreamPhase, evs: Seq<StreamEvent>)
    ensures
        inflight(p) + count_starts(p, evs) == count_emits(p, evs) + count_aborts(p, evs)
            + inflight(final_phase(p, evs)),
        count_aborts(p, evs) + inflight(final_phase(p, evs)) <= 1 || p is Cancelled,
        p is Cancelled ==> count_aborts(p, evs) == 0 && inflight(final_phase(p, evs)) == 0,
    decreases evs.len(),
{
    if evs.len() > 0 {
        lemma_balance(spec_step(p, evs[0]).0, evs.drop_first());
    }
}

/// Ticks never overlap: starting with no sample in flight, over every event
/// sequence the number of samples started exceeds the number of results
/// yielded by at most one, and never lags behind it. Sampling for the next
/// tick cannot begin before the previous tick's result has been yielded (or
/// the stream cancelled).
pub proof fn lemma_ticks_never_overlap(p: StreamPhase, evs: Seq<StreamEvent>)
    requires
        !(p is Sampling),
    ensures
        count_emits(p, evs) <= count_starts(p, evs),
        count_starts(p, evs) <= count_emits(p, evs) + 1,
{
    lemma_balance(p, evs);
}

/// The machine a stream drives: the phase plus how many items were emitted
/// so far (which numbers the ticks).
pub struct TickMachine {
    pub phase: StreamPhase,
    pub ticks_emitted: u64,
}

impl TickMachine {
    /// A freshly started stream: timer armed, nothing emitted.
    pub fn new() -> (m: TickMachine)
        ensures
            m.phase is AwaitingTimer,
            m.ticks_emitted == 0,
    {
        TickMachine { phase: StreamPhase::AwaitingTimer, ticks_emitted: 0 }
    }

    /// One transition of the table. The emitted-tick counter advances exactly
    /// on `Emit` (saturating at the top of `u64`); the phase follows
    /// `spec_step`.
    pub fn step(&mut self, ev: StreamEvent) -> (act: StreamAction)
        ensures
            final(self).phase == spec_step(old(self).phase, ev).0,
            act == spec_step(old(self).phase, ev).1,
            act is Emit ==> final(self).ticks_emitted == (if old(self).ticks_emitted
                < u64::MAX {
                old(self).ticks_emitted + 1
            } else {
                old(self).ticks_emitted as int
            }),
            !(act is Emit) ==> final(self).ticks_emitted == old(self).ticks_emitted,
    {
        let p = self.phase;
        match (p, ev) {
            (StreamPhase::AwaitingTimer, StreamEvent::TimerFired) => {
                self.phase = StreamPhase::Sampling;
                StreamAction::StartSample
            },
            (StreamPhase::AwaitingTimer, StreamEvent::SampleDone(_)) => StreamAction::Wait,
            (StreamPhase::AwaitingTimer, StreamEvent::Cancel) => {
                self.phase = StreamPhase::Cancelled;
                StreamAction::Stop
            },
            (StreamPhase::Sampling, StreamEvent::TimerFired) => StreamAction::Wait,
            (StreamPhase::Sampling, StreamEvent::SampleDone(r)) => {
                self.phase = StreamPhase::AwaitingTimer;
                if self.ticks_emitted < u64::MAX {
                    self.ticks_emitted = self.ticks_emitted + 1;
                }
                StreamAction::Emit(r)
            },
            (StreamPhase::Sampling, StreamEvent::Cancel) => {
                self.phase = StreamPhase::Cancelled;
                StreamAction::Stop
            },
            (StreamPhase::Cancelled, _) => StreamAction::Stop,
        }
    }
}

} // verus!
