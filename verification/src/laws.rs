//! What holds of every probe run.

use vstd::prelude::*;
use crate::prober::{lemma_after_keeps_wf, Event, Phase, ProbeError, ProbeState, PAUSE_MILLIS};
use crate::responder::{reply_len, READ_BUFFER_CAPACITY};

verus! {

/// Whatever the driver reports, and in whatever order, a run stays within the
/// states that a run can reach, and what it was asked for stays the same.
pub proof fn lemma_run_keeps_wf(state: ProbeState, events: Seq<Event>)
    requires
        state.wf(),
    ensures
        state.run(events).wf(),
        state.run(events).payload_size == state.payload_size,
        state.run(events).iterations == state.iterations,
    decreases events.len(),
{
    if events.len() > 0 {
        lemma_run_keeps_wf(state, events.drop_last());
        lemma_after_keeps_wf(state.run(events.drop_last()), events.last());
    }
}

/// A run that has finished has made every exchange it was asked for: it has
/// sent exactly the number of exchanges times the size of the payload, it has
/// received no more than the buffer holds for each of them, and it has paused
/// once after each.
pub proof fn lemma_finished_run_totals(payload_size: usize, iterations: usize, events: Seq<Event>)
    ensures
        ({
            let end = ProbeState::initial(payload_size, iterations).run(events);
            end.phase == Phase::Finished ==> {
                &&& end.completed == iterations
                &&& end.total_sent == iterations * payload_size
                &&& end.total_received <= iterations * READ_BUFFER_CAPACITY
                &&& end.paused_millis() == iterations * PAUSE_MILLIS
            }
        }),
{
    let begin = ProbeState::initial(payload_size, iterations);
    assert(begin.wf()) by (nonlinear_arith)
        requires
            begin == ProbeState::initial(payload_size, iterations),
    ;
    lemma_run_keeps_wf(begin, events);
}

/// A run that is finished or has failed stays as it is, whatever the driver
/// reports afterwards: the first failure is the one that the run keeps.
pub proof fn lemma_ended_run_stays(state: ProbeState, events: Seq<Event>)
    requires
        state.phase == Phase::Finished || state.phase is Failed,
    ensures
        state.run(events) == state,
    decreases events.len(),
{
    if events.len() > 0 {
        lemma_ended_run_stays(state, events.drop_last());
    }
}

/// An event that makes a run fail leaves its totals and its count of
/// exchanges as they were.
pub proof fn lemma_failure_keeps_totals(state: ProbeState, event: Event)
    requires
        state.after(event).phase is Failed,
    ensures
        state.after(event).total_sent == state.total_sent,
        state.after(event).total_received == state.total_received,
        state.after(event).completed == state.completed,
{
}

/// A run whose first connection is refused fails at once, with the kind of a
/// connection error and with nothing sent or received.
pub proof fn lemma_refused_first_connection(payload_size: usize, iterations: usize)
    requires
        iterations > 0,
    ensures
        ({
            let end = ProbeState::initial(payload_size, iterations).after(Event::ConnectFailed);
            &&& end.phase == Phase::Failed(ProbeError::Connect)
            &&& end.total_sent == 0
            &&& end.total_received == 0
        }),
{
}

/// What the driver reports in one exchange with a responder that reads the
/// whole payload at once and whose reply arrives in one read.
pub open spec fn healthy_exchange(payload_size: usize) -> Seq<Event> {
    seq![
        Event::Connected,
        Event::Sent,
        Event::Received { count: reply_len(payload_size as nat) as usize },
        Event::Paused,
    ]
}

/// What the driver reports in `iterations` such exchanges, one after another.
pub open spec fn healthy_run(payload_size: usize, iterations: nat) -> Seq<Event>
    decreases iterations,
{
    if iterations == 0 {
        Seq::empty()
    } else {
        healthy_run(payload_size, (iterations - 1) as nat) + healthy_exchange(payload_size)
    }
}

/// Reporting one more event is one more step of the run.
pub proof fn lemma_run_push(state: ProbeState, events: Seq<Event>, event: Event)
    ensures
        state.run(events.push(event)) == state.run(events).after(event),
{
    assert(events.push(event).drop_last() =~= events);
}

/// The state of a run of `iterations` exchanges after `done` of them went
/// well: each sent a payload and received half as many bytes.
pub open spec fn after_healthy_exchanges(
    payload_size: usize,
    iterations: usize,
    done: nat,
) -> ProbeState {
    ProbeState {
        payload_size,
        iterations,
        completed: done as usize,
        total_sent: (done * payload_size) as usize,
        total_received: (done * reply_len(payload_size as nat)) as usize,
        phase: if done == iterations {
            Phase::Finished
        } else {
            Phase::Connecting
        },
    }
}

/// With a responder that reads the whole payload at once and whose reply
/// arrives in one read, a run is, after each exchange, where
/// `after_healthy_exchanges` says. This holds of payloads that fit the
/// responder's buffer and of totals that fit the machine's word.
pub proof fn lemma_healthy_exchanges(payload_size: usize, iterations: usize, done: nat)
    requires
        payload_size <= READ_BUFFER_CAPACITY,
        iterations * payload_size <= usize::MAX,
        done <= iterations,
    ensures
        ProbeState::initial(payload_size, iterations).run(healthy_run(payload_size, done))
            == after_healthy_exchanges(payload_size, iterations, done),
    decreases done,
{
    let begin = ProbeState::initial(payload_size, iterations);
    if done == 0 {
        assert(healthy_run(payload_size, 0) =~= Seq::<Event>::empty());
        assert(0 * payload_size == 0 && 0 * reply_len(payload_size as nat) == 0)
            by (nonlinear_arith);
    } else {
        let before = (done - 1) as nat;
        let half = reply_len(payload_size as nat);
        lemma_healthy_exchanges(payload_size, iterations, before);
        let earlier = healthy_run(payload_size, before);
        let s0 = begin.run(earlier);
        let e1 = earlier.push(Event::Connected);
        let e2 = e1.push(Event::Sent);
        let e3 = e2.push(Event::Received { count: half as usize });
        let e4 = e3.push(Event::Paused);
        assert(healthy_run(payload_size, done) =~= e4);
        lemma_run_push(begin, earlier, Event::Connected);
        lemma_run_push(begin, e1, Event::Sent);
        lemma_run_push(begin, e2, Event::Received { count: half as usize });
        lemma_run_push(begin, e3, Event::Paused);
        assert(done * payload_size == before * payload_size + payload_size
            && done * half == before * half + half
            && done * payload_size <= iterations * payload_size
            && done * half <= done * payload_size) by (nonlinear_arith)
            requires
                before + 1 == done,
                done <= iterations,
                0 <= half <= payload_size,
        ;
    }
}

/// With a responder that reads the whole payload at once and whose reply
/// arrives in one read, a run of `iterations` exchanges finishes, having sent
/// `iterations` times the payload and received `iterations` times half the
/// payload, rounded down. This holds of payloads that fit the responder's
/// buffer and of totals that fit the machine's word.
pub proof fn lemma_healthy_run_totals(payload_size: usize, iterations: usize)
    requires
        payload_size <= READ_BUFFER_CAPACITY,
        iterations * payload_size <= usize::MAX,
    ensures
        ({
            let end = ProbeState::initial(payload_size, iterations).run(
                healthy_run(payload_size, iterations as nat),
            );
            &&& end.phase == Phase::Finished
            &&& end.total_sent == iterations * payload_size
            &&& end.total_received == iterations * (payload_size / 2)
        }),
{
    lemma_healthy_exchanges(payload_size, iterations, iterations as nat);
    assert(iterations * reply_len(payload_size as nat) <= iterations * payload_size)
        by (nonlinear_arith)
        requires
            0 <= reply_len(payload_size as nat) <= payload_size,
    ;
}

} // verus!
