//! A probe run as a state machine: the driver performs the action that is
//! pending and reports what happened; the machine keeps the totals and says
//! what comes next.

use vstd::prelude::*;
use crate::responder::READ_BUFFER_CAPACITY;
use crate::stats::{stats_of, NetworkStats};

verus! {

/// The pause after each exchange, in milliseconds.
pub const PAUSE_MILLIS: u64 = 100;

/// Why a probe run failed.
#[derive(Clone, Copy, Debug, PartialEq, Eq, Structural)]
pub enum ProbeError {
    /// A connection could not be opened.
    Connect,
    /// The payload could not be written in full.
    Write,
    /// The read of the response failed.
    Read,
    /// A total of the run does not fit the machine's word.
    Overflow,
    /// The driver reported something that does not answer the pending action.
    Protocol,
}

/// What the driver is asked to do next.
#[derive(Clone, Copy, Debug, PartialEq, Eq, Structural)]
pub enum Action {
    /// Open a new connection to the target.
    Connect,
    /// Write a payload of `len` bytes in full.
    Send { len: usize },
    /// Read once into a buffer of `capacity` bytes.
    Receive { capacity: usize },
    /// Wait for `millis` milliseconds.
    Pause { millis: u64 },
    /// Every exchange is done: take the elapsed time and the result.
    Finish,
    /// The run has failed: report the error, there is no result.
    Fail(ProbeError),
}

/// What the driver reports after an action.
#[derive(Clone, Copy, Debug, PartialEq, Eq, Structural)]
pub enum Event {
    /// The connection is open.
    Connected,
    /// The connection could not be opened.
    ConnectFailed,
    /// The whole payload was written.
    Sent,
    /// Writing the payload failed.
    SendFailed,
    /// The read returned `count` bytes; zero means that the peer closed
    /// without a response.
    Received { count: usize },
    /// The read failed.
    ReceiveFailed,
    /// The pause is over.
    Paused,
}

/// Where a run stands.
#[derive(Clone, Copy, Debug, PartialEq, Eq, Structural)]
pub enum Phase {
    /// Waiting for a connection to open.
    Connecting,
    /// Waiting for the payload to be written.
    Sending,
    /// Waiting for the one read of the response.
    Receiving,
    /// Waiting for the pause after an exchange to end.
    Pausing,
    /// Every exchange is done.
    Finished,
    /// The run has failed.
    Failed(ProbeError),
}

/// The state of a run.
#[derive(Clone, Copy, Debug, PartialEq, Eq, Structural)]
pub struct ProbeState {
    /// The size of each payload, in bytes.
    pub payload_size: usize,
    /// The number of exchanges that the run is to make.
    pub iterations: usize,
    /// The number of exchanges that are done, their pause included.
    pub completed: usize,
    /// The bytes written so far.
    pub total_sent: usize,
    /// The bytes read so far.
    pub total_received: usize,
    /// Where the run stands.
    pub phase: Phase,
}

impl ProbeState {
    /// The state in which a run of `iterations` exchanges begins. A run of
    /// none is finished at once.
    pub open spec fn initial(payload_size: usize, iterations: usize) -> ProbeState {
        ProbeState {
            payload_size,
            iterations,
            completed: 0,
            total_sent: 0,
            total_received: 0,
            phase: if iterations == 0 {
                Phase::Finished
            } else {
                Phase::Connecting
            },
        }
    }

    /// The state with another phase.
    pub open spec fn at(self, phase: Phase) -> ProbeState {
        ProbeState { phase, ..self }
    }

    /// The action that the driver owes in this state.
    pub open spec fn pending(self) -> Action {
        match self.phase {
            Phase::Connecting => Action::Connect,
            Phase::Sending => Action::Send { len: self.payload_size },
            Phase::Receiving => Action::Receive { capacity: READ_BUFFER_CAPACITY },
            Phase::Pausing => Action::Pause { millis: PAUSE_MILLIS },
            Phase::Finished => Action::Finish,
            Phase::Failed(error) => Action::Fail(error),
        }
    }

    /// The state that follows when the driver reports `event`.
    ///
    /// A connection opens the way to sending, a written payload counts in full
    /// and opens the way to the read, a read counts by what it returned and
    /// opens the way to the pause, and the end of the pause completes the
    /// exchange: the run is finished after the last one and connects anew
    /// after any other. A failure reported by the driver ends the run with its
    /// kind. So does a total that would not fit, and so does an event that
    /// is no answer to the pending action, a read of more than the buffer
    /// holds among them. A run that is finished or has failed stays as it is.
    pub open spec fn after(self, event: Event) -> ProbeState {
        match self.phase {
            Phase::Connecting => match event {
                Event::Connected => self.at(Phase::Sending),
                Event::ConnectFailed => self.at(Phase::Failed(ProbeError::Connect)),
                _ => self.at(Phase::Failed(ProbeError::Protocol)),
            },
            Phase::Sending => match event {
                Event::Sent => if self.total_sent + self.payload_size > usize::MAX {
                    self.at(Phase::Failed(ProbeError::Overflow))
                } else {
                    ProbeState {
                        total_sent: (self.total_sent + self.payload_size) as usize,
                        phase: Phase::Receiving,
                        ..self
                    }
                },
                Event::SendFailed => self.at(Phase::Failed(ProbeError::Write)),
                _ => self.at(Phase::Failed(ProbeError::Protocol)),
            },
            Phase::Receiving => match event {
                Event::Received { count } => if count > READ_BUFFER_CAPACITY {
                    self.at(Phase::Failed(ProbeError::Protocol))
                } else if self.total_received + count > usize::MAX {
                    self.at(Phase::Failed(ProbeError::Overflow))
                } else {
                    ProbeState {
                        total_received: (self.total_received + count) as usize,
                        phase: Phase::Pausing,
                        ..self
                    }
                },
                Event::ReceiveFailed => self.at(Phase::Failed(ProbeError::Read)),
                _ => self.at(Phase::Failed(ProbeError::Protocol)),
            },
            Phase::Pausing => match event {
                Event::Paused => if self.completed + 1 >= self.iterations {
                    ProbeState {
                        completed: self.iterations,
                        phase: Phase::Finished,
                        ..self
                    }
                } else {
                    ProbeState {
                        completed: (self.completed + 1) as usize,
                        phase: Phase::Connecting,
                        ..self
                    }
                },
                _ => self.at(Phase::Failed(ProbeError::Protocol)),
            },
            Phase::Finished => self,
            Phase::Failed(_) => self,
        }
    }

    /// The number of payloads written so far: one more than the exchanges
    /// that are done while the run reads or pauses.
    pub open spec fn payloads_sent(self) -> nat {
        match self.phase {
            Phase::Receiving | Phase::Pausing => self.completed as nat + 1,
            _ => self.completed as nat,
        }
    }

    /// The number of reads made so far: one more than the exchanges that are
    /// done while the run pauses.
    pub open spec fn reads_made(self) -> nat {
        match self.phase {
            Phase::Pausing => self.completed as nat + 1,
            _ => self.completed as nat,
        }
    }

    /// The time, in milliseconds, that the driver was asked to pause for in
    /// all, after the exchanges that are done.
    pub open spec fn paused_millis(self) -> nat {
        self.completed as nat * PAUSE_MILLIS as nat
    }

    /// What holds of every state that a run can reach without failing: a run
    /// in progress has exchanges left and a finished run has none, the bytes
    /// sent are the payloads sent times their size, and no read brought more
    /// than the buffer holds.
    pub open spec fn wf(self) -> bool {
        match self.phase {
            Phase::Failed(_) => true,
            Phase::Finished => {
                &&& self.completed == self.iterations
                &&& self.total_sent == self.iterations * self.payload_size
                &&& self.total_received <= self.iterations * READ_BUFFER_CAPACITY
            },
            _ => {
                &&& self.completed < self.iterations
                &&& self.total_sent == self.payloads_sent() * self.payload_size
                &&& self.total_received <= self.reads_made() * READ_BUFFER_CAPACITY
            },
        }
    }

    /// The state after the driver has reported each of `events` in turn.
    pub open spec fn run(self, events: Seq<Event>) -> ProbeState
        decreases events.len(),
    {
        if events.len() == 0 {
            self
        } else {
            self.run(events.drop_last()).after(events.last())
        }
    }
}

/// The payload of an exchange: `len` bytes, each of them zero.
pub open spec fn payload_bytes(len: nat) -> Seq<u8> {
    Seq::new(len, |i: int| 0u8)
}

/// Builds the payload that the driver writes for `Action::Send { len }`.
pub fn payload(len: usize) -> (bytes: Vec<u8>)
    ensures
        bytes@ == payload_bytes(len as nat),
{
    let mut bytes: Vec<u8> = Vec::new();
    let mut filled: usize = 0;
    while filled < len
        invariant
            filled <= len,
            bytes@ == payload_bytes(filled as nat),
        decreases len - filled,
    {
        bytes.push(0u8);
        filled = filled + 1;
        assert(bytes@ =~= payload_bytes(filled as nat));
    }
    bytes
}

/// What a run yields once the driver asks for its result, `elapsed_nanos`
/// nanoseconds after it began.
pub open spec fn outcome(state: ProbeState, elapsed_nanos: u64) -> Result<
    NetworkStats,
    ProbeError,
> {
    match state.phase {
        Phase::Finished => Ok(stats_of(state.total_sent, state.total_received, elapsed_nanos)),
        Phase::Failed(error) => Err(error),
        _ => Err(ProbeError::Protocol),
    }
}

/// No event leads out of the states that a run can reach.
pub proof fn lemma_after_keeps_wf(state: ProbeState, event: Event)
    requires
        state.wf(),
    ensures
        state.after(event).wf(),
{
    let next = state.after(event);
    let size = state.payload_size as int;
    let done = state.completed as int;
    assert((done + 1) * size == done * size + size) by (nonlinear_arith);
    assert((done + 1) * READ_BUFFER_CAPACITY == done * READ_BUFFER_CAPACITY
        + READ_BUFFER_CAPACITY) by (nonlinear_arith);
}

/// The state of a run that fails with `error`: its totals stay as they are.
fn failed(state: ProbeState, error: ProbeError) -> (next: ProbeState)
    ensures
        next == state.at(Phase::Failed(error)),
{
    ProbeState { phase: Phase::Failed(error), ..state }
}

/// A probe run in progress. It can only be in a state that a run reaches.
#[derive(Clone, Copy, Debug)]
pub struct Prober {
    state: ProbeState,
}

impl View for Prober {
    type V = ProbeState;

    closed spec fn view(&self) -> ProbeState {
        self.state
    }
}

impl Prober {
    #[verifier::type_invariant]
    spec fn reachable(self) -> bool {
        self.state.wf()
    }

    /// Begins a run of `iterations` exchanges with payloads of `payload_size`
    /// bytes, and says what the driver does first.
    pub fn start(payload_size: usize, iterations: usize) -> (begun: (Prober, Action))
        ensures
            begun.0@ == ProbeState::initial(payload_size, iterations),
            begun.0@.wf(),
            begun.1 == begun.0@.pending(),
    {
        let phase = if iterations == 0 {
            Phase::Finished
        } else {
            Phase::Connecting
        };
        let state = ProbeState {
            payload_size,
            iterations,
            completed: 0,
            total_sent: 0,
            total_received: 0,
            phase,
        };
        assert(state.wf()) by (nonlinear_arith)
            requires
                state == ProbeState::initial(payload_size, iterations),
        ;
        let prober = Prober { state };
        let action = prober.pending_action();
        (prober, action)
    }

    /// The state of the run.
    pub fn state(&self) -> (state: ProbeState)
        ensures
            state == self@,
            state.wf(),
    {
        proof {
            use_type_invariant(self);
        }
        self.state
    }

    /// Takes in what the driver reports, and says what it does next.
    pub fn step(self, event: Event) -> (next: (Prober, Action))
        ensures
            next.0@ == self@.after(event),
            next.0@.wf(),
            next.1 == next.0@.pending(),
    {
        proof {
            use_type_invariant(self);
        }
        let was = self.state;
        let state = match was.phase {
            Phase::Connecting => match event {
                Event::Connected => ProbeState { phase: Phase::Sending, ..was },
                Event::ConnectFailed => failed(was, ProbeError::Connect),
                _ => failed(was, ProbeError::Protocol),
            },
            Phase::Sending => match event {
                Event::Sent => match was.total_sent.checked_add(was.payload_size) {
                    Some(total_sent) => ProbeState { total_sent, phase: Phase::Receiving, ..was },
                    None => failed(was, ProbeError::Overflow),
                },
                Event::SendFailed => failed(was, ProbeError::Write),
                _ => failed(was, ProbeError::Protocol),
            },
            Phase::Receiving => match event {
                Event::Received { count } => if count > READ_BUFFER_CAPACITY {
                    failed(was, ProbeError::Protocol)
                } else {
                    match was.total_received.checked_add(count) {
                        Some(total_received) => ProbeState {
                            total_received,
                            phase: Phase::Pausing,
                            ..was
                        },
                        None => failed(was, ProbeError::Overflow),
                    }
                },
                Event::ReceiveFailed => failed(was, ProbeError::Read),
                _ => failed(was, ProbeError::Protocol),
            },
            Phase::Pausing => match event {
                Event::Paused => if was.iterations - was.completed <= 1 {
                    ProbeState { completed: was.iterations, phase: Phase::Finished, ..was }
                } else {
                    ProbeState { completed: was.completed + 1, phase: Phase::Connecting, ..was }
                },
                _ => failed(was, ProbeError::Protocol),
            },
            Phase::Finished => was,
            Phase::Failed(_) => was,
        };
        proof {
            lemma_after_keeps_wf(was, event);
        }
        let prober = Prober { state };
        let action = prober.pending_action();
        (prober, action)
    }

    /// The result of the run, `elapsed_nanos` nanoseconds after it began: what
    /// was measured where the run is finished, the error where it has failed,
    /// and a breach of protocol where it is still in progress.
    pub fn finish(&self, elapsed_nanos: u64) -> (result: Result<NetworkStats, ProbeError>)
        ensures
            result == outcome(self@, elapsed_nanos),
            result matches Ok(stats) ==> {
                &&& stats.bytes_sent == self@.iterations * self@.payload_size
                &&& stats.bytes_received <= self@.iterations * READ_BUFFER_CAPACITY
            },
    {
        proof {
            use_type_invariant(self);
        }
        match self.state.phase {
            Phase::Finished => Ok(
                NetworkStats::new(self.state.total_sent, self.state.total_received, elapsed_nanos),
            ),
            Phase::Failed(error) => Err(error),
            _ => Err(ProbeError::Protocol),
        }
    }

    /// The action that the driver owes now.
    pub fn pending_action(&self) -> (action: Action)
        ensures
            action == self@.pending(),
    {
        match self.state.phase {
            Phase::Connecting => Action::Connect,
            Phase::Sending => Action::Send { len: self.state.payload_size },
            Phase::Receiving => Action::Receive { capacity: READ_BUFFER_CAPACITY },
            Phase::Pausing => Action::Pause { millis: PAUSE_MILLIS },
            Phase::Finished => Action::Finish,
            Phase::Failed(error) => Action::Fail(error),
        }
    }
}

} // verus!
