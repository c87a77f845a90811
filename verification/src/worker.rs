//! The connection worker: one per connected streamer.
//!
//! A worker waits for the next message of its connection, again and again,
//! each wait bounded by [`TIMEOUT_SECS`]. The first wait that brings an error,
//! the end of the stream or nothing in time ends the waiting. The worker then
//! closes the connection, and whatever came of that tells the coordinator
//! that the connection has ended, waiting for room in the channel if it must.
//! It never connects again by itself.

use crate::streamer::{Liver, LiverView};
use vstd::prelude::*;

verus! {

/// The seconds a worker waits for one message.
pub const TIMEOUT_SECS: u64 = 10;

/// Where a worker stands.
#[derive(Clone, Copy, Debug, PartialEq, Eq, Structural)]
pub enum Phase {
    /// Waiting for messages.
    Receiving,
    /// The waiting is over and the connection is to be closed.
    Closing,
    /// The connection was closed, or could not be, and the coordinator is to
    /// be told.
    Notifying,
    /// Nothing is left to do.
    Done,
}

/// What one bounded wait for a message gave.
#[derive(Clone, Copy, Debug, PartialEq, Eq, Structural)]
pub enum Incoming {
    /// A message. Its content is of no interest.
    Message,
    /// The stream ended in good order.
    EndOfStream,
    /// The connection reported an error.
    Error,
    /// Nothing came in time.
    Timeout,
}

/// What came of the action that a worker asked for.
#[derive(Clone, Copy, Debug, PartialEq, Eq, Structural)]
pub enum WorkerEvent {
    /// The wait for a message is over.
    Waited(Incoming),
    /// The connection was closed (`true`), or closing it failed.
    Closed(bool),
    /// The coordinator's channel took the notice (`true`), or is gone.
    Notified(bool),
}

/// What a worker asks for next.
#[derive(Clone, Copy, Debug, PartialEq, Eq, Structural)]
pub enum Next {
    /// Wait for the next message, for [`TIMEOUT_SECS`] at most.
    Receive,
    /// Close the connection.
    Close,
    /// Tell the coordinator that the connection to this streamer has ended,
    /// and wait for room in the channel where it is full.
    Notify(i64),
    /// End the worker.
    Finish,
}

/// Something worth a line in the log.
#[derive(Clone, Copy, Debug, PartialEq, Eq, Structural)]
pub enum Note {
    /// The connection reported an error while the worker waited.
    ReceiveError,
    /// No message came in time.
    TimedOut,
    /// The connection could not be closed in good order.
    CloseError,
    /// The notice did not reach the coordinator.
    NotifyFailed,
}

/// What a worker makes of an event: a note for the log, where there is
/// something to note, and what to do next.
#[derive(Clone, Copy, Debug, PartialEq, Eq, Structural)]
pub struct Turn {
    pub note: Option<Note>,
    pub next: Next,
}

/// A worker as the mathematical model sees it.
pub struct WorkerView {
    pub liver: LiverView,
    pub phase: Phase,
}

/// The state of one worker: whose connection it holds, and where it stands.
#[derive(Debug)]
pub struct Worker {
    liver: Liver,
    phase: Phase,
}

impl View for Worker {
    type V = WorkerView;

    closed spec fn view(&self) -> WorkerView {
        WorkerView { liver: self.liver@, phase: self.phase }
    }
}

/// The action that a worker in a phase is waiting on.
pub open spec fn pending(uid: i64, phase: Phase) -> Next {
    match phase {
        Phase::Receiving => Next::Receive,
        Phase::Closing => Next::Close,
        Phase::Notifying => Next::Notify(uid),
        Phase::Done => Next::Finish,
    }
}

/// Whether an event is what came of the action that a phase is waiting on.
pub open spec fn answers(phase: Phase, event: WorkerEvent) -> bool {
    match (phase, event) {
        (Phase::Receiving, WorkerEvent::Waited(_)) => true,
        (Phase::Closing, WorkerEvent::Closed(_)) => true,
        (Phase::Notifying, WorkerEvent::Notified(_)) => true,
        _ => false,
    }
}

/// The phase after an event. A message keeps the worker waiting; anything
/// else that a wait brings ends the waiting; closing leads on to the notice
/// whether it worked or not; an event that answers nothing the worker asked
/// for changes nothing.
pub open spec fn phase_after(phase: Phase, event: WorkerEvent) -> Phase {
    match (phase, event) {
        (Phase::Receiving, WorkerEvent::Waited(Incoming::Message)) => Phase::Receiving,
        (Phase::Receiving, WorkerEvent::Waited(_)) => Phase::Closing,
        (Phase::Closing, WorkerEvent::Closed(_)) => Phase::Notifying,
        (Phase::Notifying, WorkerEvent::Notified(_)) => Phase::Done,
        _ => phase,
    }
}

/// What an event leaves for the log. The end of the stream leaves nothing.
pub open spec fn note_of(phase: Phase, event: WorkerEvent) -> Option<Note> {
    match (phase, event) {
        (Phase::Receiving, WorkerEvent::Waited(Incoming::Error)) => Some(Note::ReceiveError),
        (Phase::Receiving, WorkerEvent::Waited(Incoming::Timeout)) => Some(Note::TimedOut),
        (Phase::Closing, WorkerEvent::Closed(false)) => Some(Note::CloseError),
        (Phase::Notifying, WorkerEvent::Notified(false)) => Some(Note::NotifyFailed),
        _ => None,
    }
}

/// What the model makes of an event.
pub open spec fn turn_of(worker: WorkerView, event: WorkerEvent) -> Turn {
    Turn {
        note: note_of(worker.phase, event),
        next: pending(worker.liver.uid, phase_after(worker.phase, event)),
    }
}

/// Whether an event is a wait that brought anything but a message.
pub open spec fn ends_waiting(event: WorkerEvent) -> bool {
    event is Waited && event != WorkerEvent::Waited(Incoming::Message)
}

/// How far a phase is on the way of a worker.
pub open spec fn rank(phase: Phase) -> nat {
    match phase {
        Phase::Receiving => 0,
        Phase::Closing => 1,
        Phase::Notifying => 2,
        Phase::Done => 3,
    }
}

/// The phase after a run of events.
pub open spec fn phase_after_all(phase: Phase, events: Seq<WorkerEvent>) -> Phase
    decreases events.len(),
{
    if events.len() == 0 {
        phase
    } else {
        phase_after(phase_after_all(phase, events.drop_last()), events.last())
    }
}

impl Worker {
    /// A worker for a connection that has just opened.
    pub fn new(liver: Liver) -> (worker: Self)
        ensures
            worker@ == (WorkerView { liver: liver@, phase: Phase::Receiving }),
    {
        Worker { liver, phase: Phase::Receiving }
    }

    /// The streamer whose connection this worker holds.
    pub fn liver(&self) -> (liver: &Liver)
        ensures
            liver@ == self@.liver,
    {
        &self.liver
    }

    /// Where the worker stands.
    pub fn phase(&self) -> (phase: Phase)
        ensures
            phase == self@.phase,
    {
        self.phase
    }

    /// The action that the worker is waiting on.
    pub fn pending(&self) -> (next: Next)
        ensures
            next == pending(self@.liver.uid, self@.phase),
    {
        match self.phase {
            Phase::Receiving => Next::Receive,
            Phase::Closing => Next::Close,
            Phase::Notifying => Next::Notify(self.liver.uid),
            Phase::Done => Next::Finish,
        }
    }

    /// Takes what came of the action that the worker asked for, and says
    /// what to note and what to do next.
    pub fn step(&mut self, event: WorkerEvent) -> (turn: Turn)
        ensures
            final(self)@ == (WorkerView {
                liver: old(self)@.liver,
                phase: phase_after(old(self)@.phase, event),
            }),
            turn == turn_of(old(self)@, event),
    {
        let note = match (self.phase, event) {
            (Phase::Receiving, WorkerEvent::Waited(Incoming::Error)) => Some(Note::ReceiveError),
            (Phase::Receiving, WorkerEvent::Waited(Incoming::Timeout)) => Some(Note::TimedOut),
            (Phase::Closing, WorkerEvent::Closed(false)) => Some(Note::CloseError),
            (Phase::Notifying, WorkerEvent::Notified(false)) => Some(Note::NotifyFailed),
            _ => None,
        };
        self.phase =
        match (self.phase, event) {
            (Phase::Receiving, WorkerEvent::Waited(Incoming::Message)) => Phase::Receiving,
            (Phase::Receiving, WorkerEvent::Waited(_)) => Phase::Closing,
            (Phase::Closing, WorkerEvent::Closed(_)) => Phase::Notifying,
            (Phase::Notifying, WorkerEvent::Notified(_)) => Phase::Done,
            (phase, _) => phase,
        };
        Turn { note, next: self.pending() }
    }
}

/// A worker only moves forward, one phase at a time, and only on an event
/// that answers what it asked for.
pub proof fn lemma_one_phase_at_a_time(phase: Phase, event: WorkerEvent)
    ensures
        rank(phase_after(phase, event)) == rank(phase) || rank(phase_after(phase, event)) == rank(
            phase,
        ) + 1,
        !answers(phase, event) ==> phase_after(phase, event) == phase,
{
}

/// No worker ends without its notice. Whatever the run of events: a worker
/// that began waiting for messages and is done has seen, in this order, a
/// wait that ended the waiting, the outcome of closing, and the outcome of
/// the notice, each while that was the action it asked for.
pub proof fn lemma_ends_with_notice(events: Seq<WorkerEvent>)
    requires
        phase_after_all(Phase::Receiving, events) == Phase::Done,
    ensures
        exists|a: int, b: int, c: int|
            #![trigger events[a], events[b], events[c]]
            {
                &&& 0 <= a < b < c < events.len()
                &&& phase_after_all(Phase::Receiving, events.take(a)) == Phase::Receiving
                &&& ends_waiting(events[a])
                &&& phase_after_all(Phase::Receiving, events.take(b)) == Phase::Closing
                &&& events[b] is Closed
                &&& phase_after_all(Phase::Receiving, events.take(c)) == Phase::Notifying
                &&& events[c] is Notified
            },
{
    let c = lemma_first_reach(events, Phase::Done);
    let b = lemma_first_reach(events.take(c), Phase::Notifying);
    let a = lemma_first_reach(events.take(c).take(b), Phase::Closing);
    assert(events.take(c).take(b) =~= events.take(b));
    assert(events.take(b).take(a) =~= events.take(a));
    assert(events.take(c)[b] == events[b]);
    assert(events.take(b)[a] == events[a]);
}

/// A run that leaves a worker in a later phase than the first holds an event
/// that took the worker there from the phase before.
proof fn lemma_first_reach(events: Seq<WorkerEvent>, goal: Phase) -> (at: int)
    requires
        phase_after_all(Phase::Receiving, events) == goal,
        goal != Phase::Receiving,
    ensures
        0 <= at < events.len(),
        rank(phase_after_all(Phase::Receiving, events.take(at))) + 1 == rank(goal),
        phase_after(phase_after_all(Phase::Receiving, events.take(at)), events[at]) == goal,
    decreases events.len(),
{
    let front = events.drop_last();
    assert(events.take(events.len() - 1) =~= front);
    if phase_after_all(Phase::Receiving, front) == goal {
        let at = lemma_first_reach(front, goal);
        assert(front.take(at) =~= events.take(at));
        at
    } else {
        lemma_one_phase_at_a_time(phase_after_all(Phase::Receiving, front), events.last());
        events.len() - 1
    }
}

} // verus!
