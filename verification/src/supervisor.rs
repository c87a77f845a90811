//! The supervisor: three core loops run as one piece of work.
//!
//! The two pollers and the coordinator share one bounded channel. None of
//! them is meant to end, so the first that does, well or badly, ends the whole
//! operation, and how it ended is how the operation ended. The workers are
//! not waited for.

use crate::fatal::{Fatal, FatalView};
use vstd::prelude::*;

verus! {

/// The number of commands that the channel to the coordinator holds.
pub const CHANNEL_CAPACITY: usize = 10;

/// One of the three core loops.
#[derive(Clone, Copy, Debug, PartialEq, Eq, Structural)]
pub enum Unit {
    LiveRooms,
    Medals,
    Coordinator,
}

/// How one of the core loops ended, as the mathematical model sees it.
pub struct ExitView {
    pub unit: Unit,
    pub outcome: Result<(), FatalView>,
}

/// How one of the core loops ended.
#[derive(Debug)]
pub struct Exit {
    pub unit: Unit,
    pub outcome: Result<(), Fatal>,
}

impl View for Exit {
    type V = ExitView;

    open spec fn view(&self) -> ExitView {
        ExitView {
            unit: self.unit,
            outcome: match self.outcome {
                Ok(_) => Ok(()),
                Err(fatal) => Err(fatal@),
            },
        }
    }
}

/// The state of the supervisor: how the operation ended, once it has.
#[derive(Debug)]
pub struct Supervisor {
    ended: Option<Exit>,
}

impl View for Supervisor {
    type V = Option<ExitView>;

    closed spec fn view(&self) -> Option<ExitView> {
        match self.ended {
            Some(exit) => Some(exit@),
            None => None,
        }
    }
}

/// The supervisor of the model after one of the loops ended: the first end
/// stands, and a later one changes nothing.
pub open spec fn after_exit(state: Option<ExitView>, exit: ExitView) -> Option<ExitView> {
    match state {
        Some(_) => state,
        None => Some(exit),
    }
}

/// The supervisor of the model after a run of loops ending.
pub open spec fn after_exits(state: Option<ExitView>, exits: Seq<ExitView>) -> Option<ExitView>
    decreases exits.len(),
{
    if exits.len() == 0 {
        state
    } else {
        after_exit(after_exits(state, exits.drop_last()), exits.last())
    }
}

impl Supervisor {
    /// A supervisor whose loops all run.
    pub fn new() -> (supervisor: Self)
        ensures
            supervisor@ == None::<ExitView>,
    {
        Supervisor { ended: None }
    }

    /// Takes the end of one of the loops, and says whether it ends the
    /// operation: the first end does, however the loop ended.
    pub fn exited(&mut self, exit: Exit) -> (stop: bool)
        ensures
            stop == (old(self)@ is None),
            final(self)@ == after_exit(old(self)@, exit@),
    {
        if self.ended.is_none() {
            self.ended = Some(exit);
            true
        } else {
            false
        }
    }

    /// Whether the operation still runs.
    pub fn is_running(&self) -> (running: bool)
        ensures
            running == (self@ is None),
    {
        self.ended.is_none()
    }

    /// How the operation ended, once it has.
    pub fn ended(&self) -> (ended: &Option<Exit>)
        ensures
            match *ended {
                Some(exit) => self@ == Some(exit@),
                None => self@ is None,
            },
    {
        &self.ended
    }
}

/// The first of the loops to end decides: whatever ends after it, the
/// operation ended as that loop did.
pub proof fn lemma_first_exit_stands(exits: Seq<ExitView>)
    requires
        exits.len() > 0,
    ensures
        after_exits(None, exits) == Some(exits[0]),
    decreases exits.len(),
{
    let front = exits.drop_last();
    if exits.len() > 1 {
        lemma_first_exit_stands(front);
        assert(front[0] == exits[0]);
    } else {
        assert(after_exits(None, front) == None::<ExitView>);
    }
}

} // verus!
