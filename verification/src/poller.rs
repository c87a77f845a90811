//! The two pollers: what a poller does with the outcome of one fetch.
//!
//! A poller fetches a listing again and again. A listing that arrives is
//! offered to the coordinator without waiting; a fetch that fails is counted,
//! and a run of failures that reaches [`ERROR_NUM`] ends the poller.

use crate::fatal::{Fatal, FatalView};
use crate::streamer::{collect, views, Command, CommandView, Liver, LiverView, Livers};
use tokio::sync::mpsc::Sender;
use vstd::prelude::*;

verus! {

/// The number of failed fetches in a row that ends a poller.
pub const ERROR_NUM: usize = 10;

/// The seconds a poller sleeps after every fetch, whatever came of it.
pub const LOOP_INTERVAL_SECS: u64 = 30;

/// The seconds the medal poller waits before its first fetch.
pub const MEDAL_DELAY_SECS: u64 = 5;

/// Which listing a poller fetches.
#[derive(Clone, Copy, Debug, PartialEq, Eq, Structural)]
pub enum Source {
    LiveRooms,
    Medals,
}

/// A poller as the mathematical model sees it.
pub struct PollerView {
    pub source: Source,
    pub errors: nat,
}

/// The state of one poller: what it fetches, and how many fetches have failed
/// since the last one that succeeded.
#[derive(Debug)]
pub struct Poller {
    source: Source,
    errors: usize,
}

impl View for Poller {
    type V = PollerView;

    closed spec fn view(&self) -> PollerView {
        PollerView { source: self.source, errors: self.errors as nat }
    }
}

/// The count of failures after one more fetch has failed. It stops at
/// [`ERROR_NUM`].
pub open spec fn after_failure(errors: nat) -> nat {
    if errors < ERROR_NUM {
        errors + 1
    } else {
        errors
    }
}

/// Whether one more failed fetch ends the poller.
pub open spec fn fatal_after(errors: nat) -> bool {
    after_failure(errors) >= ERROR_NUM
}

/// The command that reports a listing.
pub open spec fn report(source: Source, listing: Seq<LiverView>) -> CommandView {
    match source {
        Source::LiveRooms => CommandView::LiverRooms(collect(listing)),
        Source::Medals => CommandView::Medals(collect(listing)),
    }
}

/// The fatal condition of a poller whose last fetch failed for `reason`.
pub open spec fn give_up(source: Source, reason: Seq<char>) -> FatalView {
    match source {
        Source::LiveRooms => FatalView::LiveList(reason),
        Source::Medals => FatalView::MedalList(reason),
    }
}

/// What a poller decides on the outcome of a fetch, as the model sees it.
pub enum DigestView {
    Publish(CommandView),
    Retry,
    Fatal(FatalView),
}

/// What a poller decides on the outcome of a fetch.
#[derive(Debug)]
pub enum Digest {
    /// Offer this command to the coordinator, then sleep and fetch again.
    Publish(Command),
    /// Sleep and fetch again.
    Retry,
    /// End the poller with this condition.
    Fatal(Fatal),
}

impl View for Digest {
    type V = DigestView;

    open spec fn view(&self) -> DigestView {
        match self {
            Digest::Publish(command) => DigestView::Publish(command@),
            Digest::Retry => DigestView::Retry,
            Digest::Fatal(fatal) => DigestView::Fatal(fatal@),
        }
    }
}

/// The decision of the model on the outcome of a fetch.
pub open spec fn digest_of(
    poller: PollerView,
    fetched: Result<Seq<LiverView>, Seq<char>>,
) -> DigestView {
    match fetched {
        Ok(listing) => DigestView::Publish(report(poller.source, listing)),
        Err(reason) => if fatal_after(poller.errors) {
            DigestView::Fatal(give_up(poller.source, reason))
        } else {
            DigestView::Retry
        },
    }
}

/// The poller of the model after the outcome of a fetch.
pub open spec fn poller_after(poller: PollerView, succeeded: bool) -> PollerView {
    PollerView {
        source: poller.source,
        errors: if succeeded {
            0
        } else {
            after_failure(poller.errors)
        },
    }
}

/// The outcome of a fetch as the model sees it.
pub open spec fn fetched_view(fetched: Result<Vec<Liver>, String>) -> Result<
    Seq<LiverView>,
    Seq<char>,
> {
    match fetched {
        Ok(list) => Ok(views(list@)),
        Err(reason) => Err(reason@),
    }
}

/// How one round of a poller went, where the poller goes on.
#[derive(Clone, Copy, Debug, PartialEq, Eq, Structural)]
pub enum Tick {
    /// The listing arrived and the coordinator has the report.
    Published,
    /// The listing arrived, the channel took no report, and the report is lost.
    Dropped,
    /// The fetch failed.
    Failed,
}

impl Tick {
    /// How a round went in which a report was offered to the channel.
    pub fn after_offer(sent: bool) -> (tick: Tick)
        ensures
            tick == if sent {
                Tick::Published
            } else {
                Tick::Dropped
            },
    {
        if sent {
            Tick::Published
        } else {
            Tick::Dropped
        }
    }
}

/// Offers a command to the channel with `Sender::try_send`, which does not
/// wait: it returns at once, with an error where the channel is full or
/// closed. Says whether the channel took the command; nothing is claimed of
/// which it will be.
#[verifier::external_body]
fn offer(tx: &Sender<Command>, command: Command) -> (sent: bool) {
    tx.try_send(command).is_ok()
}

impl Poller {
    /// A poller that has not fetched yet.
    pub fn new(source: Source) -> (poller: Self)
        ensures
            poller@ == (PollerView { source, errors: 0 }),
    {
        Poller { source, errors: 0 }
    }

    /// Which listing this poller fetches.
    pub fn source(&self) -> (source: Source)
        ensures
            source == self@.source,
    {
        self.source
    }

    /// How many fetches have failed since the last one that succeeded.
    pub fn errors(&self) -> (errors: usize)
        ensures
            errors == self@.errors,
    {
        self.errors
    }

    /// The seconds to wait before the first fetch: the medal poller lets the
    /// live-room poller go first.
    pub fn initial_delay_secs(&self) -> (secs: u64)
        ensures
            secs == match self@.source {
                Source::LiveRooms => 0,
                Source::Medals => MEDAL_DELAY_SECS,
            },
    {
        match self.source {
            Source::LiveRooms => 0,
            Source::Medals => MEDAL_DELAY_SECS,
        }
    }

    /// Takes the outcome of a fetch. A listing resets the count of failures
    /// and becomes a report to publish. A failure is counted, and ends the
    /// poller where it is the [`ERROR_NUM`]th in a row.
    pub fn digest(&mut self, fetched: Result<Vec<Liver>, String>) -> (digest: Digest)
        ensures
            final(self)@ == poller_after(old(self)@, fetched is Ok),
            digest@ == digest_of(old(self)@, fetched_view(fetched)),
    {
        match fetched {
            Ok(list) => {
                self.errors = 0;
                let livers = Livers::from_list(list);
                match self.source {
                    Source::LiveRooms => Digest::Publish(Command::LiverRooms(livers)),
                    Source::Medals => Digest::Publish(Command::Medals(livers)),
                }
            },
            Err(reason) => {
                if self.errors < ERROR_NUM {
                    self.errors = self.errors + 1;
                }
                if self.errors >= ERROR_NUM {
                    match self.source {
                        Source::LiveRooms => Digest::Fatal(Fatal::LiveList(reason)),
                        Source::Medals => Digest::Fatal(Fatal::MedalList(reason)),
                    }
                } else {
                    Digest::Retry
                }
            },
        }
    }

    /// One round of the poller after its fetch: decides as [`Poller::digest`]
    /// does and offers the report, if there is one, to the channel without
    /// waiting. A report that the channel does not take is lost, and the
    /// poller goes on all the same: only a run of failed fetches ends it.
    pub fn step(&mut self, tx: &Sender<Command>, fetched: Result<Vec<Liver>, String>) -> (round:
        Result<Tick, Fatal>)
        ensures
            final(self)@ == poller_after(old(self)@, fetched is Ok),
            match digest_of(old(self)@, fetched_view(fetched)) {
                DigestView::Publish(_) => round == Ok::<Tick, Fatal>(Tick::Published) || round
                    == Ok::<Tick, Fatal>(Tick::Dropped),
                DigestView::Retry => round == Ok::<Tick, Fatal>(Tick::Failed),
                DigestView::Fatal(fatal) => round matches Err(e) && e@ == fatal,
            },
    {
        match self.digest(fetched) {
            Digest::Publish(command) => {
                let sent = offer(tx, command);
                Ok(Tick::after_offer(sent))
            },
            Digest::Retry => Ok(Tick::Failed),
            Digest::Fatal(fatal) => Err(fatal),
        }
    }
}

/// The poller of the model after a run of fetches, `true` standing for a
/// fetch that succeeded.
pub open spec fn run(poller: PollerView, outcomes: Seq<bool>) -> PollerView
    decreases outcomes.len(),
{
    if outcomes.len() == 0 {
        poller
    } else {
        poller_after(run(poller, outcomes.drop_last()), outcomes.last())
    }
}

/// The number of failures at the end of a run of fetches, counted back to
/// the last success.
pub open spec fn streak(outcomes: Seq<bool>) -> nat
    decreases outcomes.len(),
{
    if outcomes.len() == 0 || outcomes.last() {
        0
    } else {
        streak(outcomes.drop_last()) + 1
    }
}

/// Escalation. A poller counts the failures since its last success, up to
/// [`ERROR_NUM`]: a success sets the count back to zero, and a failed fetch
/// ends the poller exactly where it is at least the [`ERROR_NUM`]th failure in
/// a row. So nine failures in a row end nothing, and the tenth does.
pub proof fn lemma_escalation(source: Source, outcomes: Seq<bool>)
    ensures
        run(PollerView { source, errors: 0 }, outcomes).source == source,
        run(PollerView { source, errors: 0 }, outcomes).errors == if streak(outcomes)
            < ERROR_NUM {
            streak(outcomes)
        } else {
            ERROR_NUM as nat
        },
        outcomes.len() > 0 && !outcomes.last() ==> (fatal_after(
            run(PollerView { source, errors: 0 }, outcomes.drop_last()).errors,
        ) <==> streak(outcomes) >= ERROR_NUM),
    decreases outcomes.len(),
{
    if outcomes.len() > 0 {
        lemma_escalation(source, outcomes.drop_last());
    }
}

/// The failures that a streak counts are the last fetches of the run, and
/// the fetch before them, if there is one, succeeded.
pub proof fn lemma_streak(outcomes: Seq<bool>)
    ensures
        streak(outcomes) <= outcomes.len(),
        forall|i: int| outcomes.len() - streak(outcomes) <= i < outcomes.len() ==> !outcomes[i],
        streak(outcomes) < outcomes.len() ==> outcomes[outcomes.len() - streak(outcomes) - 1],
    decreases outcomes.len(),
{
    if outcomes.len() > 0 && !outcomes.last() {
        let front = outcomes.drop_last();
        lemma_streak(front);
        assert forall|i: int| outcomes.len() - streak(outcomes) <= i < outcomes.len() implies 
            !outcomes[i] by {
            if i < front.len() {
                assert(front[i] == outcomes[i]);
            }
        }
        if streak(outcomes) < outcomes.len() {
            assert(front[front.len() - streak(front) - 1] == outcomes[outcomes.len() - streak(
                outcomes,
            ) - 1]);
        }
    }
}

} // verus!
