//! The presence coordinator: the one owner of the set of connected rooms.
//!
//! It takes the commands of the pollers and of the workers one at a time.
//! A report of live rooms replaces what it knows of them and does nothing
//! else. A report of medals replaces what it knows of them and names the
//! streamers to connect to: those with a medal who are live and not
//! connected. A connection that opened is recorded, and its worker starts,
//! only while the streamer is not connected; the record goes when the worker
//! reports that the connection ended.

use crate::fatal::{Fatal, FatalView};
use crate::streamer::{
    collect,
    distinct_ids,
    lemma_collect_distinct,
    lemma_collect_dom,
    lemma_collect_len,
    views,
    Command,
    CommandView,
    Liver,
    LiverView,
    Livers,
};
use vstd::prelude::*;

verus! {

/// The coordinator as the mathematical model sees it: three snapshots, each
/// from id to name.
pub struct CoordinatorView {
    pub living: Map<i64, Seq<char>>,
    pub medals: Map<i64, Seq<char>>,
    pub online: Map<i64, Seq<char>>,
}

/// The state of the coordinator: the last report of live rooms, the last
/// report of medals, and the streamers whose connection is open.
#[derive(Debug)]
pub struct Coordinator {
    living: Livers,
    medals: Livers,
    online: Livers,
}

impl View for Coordinator {
    type V = CoordinatorView;

    closed spec fn view(&self) -> CoordinatorView {
        CoordinatorView { living: self.living@, medals: self.medals@, online: self.online@ }
    }
}

/// The coordinator of the model before any command.
pub open spec fn initial() -> CoordinatorView {
    CoordinatorView { living: Map::empty(), medals: Map::empty(), online: Map::empty() }
}

/// Whether a streamer deserves a new connection: it has a medal, is live and
/// is not connected.
pub open spec fn is_eligible(state: CoordinatorView, uid: i64) -> bool {
    state.medals.contains_key(uid) && state.living.contains_key(uid) && !state.online.contains_key(
        uid,
    )
}

/// The streamers that deserve a new connection, with their names as the
/// medals give them.
pub open spec fn eligible(state: CoordinatorView) -> Map<i64, Seq<char>> {
    Map::new(|uid: i64| is_eligible(state, uid), |uid: i64| state.medals[uid])
}

/// The coordinator of the model after a command.
pub open spec fn received(state: CoordinatorView, command: CommandView) -> CoordinatorView {
    match command {
        CommandView::LiverRooms(snapshot) => CoordinatorView { living: snapshot, ..state },
        CommandView::Medals(snapshot) => CoordinatorView { medals: snapshot, ..state },
        CommandView::Delete(uid) => CoordinatorView { online: state.online.remove(uid), ..state },
    }
}

/// The connections to attempt on a command: on a report of medals the
/// streamers that are eligible once the report is in, on any other command
/// none.
pub open spec fn attempts(state: CoordinatorView, command: CommandView) -> Map<i64, Seq<char>> {
    match command {
        CommandView::Medals(_) => eligible(received(state, command)),
        _ => Map::empty(),
    }
}

/// Whether a connection that opened gets a worker: only while its streamer
/// is not connected.
pub open spec fn starts(state: CoordinatorView, liver: LiverView) -> bool {
    !state.online.contains_key(liver.uid)
}

/// The coordinator of the model after a connection opened.
pub open spec fn opened(state: CoordinatorView, liver: LiverView) -> CoordinatorView {
    if starts(state, liver) {
        CoordinatorView { online: state.online.insert(liver.uid, liver.nickname), ..state }
    } else {
        state
    }
}

impl Coordinator {
    /// A coordinator that knows of no live room and of no medal, with no
    /// connection open.
    pub fn new() -> (coordinator: Self)
        ensures
            coordinator@ == initial(),
    {
        Coordinator { living: Livers::new(), medals: Livers::new(), online: Livers::new() }
    }

    /// The last report of live rooms.
    pub fn living(&self) -> (living: &Livers)
        ensures
            living@ == self@.living,
    {
        &self.living
    }

    /// The last report of medals.
    pub fn medals(&self) -> (medals: &Livers)
        ensures
            medals@ == self@.medals,
    {
        &self.medals
    }

    /// The streamers whose connection is open.
    pub fn online(&self) -> (online: &Livers)
        ensures
            online@ == self@.online,
    {
        &self.online
    }

    /// Whether the connection to a streamer's room is open.
    pub fn is_online(&self, uid: i64) -> (connected: bool)
        ensures
            connected == self@.online.contains_key(uid),
    {
        self.online.contains(uid)
    }

    /// The streamers that deserve a new connection, each once, in no
    /// particular order.
    pub fn eligible(&self) -> (list: Vec<Liver>)
        ensures
            distinct_ids(views(list@)),
            collect(views(list@)) == eligible(self@),
            list@.len() == eligible(self@).dom().len(),
    {
        let all = self.medals.listing();
        let mut list: Vec<Liver> = Vec::new();
        let ghost mut origin: Seq<int> = Seq::empty();
        let mut i: usize = 0;
        while i < all.len()
            invariant
                i <= all.len(),
                distinct_ids(views(all@)),
                collect(views(all@)) == self@.medals,
                origin.len() == list@.len(),
                forall|k: int|
                    0 <= k < list@.len() ==> 0 <= #[trigger] origin[k] < i && list@[k]@
                        == all@[origin[k]]@ && is_eligible(self@, list@[k].uid),
                forall|k: int, l: int| 0 <= k < l < origin.len() ==> origin[k] < origin[l],
                forall|j: int|
                    0 <= j < i && is_eligible(self@, (#[trigger] all@[j]).uid) ==> exists|k: int|
                        0 <= k < list@.len() && #[trigger] origin[k] == j,
            decreases all.len() - i,
        {
            let uid = all[i].uid;
            let ghost before = origin;
            let pick = self.living.contains(uid) && !self.online.contains(uid);
            proof {
                lemma_collect_distinct(views(all@), i as int);
                assert(pick == is_eligible(self@, uid));
            }
            if pick {
                list.push(all[i].clone());
                proof {
                    origin = origin.push(i as int);
                }
            }
            proof {
                assert forall|j: int|
                    0 <= j < i + 1 && is_eligible(self@, (#[trigger] all@[j]).uid) implies exists|
                    k: int,
                | 0 <= k < list@.len() && #[trigger] origin[k] == j by {
                    if j < i {
                        let k = choose|k: int| 0 <= k < before.len() && #[trigger] before[k] == j;
                        assert(origin[k] == j);
                    } else {
                        assert(origin[origin.len() - 1] == j);
                    }
                }
            }
            i = i + 1;
        }
        proof {
            let from = views(all@);
            let picked = views(list@);
            assert forall|k: int, l: int| 0 <= k < l < picked.len() implies (#[trigger] picked[k]).uid
                != (#[trigger] picked[l]).uid by {
                assert(origin[k] < origin[l]);
                assert(from[origin[k]].uid != from[origin[l]].uid);
            }
            lemma_collect_dom(picked);
            lemma_collect_dom(from);
            assert forall|uid: i64| #[trigger]
                collect(picked).contains_key(uid) implies eligible(self@).contains_key(uid) by {
                let k = choose|k: int| 0 <= k < picked.len() && (#[trigger] picked[k]).uid == uid;
                assert(0 <= origin[k]);
                assert(is_eligible(self@, list@[k].uid));
            }
            assert forall|uid: i64| #[trigger]
                eligible(self@).contains_key(uid) implies collect(picked).contains_key(uid)
                && collect(picked)[uid] == eligible(self@)[uid] by {
                let j = choose|j: int| 0 <= j < from.len() && (#[trigger] from[j]).uid == uid;
                assert(all@[j].uid == uid);
                let k = choose|k: int| 0 <= k < list@.len() && #[trigger] origin[k] == j;
                assert(picked[k] == from[j]);
                lemma_collect_distinct(picked, k);
                lemma_collect_distinct(from, j);
            }
            assert forall|uid: i64|
                collect(picked).dom().contains(uid) == eligible(self@).dom().contains(uid) by {
                assert(collect(picked).contains_key(uid) ==> eligible(self@).contains_key(uid));
                assert(eligible(self@).contains_key(uid) ==> collect(picked).contains_key(uid));
            }
            assert(collect(picked) =~= eligible(self@));
            lemma_collect_len(picked);
        }
        list
    }

    /// Takes one command. A report replaces the snapshot it reports on; the
    /// end of a connection removes its streamer from the connected ones, and
    /// changes nothing where the streamer is not among them. Returns the
    /// streamers to open a connection to, each once, in no particular order:
    /// on a report of medals those that are eligible now, else none.
    pub fn receive(&mut self, command: Command) -> (list: Vec<Liver>)
        ensures
            final(self)@ == received(old(self)@, command@),
            distinct_ids(views(list@)),
            collect(views(list@)) == attempts(old(self)@, command@),
            list@.len() == attempts(old(self)@, command@).dom().len(),
    {
        match command {
            Command::LiverRooms(snapshot) => {
                self.living = snapshot;
                Vec::new()
            },
            Command::Medals(snapshot) => {
                self.medals = snapshot;
                self.eligible()
            },
            Command::Delete(uid) => {
                let _ = self.online.remove(uid);
                Vec::new()
            },
        }
    }

    /// Takes the news that a connection to a streamer's room has opened, and
    /// says whether its worker is to start. It is, and the streamer is
    /// recorded as connected, only while the streamer is not connected:
    /// else nothing changes, and the connection is one too many.
    pub fn connected(&mut self, liver: Liver) -> (start: bool)
        ensures
            start == starts(old(self)@, liver@),
            final(self)@ == opened(old(self)@, liver@),
    {
        if self.online.contains(liver.uid) {
            false
        } else {
            self.online.insert(liver);
            true
        }
    }

    /// The condition that ends the coordinator once the channel is closed and
    /// empty: without a producer there is nothing left to wait for.
    pub fn closed(&self) -> (fatal: Fatal)
        ensures
            fatal@ == FatalView::Stopped,
    {
        Fatal::Stopped
    }
}

/// What happens to the coordinator, as the model sees it: a command
/// arrives, or a connection opens.
pub enum EventView {
    Received(CommandView),
    Opened(LiverView),
}

/// The coordinator of the model after an event.
pub open spec fn apply(state: CoordinatorView, event: EventView) -> CoordinatorView {
    match event {
        EventView::Received(command) => received(state, command),
        EventView::Opened(liver) => opened(state, liver),
    }
}

/// The streamer whose worker an event starts, where it starts one.
pub open spec fn started(state: CoordinatorView, event: EventView) -> Option<i64> {
    match event {
        EventView::Opened(liver) => if starts(state, liver) {
            Some(liver.uid)
        } else {
            None
        },
        EventView::Received(_) => None,
    }
}

/// The coordinator of the model after a run of events.
pub open spec fn state_after(state: CoordinatorView, events: Seq<EventView>) -> CoordinatorView
    decreases events.len(),
{
    if events.len() == 0 {
        state
    } else {
        apply(state_after(state, events.drop_last()), events.last())
    }
}

/// The coordinator of the model after each of a list of connections opened.
pub open spec fn connect_all(state: CoordinatorView, livers: Seq<LiverView>) -> CoordinatorView
    decreases livers.len(),
{
    if livers.len() == 0 {
        state
    } else {
        opened(connect_all(state, livers.drop_last()), livers.last())
    }
}

/// The ids that occur in a listing.
pub open spec fn ids(livers: Seq<LiverView>) -> Set<i64> {
    Set::new(|uid: i64| exists|i: int| 0 <= i < livers.len() && (#[trigger] livers[i]).uid == uid)
}

/// A streamer that is connected stays connected until the end of its
/// connection is reported.
pub proof fn lemma_stays_online(
    init: CoordinatorView,
    events: Seq<EventView>,
    i: int,
    j: int,
    uid: i64,
)
    requires
        0 <= i <= j <= events.len(),
        state_after(init, events.take(i)).online.contains_key(uid),
        forall|k: int|
            i <= k < j ==> #[trigger] events[k] != EventView::Received(CommandView::Delete(uid)),
    ensures
        state_after(init, events.take(j)).online.contains_key(uid),
    decreases j - i,
{
    if i < j {
        lemma_stays_online(init, events, i, j - 1, uid);
        assert(events.take(j).drop_last() =~= events.take(j - 1));
        assert(events.take(j).last() == events[j - 1]);
    }
}

/// At most one worker per streamer. Whatever the run of events, and
/// whatever the state it starts from: where two events of the run start a
/// worker for the same streamer, the end of that streamer's connection was
/// reported between them.
pub proof fn lemma_one_worker_per_streamer(
    init: CoordinatorView,
    events: Seq<EventView>,
    i: int,
    j: int,
    uid: i64,
)
    requires
        0 <= i < j < events.len(),
        started(state_after(init, events.take(i)), events[i]) == Some(uid),
        started(state_after(init, events.take(j)), events[j]) == Some(uid),
    ensures
        exists|k: int|
            i < k < j && #[trigger] events[k] == EventView::Received(CommandView::Delete(uid)),
{
    if forall|k: int|
        i < k < j ==> #[trigger] events[k] != EventView::Received(CommandView::Delete(uid)) {
        assert(events.take(i + 1).drop_last() =~= events.take(i));
        assert(events.take(i + 1).last() == events[i]);
        lemma_stays_online(init, events, i + 1, j, uid);
    }
}

/// The end of a connection that is not open changes nothing.
pub proof fn lemma_close_absent(state: CoordinatorView, uid: i64)
    requires
        !state.online.contains_key(uid),
    ensures
        received(state, CommandView::Delete(uid)) == state,
        attempts(state, CommandView::Delete(uid)) == Map::<i64, Seq<char>>::empty(),
{
    assert(state.online.remove(uid) =~= state.online);
}

/// A report of live rooms never asks for a connection, and the same report
/// once more changes nothing.
pub proof fn lemma_replay_live_rooms(state: CoordinatorView, snapshot: Map<i64, Seq<char>>)
    ensures
        attempts(state, CommandView::LiverRooms(snapshot)) == Map::<i64, Seq<char>>::empty(),
        received(
            received(state, CommandView::LiverRooms(snapshot)),
            CommandView::LiverRooms(snapshot),
        ) == received(state, CommandView::LiverRooms(snapshot)),
{
}

/// Connections that open touch only the connected streamers, and add to
/// them the streamers of those connections.
pub proof fn lemma_connect_all(state: CoordinatorView, livers: Seq<LiverView>)
    ensures
        connect_all(state, livers).living == state.living,
        connect_all(state, livers).medals == state.medals,
        connect_all(state, livers).online.dom() == state.online.dom().union(ids(livers)),
    decreases livers.len(),
{
    if livers.len() == 0 {
        assert(state.online.dom().union(ids(livers)) =~= state.online.dom());
    } else {
        let front = livers.drop_last();
        lemma_connect_all(state, front);
        assert forall|uid: i64| ids(livers).contains(uid) == (ids(front).contains(uid) || uid
            == livers.last().uid) by {
            if ids(livers).contains(uid) {
                let i = choose|i: int| 0 <= i < livers.len() && (#[trigger] livers[i]).uid == uid;
                if i < front.len() {
                    assert(front[i].uid == uid);
                }
            }
            if ids(front).contains(uid) {
                let i = choose|i: int| 0 <= i < front.len() && (#[trigger] front[i]).uid == uid;
                assert(livers[i].uid == uid);
            }
            if uid == livers.last().uid {
                assert(livers[livers.len() - 1].uid == uid);
            }
        }
        assert(connect_all(state, livers).online.dom() =~= state.online.dom().union(ids(livers)));
    }
}

/// The same report of medals once more asks only for what did not open.
/// After a report of medals and after some connections opened, with nothing
/// else in between, the same report changes nothing and asks for the
/// connections it asked for the first time, less those that opened. Where
/// all of them opened, it asks for none.
pub proof fn lemma_replay_medals(
    state: CoordinatorView,
    snapshot: Map<i64, Seq<char>>,
    done: Seq<LiverView>,
)
    ensures
        ({
            let report = CommandView::Medals(snapshot);
            let then = connect_all(received(state, report), done);
            &&& received(then, report) == then
            &&& attempts(then, report) == attempts(state, report).remove_keys(ids(done))
            &&& attempts(state, report).dom().subset_of(ids(done)) ==> attempts(then, report)
                == Map::<i64, Seq<char>>::empty()
        }),
{
    let report = CommandView::Medals(snapshot);
    let then = connect_all(received(state, report), done);
    lemma_connect_all(received(state, report), done);
    assert(attempts(then, report) =~= attempts(state, report).remove_keys(ids(done)));
    if attempts(state, report).dom().subset_of(ids(done)) {
        assert(attempts(then, report) =~= Map::<i64, Seq<char>>::empty());
    }
}

} // verus!
