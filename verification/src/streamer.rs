//! The shared vocabulary: a streamer, a snapshot of streamers keyed by id,
//! and the commands that travel on the channel to the coordinator.

use std::collections::HashMap;
use vstd::prelude::*;
use vstd::std_specs::iter::IteratorSpec;

verus! {

broadcast use vstd::std_specs::hash::group_hash_axioms;

/// A streamer as the mathematical model sees it.
pub struct LiverView {
    pub uid: i64,
    pub nickname: Seq<char>,
}

/// A streamer: a stable numeric id and the name shown for it.
#[derive(Debug)]
pub struct Liver {
    pub uid: i64,
    pub nickname: String,
}

impl View for Liver {
    type V = LiverView;

    open spec fn view(&self) -> LiverView {
        LiverView { uid: self.uid, nickname: self.nickname@ }
    }
}

impl Clone for Liver {
    fn clone(&self) -> (copy: Self)
        ensures
            copy@ == self@,
    {
        Liver { uid: self.uid, nickname: self.nickname.clone() }
    }
}

/// The views of a list of streamers, in order.
pub open spec fn views(list: Seq<Liver>) -> Seq<LiverView> {
    list.map_values(|liver: Liver| liver@)
}

/// The snapshot that a listing stands for: one entry per id, and where an id
/// occurs more than once its last occurrence gives the name.
pub open spec fn collect(list: Seq<LiverView>) -> Map<i64, Seq<char>>
    decreases list.len(),
{
    if list.len() == 0 {
        Map::empty()
    } else {
        collect(list.drop_last()).insert(list.last().uid, list.last().nickname)
    }
}

/// No id occurs at two places of the listing.
pub open spec fn distinct_ids(list: Seq<LiverView>) -> bool {
    forall|i: int, j: int|
        0 <= i < j < list.len() ==> (#[trigger] list[i]).uid != (#[trigger] list[j]).uid
}

/// The ids of a listing are exactly the keys of the snapshot it stands for,
/// and the snapshot is finite.
pub proof fn lemma_collect_dom(list: Seq<LiverView>)
    ensures
        collect(list).dom().finite(),
        forall|uid: i64|
            collect(list).contains_key(uid) <==> exists|i: int|
                0 <= i < list.len() && (#[trigger] list[i]).uid == uid,
    decreases list.len(),
{
    if list.len() > 0 {
        let front = list.drop_last();
        lemma_collect_dom(front);
        assert forall|uid: i64| collect(list).contains_key(uid) implies exists|i: int|
            0 <= i < list.len() && (#[trigger] list[i]).uid == uid by {
            if uid == list.last().uid {
                assert(list[list.len() - 1].uid == uid);
            } else {
                let i = choose|i: int| 0 <= i < front.len() && (#[trigger] front[i]).uid == uid;
                assert(list[i].uid == uid);
            }
        }
        assert forall|uid: i64|
            (exists|i: int|
                0 <= i < list.len() && (#[trigger] list[i]).uid == uid) implies collect(
            list,
        ).contains_key(uid) by {
            let i = choose|i: int| 0 <= i < list.len() && (#[trigger] list[i]).uid == uid;
            if i < list.len() - 1 {
                assert(front[i].uid == uid);
            }
        }
    }
}

/// In a listing without repeated ids every entry gives its id's name.
pub proof fn lemma_collect_distinct(list: Seq<LiverView>, i: int)
    requires
        distinct_ids(list),
        0 <= i < list.len(),
    ensures
        collect(list).contains_key(list[i].uid),
        collect(list)[list[i].uid] == list[i].nickname,
    decreases list.len(),
{
    let front = list.drop_last();
    if i < list.len() - 1 {
        assert(distinct_ids(front)) by {
            assert forall|a: int, b: int| 0 <= a < b < front.len() implies (#[trigger] front[a]).uid
                != (#[trigger] front[b]).uid by {
                assert(list[a].uid != list[b].uid);
            }
        }
        lemma_collect_distinct(front, i);
        assert(front[i] == list[i]);
        assert(list[i].uid != list[list.len() - 1].uid);
    }
}

/// A listing without repeated ids stands for a snapshot of as many entries.
pub proof fn lemma_collect_len(list: Seq<LiverView>)
    requires
        distinct_ids(list),
    ensures
        collect(list).dom().finite(),
        collect(list).dom().len() == list.len(),
    decreases list.len(),
{
    lemma_collect_dom(list);
    if list.len() > 0 {
        let front = list.drop_last();
        assert(distinct_ids(front)) by {
            assert forall|a: int, b: int| 0 <= a < b < front.len() implies (#[trigger] front[a]).uid
                != (#[trigger] front[b]).uid by {
                assert(list[a].uid != list[b].uid);
            }
        }
        lemma_collect_len(front);
        lemma_collect_dom(front);
        if collect(front).contains_key(list.last().uid) {
            let i = choose|i: int| 0 <= i < front.len() && (#[trigger] front[i]).uid == list.last().uid;
            assert(list[i].uid != list[list.len() - 1].uid);
        }
        assert(collect(list).dom() =~= collect(front).dom().insert(list.last().uid));
    }
}

/// A snapshot of streamers keyed by id: the rooms that are live, the
/// streamers whose medal the account holds, or the rooms that are connected.
#[derive(Debug)]
pub struct Livers {
    entries: HashMap<i64, String>,
}

impl View for Livers {
    type V = Map<i64, Seq<char>>;

    closed spec fn view(&self) -> Map<i64, Seq<char>> {
        Map::new(|uid: i64| self.entries@.contains_key(uid), |uid: i64| self.entries@[uid]@)
    }
}

impl Clone for Livers {
    fn clone(&self) -> (copy: Self)
        ensures
            copy@ == self@,
    {
        Livers { entries: self.entries.clone() }
    }
}

impl Livers {
    /// The empty snapshot.
    pub fn new() -> (livers: Self)
        ensures
            livers@ == Map::<i64, Seq<char>>::empty(),
    {
        let livers = Livers { entries: HashMap::new() };
        assert(livers@ =~= Map::<i64, Seq<char>>::empty());
        livers
    }

    /// A snapshot is finite.
    pub proof fn lemma_finite(&self)
        ensures
            self@.dom().finite(),
    {
        assert(self@.dom() =~= self.entries@.dom());
    }

    /// Records a streamer under its id, replacing what was recorded for that id.
    pub fn insert(&mut self, liver: Liver)
        ensures
            final(self)@ == old(self)@.insert(liver.uid, liver.nickname@),
    {
        let _ = self.entries.insert(liver.uid, liver.nickname);
        assert(self@ =~= old(self)@.insert(liver.uid, liver.nickname@));
    }

    /// Forgets an id, and says whether it was recorded.
    pub fn remove(&mut self, uid: i64) -> (present: bool)
        ensures
            present == old(self)@.contains_key(uid),
            final(self)@ == old(self)@.remove(uid),
    {
        let gone = self.entries.remove(&uid);
        assert(self@ =~= old(self)@.remove(uid));
        gone.is_some()
    }

    /// Whether an id is recorded.
    pub fn contains(&self, uid: i64) -> (present: bool)
        ensures
            present == self@.contains_key(uid),
    {
        self.entries.contains_key(&uid)
    }

    /// The streamer recorded under an id.
    pub fn get(&self, uid: i64) -> (found: Option<Liver>)
        ensures
            match found {
                Some(liver) => self@.contains_key(uid) && liver@ == (LiverView {
                    uid,
                    nickname: self@[uid],
                }),
                None => !self@.contains_key(uid),
            },
    {
        match self.entries.get(&uid) {
            Some(name) => Some(Liver { uid, nickname: name.clone() }),
            None => None,
        }
    }

    /// The snapshot that a listing stands for. Where an id occurs more than
    /// once, its last occurrence gives the name.
    pub fn from_list(list: Vec<Liver>) -> (livers: Self)
        ensures
            livers@ == collect(views(list@)),
    {
        let mut livers = Livers::new();
        let mut i: usize = 0;
        while i < list.len()
            invariant
                i <= list.len(),
                livers@ == collect(views(list@).take(i as int)),
            decreases list.len() - i,
        {
            let liver = list[i].clone();
            proof {
                let upto = views(list@).take(i + 1);
                assert(upto.drop_last() =~= views(list@).take(i as int));
                assert(upto.last() == list@[i as int]@);
            }
            livers.insert(liver);
            i = i + 1;
        }
        assert(views(list@).take(list.len() as int) =~= views(list@));
        livers
    }

    /// The streamers recorded, each once, in no particular order.
    pub fn listing(&self) -> (list: Vec<Liver>)
        ensures
            distinct_ids(views(list@)),
            collect(views(list@)) == self@,
            list@.len() == self@.dom().len(),
    {
        let ghost keys = self.entries.keys().remaining();
        let mut list: Vec<Liver> = Vec::new();
        for uid in it: self.entries.keys()
            invariant
                it.seq() == keys,
                keys.unref().to_set() == self.entries@.dom(),
                keys.no_duplicates(),
                keys.len() == self.entries@.dom().len(),
                list@.len() == it.index(),
                forall|k: int|
                    0 <= k < list@.len() ==> (#[trigger] list@[k]).uid == *keys[k]
                        && self.entries@.contains_key(*keys[k]) && list@[k].nickname@
                        == self.entries@[*keys[k]]@,
        {
            proof {
                assert(keys.unref()[it.index()] == *uid);
                assert(keys.unref().to_set().contains(*uid));
            }
            match self.entries.get(uid) {
                Some(name) => {
                    list.push(Liver { uid: *uid, nickname: name.clone() });
                },
                None => {},
            }
        }
        proof {
            let listed = views(list@);
            assert(listed.len() == keys.len());
            assert forall|i: int, j: int| 0 <= i < j < listed.len() implies (#[trigger] listed[i]).uid
                != (#[trigger] listed[j]).uid by {
                assert(list@[i].uid == *keys[i]);
                assert(list@[j].uid == *keys[j]);
                if *keys[i] == *keys[j] {
                    assert(keys[i] == keys[j]);
                }
            }
            lemma_collect_dom(listed);
            assert forall|uid: i64| #[trigger]
                collect(listed).contains_key(uid) implies self@.contains_key(uid) by {
                let i = choose|i: int| 0 <= i < listed.len() && (#[trigger] listed[i]).uid == uid;
                assert(list@[i].uid == *keys[i]);
                assert(keys.unref()[i] == uid);
                assert(keys.unref().to_set().contains(uid));
            }
            assert forall|uid: i64| #[trigger] self@.contains_key(uid) implies collect(
                listed,
            ).contains_key(uid) && collect(listed)[uid] == self@[uid] by {
                assert(keys.unref().to_set().contains(uid));
                let i = choose|i: int| 0 <= i < keys.unref().len() && keys.unref()[i] == uid;
                assert(list@[i].uid == *keys[i]);
                assert(listed[i].uid == uid);
                assert(listed[i].nickname == self.entries@[uid]@);
                lemma_collect_distinct(listed, i);
            }
            assert forall|uid: i64| collect(listed).dom().contains(uid) == self@.dom().contains(
                uid,
            ) by {
                assert(collect(listed).contains_key(uid) ==> self@.contains_key(uid));
                assert(self@.contains_key(uid) ==> collect(listed).contains_key(uid));
            }
            assert(collect(listed).dom() =~= self@.dom());
            assert(collect(listed) =~= self@);
            assert(self@.dom() =~= self.entries@.dom());
        }
        list
    }

    /// The number of ids recorded.
    pub fn len(&self) -> (count: usize)
        ensures
            count == self@.dom().len(),
    {
        assert(self@.dom() =~= self.entries@.dom());
        self.entries.len()
    }

    /// Whether nothing is recorded.
    pub fn is_empty(&self) -> (empty: bool)
        ensures
            empty == (self@ == Map::<i64, Seq<char>>::empty()),
    {
        assert(self@.dom() =~= self.entries@.dom());
        assert(self.entries@.is_empty() ==> self@ =~= Map::<i64, Seq<char>>::empty());
        self.entries.is_empty()
    }
}

/// A command as the mathematical model sees it.
pub enum CommandView {
    LiverRooms(Map<i64, Seq<char>>),
    Medals(Map<i64, Seq<char>>),
    Delete(i64),
}

/// What the pollers and the workers tell the coordinator.
#[derive(Debug)]
pub enum Command {
    /// The rooms that are live now; replaces what was known before.
    LiverRooms(Livers),
    /// The streamers whose medal the account holds now; replaces what was
    /// known before.
    Medals(Livers),
    /// The connection to this streamer's room has ended.
    Delete(i64),
}

impl Clone for Command {
    fn clone(&self) -> (copy: Self)
        ensures
            copy@ == self@,
    {
        match self {
            Command::LiverRooms(livers) => Command::LiverRooms(livers.clone()),
            Command::Medals(livers) => Command::Medals(livers.clone()),
            Command::Delete(uid) => Command::Delete(*uid),
        }
    }
}

impl View for Command {
    type V = CommandView;

    open spec fn view(&self) -> CommandView {
        match self {
            Command::LiverRooms(livers) => CommandView::LiverRooms(livers@),
            Command::Medals(livers) => CommandView::Medals(livers@),
            Command::Delete(uid) => CommandView::Delete(*uid),
        }
    }
}

} // verus!
