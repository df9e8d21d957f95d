//! The tracker of live audio input streams: a map from stream id to
//! last-known mute flag, recomputing the aggregate vote from scratch
//! after every change.

use vstd::prelude::*;
use crate::state::{lemma_vote_fold_is_vote_of, vote_of, State};

verus! {

/// One tracked audio input stream: its server-assigned id and its
/// last-known mute flag.
#[derive(Debug, Clone, Copy, PartialEq, Eq, Structural)]
pub struct StreamEntry {
    pub id: u32,
    pub mute: bool,
}

/// Whether some entry of `s` carries the id `id`.
pub open spec fn has_id(s: Seq<StreamEntry>, id: u32) -> bool {
    exists|i: int| 0 <= i < s.len() && s[i].id == id
}

/// The index of the entry of `s` carrying `id` (meaningful only when
/// `has_id(s, id)` and the ids of `s` are unique).
pub open spec fn idx_of(s: Seq<StreamEntry>, id: u32) -> int {
    choose|i: int| 0 <= i < s.len() && s[i].id == id
}

/// No two entries of `s` carry the same id.
pub open spec fn unique_ids(s: Seq<StreamEntry>) -> bool {
    forall|i: int, j: int| 0 <= i < j < s.len() ==> s[i].id != s[j].id
}

/// The entries of `s` read as a map from stream id to mute flag.
pub open spec fn map_of(s: Seq<StreamEntry>) -> Map<u32, bool> {
    Map::new(|k: u32| has_id(s, k), |k: u32| s[idx_of(s, k)].mute)
}

/// The mute flags of `s`, in entry order.
pub open spec fn mutes_of(s: Seq<StreamEntry>) -> Seq<bool> {
    s.map_values(|e: StreamEntry| e.mute)
}

/// The aggregate vote read off a map of mute flags: `Silent` when
/// empty, `Muted`/`Unmuted` on unanimity, `Confused` on disagreement.
pub open spec fn map_vote(m: Map<u32, bool>) -> State {
    if forall|k: u32| !(#[trigger] m.dom().contains(k)) {
        State::Silent
    } else if forall|k: u32| #[trigger] m.dom().contains(k) ==> m[k] {
        State::Muted
    } else if forall|k: u32| #[trigger] m.dom().contains(k) ==> !m[k] {
        State::Unmuted
    } else {
        State::Confused
    }
}

proof fn lemma_idx_of(s: Seq<StreamEntry>, k: u32)
    requires
        has_id(s, k),
    ensures
        0 <= idx_of(s, k) < s.len(),
        s[idx_of(s, k)].id == k,
{
}

proof fn lemma_idx_unique(s: Seq<StreamEntry>, k: u32, i: int)
    requires
        unique_ids(s),
        0 <= i < s.len(),
        s[i].id == k,
    ensures
        idx_of(s, k) == i,
{
    assert(has_id(s, k));
    lemma_idx_of(s, k);
    let j = idx_of(s, k);
    if i < j {
        assert(s[i].id != s[j].id);
    } else if j < i {
        assert(s[j].id != s[i].id);
    }
}

/// The vote over the entry sequence equals the vote over the map the
/// sequence denotes, as long as ids are unique.
pub proof fn lemma_seq_vote(s: Seq<StreamEntry>)
    requires
        unique_ids(s),
    ensures
        vote_of(mutes_of(s)) == map_vote(map_of(s)),
{
    let m = map_of(s);
    let flags = mutes_of(s);
    assert(flags.len() == s.len());
    if s.len() == 0 {
        assert(forall|k: u32| !(#[trigger] m.dom().contains(k)));
    } else {
        assert(m.dom().contains(s[0].id));
        assert forall|b: bool|
            #[trigger] flags.contains(b) == exists|k: u32|
                #[trigger] m.dom().contains(k) && m[k] == b by {
            if flags.contains(b) {
                let i = choose|i: int| 0 <= i < flags.len() && flags[i] == b;
                let k = s[i].id;
                assert(has_id(s, k));
                lemma_idx_unique(s, k, i);
                assert(m.dom().contains(k) && m[k] == b);
            }
            if exists|k: u32| #[trigger] m.dom().contains(k) && m[k] == b {
                let k = choose|k: u32| #[trigger] m.dom().contains(k) && m[k] == b;
                lemma_idx_of(s, k);
                let i = idx_of(s, k);
                assert(flags[i] == b);
                assert(flags.contains(b));
            }
        }
        if !flags.contains(false) {
            assert(forall|k: u32| #[trigger] m.dom().contains(k) ==> m[k]);
        } else {
            assert(exists|k: u32| #[trigger] m.dom().contains(k) && m[k] == false);
        }
        if !flags.contains(true) {
            assert(forall|k: u32| #[trigger] m.dom().contains(k) ==> !m[k]);
        } else {
            assert(exists|k: u32| #[trigger] m.dom().contains(k) && m[k] == true);
        }
    }
}

/// `Confused` is not sticky across set changes: it depends on the
/// current contents alone, and once the disagreeing streams leave, the
/// recomputed vote returns to agreement. From any disagreeing map,
/// keeping only the muted streams votes `Muted`, keeping only the
/// unmuted ones votes `Unmuted`, and removing every stream votes
/// `Silent`.
pub proof fn lemma_confused_not_sticky(m: Map<u32, bool>)
    requires
        map_vote(m) == State::Confused,
    ensures
        map_vote(m.restrict(Set::new(|k: u32| m.dom().contains(k) && m[k]))) == State::Muted,
        map_vote(m.restrict(Set::new(|k: u32| m.dom().contains(k) && !m[k]))) == State::Unmuted,
        map_vote(Map::<u32, bool>::empty()) == State::Silent,
{
    let muted = m.restrict(Set::new(|k: u32| m.dom().contains(k) && m[k]));
    let unmuted = m.restrict(Set::new(|k: u32| m.dom().contains(k) && !m[k]));
    let kt = choose|k: u32| #[trigger] m.dom().contains(k) && m[k];
    let kf = choose|k: u32| #[trigger] m.dom().contains(k) && !m[k];
    assert(muted.dom().contains(kt));
    assert(unmuted.dom().contains(kf));
    assert(forall|k: u32| #[trigger] muted.dom().contains(k) ==> muted[k]);
    assert(forall|k: u32| #[trigger] unmuted.dom().contains(k) ==> !unmuted[k]);
    assert(forall|k: u32| !(#[trigger] Map::<u32, bool>::empty().dom().contains(k)));
}

proof fn lemma_map_of_update(s: Seq<StreamEntry>, i: int, mute: bool)
    requires
        unique_ids(s),
        0 <= i < s.len(),
    ensures
        unique_ids(s.update(i, StreamEntry { id: s[i].id, mute })),
        map_of(s.update(i, StreamEntry { id: s[i].id, mute })) == map_of(s).insert(s[i].id, mute),
{
    let id = s[i].id;
    let s2 = s.update(i, StreamEntry { id, mute });
    assert(forall|j: int| 0 <= j < s.len() ==> s2[j].id == s[j].id);
    assert forall|k: u32| has_id(s2, k) == has_id(s, k) by {
        if has_id(s2, k) {
            let j = choose|j: int| 0 <= j < s2.len() && s2[j].id == k;
            assert(s[j].id == k);
        }
        if has_id(s, k) {
            let j = choose|j: int| 0 <= j < s.len() && s[j].id == k;
            assert(s2[j].id == k);
        }
    }
    assert(has_id(s2, id));
    assert forall|k: u32| #[trigger] has_id(s2, k) implies
        s2[idx_of(s2, k)].mute == map_of(s).insert(id, mute)[k] by {
        if k == id {
            lemma_idx_unique(s2, k, i);
        } else {
            lemma_idx_of(s, k);
            let j = idx_of(s, k);
            assert(j != i);
            lemma_idx_unique(s2, k, j);
        }
    }
    assert(map_of(s2) =~= map_of(s).insert(id, mute));
}

proof fn lemma_map_of_push(s: Seq<StreamEntry>, id: u32, mute: bool)
    requires
        unique_ids(s),
        !has_id(s, id),
    ensures
        unique_ids(s.push(StreamEntry { id, mute })),
        map_of(s.push(StreamEntry { id, mute })) == map_of(s).insert(id, mute),
{
    let s2 = s.push(StreamEntry { id, mute });
    assert forall|a: int, b: int| 0 <= a < b < s2.len() implies s2[a].id != s2[b].id by {
        if b == s.len() {
            if s[a].id == id {
                assert(has_id(s, id));
            }
        }
    }
    assert forall|k: u32| k != id implies has_id(s2, k) == has_id(s, k) by {
        if has_id(s2, k) {
            let j = choose|j: int| 0 <= j < s2.len() && s2[j].id == k;
            assert(j != s.len());
            assert(s[j].id == k);
        }
        if has_id(s, k) {
            let j = choose|j: int| 0 <= j < s.len() && s[j].id == k;
            assert(s2[j].id == k);
        }
    }
    assert(s2[s.len() as int].id == id);
    assert(has_id(s2, id));
    assert forall|k: u32| #[trigger] has_id(s2, k) implies
        s2[idx_of(s2, k)].mute == map_of(s).insert(id, mute)[k] by {
        if k == id {
            lemma_idx_unique(s2, k, s.len() as int);
        } else {
            lemma_idx_of(s, k);
            let j = idx_of(s, k);
            lemma_idx_unique(s2, k, j);
        }
    }
    assert(map_of(s2) =~= map_of(s).insert(id, mute));
}

proof fn lemma_map_of_remove(s: Seq<StreamEntry>, i: int)
    requires
        unique_ids(s),
        0 <= i < s.len(),
    ensures
        unique_ids(s.remove(i)),
        map_of(s.remove(i)) == map_of(s).remove(s[i].id),
{
    let id = s[i].id;
    let s2 = s.remove(i);
    s.remove_ensures(i);
    assert forall|a: int, b: int| 0 <= a < b < s2.len() implies s2[a].id != s2[b].id by {
        let a0: int = if a < i { a } else { a + 1 };
        let b0: int = if b < i { b } else { b + 1 };
        assert(s2[a] == s[a0]);
        assert(s2[b] == s[b0]);
        assert(s[a0].id != s[b0].id);
    }
    assert forall|k: u32| k != id implies has_id(s2, k) == has_id(s, k) by {
        if has_id(s2, k) {
            let j = choose|j: int| 0 <= j < s2.len() && s2[j].id == k;
            let j0: int = if j < i { j } else { j + 1 };
            assert(s[j0].id == k);
        }
        if has_id(s, k) {
            let j = choose|j: int| 0 <= j < s.len() && s[j].id == k;
            assert(j != i);
            if j < i {
                assert(s2[j].id == k);
            } else {
                assert(s2[j - 1].id == k);
            }
        }
    }
    assert(!has_id(s2, id)) by {
        if has_id(s2, id) {
            let j = choose|j: int| 0 <= j < s2.len() && s2[j].id == id;
            let j0: int = if j < i { j } else { j + 1 };
            assert(s[j0].id == id);
            assert(j0 != i);
            if j0 < i {
                assert(s[j0].id != s[i].id);
            } else {
                assert(s[i].id != s[j0].id);
            }
        }
    }
    assert forall|k: u32| #[trigger] has_id(s2, k) implies
        s2[idx_of(s2, k)].mute == map_of(s).remove(id)[k] by {
        lemma_idx_of(s2, k);
        let j = idx_of(s2, k);
        let j0: int = if j < i { j } else { j + 1 };
        assert(s[j0].id == k);
        lemma_idx_unique(s, k, j0);
        assert(s2[j].mute == s[j0].mute);
    }
    assert(map_of(s2) =~= map_of(s).remove(id));
}

/// The live set of tracked streams. Ids are unique; the map the
/// tracker denotes is its view.
pub struct StreamTracker {
    entries: Vec<StreamEntry>,
}

impl View for StreamTracker {
    type V = Map<u32, bool>;

    closed spec fn view(&self) -> Map<u32, bool> {
        map_of(self.entries@)
    }
}

impl StreamTracker {
    /// Ids of the tracked entries are unique; established by `new` and
    /// kept by every operation.
    pub closed spec fn wf(&self) -> bool {
        unique_ids(self.entries@)
    }

    /// An empty tracker: no streams, so the vote is `Silent`.
    pub fn new() -> (t: StreamTracker)
        ensures
            t.wf(),
            t@ == Map::<u32, bool>::empty(),
    {
        let t = StreamTracker { entries: Vec::new() };
        proof {
            assert(t@ =~= Map::<u32, bool>::empty());
        }
        t
    }

    fn find(&self, id: u32) -> (r: Option<usize>)
        ensures
            match r {
                Some(i) => 0 <= i < self.entries@.len() && self.entries@[i as int].id == id,
                None => !has_id(self.entries@, id),
            },
    {
        let mut i: usize = 0;
        while i < self.entries.len()
            invariant
                0 <= i <= self.entries@.len(),
                forall|j: int| 0 <= j < i ==> self.entries@[j].id != id,
            decreases self.entries@.len() - i,
        {
            if self.entries[i].id == id {
                return Some(i);
            }
            i = i + 1;
        }
        None
    }

    /// Recomputes the aggregate vote from scratch over every tracked
    /// stream's current mute flag.
    pub fn vote(&self) -> (state: State)
        requires
            self.wf(),
        ensures
            state == map_vote(self@),
    {
        let mut flags: Vec<bool> = Vec::new();
        let mut i: usize = 0;
        while i < self.entries.len()
            invariant
                0 <= i <= self.entries@.len(),
                flags@ == mutes_of(self.entries@.take(i as int)),
            decreases self.entries@.len() - i,
        {
            flags.push(self.entries[i].mute);
            proof {
                assert(flags@ =~= mutes_of(self.entries@.take(i + 1 as int)));
            }
            i = i + 1;
        }
        proof {
            assert(self.entries@.take(self.entries@.len() as int) =~= self.entries@);
        }
        let state = State::from_bools(&flags);
        proof {
            lemma_seq_vote(self.entries@);
        }
        state
    }

    /// Starts tracking stream `id` with an initial mute flag of
    /// `false` (re-adding a known id resets its flag), then recomputes
    /// and returns the aggregate state to emit.
    pub fn add(&mut self, id: u32) -> (state: State)
        requires
            old(self).wf(),
        ensures
            final(self).wf(),
            final(self)@ == old(self)@.insert(id, false),
            state == map_vote(final(self)@),
    {
        match self.find(id) {
            Some(i) => {
                proof {
                    lemma_map_of_update(self.entries@, i as int, false);
                }
                self.entries[i].mute = false;
            },
            None => {
                proof {
                    lemma_map_of_push(self.entries@, id, false);
                }
                self.entries.push(StreamEntry { id, mute: false });
            },
        }
        self.vote()
    }

    /// Records a fresh mute flag for stream `id` and returns the
    /// recomputed aggregate state to emit. An unknown id is a no-op
    /// (the stream may have been removed while the notification was in
    /// flight): nothing changes and nothing is emitted.
    pub fn update_mute(&mut self, id: u32, mute: bool) -> (r: Option<State>)
        requires
            old(self).wf(),
        ensures
            final(self).wf(),
            old(self)@.dom().contains(id) ==> {
                &&& final(self)@ == old(self)@.insert(id, mute)
                &&& r == Some(map_vote(final(self)@))
            },
            !old(self)@.dom().contains(id) ==> final(self)@ == old(self)@ && r is None,
    {
        match self.find(id) {
            Some(i) => {
                proof {
                    lemma_map_of_update(self.entries@, i as int, mute);
                }
                self.entries[i].mute = mute;
                Some(self.vote())
            },
            None => None,
        }
    }

    /// Stops tracking stream `id` and returns the recomputed aggregate
    /// state to emit. An unknown id is a no-op: nothing changes and
    /// nothing is emitted.
    pub fn remove(&mut self, id: u32) -> (r: Option<State>)
        requires
            old(self).wf(),
        ensures
            final(self).wf(),
            old(self)@.dom().contains(id) ==> {
                &&& final(self)@ == old(self)@.remove(id)
                &&& r == Some(map_vote(final(self)@))
            },
            !old(self)@.dom().contains(id) ==> final(self)@ == old(self)@ && r is None,
    {
        match self.find(id) {
            Some(i) => {
                proof {
                    lemma_map_of_remove(self.entries@, i as int);
                }
                self.entries.remove(i);
                Some(self.vote())
            },
            None => None,
        }
    }

    /// The ids of every tracked stream, each exactly once: the targets
    /// of an outgoing mute command.
    pub fn ids(&self) -> (v: Vec<u32>)
        requires
            self.wf(),
        ensures
            v@.no_duplicates(),
            forall|k: u32| v@.contains(k) <==> self@.dom().contains(k),
    {
        let mut v: Vec<u32> = Vec::new();
        let mut i: usize = 0;
        while i < self.entries.len()
            invariant
                0 <= i <= self.entries@.len(),
                self.wf(),
                v@.len() == i,
                forall|j: int| 0 <= j < i ==> v@[j] == self.entries@[j].id,
            decreases self.entries@.len() - i,
        {
            v.push(self.entries[i].id);
            i = i + 1;
        }
        proof {
            assert forall|k: u32| v@.contains(k) implies self@.dom().contains(k) by {
                let j = choose|j: int| 0 <= j < v@.len() && v@[j] == k;
                assert(self.entries@[j].id == k);
                assert(has_id(self.entries@, k));
            }
            assert forall|k: u32| self@.dom().contains(k) implies v@.contains(k) by {
                lemma_idx_of(self.entries@, k);
                let j = idx_of(self.entries@, k);
                assert(v@[j] == k);
            }
            assert(v@.no_duplicates()) by {
                assert forall|a: int, b: int|
                    0 <= a < b < v@.len() implies v@[a] != v@[b] by {
                    assert(self.entries@[a].id != self.entries@[b].id);
                }
            }
        }
        v
    }
}

} // verus!
