use vstd::prelude::*;

use crate::error::WatchError;

verus! {

/// The outcome of a request to start a watch under `id`, where `ids` are the
/// running watches.
pub open spec fn watch_check_spec(
    ids: Set<Seq<char>>,
    id: Seq<char>,
    source_exists: bool,
    destination_exists: bool,
) -> Result<(), WatchError> {
    if ids.contains(id) {
        Err(WatchError::AlreadyWatching)
    } else if !source_exists {
        Err(WatchError::SourceNotFound)
    } else if !destination_exists {
        Err(WatchError::DestinationNotFound)
    } else {
        Ok(())
    }
}

/// The outcome of a request to stop the watch under `id`.
pub open spec fn stop_check_spec(ids: Set<Seq<char>>, id: Seq<char>) -> Result<(), WatchError> {
    if ids.contains(id) {
        Ok(())
    } else {
        Err(WatchError::NotWatching)
    }
}

/// The running watches, each under its own id, with the handle that keeps
/// it alive.
pub struct WatchRegistry<H> {
    entries: Vec<(String, H)>,
    watched: Ghost<Map<Seq<char>, H>>,
}

impl<H> View for WatchRegistry<H> {
    type V = Map<Seq<char>, H>;

    closed spec fn view(&self) -> Map<Seq<char>, H> {
        self.watched@
    }
}

impl<H> WatchRegistry<H> {
    /// The ids are unique and the map is what the entries hold.
    pub closed spec fn wf(&self) -> bool {
        &&& forall|i: int, j: int|
            0 <= i < j < self.entries@.len() ==> self.entries@[i].0@ != self.entries@[j].0@
        &&& forall|i: int|
            0 <= i < self.entries@.len() ==> self.watched@.contains_key(
                #[trigger] self.entries@[i].0@,
            ) && self.watched@[self.entries@[i].0@] == self.entries@[i].1
        &&& forall|k: Seq<char>|
            #[trigger] self.watched@.contains_key(k) ==> exists|i: int|
                0 <= i < self.entries@.len() && self.entries@[i].0@ == k
    }

    pub fn new() -> (r: Self)
        ensures
            r.wf(),
            r@ == Map::<Seq<char>, H>::empty(),
    {
        WatchRegistry { entries: Vec::new(), watched: Ghost(Map::empty()) }
    }

    fn find(&self, id: &String) -> (r: Option<usize>)
        requires
            self.wf(),
        ensures
            match r {
                Some(i) => i < self.entries@.len() && self.entries@[i as int].0@ == id@,
                None => !self@.contains_key(id@),
            },
    {
        let mut i: usize = 0;
        while i < self.entries.len()
            invariant
                self.wf(),
                0 <= i <= self.entries@.len(),
                forall|j: int| 0 <= j < i ==> self.entries@[j].0@ != id@,
            decreases self.entries.len() - i,
        {
            if self.entries[i].0 == *id {
                return Some(i);
            }
            i = i + 1;
        }
        None
    }

    /// Whether a watch runs under `id`.
    pub fn is_watching(&self, id: &String) -> (r: bool)
        requires
            self.wf(),
        ensures
            r == self@.contains_key(id@),
    {
        self.find(id).is_some()
    }

    /// The number of running watches.
    pub fn len(&self) -> (r: usize)
        requires
            self.wf(),
        ensures
            r == self@.len(),
    {
        proof { self.lemma_len(); }
        self.entries.len()
    }

    proof fn lemma_len(&self)
        requires
            self.wf(),
        ensures
            self@.len() == self.entries@.len(),
            self@.dom().finite(),
    {
        let keys = self.entries@.map_values(|e: (String, H)| e.0@);
        assert forall|i: int, j: int|
            0 <= i < keys.len() && 0 <= j < keys.len() && i != j implies keys[i] != keys[j] by {
            assert(keys[i] == self.entries@[i].0@ && keys[j] == self.entries@[j].0@);
        }
        keys.unique_seq_to_set();
        assert(keys.to_set() =~= self@.dom()) by {
            assert forall|k: Seq<char>| #[trigger] self@.dom().contains(k) implies keys.to_set().contains(k) by {
                let i = choose|i: int| 0 <= i < self.entries@.len() && self.entries@[i].0@ == k;
                assert(keys[i] == k);
            }
            assert forall|k: Seq<char>| keys.to_set().contains(k) implies #[trigger] self@.dom().contains(k) by {
                let i = choose|i: int| 0 <= i < keys.len() && keys[i] == k;
                assert(self.entries@[i].0@ == k);
            }
        }
    }

    /// Whether a watch may start under `id`: `AlreadyWatching` where one
    /// runs under it, else `SourceNotFound` or `DestinationNotFound` where
    /// that root does not exist.
    pub fn check_watch(&self, id: &String, source_exists: bool, destination_exists: bool) -> (r:
        Result<(), WatchError>)
        requires
            self.wf(),
        ensures
            r == watch_check_spec(self@.dom(), id@, source_exists, destination_exists),
    {
        if self.is_watching(id) {
            Err(WatchError::AlreadyWatching)
        } else if !source_exists {
            Err(WatchError::SourceNotFound)
        } else if !destination_exists {
            Err(WatchError::DestinationNotFound)
        } else {
            Ok(())
        }
    }

    /// Records a started watch under an id that no running watch has.
    pub fn register(&mut self, id: String, handle: H)
        requires
            old(self).wf(),
            !old(self)@.contains_key(id@),
        ensures
            final(self).wf(),
            final(self)@ == old(self)@.insert(id@, handle),
    {
        let ghost key = id@;
        let ghost h = handle;
        self.entries.push((id, handle));
        self.watched = Ghost(self.watched@.insert(key, h));
        assert forall|k: Seq<char>| #[trigger] self.watched@.contains_key(k) implies exists|i: int|
            0 <= i < self.entries@.len() && self.entries@[i].0@ == k by {
            if k == key {
                assert(self.entries@[self.entries@.len() - 1].0@ == k);
            } else {
                let i = choose|i: int| 0 <= i < old(self).entries@.len() && old(self).entries@[i].0@ == k;
                assert(self.entries@[i].0@ == k);
            }
        }
    }

    /// Ends the watch under `id` and hands back its handle, whose drop stops
    /// it: `NotWatching` where none runs under `id`.
    pub fn stop_watching(&mut self, id: &String) -> (r: Result<H, WatchError>)
        requires
            old(self).wf(),
        ensures
            final(self).wf(),
            match r {
                Ok(_) => stop_check_spec(old(self)@.dom(), id@) == Ok::<(), WatchError>(()),
                Err(e) => stop_check_spec(old(self)@.dom(), id@) == Err::<(), WatchError>(e),
            },
            r is Ok ==> r->Ok_0 == old(self)@[id@] && final(self)@ == old(self)@.remove(id@),
            r is Err ==> r->Err_0 == WatchError::NotWatching && final(self)@ == old(self)@,
    {
        match self.find(id) {
            None => Err(WatchError::NotWatching),
            Some(i) => {
                let ghost before = self.entries@;
                let ghost key = id@;
                let (_, handle) = self.entries.remove(i);
                self.watched = Ghost(self.watched@.remove(key));
                assert forall|j: int|
                    0 <= j < self.entries@.len() implies self.watched@.contains_key(
                    #[trigger] self.entries@[j].0@,
                ) && self.watched@[self.entries@[j].0@] == self.entries@[j].1 by {
                    if j < i {
                        assert(self.entries@[j] == before[j]);
                    } else {
                        assert(self.entries@[j] == before[j + 1]);
                    }
                }
                assert forall|k: Seq<char>| #[trigger] self.watched@.contains_key(k) implies exists|
                    j: int,
                | 0 <= j < self.entries@.len() && self.entries@[j].0@ == k by {
                    let j = choose|j: int| 0 <= j < before.len() && before[j].0@ == k;
                    if j < i {
                        assert(self.entries@[j].0@ == k);
                    } else {
                        assert(self.entries@[j - 1].0@ == k);
                    }
                }
                Ok(handle)
            },
        }
    }
}

} // verus!

verus! {

/// A watch starts once per id: with both roots present a free id is accepted,
/// and once it runs, every further request under it is refused with
/// `AlreadyWatching`, whatever its roots.
pub proof fn lemma_watch_once<H>(
    running: Map<Seq<char>, H>,
    id: Seq<char>,
    handle: H,
    source_exists: bool,
    destination_exists: bool,
    again_source_exists: bool,
    again_destination_exists: bool,
)
    requires
        !running.contains_key(id),
        source_exists,
        destination_exists,
    ensures
        watch_check_spec(running.dom(), id, source_exists, destination_exists) == Ok::<
            (),
            WatchError,
        >(()),
        watch_check_spec(
            running.insert(id, handle).dom(),
            id,
            again_source_exists,
            again_destination_exists,
        ) == Err::<(), WatchError>(WatchError::AlreadyWatching),
{
    assert(running.insert(id, handle).dom().contains(id));
}

/// Stopping an id that runs no watch fails with `NotWatching`; stopping a
/// running one succeeds, hands back its handle and leaves the id free.
pub proof fn lemma_stop_watching<H>(running: Map<Seq<char>, H>, id: Seq<char>, handle: H)
    requires
        !running.contains_key(id),
    ensures
        stop_check_spec(running.dom(), id) == Err::<(), WatchError>(WatchError::NotWatching),
        stop_check_spec(running.insert(id, handle).dom(), id) == Ok::<(), WatchError>(()),
        running.insert(id, handle)[id] == handle,
        running.insert(id, handle).remove(id) == running,
        stop_check_spec(running.insert(id, handle).remove(id).dom(), id) == Err::<(), WatchError>(
            WatchError::NotWatching,
        ),
{
    assert(running.insert(id, handle).dom().contains(id));
    assert(running.insert(id, handle).remove(id) =~= running);
}

} // verus!
