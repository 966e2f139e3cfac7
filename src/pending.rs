use vstd::prelude::*;

verus! {

/// The pending calls: for each correlation id still awaiting its reply, the
/// single-use handle that resolves its caller.
///
/// Its model is a map from id to handle, so there is at most one entry per id.
pub struct PendingCalls<H> {
    entries: Vec<(String, H)>,
    model: Ghost<Map<Seq<char>, H>>,
}

impl<H> View for PendingCalls<H> {
    type V = Map<Seq<char>, H>;

    closed spec fn view(&self) -> Map<Seq<char>, H> {
        self.model@
    }
}

impl<H> PendingCalls<H> {
    /// The entries hold each id once and are exactly the model.
    pub closed spec fn wf(&self) -> bool {
        &&& forall|i: int, j: int|
            0 <= i < j < self.entries@.len() ==> self.entries@[i].0@ != self.entries@[j].0@
        &&& forall|i: int|
            0 <= i < self.entries@.len() ==> #[trigger] self.model@.contains_key(self.entries@[i].0@)
                && self.model@[self.entries@[i].0@] == self.entries@[i].1
        &&& forall|k: Seq<char>|
            #[trigger] self.model@.contains_key(k) ==> exists|i: int|
                0 <= i < self.entries@.len() && self.entries@[i].0@ == k
    }

    pub fn new() -> (r: Self)
        ensures
            r.wf(),
            r@ == Map::<Seq<char>, H>::empty(),
    {
        PendingCalls { entries: Vec::new(), model: Ghost(Map::empty()) }
    }

    /// The position of the entry for `id`, if there is one.
    fn position(&self, id: &String) -> (r: Option<usize>)
        requires
            self.wf(),
        ensures
            match r {
                Some(i) => i < self.entries@.len() && self.entries@[i as int].0@ == id@,
                None => !self@.contains_key(id@),
            },
    {
        let mut i: usize = 0;
        while i < self.entries.len()
            invariant
                self.wf(),
                i <= self.entries@.len(),
                forall|j: int| 0 <= j < i ==> self.entries@[j].0@ != id@,
            decreases self.entries@.len() - i,
        {
            if self.entries[i].0 == *id {
                return Some(i);
            }
            i = i + 1;
        }
        None
    }

    /// Whether a call with this id is pending.
    pub fn contains(&self, id: &String) -> (r: bool)
        requires
            self.wf(),
        ensures
            r == self@.contains_key(id@),
    {
        self.position(id).is_some()
    }

    /// Removes the entry at position `i` from both the entries and the model.
    fn remove_at(&mut self, i: usize) -> (r: (String, H))
        requires
            old(self).wf(),
            i < old(self).entries@.len(),
        ensures
            final(self).wf(),
            r == old(self).entries@[i as int],
            old(self)@.contains_key(r.0@),
            old(self)@[r.0@] == r.1,
            final(self)@ == old(self)@.remove(r.0@),
    {
        let ghost old_entries = self.entries@;
        let ghost key = self.entries@[i as int].0@;
        let entry = self.entries.remove(i);
        self.model = Ghost(self.model@.remove(key));
        assert forall|j: int| 0 <= j < self.entries@.len() implies self.entries@[j].0@ != key by {
            if j < i {
                assert(old_entries[j] == self.entries@[j]);
            } else {
                assert(old_entries[j + 1] == self.entries@[j]);
            }
        }
        assert forall|k: Seq<char>| #[trigger] self.model@.contains_key(k) implies exists|j: int|
            0 <= j < self.entries@.len() && self.entries@[j].0@ == k by {
            let j0 = choose|j: int| 0 <= j < old_entries.len() && old_entries[j].0@ == k;
            if j0 < i {
                assert(self.entries@[j0].0@ == k);
            } else {
                assert(j0 != i);
                assert(self.entries@[j0 - 1].0@ == k);
            }
        }
        entry
    }

    /// Records `handle` as the one to resolve when the reply for `id` comes.
    /// A handle already recorded under `id` is displaced and handed back.
    pub fn register(&mut self, id: String, handle: H) -> (r: Option<H>)
        requires
            old(self).wf(),
        ensures
            final(self).wf(),
            final(self)@ == old(self)@.insert(id@, handle),
            r == (if old(self)@.contains_key(id@) {
                Some(old(self)@[id@])
            } else {
                None
            }),
    {
        let displaced = match self.position(&id) {
            Some(i) => {
                let (_, h) = self.remove_at(i);
                Some(h)
            },
            None => None,
        };
        let ghost before = self.entries@;
        let ghost before_model = self.model@;
        let ghost key = id@;
        assert(!before_model.contains_key(key));
        self.entries.push((id, handle));
        self.model = Ghost(self.model@.insert(key, handle));
        assert forall|j: int| 0 <= j < before.len() implies #[trigger] self.entries@[j].0@ != key by {
            assert(self.entries@[j] == before[j]);
            assert(before_model.contains_key(before[j].0@));
        }
        assert forall|k: Seq<char>| #[trigger] self.model@.contains_key(k) implies exists|j: int|
            0 <= j < self.entries@.len() && self.entries@[j].0@ == k by {
            if k == key {
                assert(self.entries@[before.len() as int].0@ == k);
            } else {
                let j0 = choose|j: int| 0 <= j < before.len() && before[j].0@ == k;
                assert(self.entries@[j0].0@ == k);
            }
        }
        proof {
            if old(self)@.contains_key(id@) {
                assert(self@ =~= old(self)@.remove(key).insert(key, handle));
            } else {
                assert(self@ =~= old(self)@.insert(key, handle));
            }
        }
        displaced
    }

    /// Removes the entry for `id` and hands back its handle, if there was one.
    pub fn take(&mut self, id: &String) -> (r: Option<H>)
        requires
            old(self).wf(),
        ensures
            final(self).wf(),
            final(self)@ == old(self)@.remove(id@),
            r == (if old(self)@.contains_key(id@) {
                Some(old(self)@[id@])
            } else {
                None
            }),
    {
        match self.position(id) {
            Some(i) => {
                let (_, h) = self.remove_at(i);
                Some(h)
            },
            None => {
                assert(self@ =~= old(self)@.remove(id@));
                None
            },
        }
    }
}

} // verus!
