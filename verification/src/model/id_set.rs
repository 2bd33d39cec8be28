use vstd::prelude::*;

verus! {

/// A finite set of node ids.
#[derive(Debug)]
pub struct IdSet {
    ids: Vec<u16>,
}

impl View for IdSet {
    type V = Set<u16>;

    closed spec fn view(&self) -> Set<u16> {
        self.ids@.to_set()
    }
}

/// The largest id of `ids`.
pub open spec fn is_max(ids: Set<u16>, id: u16) -> bool {
    ids.contains(id) && forall|other: u16| #[trigger] ids.contains(other) ==> other <= id
}

/// The smallest id of `ids`.
pub open spec fn is_min(ids: Set<u16>, id: u16) -> bool {
    ids.contains(id) && forall|other: u16| #[trigger] ids.contains(other) ==> id <= other
}

impl IdSet {
    pub closed spec fn wf(&self) -> bool {
        self.ids@.no_duplicates()
    }

    pub fn new() -> (set: IdSet)
        ensures
            set.wf(),
            set@ == Set::<u16>::empty(),
    {
        let set = IdSet { ids: Vec::new() };
        assert(set@ =~= Set::<u16>::empty());
        set
    }

    fn position(&self, id: u16) -> (index: Option<usize>)
        ensures
            match index {
                Some(i) => i < self.ids.len() && self.ids@[i as int] == id,
                None => !self@.contains(id),
            },
    {
        let mut i: usize = 0;
        while i < self.ids.len()
            invariant
                i <= self.ids.len(),
                forall|j: int| 0 <= j < i ==> self.ids@[j] != id,
            decreases self.ids.len() - i,
        {
            if self.ids[i] == id {
                return Some(i);
            }
            i = i + 1;
        }
        None
    }

    pub fn contains(&self, id: u16) -> (held: bool)
        ensures
            held == self@.contains(id),
    {
        match self.position(id) {
            Some(i) => {
                assert(self.ids@.contains(self.ids@[i as int]));
                true
            },
            None => false,
        }
    }

    pub fn insert(&mut self, id: u16)
        requires
            old(self).wf(),
        ensures
            final(self).wf(),
            final(self)@ == old(self)@.insert(id),
    {
        if !self.contains(id) {
            let ghost before = self.ids@;
            self.ids.push(id);
            proof {
                assert forall|a: int, b: int|
                    0 <= a < self.ids@.len() && 0 <= b < self.ids@.len() && a != b implies self.ids@[a]
                    != self.ids@[b] by {
                    if a == before.len() {
                        assert(before.contains(before[b]));
                    } else if b == before.len() {
                        assert(before.contains(before[a]));
                    }
                }
                assert forall|x: u16| #[trigger] self@.contains(x) <==> old(self)@.insert(id).contains(x) by {
                    if before.contains(x) {
                        let k = choose|k: int| 0 <= k < before.len() && before[k] == x;
                        assert(self.ids@[k] == x);
                    }
                    if self.ids@.contains(x) && x != id {
                        let k = choose|k: int| 0 <= k < self.ids@.len() && self.ids@[k] == x;
                        assert(before[k] == x);
                    }
                    if x == id {
                        assert(self.ids@[before.len() as int] == id);
                    }
                }
                assert(self@ =~= old(self)@.insert(id));
            }
        } else {
            assert(self@ =~= old(self)@.insert(id));
        }
    }

    /// Takes `id` out; tells whether it was there.
    pub fn remove(&mut self, id: u16) -> (was_held: bool)
        requires
            old(self).wf(),
        ensures
            final(self).wf(),
            was_held == old(self)@.contains(id),
            final(self)@ == old(self)@.remove(id),
    {
        match self.position(id) {
            Some(i) => {
                let ghost before = self.ids@;
                self.ids.remove(i);
                proof {
                    let r = self.ids@;
                    assert(r == before.remove(i as int));
                    assert forall|a: int, b: int| 0 <= a < r.len() && 0 <= b < r.len() && a != b implies r[a] != r[b] by {
                        let sa = if a < i { a } else { a + 1 };
                        let sb = if b < i { b } else { b + 1 };
                        assert(r[a] == before[sa]);
                        assert(r[b] == before[sb]);
                    }
                    assert forall|x: u16| #[trigger] r.to_set().contains(x) <==> before.to_set().remove(id).contains(x) by {
                        if r.contains(x) {
                            let a = choose|a: int| 0 <= a < r.len() && r[a] == x;
                            let sa = if a < i { a } else { a + 1 };
                            assert(before[sa] == x);
                        }
                        if before.contains(x) && x != id {
                            let k = choose|k: int| 0 <= k < before.len() && before[k] == x;
                            if k < i {
                                assert(r[k] == x);
                            } else {
                                assert(r[k - 1] == x);
                            }
                        }
                    }
                    assert(self@ =~= old(self)@.remove(id));
                    assert(before.contains(before[i as int]));
                }
                true
            },
            None => {
                assert(self@ =~= old(self)@.remove(id));
                false
            },
        }
    }

    /// The largest id, if the set is not empty.
    pub fn max(&self) -> (largest: Option<u16>)
        ensures
            match largest {
                Some(m) => is_max(self@, m),
                None => self@ == Set::<u16>::empty(),
            },
    {
        if self.ids.len() == 0 {
            assert(self@ =~= Set::<u16>::empty());
            return None;
        }
        let mut best = self.ids[0];
        let mut i: usize = 1;
        while i < self.ids.len()
            invariant
                1 <= i <= self.ids.len(),
                self.ids@.contains(best),
                forall|j: int| 0 <= j < i ==> self.ids@[j] <= best,
            decreases self.ids.len() - i,
        {
            if self.ids[i] > best {
                best = self.ids[i];
            }
            i = i + 1;
        }
        assert forall|other: u16| #[trigger] self@.contains(other) implies other <= best by {
            let k = choose|k: int| 0 <= k < self.ids@.len() && self.ids@[k] == other;
        }
        Some(best)
    }

    /// The smallest id, if the set is not empty.
    pub fn min(&self) -> (smallest: Option<u16>)
        ensures
            match smallest {
                Some(m) => is_min(self@, m),
                None => self@ == Set::<u16>::empty(),
            },
    {
        if self.ids.len() == 0 {
            assert(self@ =~= Set::<u16>::empty());
            return None;
        }
        let mut best = self.ids[0];
        let mut i: usize = 1;
        while i < self.ids.len()
            invariant
                1 <= i <= self.ids.len(),
                self.ids@.contains(best),
                forall|j: int| 0 <= j < i ==> best <= self.ids@[j],
            decreases self.ids.len() - i,
        {
            if self.ids[i] < best {
                best = self.ids[i];
            }
            i = i + 1;
        }
        assert forall|other: u16| #[trigger] self@.contains(other) implies best <= other by {
            let k = choose|k: int| 0 <= k < self.ids@.len() && self.ids@[k] == other;
        }
        Some(best)
    }

    /// Every id of the set, each once.
    pub fn to_vec(&self) -> (ids: Vec<u16>)
        requires
            self.wf(),
        ensures
            ids@.no_duplicates(),
            ids@.to_set() == self@,
    {
        self.ids.clone()
    }
}

} // verus!
