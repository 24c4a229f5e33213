use vstd::prelude::*;

verus! {

/// The table of in-flight sessions: each session id maps to its cancel flag.
pub struct StreamRegistry {
    entries: Vec<(String, bool)>,
    flags: Ghost<Map<Seq<char>, bool>>,
}

impl View for StreamRegistry {
    type V = Map<Seq<char>, bool>;

    closed spec fn view(&self) -> Map<Seq<char>, bool> {
        self.flags@
    }
}

impl StreamRegistry {
    /// The entries hold each id once and agree with the map.
    pub closed spec fn wf(&self) -> bool {
        &&& self.flags@.dom().finite()
        &&& self.flags@.dom().len() == self.entries@.len()
        &&& forall|i: int, j: int|
            0 <= i < j < self.entries@.len() ==> (#[trigger] self.entries@[i]).0@ != (
            #[trigger] self.entries@[j]).0@
        &&& forall|i: int|
            0 <= i < self.entries@.len() ==> self.flags@.contains_key(
                (#[trigger] self.entries@[i]).0@,
            ) && self.flags@[self.entries@[i].0@] == self.entries@[i].1
        &&& forall|k: Seq<char>|
            #[trigger] self.flags@.contains_key(k) ==> exists|i: int|
                0 <= i < self.entries@.len() && (#[trigger] self.entries@[i]).0@ == k
    }

    pub fn new() -> (r: StreamRegistry)
        ensures
            r.wf(),
            r@ == Map::<Seq<char>, bool>::empty(),
    {
        StreamRegistry { entries: Vec::new(), flags: Ghost(Map::empty()) }
    }

    fn find(&self, id: &String) -> (r: Option<usize>)
        requires
            self.wf(),
        ensures
            match r {
                Some(i) => i < self.entries@.len() && self.entries@[i as int].0@ == id@,
                None => !self@.contains_key(id@),
            },
    {
        let mut i: usize = 0;
        while i < self.entries.len()
            invariant
                i <= self.entries@.len(),
                forall|k: int| 0 <= k < i ==> (#[trigger] self.entries@[k]).0@ != id@,
            decreases self.entries@.len() - i,
        {
            if self.entries[i].0 == *id {
                return Some(i);
            }
            i = i + 1;
        }
        Option::None
    }

    /// Whether `id` is registered.
    pub fn contains(&self, id: &String) -> (r: bool)
        requires
            self.wf(),
        ensures
            r == self@.contains_key(id@),
    {
        match self.find(id) {
            Some(_) => true,
            None => false,
        }
    }

    /// Whether `id` is registered and its cancel flag is set.
    pub fn is_cancelled(&self, id: &String) -> (r: bool)
        requires
            self.wf(),
        ensures
            r == (self@.contains_key(id@) && self@[id@]),
    {
        match self.find(id) {
            Some(i) => self.entries[i].1,
            None => false,
        }
    }

    /// Removes `id` if it is registered; nothing happens otherwise.
    pub fn unregister(&mut self, id: &String)
        requires
            old(self).wf(),
        ensures
            final(self).wf(),
            final(self)@ == old(self)@.remove(id@),
    {
        match self.find(id) {
            None => {
                assert(self@.remove(id@) =~= self@);
            },
            Some(i) => {
                let ghost old_entries = self.entries@;
                let ghost old_flags = self.flags@;
                self.entries.remove(i);
                self.flags = Ghost(old_flags.remove(id@));
                let ghost ne = self.entries@;
                assert forall|a: int| 0 <= a < ne.len() implies #[trigger] ne[a] == old_entries[if a
                    < i {
                    a
                } else {
                    a + 1
                }] by {}
                assert forall|a: int, b: int| 0 <= a < b < ne.len() implies (
                #[trigger] ne[a]).0@ != (#[trigger] ne[b]).0@ by {
                    let oa = if a < i {
                        a
                    } else {
                        a + 1
                    };
                    let ob = if b < i {
                        b
                    } else {
                        b + 1
                    };
                    assert(ne[a] == old_entries[oa]);
                    assert(ne[b] == old_entries[ob]);
                    assert(old_entries[oa].0@ != old_entries[ob].0@);
                }
                assert forall|a: int| 0 <= a < ne.len() implies self.flags@.contains_key(
                    (#[trigger] ne[a]).0@,
                ) && self.flags@[ne[a].0@] == ne[a].1 by {
                    let oa = if a < i {
                        a
                    } else {
                        a + 1
                    };
                    assert(ne[a] == old_entries[oa]);
                    assert(old_entries[oa].0@ != old_entries[i as int].0@);
                }
                assert forall|k: Seq<char>| #[trigger] self.flags@.contains_key(k) implies exists|
                    a: int,
                |
                    0 <= a < ne.len() && (#[trigger] ne[a]).0@ == k by {
                    assert(old_flags.contains_key(k));
                    let oa = choose|oa: int|
                        0 <= oa < old_entries.len() && (#[trigger] old_entries[oa]).0@ == k;
                    assert(oa != i);
                    let a = if oa < i {
                        oa
                    } else {
                        oa - 1
                    };
                    assert(ne[a] == old_entries[oa]);
                }
            },
        }
    }

    /// Registers `id` with a fresh, unset cancel flag (replacing any earlier
    /// entry of that id).
    pub fn register(&mut self, id: String)
        requires
            old(self).wf(),
        ensures
            final(self).wf(),
            final(self)@ == old(self)@.insert(id@, false),
    {
        self.unregister(&id);
        let ghost mid = self.flags@;
        let ghost key = id@;
        let ghost old_entries = self.entries@;
        self.entries.push((id, false));
        self.flags = Ghost(mid.insert(key, false));
        let ghost ne = self.entries@;
        assert(ne[old_entries.len() as int] == (id, false));
        assert forall|a: int| 0 <= a < old_entries.len() implies #[trigger] ne[a]
            == old_entries[a] by {}
        assert forall|a: int| 0 <= a < old_entries.len() implies old_entries[a].0@ != key by {
            assert(mid.contains_key(old_entries[a].0@));
        }
        assert forall|k: Seq<char>| #[trigger] self.flags@.contains_key(k) implies exists|a: int|
            0 <= a < ne.len() && (#[trigger] ne[a]).0@ == k by {
            if k == key {
                assert(ne[old_entries.len() as int].0@ == k);
            } else {
                assert(mid.contains_key(k));
                let oa = choose|oa: int|
                    0 <= oa < old_entries.len() && (#[trigger] old_entries[oa]).0@ == k;
                assert(ne[oa] == old_entries[oa]);
            }
        }
        assert(old(self)@.remove(key).insert(key, false) =~= old(self)@.insert(key, false));
    }

    /// Sets every registered cancel flag and returns how many sessions that was.
    pub fn cancel_all(&mut self) -> (r: usize)
        requires
            old(self).wf(),
        ensures
            final(self).wf(),
            final(self)@.dom() == old(self)@.dom(),
            forall|k: Seq<char>| #[trigger] final(self)@.contains_key(k) ==> final(self)@[k],
            r == old(self)@.dom().len(),
    {
        let n = self.entries.len();
        let ghost old_entries = self.entries@;
        let ghost old_flags = self.flags@;
        let mut ne: Vec<(String, bool)> = Vec::new();
        let mut i: usize = 0;
        while i < n
            invariant
                n == old_entries.len(),
                self.entries@ == old_entries,
                i <= n,
                ne@.len() == i,
                forall|a: int| 0 <= a < i ==> (#[trigger] ne@[a]).0@ == old_entries[a].0@ && ne@[a].1,
            decreases n - i,
        {
            let id = self.entries[i].0.clone();
            ne.push((id, true));
            i = i + 1;
        }
        let ghost nf = Map::new(|k: Seq<char>| old_flags.contains_key(k), |k: Seq<char>| true);
        assert(nf.dom() =~= old_flags.dom());
        self.entries = ne;
        self.flags = Ghost(nf);
        assert forall|k: Seq<char>| #[trigger] self.flags@.contains_key(k) implies exists|a: int|
            0 <= a < self.entries@.len() && (#[trigger] self.entries@[a]).0@ == k by {
            let oa = choose|oa: int|
                0 <= oa < old_entries.len() && (#[trigger] old_entries[oa]).0@ == k;
            assert(self.entries@[oa].0@ == k);
        }
        assert forall|a: int, b: int| 0 <= a < b < self.entries@.len() implies (
        #[trigger] self.entries@[a]).0@ != (#[trigger] self.entries@[b]).0@ by {
            assert(old_entries[a].0@ != old_entries[b].0@);
        }
        n
    }
}

} // verus!
