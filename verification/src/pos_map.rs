use crate::components::movement::Pos;
use vstd::prelude::*;

verus! {

/// A map from grid positions to values.
///
/// The entries are kept in the order in which their positions were first inserted;
/// no position occurs twice. The view is the mathematical map from positions to values.
pub struct PosMap<V> {
    entries: Vec<(Pos, V)>,
    model: Ghost<Map<Pos, V>>,
}

impl<V> View for PosMap<V> {
    type V = Map<Pos, V>;

    closed spec fn view(&self) -> Map<Pos, V> {
        self.model@
    }
}

/// No position occurs twice among the entries, and the entries are exactly the key-value
/// pairs of the map.
pub open spec fn entries_agree<V>(entries: Seq<(Pos, V)>, map: Map<Pos, V>) -> bool {
    &&& forall|i: int, j: int|
        0 <= i < j < entries.len() ==> #[trigger] entries[i].0 != #[trigger] entries[j].0
    &&& forall|i: int|
        0 <= i < entries.len() ==> map.contains_key(#[trigger] entries[i].0) && map[entries[i].0]
            == entries[i].1
    &&& forall|p: Pos|
        #[trigger] map.contains_key(p) ==> exists|i: int|
            0 <= i < entries.len() && #[trigger] entries[i].0 == p
}

proof fn lemma_agree_after_set<V>(
    entries: Seq<(Pos, V)>,
    map: Map<Pos, V>,
    i: int,
    p: Pos,
    v: V,
)
    requires
        entries_agree(entries, map),
        0 <= i < entries.len(),
        entries[i].0 == p,
    ensures
        entries_agree(entries.update(i, (p, v)), map.insert(p, v)),
{
    let e2 = entries.update(i, (p, v));
    let m2 = map.insert(p, v);
    assert forall|q: Pos| #[trigger] m2.contains_key(q) implies exists|k: int|
        0 <= k < e2.len() && #[trigger] e2[k].0 == q by {
        if q != p {
            let k = choose|k: int| 0 <= k < entries.len() && #[trigger] entries[k].0 == q;
            assert(e2[k].0 == q);
        } else {
            assert(e2[i].0 == q);
        }
    }
}

proof fn lemma_agree_after_push<V>(entries: Seq<(Pos, V)>, map: Map<Pos, V>, p: Pos, v: V)
    requires
        entries_agree(entries, map),
        !map.contains_key(p),
    ensures
        entries_agree(entries.push((p, v)), map.insert(p, v)),
{
    let e2 = entries.push((p, v));
    let m2 = map.insert(p, v);
    let n = entries.len() as int;
    assert forall|q: Pos| #[trigger] m2.contains_key(q) implies exists|k: int|
        0 <= k < e2.len() && #[trigger] e2[k].0 == q by {
        if q != p {
            let k = choose|k: int| 0 <= k < entries.len() && #[trigger] entries[k].0 == q;
            assert(e2[k].0 == q);
        } else {
            assert(e2[n].0 == q);
        }
    }
}

proof fn lemma_agree_after_remove<V>(entries: Seq<(Pos, V)>, map: Map<Pos, V>, i: int, p: Pos)
    requires
        entries_agree(entries, map),
        0 <= i < entries.len(),
        entries[i].0 == p,
    ensures
        entries_agree(entries.remove(i), map.remove(p)),
{
    let e2 = entries.remove(i);
    let m2 = map.remove(p);
    assert forall|j: int, k: int| 0 <= j < k < e2.len() implies #[trigger] e2[j].0
        != #[trigger] e2[k].0 by {
        let jj = if j < i {
            j
        } else {
            j + 1
        };
        let kk = if k < i {
            k
        } else {
            k + 1
        };
        assert(e2[j] == entries[jj]);
        assert(e2[k] == entries[kk]);
    }
    assert forall|j: int| 0 <= j < e2.len() implies m2.contains_key(#[trigger] e2[j].0) && m2[e2[j].0]
        == e2[j].1 by {
        let jj = if j < i {
            j
        } else {
            j + 1
        };
        assert(e2[j] == entries[jj]);
        assert(entries[jj].0 != entries[i].0);
    }
    assert forall|q: Pos| #[trigger] m2.contains_key(q) implies exists|k: int|
        0 <= k < e2.len() && #[trigger] e2[k].0 == q by {
        let k = choose|k: int| 0 <= k < entries.len() && #[trigger] entries[k].0 == q;
        assert(k != i);
        let kk = if k < i {
            k
        } else {
            k - 1
        };
        assert(e2[kk] == entries[k]);
    }
}

impl<V> PosMap<V> {
    /// The entries in iteration order.
    pub closed spec fn entry_seq(&self) -> Seq<(Pos, V)> {
        self.entries@
    }

    #[verifier::type_invariant]
    spec fn inv(&self) -> bool {
        entries_agree(self.entries@, self.model@)
    }

    pub fn new() -> (res: Self)
        ensures
            res@ == Map::<Pos, V>::empty(),
            res.entry_seq() == Seq::<(Pos, V)>::empty(),
    {
        PosMap { entries: Vec::new(), model: Ghost(Map::empty()) }
    }

    /// The number of entries. The entries agree with the map.
    pub fn len(&self) -> (res: usize)
        ensures
            res == self.entry_seq().len(),
            entries_agree(self.entry_seq(), self@),
    {
        proof {
            use_type_invariant(self);
        }
        self.entries.len()
    }

    /// The entry at the given index of the iteration order.
    pub fn entry(&self, i: usize) -> (res: &(Pos, V))
        requires
            i < self.entry_seq().len(),
        ensures
            *res == self.entry_seq()[i as int],
    {
        &self.entries[i]
    }

    fn find(&self, p: &Pos) -> (res: Option<usize>)
        ensures
            match res {
                Some(i) => i < self.entries@.len() && self.entries@[i as int].0 == *p,
                None => !self@.contains_key(*p),
            },
    {
        proof {
            use_type_invariant(self);
        }
        let mut i: usize = 0;
        while i < self.entries.len()
            invariant
                i <= self.entries@.len(),
                forall|j: int| 0 <= j < i ==> self.entries@[j].0 != *p,
                entries_agree(self.entries@, self.model@),
            decreases self.entries@.len() - i,
        {
            if self.entries[i].0 == *p {
                return Some(i);
            }
            i = i + 1;
        }
        None
    }

    pub fn contains_key(&self, p: &Pos) -> (res: bool)
        ensures
            res == self@.contains_key(*p),
    {
        proof {
            use_type_invariant(self);
        }
        match self.find(p) {
            Some(_) => true,
            None => false,
        }
    }

    pub fn get(&self, p: &Pos) -> (res: Option<&V>)
        ensures
            match res {
                Some(v) => self@.contains_key(*p) && *v == self@[*p],
                None => !self@.contains_key(*p),
            },
    {
        proof {
            use_type_invariant(self);
        }
        match self.find(p) {
            Some(i) => Some(&self.entries[i].1),
            None => None,
        }
    }

    /// Inserts or replaces the value at the position. A new position goes to the end of
    /// the iteration order; a known one keeps its place.
    pub fn insert(&mut self, p: Pos, v: V)
        ensures
            final(self)@ == old(self)@.insert(p, v),
            old(self)@.contains_key(p) ==> exists|i: int|
                0 <= i < old(self).entry_seq().len() && old(self).entry_seq()[i].0 == p && final(self).entry_seq() == old(self).entry_seq().update(i, (p, v)),
            !old(self)@.contains_key(p) ==> final(self).entry_seq() == old(self).entry_seq().push(
                (p, v),
            ),
    {
        proof {
            use_type_invariant(&*self);
        }
        let found = self.find(&p);
        let mut taken = PosMap::new();
        std::mem::swap(self, &mut taken);
        let PosMap { mut entries, model } = taken;
        match found {
            Some(i) => {
                proof {
                    lemma_agree_after_set(entries@, model@, i as int, p, v);
                }
                entries.set(i, (p, v));
                assert(old(self).entry_seq()[i as int].0 == p);
            },
            None => {
                proof {
                    lemma_agree_after_push(entries@, model@, p, v);
                }
                entries.push((p, v));
            },
        }
        *self = PosMap { entries, model: Ghost(model@.insert(p, v)) };
    }

    /// Replaces the value of the entry at the given index of the iteration order. Its
    /// position and its place stay.
    pub fn set_value(&mut self, i: usize, v: V)
        requires
            i < old(self).entry_seq().len(),
        ensures
            final(self)@ == old(self)@.insert(old(self).entry_seq()[i as int].0, v),
            final(self).entry_seq() == old(self).entry_seq().update(
                i as int,
                (old(self).entry_seq()[i as int].0, v),
            ),
    {
        proof {
            use_type_invariant(&*self);
        }
        let mut taken = PosMap::new();
        std::mem::swap(self, &mut taken);
        let PosMap { mut entries, model } = taken;
        let p = entries[i].0;
        proof {
            lemma_agree_after_set(entries@, model@, i as int, p, v);
        }
        entries.set(i, (p, v));
        *self = PosMap { entries, model: Ghost(model@.insert(p, v)) };
    }

    /// Removes the position, if present. The other entries keep their order.
    pub fn remove(&mut self, p: &Pos)
        ensures
            final(self)@ == old(self)@.remove(*p),
            old(self)@.contains_key(*p) ==> exists|i: int|
                0 <= i < old(self).entry_seq().len() && old(self).entry_seq()[i].0 == *p && final(self).entry_seq() == old(self).entry_seq().remove(i),
            !old(self)@.contains_key(*p) ==> final(self).entry_seq() == old(self).entry_seq(),
    {
        proof {
            use_type_invariant(&*self);
        }
        match self.find(p) {
            Some(i) => {
                let mut taken = PosMap::new();
                std::mem::swap(self, &mut taken);
                let PosMap { mut entries, model } = taken;
                proof {
                    lemma_agree_after_remove(entries@, model@, i as int, *p);
                }
                let _ = entries.remove(i);
                *self = PosMap { entries, model: Ghost(model@.remove(*p)) };
                assert(old(self).entry_seq()[i as int].0 == *p);
            },
            None => {
                proof {
                    assert(self@.remove(*p) =~= self@);
                }
            },
        }
    }
}

} // verus!
