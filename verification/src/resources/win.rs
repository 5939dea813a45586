use crate::components::movement::Pos;
use crate::pos_map::PosMap;
use vstd::prelude::*;

verus! {

/// The keys of the level that are still to be collected. The level is won once none is left.
pub struct WinCondition {
    keys: PosMap<()>,
}

impl WinCondition {
    /// The positions of the keys still to be collected.
    pub closed spec fn pending(&self) -> Set<Pos> {
        self.keys@.dom()
    }

    /// The pending keys in the order in which they were added.
    pub closed spec fn key_order(&self) -> Seq<Pos> {
        self.keys.entry_seq().map_values(|e: (Pos, ())| e.0)
    }

    /// Adds a key to collect. A new key goes last in the order; a known one keeps its place.
    pub fn add_key(&mut self, pos: &Pos)
        ensures
            final(self).pending() == old(self).pending().insert(*pos),
            old(self).pending().contains(*pos) ==> final(self).key_order() == old(self).key_order(),
            !old(self).pending().contains(*pos) ==> final(self).key_order() == old(
                self,
            ).key_order().push(*pos),
    {
        self.keys.insert(*pos, ());
        proof {
            assert(self.keys@.dom() =~= old(self).keys@.dom().insert(*pos));
            if old(self).keys@.contains_key(*pos) {
                let i = choose|i: int|
                    0 <= i < old(self).keys.entry_seq().len() && old(self).keys.entry_seq()[i].0
                        == *pos && self.keys.entry_seq() == old(self).keys.entry_seq().update(
                        i,
                        (*pos, ()),
                    );
                assert(self.key_order() =~= old(self).key_order());
            } else {
                assert(self.key_order() =~= old(self).key_order().push(*pos));
            }
        }
    }

    /// Marks the key at the position as collected. The other keys keep their order.
    pub fn set_key_collected(&mut self, pos: &Pos)
        ensures
            final(self).pending() == old(self).pending().remove(*pos),
            old(self).pending().contains(*pos) ==> exists|i: int|
                0 <= i < old(self).key_order().len() && old(self).key_order()[i] == *pos
                    && final(self).key_order() == old(self).key_order().remove(i),
            !old(self).pending().contains(*pos) ==> final(self).key_order() == old(
                self,
            ).key_order(),
    {
        self.keys.remove(pos);
        proof {
            assert(self.keys@.dom() =~= old(self).keys@.dom().remove(*pos));
            if old(self).keys@.contains_key(*pos) {
                let i = choose|i: int|
                    0 <= i < old(self).keys.entry_seq().len() && old(self).keys.entry_seq()[i].0
                        == *pos && self.keys.entry_seq() == old(self).keys.entry_seq().remove(i);
                assert(self.key_order() =~= old(self).key_order().remove(i));
                assert(old(self).key_order()[i] == *pos);
            }
        }
    }

    /// Whether every key has been collected.
    pub fn all_collected(&self) -> (res: bool)
        ensures
            res == (self.pending() == Set::<Pos>::empty()),
    {
        let n = self.keys.len();
        proof {
            if n > 0 {
                let p = self.keys.entry_seq()[0].0;
                assert(self.pending().contains(p));
            } else {
                assert forall|p: Pos| !self.pending().contains(p) by {
                    if self.keys@.contains_key(p) {
                        let i = choose|i: int| 0 <= i < self.keys.entry_seq().len() && #[trigger] self.keys.entry_seq()[i].0 == p;
                    }
                }
                assert(self.pending() =~= Set::<Pos>::empty());
            }
        }
        n == 0
    }

    /// The number of keys still to be collected. The order holds each pending key once.
    pub fn len(&self) -> (res: usize)
        ensures
            res == self.key_order().len(),
            self.key_order().no_duplicates(),
            self.key_order().to_set() == self.pending(),
    {
        let n = self.keys.len();
        proof {
            let ks = self.key_order();
            let es = self.keys.entry_seq();
            assert forall|i: int, j: int| 0 <= i < ks.len() && 0 <= j < ks.len() && i != j implies ks[i] != ks[j] by {
                if i < j {
                    assert(es[i].0 != es[j].0);
                } else {
                    assert(es[j].0 != es[i].0);
                }
            }
            assert forall|p: Pos| ks.to_set().contains(p) <==> self.pending().contains(p) by {
                if self.pending().contains(p) {
                    let i = choose|i: int| 0 <= i < es.len() && #[trigger] es[i].0 == p;
                    assert(ks[i] == p);
                }
                if ks.to_set().contains(p) {
                    let i = choose|i: int| 0 <= i < ks.len() && ks[i] == p;
                    assert(es[i].0 == p);
                }
            }
            assert(ks.to_set() =~= self.pending());
        }
        n
    }

    /// The pending key at the given place in the order in which the keys were added.
    pub fn key(&self, i: usize) -> (res: Pos)
        requires
            i < self.key_order().len(),
        ensures
            res == self.key_order()[i as int],
    {
        self.keys.entry(i).0
    }
}

impl Default for WinCondition {
    fn default() -> (res: Self)
        ensures
            res.pending() == Set::<Pos>::empty(),
            res.key_order() == Seq::<Pos>::empty(),
    {
        let res = WinCondition { keys: PosMap::new() };
        proof {
            assert(res.pending() =~= Set::<Pos>::empty());
            assert(res.key_order() =~= Seq::<Pos>::empty());
        }
        res
    }
}

} // verus!
