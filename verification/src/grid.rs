use vstd::prelude::*;

use crate::geom::Coord;

verus! {

/// The partial map denoted by an association sequence: the earliest
/// occurrence of a key gives its value.
pub open spec fn entries_map(s: Seq<(Coord, char)>) -> Map<Coord, char>
    decreases s.len(),
{
    if s.len() == 0 {
        Map::empty()
    } else {
        entries_map(s.skip(1)).insert(s[0].0, s[0].1)
    }
}

/// The keys of an association sequence are pairwise distinct.
pub open spec fn distinct_keys(s: Seq<(Coord, char)>) -> bool {
    forall|i: int, j: int| 0 <= i < j < s.len() ==> s[i].0 != s[j].0
}

/// A sparse character grid: a finite partial map from coordinates to
/// display characters, stored as an association vector.  Two instances
/// make up an editing session: the committed diagram layer and the
/// transient preview layer.
pub struct Grid {
    cells: Vec<(Coord, char)>,
}

impl View for Grid {
    type V = Map<Coord, char>;

    closed spec fn view(&self) -> Map<Coord, char> {
        entries_map(self.cells@)
    }
}

proof fn lemma_entries_dom(s: Seq<(Coord, char)>, k: Coord)
    ensures
        entries_map(s).contains_key(k) <==> (exists|i: int| 0 <= i < s.len() && s[i].0 == k),
    decreases s.len(),
{
    if s.len() == 0 {
    } else {
        lemma_entries_dom(s.skip(1), k);
        if s[0].0 == k {
            assert(s[0].0 == k);
        } else if entries_map(s).contains_key(k) {
            let i = choose|i: int| 0 <= i < s.skip(1).len() && s.skip(1)[i].0 == k;
            assert(s[i + 1] == s.skip(1)[i]);
        } else if exists|i: int| 0 <= i < s.len() && s[i].0 == k {
            let i = choose|i: int| 0 <= i < s.len() && s[i].0 == k;
            assert(s.skip(1)[i - 1] == s[i]);
        }
    }
}

proof fn lemma_entries_first(s: Seq<(Coord, char)>, i: int)
    requires
        0 <= i < s.len(),
        forall|j: int| 0 <= j < i ==> s[j].0 != s[i].0,
    ensures
        entries_map(s).contains_key(s[i].0),
        entries_map(s)[s[i].0] == s[i].1,
    decreases i,
{
    if i == 0 {
    } else {
        assert forall|j: int| 0 <= j < i - 1 implies (#[trigger] s.skip(1)[j]).0 != s.skip(1)[i - 1].0 by {
            assert(s.skip(1)[j] == s[j + 1]);
            assert(s.skip(1)[i - 1] == s[i]);
        }
        lemma_entries_first(s.skip(1), i - 1);
        assert(s.skip(1)[i - 1] == s[i]);
    }
}

proof fn lemma_entries_push(s: Seq<(Coord, char)>, e: (Coord, char))
    requires
        forall|j: int| 0 <= j < s.len() ==> s[j].0 != e.0,
    ensures
        entries_map(s.push(e)) == entries_map(s).insert(e.0, e.1),
    decreases s.len(),
{
    if s.len() == 0 {
        reveal_with_fuel(entries_map, 2);
        assert(s.push(e).skip(1) =~= Seq::<(Coord, char)>::empty());
        assert(s.push(e)[0] == e);
        assert(entries_map(s.push(e).skip(1)) =~= Map::<Coord, char>::empty());
        assert(entries_map(s.push(e)) =~= entries_map(s).insert(e.0, e.1));
    } else {
        assert(s.push(e).skip(1) =~= s.skip(1).push(e));
        assert forall|j: int| 0 <= j < s.skip(1).len() implies (#[trigger] s.skip(1)[j]).0 != e.0 by {
            assert(s.skip(1)[j] == s[j + 1]);
        }
        lemma_entries_push(s.skip(1), e);
        assert(s.push(e)[0] == s[0]);
        assert(entries_map(s.push(e)) =~= entries_map(s).insert(e.0, e.1));
    }
}

proof fn lemma_entries_remove(s: Seq<(Coord, char)>, i: int)
    requires
        0 <= i < s.len(),
        forall|j: int| 0 <= j < s.len() && j != i ==> s[j].0 != s[i].0,
    ensures
        entries_map(s.remove(i)) == entries_map(s).remove(s[i].0),
    decreases i,
{
    if i == 0 {
        assert(s.remove(0) =~= s.skip(1));
        assert forall|j: int| 0 <= j < s.skip(1).len() implies (#[trigger] s.skip(1)[j]).0 != s[0].0 by {
            assert(s.skip(1)[j] == s[j + 1]);
        }
        lemma_entries_dom(s.skip(1), s[0].0);
        assert(entries_map(s.remove(0)) =~= entries_map(s).remove(s[0].0));
    } else {
        assert(s.remove(i).skip(1) =~= s.skip(1).remove(i - 1));
        assert forall|j: int| 0 <= j < s.skip(1).len() && j != i - 1 implies (#[trigger] s.skip(
            1,
        )[j]).0 != s.skip(1)[i - 1].0 by {
            assert(s.skip(1)[j] == s[j + 1]);
            assert(s.skip(1)[i - 1] == s[i]);
        }
        assert(s.skip(1)[i - 1] == s[i]);
        lemma_entries_remove(s.skip(1), i - 1);
        assert(s.remove(i)[0] == s[0]);
        assert(entries_map(s.remove(i)) =~= entries_map(s).remove(s[i].0));
    }
}

proof fn lemma_entries_len(s: Seq<(Coord, char)>)
    requires
        distinct_keys(s),
    ensures
        entries_map(s).dom().finite(),
        entries_map(s).dom().len() == s.len(),
    decreases s.len(),
{
    if s.len() == 0 {
        assert(entries_map(s).dom() =~= Set::<Coord>::empty());
    } else {
        assert forall|i: int, j: int| 0 <= i < j < s.skip(1).len() implies (#[trigger] s.skip(
            1,
        )[i]).0 != (#[trigger] s.skip(1)[j]).0 by {
            assert(s.skip(1)[i] == s[i + 1]);
            assert(s.skip(1)[j] == s[j + 1]);
        }
        lemma_entries_len(s.skip(1));
        lemma_entries_dom(s.skip(1), s[0].0);
        assert forall|j: int| 0 <= j < s.skip(1).len() implies (#[trigger] s.skip(1)[j]).0 != s[0].0 by {
            assert(s.skip(1)[j] == s[j + 1]);
        }
        assert(!entries_map(s.skip(1)).dom().contains(s[0].0));
        assert(entries_map(s).dom() =~= entries_map(s.skip(1)).dom().insert(s[0].0));
    }
}

impl Grid {
    /// Internal invariant: no coordinate occurs twice in the store.
    pub closed spec fn wf(self) -> bool {
        distinct_keys(self.cells@)
    }

    /// An empty grid.
    pub fn new() -> (g: Grid)
        ensures
            g.wf(),
            g@ == Map::<Coord, char>::empty(),
    {
        let g = Grid { cells: Vec::new() };
        proof {
            assert(g.cells@ =~= Seq::<(Coord, char)>::empty());
            assert(g@ =~= Map::<Coord, char>::empty());
        }
        g
    }

    /// Index of the first entry holding `k`, if any.
    fn index_of(&self, k: Coord) -> (r: Option<usize>)
        ensures
            match r {
                Some(i) => 0 <= i < self.cells@.len() && self.cells@[i as int].0 == k
                    && (forall|j: int| 0 <= j < i ==> self.cells@[j].0 != k),
                None => forall|j: int| 0 <= j < self.cells@.len() ==> self.cells@[j].0 != k,
            },
    {
        let n = self.cells.len();
        let mut i: usize = 0;
        while i < n
            invariant
                i <= n,
                n == self.cells@.len(),
                forall|j: int| 0 <= j < i ==> self.cells@[j].0 != k,
            decreases n - i,
        {
            if self.cells[i].0 == k {
                return Some(i);
            }
            i = i + 1;
        }
        None
    }

    /// The character at `k`, if the cell is occupied.
    pub fn get(&self, k: Coord) -> (r: Option<char>)
        ensures
            r == (if self@.contains_key(k) {
                Some(self@[k])
            } else {
                None::<char>
            }),
    {
        match self.index_of(k) {
            Some(i) => {
                proof {
                    lemma_entries_first(self.cells@, i as int);
                }
                Some(self.cells[i].1)
            },
            None => {
                proof {
                    lemma_entries_dom(self.cells@, k);
                }
                None
            },
        }
    }

    /// Put character `v` at `k`, replacing any present entry.
    pub fn insert(&mut self, k: Coord, v: char)
        requires
            old(self).wf(),
        ensures
            final(self).wf(),
            final(self)@ == old(self)@.insert(k, v),
    {
        match self.index_of(k) {
            Some(i) => {
                proof {
                    assert forall|j: int|
                        0 <= j < self.cells@.len() && j != i implies self.cells@[j].0
                        != self.cells@[i as int].0 by {
                        if j < i {
                        } else {
                            assert(distinct_keys(self.cells@));
                        }
                    }
                    lemma_entries_remove(self.cells@, i as int);
                }
                let ghost pre = self.cells@;
                self.cells.remove(i);
                proof {
                    assert forall|a: int, b: int|
                        0 <= a < b < self.cells@.len() implies self.cells@[a].0
                        != self.cells@[b].0 by {
                        assert(self.cells@ == pre.remove(i as int));
                        assert(self.cells@[a] == (if a < i { pre[a] } else { pre[a + 1] }));
                        assert(self.cells@[b] == (if b < i { pre[b] } else { pre[b + 1] }));
                    }
                    assert forall|j: int| 0 <= j < self.cells@.len() implies self.cells@[j].0
                        != k by {
                        assert(self.cells@[j] == (if j < i { pre[j] } else { pre[j + 1] }));
                    }
                    lemma_entries_push(self.cells@, (k, v));
                }
                self.cells.push((k, v));
                proof {
                    assert(final(self)@ =~= old(self)@.insert(k, v));
                    assert forall|a: int, b: int|
                        0 <= a < b < self.cells@.len() implies self.cells@[a].0
                        != self.cells@[b].0 by {
                        assert(distinct_keys(pre.remove(i as int)));
                    }
                }
            },
            None => {
                proof {
                    lemma_entries_push(self.cells@, (k, v));
                }
                self.cells.push((k, v));
            },
        }
    }

    /// Remove the entry at `k`; absence is not an error.
    pub fn remove(&mut self, k: Coord)
        requires
            old(self).wf(),
        ensures
            final(self).wf(),
            final(self)@ == old(self)@.remove(k),
    {
        match self.index_of(k) {
            Some(i) => {
                let ghost pre = self.cells@;
                proof {
                    assert forall|j: int|
                        0 <= j < self.cells@.len() && j != i implies self.cells@[j].0
                        != self.cells@[i as int].0 by {
                        if j < i {
                        } else {
                            assert(distinct_keys(self.cells@));
                        }
                    }
                    lemma_entries_remove(self.cells@, i as int);
                }
                self.cells.remove(i);
                proof {
                    assert forall|a: int, b: int|
                        0 <= a < b < self.cells@.len() implies self.cells@[a].0
                        != self.cells@[b].0 by {
                        assert(self.cells@ == pre.remove(i as int));
                        assert(self.cells@[a] == (if a < i { pre[a] } else { pre[a + 1] }));
                        assert(self.cells@[b] == (if b < i { pre[b] } else { pre[b + 1] }));
                    }
                }
            },
            None => {
                proof {
                    lemma_entries_dom(self.cells@, k);
                    assert(final(self)@ =~= old(self)@.remove(k));
                }
            },
        }
    }

    /// Drop every entry.
    pub fn clear(&mut self)
        ensures
            final(self).wf(),
            final(self)@ == Map::<Coord, char>::empty(),
    {
        self.cells.clear();
        proof {
            assert(self.cells@ =~= Seq::<(Coord, char)>::empty());
            assert(final(self)@ =~= Map::<Coord, char>::empty());
        }
    }

    /// Number of occupied cells.
    pub fn len(&self) -> (n: usize)
        requires
            self.wf(),
        ensures
            n == self@.dom().len(),
    {
        proof {
            lemma_entries_len(self.cells@);
        }
        self.cells.len()
    }

    /// Merge every entry of `other` into `self`; on a shared coordinate
    /// the entry of `other` wins.
    pub fn merge_from(&mut self, other: &Grid)
        requires
            old(self).wf(),
            other.wf(),
        ensures
            final(self).wf(),
            final(self)@ == old(self)@.union_prefer_right(other@),
    {
        let n = other.cells.len();
        let mut i: usize = 0;
        proof {
            assert(other.cells@.take(0) =~= Seq::<(Coord, char)>::empty());
            assert(entries_map(other.cells@.take(0)) =~= Map::<Coord, char>::empty());
            assert(self@ =~= old(self)@.union_prefer_right(entries_map(other.cells@.take(0))));
        }
        while i < n
            invariant
                i <= n,
                n == other.cells@.len(),
                other.wf(),
                self.wf(),
                self@ == old(self)@.union_prefer_right(entries_map(other.cells@.take(i as int))),
            decreases n - i,
        {
            let (k, v) = other.cells[i];
            self.insert(k, v);
            proof {
                let s = other.cells@;
                assert(s.take(i as int + 1) =~= s.take(i as int).push(s[i as int]));
                assert forall|j: int| 0 <= j < s.take(i as int).len() implies (#[trigger] s.take(
                    i as int,
                )[j]).0 != k by {
                    assert(s.take(i as int)[j] == s[j]);
                }
                lemma_entries_push(s.take(i as int), (k, v));
                assert(self@ =~= old(self)@.union_prefer_right(entries_map(s.take(i as int + 1))));
            }
            i = i + 1;
        }
        proof {
            assert(other.cells@.take(n as int) =~= other.cells@);
        }
    }
}

} // verus!
