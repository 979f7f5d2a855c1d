//! A set of neighbour soma coordinates.
use vstd::prelude::*;

verus! {

/// The soma coordinate `(x, y, z)` that identifies a neuron.
pub type Coord = (usize, usize, usize);

/// A finite set of coordinates, each held once.
#[derive(Debug)]
pub struct ConnectionSet {
    items: Vec<Coord>,
}

impl View for ConnectionSet {
    type V = Set<Coord>;

    closed spec fn view(&self) -> Set<Coord> {
        self.items@.to_set()
    }
}

impl ConnectionSet {
    #[verifier::type_invariant]
    spec fn distinct(&self) -> bool {
        self.items@.no_duplicates()
    }

    /// The empty set.
    pub fn new() -> (r: ConnectionSet)
        ensures
            r@ == Set::<Coord>::empty(),
    {
        let r = ConnectionSet { items: Vec::new() };
        assert(r.items@ =~= Seq::<Coord>::empty());
        assert(r@ =~= Set::<Coord>::empty());
        r
    }

    /// The number of coordinates held.
    pub fn len(&self) -> (r: usize)
        ensures
            r == self@.len(),
    {
        proof {
            use_type_invariant(self);
            self.items@.unique_seq_to_set();
        }
        self.items.len()
    }

    /// Whether `c` is in the set.
    pub fn contains(&self, c: &Coord) -> (r: bool)
        ensures
            r == self@.contains(*c),
    {
        let mut i: usize = 0;
        while i < self.items.len()
            invariant
                0 <= i <= self.items@.len(),
                forall|j: int| 0 <= j < i ==> self.items@[j] != *c,
            decreases self.items@.len() - i,
        {
            let e = self.items[i];
            if e.0 == c.0 && e.1 == c.1 && e.2 == c.2 {
                proof {
                    assert(self.items@.contains(*c));
                }
                return true;
            }
            i = i + 1;
        }
        proof {
            assert(!self.items@.contains(*c));
        }
        false
    }

    /// The coordinates, in no particular order.
    pub fn to_vec(&self) -> (r: Vec<Coord>)
        ensures
            r@.to_set() == self@,
            r@.no_duplicates(),
    {
        proof {
            use_type_invariant(self);
        }
        copy_items(&self.items)
    }

    /// Adds `c`; nothing changes where it is there already.
    pub fn insert(&mut self, c: Coord)
        ensures
            final(self)@ == old(self)@.insert(c),
    {
        proof {
            use_type_invariant(&*self);
        }
        if !self.contains(&c) {
            let mut items: Vec<Coord> = Vec::new();
            std::mem::swap(&mut items, &mut self.items);
            let ghost before = items@;
            items.push(c);
            proof {
                assert(items@ == before.push(c));
                assert forall|i: int, j: int|
                    0 <= i < j < items@.len() implies items@[i] != items@[j] by {
                    if j == items@.len() - 1 {
                        assert(items@[j] == c);
                        assert(before.contains(items@[i]));
                    }
                }
                assert(items@.to_set() =~= before.to_set().insert(c)) by {
                    assert forall|x: Coord| items@.contains(x) <==> before.contains(x) || x == c by {
                        if before.contains(x) {
                            let k = choose|k: int| 0 <= k < before.len() && before[k] == x;
                            assert(items@[k] == x);
                        }
                        if x == c {
                            assert(items@[items@.len() - 1] == c);
                        }
                    }
                }
            }
            self.items = items;
        } else {
            assert(old(self)@.insert(c) =~= old(self)@);
        }
    }

    /// Removes `c`; nothing changes where it is absent.
    pub fn remove(&mut self, c: &Coord)
        ensures
            final(self)@ == old(self)@.remove(*c),
    {
        proof {
            use_type_invariant(&*self);
        }
        let mut i: usize = 0;
        while i < self.items.len()
            invariant
                0 <= i <= self.items@.len(),
                self.items@ == old(self).items@,
                self.items@.no_duplicates(),
                forall|j: int| 0 <= j < i ==> self.items@[j] != *c,
            decreases self.items@.len() - i,
        {
            let e = self.items[i];
            if e.0 == c.0 && e.1 == c.1 && e.2 == c.2 {
                let mut items: Vec<Coord> = Vec::new();
                std::mem::swap(&mut items, &mut self.items);
                let ghost before = items@;
                items.swap_remove(i);
                proof {
                    lemma_swap_remove_unique(before, items@, i as int);
                }
                self.items = items;
                return;
            }
            i = i + 1;
        }
        proof {
            assert(!self.items@.contains(*c));
            assert(old(self)@.remove(*c) =~= old(self)@);
        }
    }
}

impl Clone for ConnectionSet {
    fn clone(&self) -> (r: Self)
        ensures
            r@ == self@,
    {
        proof {
            use_type_invariant(self);
        }
        ConnectionSet { items: copy_items(&self.items) }
    }
}

fn copy_items(v: &Vec<Coord>) -> (r: Vec<Coord>)
    ensures
        r@ == v@,
{
    let mut r: Vec<Coord> = Vec::new();
    let mut i: usize = 0;
    while i < v.len()
        invariant
            0 <= i <= v@.len(),
            r@ == v@.subrange(0, i as int),
        decreases v@.len() - i,
    {
        r.push(v[i]);
        i = i + 1;
        assert(r@ =~= v@.subrange(0, i as int));
    }
    assert(r@ =~= v@);
    r
}

/// Taking out the element at `i` of a sequence without duplicates, moving the
/// last element into its place, removes exactly that element from its set.
proof fn lemma_swap_remove_unique(before: Seq<Coord>, after: Seq<Coord>, i: int)
    requires
        before.no_duplicates(),
        0 <= i < before.len(),
        after == before.update(i, before.last()).drop_last(),
    ensures
        after.no_duplicates(),
        after.to_set() == before.to_set().remove(before[i]),
{
    let n = before.len();
    assert forall|x: Coord| after.contains(x) <==> (before.contains(x) && x != before[i]) by {
        if after.contains(x) {
            let k = choose|k: int| 0 <= k < after.len() && after[k] == x;
            if k == i {
                assert(x == before[n - 1]);
                assert(before.contains(x));
            } else {
                assert(before[k] == x);
            }
        }
        if before.contains(x) && x != before[i] {
            let k = choose|k: int| 0 <= k < n && before[k] == x;
            if k == n - 1 {
                assert(after[i] == x);
            } else {
                assert(after[k] == x);
            }
        }
    }
    assert(after.to_set() =~= before.to_set().remove(before[i]));
}

} // verus!
