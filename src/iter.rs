use std::collections::VecDeque;

use vstd::prelude::*;

use crate::path::KeyPathIndexable;

verus! {

/// A lazy projection of a sequence of containers through one path: each call of `next`
/// projects exactly one more item, in order, and nothing is projected ahead of that.
pub struct KeyPathMap<'a, C, K> {
    items: &'a [C],
    pos: usize,
    kp: K,
}

impl<'a, C, K: Copy + 'static> KeyPathMap<'a, C, K> where C: KeyPathIndexable<K> {
    /// The containers being walked.
    pub closed spec fn items(&self) -> Seq<C> {
        self.items@
    }

    /// How many items have been projected so far.
    pub closed spec fn consumed(&self) -> nat {
        self.pos as nat
    }

    /// A walk over `items` that has projected nothing yet.
    pub fn new(items: &'a [C], kp: K) -> (r: Self)
        ensures
            r.items() == items@,
            r.consumed() == 0,
    {
        KeyPathMap { items, pos: 0, kp }
    }

    /// How many items have been projected so far.
    pub fn position(&self) -> (r: usize)
        ensures
            r == self.consumed(),
    {
        self.pos
    }

    /// Projects the next item, or returns `None` once every item has been projected.
    pub fn next(&mut self) -> (r: Option<&'a <C as KeyPathIndexable<K>>::Output>)
        requires
            old(self).consumed() <= old(self).items().len(),
            old(self).consumed() < old(self).items().len() ==> <C as KeyPathIndexable<
                K,
            >>::kp_valid(&old(self).items()[old(self).consumed() as int]),
        ensures
            final(self).items() == old(self).items(),
            final(self).consumed() <= final(self).items().len(),
            old(self).consumed() < old(self).items().len() ==> {
                &&& final(self).consumed() == old(self).consumed() + 1
                &&& r matches Some(v) && *v == <C as KeyPathIndexable<K>>::kp_get(
                    &old(self).items()[old(self).consumed() as int],
                )
            },
            old(self).consumed() == old(self).items().len() ==> {
                &&& final(self).consumed() == old(self).consumed()
                &&& r is None
            },
    {
        if self.pos < self.items.len() {
            let item = &self.items[self.pos];
            self.pos = self.pos + 1;
            Some(<C as KeyPathIndexable<K>>::idx_ref(item, self.kp))
        } else {
            None
        }
    }
}

/// A lazy projection, by value, of a sequence of owned containers through one path: each call
/// of `next` takes the first remaining container and projects it, and nothing else.
pub struct KeyPathIntoMap<C, K> {
    rest: VecDeque<C>,
    kp: K,
}

impl<C, K: Copy> KeyPathIntoMap<C, K> where C: KeyPathIndexable<K> {
    /// The containers not yet taken, in order.
    pub closed spec fn rest(&self) -> Seq<C> {
        self.rest@
    }

    /// A walk that will take the items of `items` in order, and has taken none yet.
    pub fn new(items: Vec<C>, kp: K) -> (r: Self)
        ensures
            r.rest() == items@,
    {
        let mut items = items;
        let ghost all = items@;
        let mut rest: VecDeque<C> = VecDeque::new();
        while items.len() > 0
            invariant
                items@ + rest@ == all,
            decreases items.len(),
        {
            let ghost before = items@;
            let ghost rest_before = rest@;
            match items.pop() {
                Some(x) => {
                    rest.push_front(x);
                    proof {
                        assert(before == items@.push(x));
                        assert(items@ + rest@ =~= before + rest_before);
                    }
                },
                None => {},
            }
        }
        proof {
            assert(items@ + rest@ == rest@);
        }
        KeyPathIntoMap { rest, kp }
    }

    /// How many containers are left to project.
    pub fn remaining(&self) -> (r: usize)
        ensures
            r == self.rest().len(),
    {
        self.rest.len()
    }

    /// Takes the next container and projects it, or returns `None` once none is left.
    pub fn next(&mut self) -> (r: Option<<C as KeyPathIndexable<K>>::Output>)
        requires
            old(self).rest().len() > 0 ==> <C as KeyPathIndexable<K>>::kp_valid(
                &old(self).rest()[0],
            ),
        ensures
            old(self).rest().len() > 0 ==> {
                &&& final(self).rest() == old(self).rest().drop_first()
                &&& r == Some(<C as KeyPathIndexable<K>>::kp_get(&old(self).rest()[0]))
            },
            old(self).rest().len() == 0 ==> {
                &&& final(self).rest() == old(self).rest()
                &&& r is None
            },
    {
        match self.rest.pop_front() {
            Some(item) => Some(<C as KeyPathIndexable<K>>::idx(item, self.kp)),
            None => None,
        }
    }
}

/// Sequences whose items can be projected, one by one and on demand, through a path.
pub trait MapKeyPath<C>: Sized {
    spec fn kp_items(&self) -> Seq<C>;

    /// A lazy walk of the items, each projected through `kp` when it is reached.
    fn map_kp<K: Copy + 'static>(&self, kp: K) -> (r: KeyPathMap<'_, C, K>) where
        C: KeyPathIndexable<K>,

        ensures
            r.items() == self.kp_items(),
            r.consumed() == 0,
    ;

    /// A lazy walk that takes the items one by one, each projected by value through `kp` when
    /// it is reached.
    fn into_map_kp<K: Copy>(self, kp: K) -> (r: KeyPathIntoMap<C, K>) where
        C: KeyPathIndexable<K>,

        ensures
            r.rest() == self.kp_items(),
    ;
}

impl<C> MapKeyPath<C> for Vec<C> {
    open spec fn kp_items(&self) -> Seq<C> {
        self@
    }

    fn map_kp<K: Copy + 'static>(&self, kp: K) -> (r: KeyPathMap<'_, C, K>) where
        C: KeyPathIndexable<K>,
     {
        KeyPathMap::new(self.as_slice(), kp)
    }

    fn into_map_kp<K: Copy>(self, kp: K) -> (r: KeyPathIntoMap<C, K>) where
        C: KeyPathIndexable<K>,
     {
        KeyPathIntoMap::new(self, kp)
    }
}

} // verus!
