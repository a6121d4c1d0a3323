//! A bounded history: a queue that keeps the most recent entries and
//! forgets the oldest one when a new entry arrives at a full queue.

use std::collections::VecDeque;
use vstd::prelude::*;

verus! {

/// What a history limited to `limit` entries holds after `item` arrives:
/// the last `limit` entries of the extended sequence.
pub open spec fn ring_push<T>(items: Seq<T>, limit: nat, item: T) -> Seq<T> {
    let all = items.push(item);
    if all.len() <= limit {
        all
    } else {
        all.subrange(all.len() - limit, all.len() as int)
    }
}

/// A history never grows beyond its limit, and the newest entry is the
/// last one whenever the limit is not zero.
pub proof fn lemma_ring_push<T>(items: Seq<T>, limit: nat, item: T)
    requires
        items.len() <= limit,
    ensures
        ring_push(items, limit, item).len() <= limit,
        limit > 0 ==> ring_push(items, limit, item).last() == item,
        limit == 0 ==> ring_push(items, limit, item) =~= Seq::<T>::empty(),
        items.len() < limit ==> ring_push(items, limit, item) == items.push(item),
        items.len() == limit && limit > 0 ==> ring_push(items, limit, item)
            =~= items.drop_first().push(item),
{
}

/// Fixed-capacity queue of the most recent entries.
#[derive(Debug)]
pub struct History<T> {
    limit: usize,
    items: VecDeque<T>,
}

impl<T> View for History<T> {
    type V = Seq<T>;

    /// The entries held, oldest first.
    closed spec fn view(&self) -> Seq<T> {
        self.items@
    }
}

impl<T> History<T> {
    #[verifier::type_invariant]
    spec fn within_limit(self) -> bool {
        self.items@.len() <= self.limit
    }

    /// The largest number of entries kept.
    pub closed spec fn limit(&self) -> nat {
        self.limit as nat
    }

    /// An empty history that keeps up to `limit` entries.
    pub fn new(limit: usize) -> (history: Self)
        ensures
            history@ == Seq::<T>::empty(),
            history.limit() == limit,
    {
        History { limit, items: VecDeque::new() }
    }

    /// The limit this history was made with.
    pub fn capacity(&self) -> (limit: usize)
        ensures
            limit == self.limit(),
    {
        self.limit
    }

    /// Number of entries held; never more than the limit.
    pub fn len(&self) -> (n: usize)
        ensures
            n == self@.len(),
            n <= self.limit(),
    {
        proof {
            use_type_invariant(self);
        }
        self.items.len()
    }

    /// Appends `item`, dropping the oldest entry when the history is
    /// full. A history with limit zero stays empty.
    pub fn push(&mut self, item: T)
        ensures
            final(self)@ == ring_push(old(self)@, old(self).limit(), item),
            final(self).limit() == old(self).limit(),
    {
        proof {
            use_type_invariant(&*self);
            lemma_ring_push(self.items@, self.limit as nat, item);
        }
        if self.limit == 0 {
            return ;
        }
        let mut items: VecDeque<T> = VecDeque::new();
        std::mem::swap(&mut self.items, &mut items);
        if items.len() == self.limit {
            let _ = items.pop_front();
            assert(items@ =~= old(self).items@.drop_first());
        }
        items.push_back(item);
        self.items = items;
    }

    /// The entry at position `index`, counted from the oldest, if the
    /// history holds that many.
    pub fn get(&self, index: usize) -> (item: Option<&T>)
        ensures
            item == (if index < self@.len() {
                Some(&self@[index as int])
            } else {
                None
            }),
    {
        if index < self.items.len() {
            Some(&self.items[index])
        } else {
            None
        }
    }
}

impl<T: Copy> History<T> {
    /// The newest entry, if there is one.
    pub fn newest(&self) -> (item: Option<T>)
        ensures
            item == (if self@.len() == 0 {
                None
            } else {
                Some(self@.last())
            }),
    {
        let n = self.items.len();
        if n == 0 {
            None
        } else {
            Some(self.items[n - 1])
        }
    }

    /// A copy of the entries, oldest first.
    pub fn to_vec(&self) -> (entries: Vec<T>)
        ensures
            entries@ == self@,
    {
        let mut entries: Vec<T> = Vec::new();
        let n = self.items.len();
        let mut i: usize = 0;
        while i < n
            invariant
                n == self.items@.len(),
                i <= n,
                entries@ == self.items@.subrange(0, i as int),
            decreases n - i,
        {
            entries.push(self.items[i]);
            i += 1;
            assert(entries@ =~= self.items@.subrange(0, i as int));
        }
        assert(self.items@.subrange(0, n as int) =~= self.items@);
        entries
    }
}

} // verus!
