//! The list of every drawable object of the scene.
use std::sync::Arc;
use vstd::prelude::*;
use crate::res::cache::share;

verus! {

/// `Arc::ptr_eq`: whether two pointers point to the same allocation. Pointers
/// to one allocation see one value; that is all that is claimed. Which
/// allocation a pointer refers to is an address, which the specifications do
/// not model (two pointers to equal values may or may not share one), so a
/// `false` is left unsaid.
#[verifier::external_body]
fn same_allocation<T>(a: &Arc<T>, b: &Arc<T>) -> (same: bool)
    ensures
        same ==> **a == **b,
{
    Arc::ptr_eq(a, b)
}

/// The items of `items` whose flag in `keep` is set, in their order.
pub open spec fn kept<T>(items: Seq<T>, keep: Seq<bool>) -> Seq<T>
    decreases items.len(),
{
    if items.len() == 0 || keep.len() == 0 {
        Seq::empty()
    } else {
        let rest = kept(items.drop_last(), keep.drop_last());
        if keep.last() {
            rest.push(items.last())
        } else {
            rest
        }
    }
}

/// Every drawable object, each shared behind its own pointer, in the order in
/// which they were added.
pub struct Children<T> {
    drawables: Vec<Arc<T>>,
}

impl<T> View for Children<T> {
    type V = Seq<T>;

    /// The objects, oldest first.
    closed spec fn view(&self) -> Seq<T> {
        self.drawables@.map_values(|d: Arc<T>| *d)
    }
}

impl<T> Children<T> {
    /// No objects.
    pub fn new() -> (children: Self)
        ensures
            children@ == Seq::<T>::empty(),
    {
        Children { drawables: Vec::new() }
    }

    /// Adds an object after every object already there.
    pub fn add(&mut self, item: T)
        ensures
            final(self)@ == old(self)@.push(item),
    {
        self.drawables.push(Arc::new(item));
        assert(self@ =~= old(self)@.push(item));
    }

    /// Whether an object shares its allocation with `item`. The answer rests on
    /// addresses, which the specifications do not model: a `true` means such an
    /// object holds the same value as `item`; a `false` is claimed of every
    /// list holding no object equal to `item`, and left unsaid otherwise.
    pub fn contains_arc(&self, item: &Arc<T>) -> (found: bool)
        ensures
            found ==> exists|i: int| 0 <= i < self@.len() && self@[i] == **item,
    {
        let mut i: usize = 0;
        while i < self.drawables.len()
            invariant
                i <= self.drawables@.len(),
            decreases self.drawables@.len() - i,
        {
            if same_allocation(&self.drawables[i], item) {
                assert(self@[i as int] == **item);
                return true;
            }
            i = i + 1;
        }
        false
    }

    /// The object at `index`, if there is one.
    pub fn get(&self, index: usize) -> (found: Option<Arc<T>>)
        ensures
            match found {
                Some(d) => index < self@.len() && *d == self@[index as int],
                None => index >= self@.len(),
            },
    {
        if index < self.drawables.len() {
            Some(share(&self.drawables[index]))
        } else {
            None
        }
    }

    /// The object at `index`, if there is one, for changing it through its lock.
    pub fn get_mut(&self, index: usize) -> (found: Option<Arc<T>>)
        ensures
            match found {
                Some(d) => index < self@.len() && *d == self@[index as int],
                None => index >= self@.len(),
            },
    {
        self.get(index)
    }

    /// The objects for which `predicate` holds, in their order.
    pub fn filter_each<P: Fn(&T) -> bool>(&self, predicate: P) -> (chosen: Vec<Arc<T>>)
        requires
            forall|i: int| 0 <= i < self@.len() ==> call_requires(predicate, (&self@[i],)),
        ensures
            exists|keep: Seq<bool>|
                #![trigger kept(self@, keep)]
                keep.len() == self@.len() && (forall|i: int|
                    0 <= i < self@.len() ==> call_ensures(predicate, (&self@[i],), keep[i]))
                    && chosen@.map_values(|d: Arc<T>| *d) == kept(self@, keep),
    {
        let mut chosen: Vec<Arc<T>> = Vec::new();
        let ghost mut keep: Seq<bool> = Seq::empty();
        let mut i: usize = 0;
        while i < self.drawables.len()
            invariant
                i <= self.drawables@.len(),
                keep.len() == i,
                forall|j: int| 0 <= j < self@.len() ==> call_requires(predicate, (&self@[j],)),
                forall|j: int| 0 <= j < i ==> call_ensures(predicate, (&self@[j],), keep[j]),
                chosen@.map_values(|d: Arc<T>| *d) == kept(self@.subrange(0, i as int), keep),
            decreases self.drawables@.len() - i,
        {
            let item = &self.drawables[i];
            assert(self@[i as int] == **item);
            let take = predicate(&**item);
            let ghost before = chosen@.map_values(|d: Arc<T>| *d);
            let ghost old_keep = keep;
            proof {
                keep = keep.push(take);
                assert(self@.subrange(0, i + 1).drop_last() =~= self@.subrange(0, i as int));
                assert(keep.drop_last() =~= old_keep);
                assert(self@.subrange(0, i + 1).last() == self@[i as int]);
                assert(kept(self@.subrange(0, i + 1), keep) == if take {
                    kept(self@.subrange(0, i as int), old_keep).push(self@[i as int])
                } else {
                    kept(self@.subrange(0, i as int), old_keep)
                });
            }
            if take {
                chosen.push(share(item));
                assert(chosen@.map_values(|d: Arc<T>| *d) =~= before.push(self@[i as int]));
            } else {
                assert(chosen@.map_values(|d: Arc<T>| *d) =~= before);
            }
            i = i + 1;
        }
        assert(self@.subrange(0, self@.len() as int) =~= self@);
        chosen
    }

    /// The most recently added object, if any.
    pub fn last(&self) -> (found: Option<Arc<T>>)
        ensures
            match found {
                Some(d) => self@.len() > 0 && *d == self@.last(),
                None => self@.len() == 0,
            },
    {
        if self.drawables.len() == 0 {
            None
        } else {
            Some(share(&self.drawables[self.drawables.len() - 1]))
        }
    }

    /// Number of objects.
    pub fn len(&self) -> (n: usize)
        ensures
            n == self@.len(),
    {
        self.drawables.len()
    }

    /// Removes every object.
    pub fn clear(&mut self)
        ensures
            final(self)@ == Seq::<T>::empty(),
    {
        self.drawables.clear();
        assert(self@ =~= Seq::<T>::empty());
    }
}

impl<T> Default for Children<T> {
    fn default() -> (children: Self)
        ensures
            children@ == Seq::<T>::empty(),
    {
        Self::new()
    }
}

} // verus!
