//! The iterator surface: the thinnest veneer over the plumbing.
use vstd::prelude::*;

use crate::plumbing::Consumer;
use crate::plumbing::ProducerCallback;

verus! {

/// A parallel iterator: a splittable source of a known number of items.
pub trait ParallelIterator: Sized {
    type Item;

    /// The items the iterator will yield, in order.
    spec fn elements(&self) -> Seq<Self::Item>;

    fn len(&self) -> (r: usize)
        ensures
            r == self.elements().len(),
    ;

    /// Starts the iterator producing and feeds the items to the
    /// consumer; `num_threads` only sizes the split budget, one split
    /// per thread of the pool the work is meant for.
    fn drive<C: Consumer<Self::Item>>(self, consumer: C, num_threads: usize) -> (r: C::Result)
        requires
            consumer.wf(),
            forall|i: int|
                0 <= i < self.elements().len() ==> #[trigger] consumer.accepts(
                    self.elements()[i],
                ),
        ensures
            consumer.full_spec() ==> consumer.models(r, Seq::<Self::Item>::empty()),
            !consumer.full_spec() ==> consumer.models(r, self.elements()),
    ;

    /// Hands a producer over the iterator's items to the callback.
    fn with_producer<CB: ProducerCallback<Self::Item>>(self, callback: CB) -> (r: CB::Output)
        requires
            callback.accepts_seq(self.elements()),
        ensures
            callback.models(r, self.elements()),
    ;

    /// Calls `op` once on every item of the iterator, in whatever order
    /// the split tree folds its leaves.
    fn for_each<Op: Fn(Self::Item)>(self, op: Op)
        requires
            forall|i: int|
                0 <= i < self.elements().len() ==> #[trigger] call_requires(
                    op,
                    (self.elements()[i],),
                ),
        ensures
            forall|i: int|
                0 <= i < self.elements().len() ==> #[trigger] call_ensures(
                    op,
                    (self.elements()[i],),
                    (),
                ),
    ;
}

/// Turns an owning collection into a parallel iterator over its items.
pub trait IntoParallelIteratorator {
    type Item;

    type Iter: ParallelIterator<Item = Self::Item>;

    /// The items the iterator will yield, in order.
    spec fn spec_elements(&self) -> Seq<Self::Item>;

    fn into_par_iter(self) -> (r: Self::Iter)
        ensures
            r.elements() == self.spec_elements(),
    ;
}

} // verus!
