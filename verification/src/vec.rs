//! The `Vec` source: a parallel iterator that moves the elements out of
//! an owned vector.
use vstd::prelude::*;

use crate::iter::IntoParallelIteratorator;
use crate::iter::ParallelIterator;
use crate::for_each::ForEachConsumer;
use crate::plumbing::Consumer;
use crate::plumbing::Folder;
use crate::plumbing::Producer;
use crate::plumbing::ProducerCallback;
use crate::plumbing::bridge_producer_consumer;

verus! {

impl<T> IntoParallelIteratorator for Vec<T> {
    type Item = T;

    type Iter = IntoIter<T>;

    open spec fn spec_elements(&self) -> Seq<T> {
        self@
    }

    fn into_par_iter(self) -> (r: IntoIter<T>) {
        IntoIter { vec: self }
    }
}

/// A parallel iterator owning the vector whose elements it yields.
pub struct IntoIter<T> {
    pub vec: Vec<T>,
}

impl<T> ParallelIterator for IntoIter<T> {
    type Item = T;

    open spec fn elements(&self) -> Seq<T> {
        self.vec@
    }

    fn len(&self) -> (r: usize) {
        self.vec.len()
    }

    fn drive<C: Consumer<T>>(self, consumer: C, num_threads: usize) -> (r: C::Result) {
        let ghost elems = self.elements();
        let len = self.vec.len();
        let producer = DrainProducer::from_vec(self.vec);
        proof {
            assert forall|i: int|
                0 <= i < producer.elements().len() implies #[trigger] consumer.accepts(
                producer.elements()[i],
            ) by {
                assert(producer.elements()[i] == elems[i]);
                assert(consumer.accepts(elems[i]));
            }
        }
        bridge_producer_consumer(len, producer, consumer, num_threads)
    }

    fn with_producer<CB: ProducerCallback<T>>(self, callback: CB) -> (r: CB::Output) {
        let producer = DrainProducer::from_vec(self.vec);
        callback.callback(producer)
    }

    fn for_each<Op: Fn(T)>(self, op: Op) {
        let ghost elems = self.elements();
        let consumer = ForEachConsumer { op: &op, consumed: Ghost(Seq::empty()) };
        let len = self.vec.len();
        let producer = DrainProducer::from_vec(self.vec);
        proof {
            assert forall|i: int|
                0 <= i < producer.elements().len() implies #[trigger] Consumer::accepts(
                &consumer,
                producer.elements()[i],
            ) by {
                assert(producer.elements()[i] == elems[i]);
                assert(call_requires(op, (elems[i],)));
            }
        }
        bridge_producer_consumer(len, producer, consumer, crate::registry::DEFAULT_NUM_THREADS)
    }
}

/// A producer that owns its backing storage and moves every element out
/// exactly once.
pub struct DrainProducer<T> {
    items: Vec<T>,
}

impl<T> DrainProducer<T> {
    /// The elements still owned, in order.
    pub closed spec fn spec_items(&self) -> Seq<T> {
        self.items@
    }

    /// Takes the vector over as a producer of its elements.
    pub fn from_vec(vec: Vec<T>) -> (r: DrainProducer<T>)
        ensures
            r.spec_items() == vec@,
    {
        DrainProducer { items: vec }
    }

    /// Moves the elements out one by one, sequentially.
    pub fn into_iter(self) -> (r: SliceDrain<T>)
        ensures
            r.spec_remaining() == self.spec_items(),
    {
        SliceDrain { items: self.items }
    }
}

impl<T> Producer for DrainProducer<T> {
    type Item = T;

    open spec fn elements(&self) -> Seq<T> {
        self.spec_items()
    }

    open spec fn min_len_spec(&self) -> usize {
        1
    }

    open spec fn max_len_spec(&self) -> usize {
        usize::MAX
    }

    fn min_len(&self) -> (r: usize) {
        1
    }

    fn max_len(&self) -> (r: usize) {
        usize::MAX
    }

    fn split_at(self, index: usize) -> (r: (Self, Self)) {
        let mut left = self.items;
        let right = left.split_off(index);
        (DrainProducer { items: left }, DrainProducer { items: right })
    }

    fn fold_with<F: Folder<T>>(self, folder: F) -> (r: F) {
        let ghost all = self.elements();
        let ghost folder_at_entry = folder;
        proof {
            assert forall|i: int|
                0 <= i < all.len() implies #[trigger] folder_at_entry.accepts(all[i]) by {
                assert(folder.accepts(self.elements()[i]));
            }
        }
        if folder.full() {
            return folder;
        }
        let mut folder = folder;
        let mut items = self.items;
        while items.len() > 0
            invariant
                folder.wf(),
                !folder_at_entry.full_spec(),
                folder.full_spec() == folder_at_entry.full_spec(),
                items@.len() <= all.len(),
                items@ == all.skip(all.len() - items@.len()),
                folder.consumed() == folder_at_entry.consumed() + all.take(
                    all.len() - items@.len(),
                ),
                forall|t: T| #[trigger] folder.accepts(t) == folder_at_entry.accepts(t),
                forall|res: F::Result, its: Seq<T>|
                    #![trigger folder.models(res, its)]
                    #![trigger folder_at_entry.models(res, its)]
                    folder.models(res, its) == folder_at_entry.models(res, its),
                forall|i: int| 0 <= i < all.len() ==> #[trigger] folder_at_entry.accepts(all[i]),
            decreases items@.len(),
        {
            let ghost done = all.len() - items@.len();
            let item = items.remove(0);
            proof {
                assert(all.skip(done)[0] == all[done]);
                assert(all.take(done).push(all[done]) =~= all.take(done + 1));
                assert(all.skip(done).skip(1) =~= all.skip(done + 1));
            }
            folder = folder.consume(item);
        }
        proof {
            assert(all.take(all.len() as int) =~= all);
        }
        folder
    }
}

/// The sequential drain of a producer's elements: hands each out once,
/// front to back.
pub struct SliceDrain<T> {
    items: Vec<T>,
}

impl<T> SliceDrain<T> {
    /// The elements not yet handed out, in order.
    pub closed spec fn spec_remaining(&self) -> Seq<T> {
        self.items@
    }

    /// The next element, if one is left.
    pub fn next(&mut self) -> (r: Option<T>)
        ensures
            old(self).spec_remaining().len() == 0 ==> r is None && final(self).spec_remaining()
                == old(self).spec_remaining(),
            old(self).spec_remaining().len() > 0 ==> r == Some(old(self).spec_remaining()[0])
                && final(self).spec_remaining() == old(self).spec_remaining().skip(1),
    {
        if self.items.len() == 0 {
            None
        } else {
            Some(self.items.remove(0))
        }
    }

    /// How many elements are left.
    pub fn count(&self) -> (r: usize)
        ensures
            r == self.spec_remaining().len(),
    {
        self.items.len()
    }
}

} // verus!
