//! The producer/consumer plumbing and the recursive split driver.
//!
//! A producer hands out a sequence of items and can split at an index; a
//! consumer folds a stream of items into a result, splitting in mirror
//! image with a reducer that merges the two halves' results. The bridge
//! drives a producer into a consumer by recursive splitting, and its
//! contract is the library's central claim: the result models exactly
//! the producer's element sequence — every element reaches a leaf fold
//! exactly once, however the split tree comes out.
use vstd::prelude::*;

use crate::iter::ParallelIterator;

verus! {

/// Merges the results of the two halves of a split.
pub trait Reducer<R>: Sized {
    /// What the reducer needs of itself to run.
    spec fn wf(&self) -> bool;

    /// Which merged value may come out of the two halves' results.
    spec fn reduces(&self, left: R, right: R, merged: R) -> bool;

    fn reduce(self, left: R, right: R) -> (r: R)
        requires
            self.wf(),
        ensures
            self.reduces(left, right, r),
    ;
}

/// The incremental state of a consumer absorbing a stream of items.
pub trait Folder<Item>: Sized {
    type Result;

    /// What the folder needs of itself to run.
    spec fn wf(&self) -> bool;

    /// The items the folder has absorbed so far.
    spec fn consumed(&self) -> Seq<Item>;

    /// Whether the folder declines further items; fixed across
    /// consumption (a property of the consumer, not of its progress).
    spec fn full_spec(&self) -> bool;

    /// Which items the folder is prepared to absorb.
    spec fn accepts(&self, item: Item) -> bool;

    /// Which final value models having absorbed `items`.
    spec fn models(&self, result: Self::Result, items: Seq<Item>) -> bool;

    /// Absorbs one item.
    fn consume(self, item: Item) -> (r: Self)
        requires
            self.wf(),
            !self.full_spec(),
            self.accepts(item),
        ensures
            r.wf(),
            r.consumed() == self.consumed().push(item),
            r.full_spec() == self.full_spec(),
            forall|t: Item| #[trigger] r.accepts(t) == self.accepts(t),
            forall|res: Self::Result, items: Seq<Item>|
                #![trigger r.models(res, items)]
                #![trigger self.models(res, items)]
                r.models(res, items) == self.models(res, items),
    ;

    /// Finishes the fold: the result models exactly what was absorbed.
    fn complete(self) -> (r: Self::Result)
        requires
            self.wf(),
        ensures
            self.models(r, self.consumed()),
    ;

    fn full(&self) -> (r: bool)
        ensures
            r == self.full_spec(),
    ;
}

/// Folds a stream into a result and splits in mirror image of the
/// producer.
pub trait Consumer<Item>: Sized {
    type Folder: Folder<Item, Result = Self::Result>;

    type Reducer: Reducer<Self::Result>;

    type Result;

    /// What the consumer needs of itself to run.
    spec fn wf(&self) -> bool;

    /// Whether the consumer declines all items and short-circuits.
    spec fn full_spec(&self) -> bool;

    /// Which items the consumer is prepared to absorb.
    spec fn accepts(&self, item: Item) -> bool;

    /// Which final value models having consumed `items`.
    spec fn models(&self, result: Self::Result, items: Seq<Item>) -> bool;

    fn full(&self) -> (r: bool)
        ensures
            r == self.full_spec(),
    ;

    /// Splits into the consumers of the two halves and the reducer of
    /// their results: whatever the halves' results model, the merged
    /// value models the concatenation.
    fn split_at(self, index: usize) -> (r: (Self, Self, Self::Reducer))
        requires
            self.wf(),
        ensures
            r.0.wf(),
            r.1.wf(),
            r.2.wf(),
            r.0.full_spec() == self.full_spec(),
            r.1.full_spec() == self.full_spec(),
            forall|t: Item| #[trigger] r.0.accepts(t) == self.accepts(t),
            forall|t: Item| #[trigger] r.1.accepts(t) == self.accepts(t),
            forall|lr: Self::Result, rr: Self::Result, merged: Self::Result, li: Seq<Item>, ri: Seq<Item>|
                #![trigger r.0.models(lr, li), r.1.models(rr, ri), r.2.reduces(lr, rr, merged)]
                r.0.models(lr, li) && r.1.models(rr, ri) && r.2.reduces(lr, rr, merged)
                    ==> self.models(merged, li + ri),
    ;

    /// Begins folding: a fresh folder that has absorbed nothing and
    /// whose models are the consumer's.
    fn into_folder(self) -> (r: Self::Folder)
        requires
            self.wf(),
        ensures
            r.wf(),
            r.consumed() == Seq::<Item>::empty(),
            r.full_spec() == self.full_spec(),
            forall|t: Item| #[trigger] r.accepts(t) == self.accepts(t),
            forall|res: Self::Result, items: Seq<Item>|
                #![trigger r.models(res, items)]
                r.models(res, items) ==> self.models(res, items),
    ;
}

/// Produces a sequence of items, splittable at an index.
pub trait Producer: Sized {
    type Item;

    /// The items the producer will hand out, in order.
    spec fn elements(&self) -> Seq<Self::Item>;

    /// The least leaf size the producer asks for.
    spec fn min_len_spec(&self) -> usize;

    /// The largest leaf size the producer allows.
    spec fn max_len_spec(&self) -> usize;

    fn min_len(&self) -> (r: usize)
        ensures
            r == self.min_len_spec(),
    ;

    fn max_len(&self) -> (r: usize)
        ensures
            r == self.max_len_spec(),
    ;

    /// Splits into the producers of `elements[..index]` and
    /// `elements[index..]`: a split preserves total element identity.
    fn split_at(self, index: usize) -> (r: (Self, Self))
        requires
            index <= self.elements().len(),
        ensures
            r.0.elements() == self.elements().take(index as int),
            r.1.elements() == self.elements().skip(index as int),
    ;

    /// Feeds every element, in order, into the folder; a full folder is
    /// handed back untouched.
    fn fold_with<F: Folder<Self::Item>>(self, folder: F) -> (r: F)
        requires
            folder.wf(),
            forall|i: int|
                0 <= i < self.elements().len() ==> #[trigger] folder.accepts(self.elements()[i]),
        ensures
            r.wf(),
            folder.full_spec() ==> r == folder,
            !folder.full_spec() ==> r.consumed() == folder.consumed() + self.elements(),
            !folder.full_spec() ==> (forall|res: F::Result, items: Seq<Self::Item>|
                #![trigger r.models(res, items)]
                #![trigger folder.models(res, items)]
                r.models(res, items) == folder.models(res, items)),
    ;
}

/// Receives the producer a parallel iterator hands out and drives it.
pub trait ProducerCallback<T>: Sized {
    type Output;

    /// Which element sequences the callback is prepared to drive.
    spec fn accepts_seq(&self, items: Seq<T>) -> bool;

    /// Which output models having driven `items`.
    spec fn models(&self, output: Self::Output, items: Seq<T>) -> bool;

    fn callback<P: Producer<Item = T>>(self, producer: P) -> (r: Self::Output)
        requires
            self.accepts_seq(producer.elements()),
        ensures
            self.models(r, producer.elements()),
    ;
}

pub open spec fn spec_max(a: usize, b: usize) -> usize {
    if a > b {
        a
    } else {
        b
    }
}

/// The split budget: how many more times an unstolen task divides.
#[derive(Clone, Copy)]
pub struct Splitter {
    pub splits: usize,
}

/// Whether the budget lets a task split: a stolen task always may.
pub open spec fn spec_split_allowed(s: Splitter, stolen: bool) -> bool {
    stolen || s.splits > 0
}

/// The budget after an allowed split: halved, but a stolen task resets
/// to the thread count, so a migrated task keeps subdividing.
pub open spec fn spec_split_step(s: Splitter, stolen: bool, num_threads: usize) -> Splitter {
    if stolen {
        Splitter { splits: spec_max(num_threads, s.splits / 2) }
    } else {
        Splitter { splits: s.splits / 2 }
    }
}

impl Splitter {
    /// A fresh budget of one split per thread of the pool.
    pub fn new(num_threads: usize) -> (r: Splitter)
        ensures
            r.splits == num_threads,
    {
        Splitter { splits: num_threads }
    }

    /// Spends one split of the budget, if there is one or the task was
    /// stolen.
    pub fn try_split(&mut self, stolen: bool, num_threads: usize) -> (r: bool)
        ensures
            r == spec_split_allowed(*old(self), stolen),
            r ==> *final(self) == spec_split_step(*old(self), stolen, num_threads),
            !r ==> *final(self) == *old(self),
    {
        let splits = self.splits;

        if stolen {
            // A migrated task resumes with a budget of one split per
            // thread, unless more remained anyway.
            let halved = self.splits / 2;
            self.splits = if num_threads > halved {
                num_threads
            } else {
                halved
            };
            true
        } else if splits > 0 {
            self.splits = self.splits / 2;
            true
        } else {
            false
        }
    }
}

/// The split budget bounded below by a leaf length: a task also stops
/// splitting once a half would fall under the least leaf size.
#[derive(Clone, Copy)]
pub struct LengthSplitter {
    pub inner: Splitter,
    pub min: usize,
}

impl LengthSplitter {
    /// A budget for a task of `len` items over a pool of `num_threads`,
    /// with the producer's leaf bounds `min` and `max`: at least one
    /// split per thread, more if the largest allowed leaf asks for them,
    /// and a least leaf size of at least one item.
    pub fn new(min: usize, max: usize, len: usize, num_threads: usize) -> (r: LengthSplitter)
        ensures
            r.min == spec_max(min, 1),
            r.inner.splits == spec_max(num_threads, len / spec_max(max, 1)),
    {
        let mut splitter = LengthSplitter {
            inner: Splitter::new(num_threads),
            min: if min > 1 {
                min
            } else {
                1
            },
        };

        let min_splits = len / (if max > 1 {
            max
        } else {
            1
        });

        if min_splits > splitter.inner.splits {
            splitter.inner.splits = min_splits;
        }

        splitter
    }

    /// Spends one split, if the budget allows it and both halves of a
    /// task of `len` items stay at or above the least leaf size.
    pub fn try_split(&mut self, len: usize, stolen: bool, num_threads: usize) -> (r: bool)
        ensures
            final(self).min == old(self).min,
            r == (len / 2 >= old(self).min && spec_split_allowed(old(self).inner, stolen)),
            r ==> final(self).inner == spec_split_step(old(self).inner, stolen, num_threads),
            !r ==> final(self).inner == old(self).inner,
    {
        if len / 2 >= self.min {
            self.inner.try_split(stolen, num_threads)
        } else {
            false
        }
    }
}

/// A task too short for two leaves never splits: whenever `len` is under
/// twice the least leaf size — so in particular for a single item, and
/// whenever the least leaf size equals the whole length — the length
/// rule refuses the split, whatever the budget and whether the task was
/// stolen, and the whole input folds in one leaf.
pub proof fn lemma_leaf_refuses_split(s: LengthSplitter, len: usize, stolen: bool)
    requires
        s.min >= 1,
        len < 2 * s.min,
    ensures
        len / 2 < s.min,
        !(len / 2 >= s.min && spec_split_allowed(s.inner, stolen)),
{
}

/// Drives a parallel iterator into a consumer; `num_threads` only sizes
/// the split budget, one split per thread of the pool the work is meant
/// for.
///
/// The contract is the plumbing's central claim: unless the consumer
/// short-circuits, the result models exactly the iterator's element
/// sequence — every element is consumed once across all leaves of the
/// split tree, whatever shape the tree takes; a short-circuiting
/// consumer completes on the empty sequence instead.
pub fn bridge<Iter, C>(pi: Iter, consumer: C, num_threads: usize) -> (r: C::Result) where
    Iter: ParallelIterator,
    C: Consumer<Iter::Item>,

    requires
        consumer.wf(),
        forall|i: int|
            0 <= i < pi.elements().len() ==> #[trigger] consumer.accepts(pi.elements()[i]),
    ensures
        consumer.full_spec() ==> consumer.models(r, Seq::<Iter::Item>::empty()),
        !consumer.full_spec() ==> consumer.models(r, pi.elements()),
{
    let len = pi.len();
    pi.with_producer(BridgeCallback { len, consumer, num_threads })
}

/// The callback `bridge` hands to the iterator: it drives the producer
/// it receives into the stored consumer.
struct BridgeCallback<C> {
    len: usize,
    consumer: C,
    num_threads: usize,
}

impl<C, I> ProducerCallback<I> for BridgeCallback<C> where C: Consumer<I> {
    type Output = C::Result;

    closed spec fn accepts_seq(&self, items: Seq<I>) -> bool {
        self.consumer.wf() && items.len() == self.len && forall|i: int|
            0 <= i < items.len() ==> #[trigger] self.consumer.accepts(items[i])
    }

    closed spec fn models(&self, output: Self::Output, items: Seq<I>) -> bool {
        if self.consumer.full_spec() {
            self.consumer.models(output, Seq::<I>::empty())
        } else {
            self.consumer.models(output, items)
        }
    }

    fn callback<P: Producer<Item = I>>(self, producer: P) -> (r: Self::Output) {
        bridge_producer_consumer(self.len, producer, self.consumer, self.num_threads)
    }
}

/// Drives a producer of `len` items into a consumer: the entry into the
/// recursive split driver, whose budget is sized to `num_threads`.
pub fn bridge_producer_consumer<P, C>(len: usize, producer: P, consumer: C, num_threads: usize) -> (r:
    C::Result) where P: Producer, C: Consumer<P::Item>
    requires
        consumer.wf(),
        len == producer.elements().len(),
        forall|i: int|
            0 <= i < producer.elements().len() ==> #[trigger] consumer.accepts(
                producer.elements()[i],
            ),
    ensures
        consumer.full_spec() ==> consumer.models(r, Seq::<P::Item>::empty()),
        !consumer.full_spec() ==> consumer.models(r, producer.elements()),
{
    let splitter = LengthSplitter::new(producer.min_len(), producer.max_len(), len, num_threads);
    bridge_helper(len, false, splitter, producer, consumer, num_threads)

}

/// One node of the split tree: a full consumer completes empty; a task
/// the splitter lets divide splits both sides at the midpoint and merges
/// through the reducer; anything else folds sequentially in one leaf.
fn bridge_helper<P, C>(
    len: usize,
    migrated: bool,
    splitter: LengthSplitter,
    producer: P,
    consumer: C,
    num_threads: usize,
) -> (r: C::Result) where P: Producer, C: Consumer<P::Item>
    requires
        consumer.wf(),
        splitter.min >= 1,
        len == producer.elements().len(),
        forall|i: int|
            0 <= i < producer.elements().len() ==> #[trigger] consumer.accepts(
                producer.elements()[i],
            ),
    ensures
        consumer.full_spec() ==> consumer.models(r, Seq::<P::Item>::empty()),
        !consumer.full_spec() ==> consumer.models(r, producer.elements()),
    decreases len,
{
    let ghost all_elements = producer.elements();
    let mut splitter = splitter;
    if consumer.full() {
        consumer.into_folder().complete()
    } else if splitter.try_split(len, migrated, num_threads) {
        let mid = len / 2;
        let (left_producer, right_producer) = producer.split_at(mid);
        let (left_consumer, right_consumer, reducer) = consumer.split_at(mid);
        let left_result = bridge_helper(
            mid,
            false,
            splitter,
            left_producer,
            left_consumer,
            num_threads,
        );
        let right_result = bridge_helper(
            len - mid,
            false,
            splitter,
            right_producer,
            right_consumer,
            num_threads,
        );
        proof {
            assert(all_elements.take(mid as int) + all_elements.skip(mid as int)
                =~= all_elements);
        }
        reducer.reduce(left_result, right_result)
    } else {
        producer.fold_with(consumer.into_folder()).complete()
    }
}

} // verus!
