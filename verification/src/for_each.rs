//! The `for_each` sink: a consumer that applies one operation to every
//! item and keeps nothing.
use vstd::prelude::*;

use crate::iter::ParallelIterator;
use crate::noop::NoopReducer;
use crate::plumbing::Consumer;
use crate::plumbing::Folder;
use crate::registry::DEFAULT_NUM_THREADS;

verus! {

/// Whether `op` is known to have been called once on every item of
/// `items`, each call meeting `op`'s own contract.
pub open spec fn all_called<F, T>(op: F, items: Seq<T>) -> bool where F: Fn(T) {
    forall|i: int| 0 <= i < items.len() ==> #[trigger] call_ensures(op, (items[i],), ())
}

proof fn lemma_all_called_concat<F, T>(op: F, left: Seq<T>, right: Seq<T>) where F: Fn(T)
    requires
        all_called(op, left),
        all_called(op, right),
    ensures
        all_called(op, left + right),
{
    assert forall|i: int| 0 <= i < (left + right).len() implies #[trigger] call_ensures(
        op,
        ((left + right)[i],),
        (),
    ) by {
        if i < left.len() {
            assert((left + right)[i] == left[i]);
        } else {
            assert((left + right)[i] == right[i - left.len()]);
        }
    }
}

/// Calls `op` once per item of the iterator, across the leaves of the
/// split tree. On return, `op` has been invoked once on every element.
/// The split budget is sized to the default pool, since the library
/// itself holds no registry of the running one.
pub fn for_each<Iter, F, T>(pi: Iter, op: &F) where
    Iter: ParallelIterator<Item = T>,
    F: Fn(T),

    requires
        forall|i: int|
            0 <= i < pi.elements().len() ==> #[trigger] call_requires(*op, (pi.elements()[i],)),
    ensures
        all_called(*op, pi.elements()),
{
    let consumer = ForEachConsumer { op, consumed: Ghost(Seq::empty()) };
    pi.drive(consumer, DEFAULT_NUM_THREADS)
}

/// The consumer behind `for_each`: it applies the operation to each item
/// and tracks, in ghost state, which items it has been applied to.
pub struct ForEachConsumer<'f, F, T> {
    pub op: &'f F,
    pub consumed: Ghost<Seq<T>>,
}

impl<'f, F, T> ForEachConsumer<'f, F, T> where F: Fn(T) {
    /// The left half of a split: the same operation, a fresh fold.
    pub fn split_off_left(&self) -> (r: Self)
        ensures
            r.op == self.op,
            r.consumed@ == Seq::<T>::empty(),
    {
        ForEachConsumer { op: self.op, consumed: Ghost(Seq::empty()) }
    }
}

impl<'f, F, T> Consumer<T> for ForEachConsumer<'f, F, T> where F: Fn(T) {
    type Folder = ForEachConsumer<'f, F, T>;

    type Reducer = NoopReducer;

    type Result = ();

    open spec fn wf(&self) -> bool {
        true
    }

    open spec fn full_spec(&self) -> bool {
        false
    }

    open spec fn accepts(&self, item: T) -> bool {
        call_requires(*self.op, (item,))
    }

    open spec fn models(&self, result: (), items: Seq<T>) -> bool {
        all_called(*self.op, items)
    }

    fn full(&self) -> (r: bool) {
        false
    }

    fn split_at(self, _index: usize) -> (r: (Self, Self, NoopReducer)) {
        proof {
            assert forall|li: Seq<T>, ri: Seq<T>|
                #![trigger all_called(*self.op, li), all_called(*self.op, ri)]
                all_called(*self.op, li) && all_called(*self.op, ri) implies all_called(
                *self.op,
                li + ri,
            ) by {
                lemma_all_called_concat(*self.op, li, ri);
            }
        }
        (self.split_off_left(), self, NoopReducer)
    }

    fn into_folder(self) -> (r: Self) {
        ForEachConsumer { op: self.op, consumed: Ghost(Seq::empty()) }
    }
}

impl<'f, F, T> Folder<T> for ForEachConsumer<'f, F, T> where F: Fn(T) {
    type Result = ();

    /// The operation has met its contract on every item absorbed so far.
    open spec fn wf(&self) -> bool {
        all_called(*self.op, self.consumed@)
    }

    open spec fn consumed(&self) -> Seq<T> {
        self.consumed@
    }

    open spec fn full_spec(&self) -> bool {
        false
    }

    open spec fn accepts(&self, item: T) -> bool {
        call_requires(*self.op, (item,))
    }

    open spec fn models(&self, result: (), items: Seq<T>) -> bool {
        all_called(*self.op, items)
    }

    fn consume(self, item: T) -> (r: Self) {
        let ghost prior = self.consumed@;
        (self.op)(item);
        ForEachConsumer { op: self.op, consumed: Ghost(prior.push(item)) }
    }

    fn complete(self) -> (r: ()) {
    }

    fn full(&self) -> (r: bool) {
        false
    }
}

} // verus!
