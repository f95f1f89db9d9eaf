//! The executor: what the evaluator hands each batch of requests to.
//!
//! An [`Executor`] wraps the function that runs a batch and keeps a record of
//! every batch it was handed. The evaluator's contract is stated over that
//! record, so it says exactly what reached the function that runs the
//! batches: which batches, in which order, and no others.
use vstd::prelude::*;

use crate::batch::all_ready;
use crate::batch::AbsRequest;

verus! {

/// `run` may be handed any batch of ready requests.
pub open spec fn takes_batches<X: Fn(Vec<AbsRequest>)>(run: X) -> bool {
    forall|reqs: Vec<AbsRequest>| all_ready(reqs@) ==> call_requires(run, (reqs,))
}

/// `after` is `before` with batches added at its end, one of each of the
/// sizes `batches`, in that order and none of them empty.
pub open spec fn grew_by(
    before: Seq<Vec<AbsRequest>>,
    after: Seq<Vec<AbsRequest>>,
    batches: Seq<nat>,
) -> bool {
    &&& after.len() == before.len() + batches.len()
    &&& after.take(before.len() as int) == before
    &&& forall|i: int|
        0 <= i < batches.len() ==> {
            &&& (#[trigger] after.skip(before.len() as int)[i])@.len() == batches[i]
            &&& batches[i] > 0
        }
}

/// A function that runs batches, with the record of the batches it was
/// handed.
pub struct Executor<X> {
    run: X,
    sizes: Vec<usize>,
    handed: Ghost<Seq<Vec<AbsRequest>>>,
}

impl<X: Fn(Vec<AbsRequest>)> Executor<X> {
    /// The function that runs the batches.
    pub closed spec fn runner(&self) -> X {
        self.run
    }

    /// The batches handed to the function so far, first to last.
    pub closed spec fn handed(&self) -> Seq<Vec<AbsRequest>> {
        self.handed@
    }

    /// The sizes that the executor has logged, first to last.
    pub closed spec fn logged(&self) -> Seq<usize> {
        self.sizes@
    }

    /// The record is true: the function was called on every batch of the
    /// record and returned, and the log holds the size of each of them.
    pub open spec fn wf(&self) -> bool {
        &&& takes_batches(self.runner())
        &&& self.logged().len() == self.handed().len()
        &&& forall|i: int|
            0 <= i < self.handed().len() ==> {
                &&& self.logged()[i] == (#[trigger] self.handed()[i])@.len()
                &&& call_ensures(self.runner(), (self.handed()[i],), ())
            }
    }

    /// An executor around `run` that has been handed nothing yet.
    pub fn new(run: X) -> (executor: Executor<X>)
        requires
            takes_batches(run),
        ensures
            executor.wf(),
            executor.runner() == run,
            executor.handed() == Seq::<Vec<AbsRequest>>::empty(),
    {
        Executor { run, sizes: Vec::new(), handed: Ghost(Seq::empty()) }
    }

    /// Hands `reqs` to the function, which is expected to run every request
    /// of the batch before it returns, and adds the batch to the record.
    pub fn hand(&mut self, reqs: Vec<AbsRequest>)
        requires
            old(self).wf(),
            all_ready(reqs@),
        ensures
            final(self).wf(),
            final(self).runner() == old(self).runner(),
            final(self).handed() == old(self).handed().push(reqs),
    {
        self.sizes.push(reqs.len());
        self.handed = Ghost(self.handed@.push(reqs));
        (self.run)(reqs);
    }

    /// The size of each batch that the function was handed, first to last.
    pub fn sizes(&self) -> (sizes: &Vec<usize>)
        ensures
            sizes@ == self.logged(),
    {
        &self.sizes
    }

    /// Ends the executor and gives the size of each batch that the function
    /// was handed, first to last.
    pub fn into_sizes(self) -> (sizes: Vec<usize>)
        ensures
            sizes@ == self.logged(),
    {
        self.sizes
    }
}

} // verus!
