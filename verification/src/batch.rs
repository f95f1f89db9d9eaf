//! Opaque requests and the parallel executor that runs a batch of them.
use rayon::iter::IntoParallelIterator;
use rayon::iter::ParallelIterator;
use vstd::prelude::*;

verus! {

/// The work behind an opaque request: run once, on whichever worker the
/// executor picks.
pub trait Thunk: Send {
    /// What the thunk needs to hold in order to be run.
    spec fn wf(&self) -> bool;

    /// Does the work and stores what came of it where the waiting fetch
    /// will look for it.
    fn call(self: Box<Self>)
        requires
            self.wf(),
    ;
}

/// A request with its types erased, so that requests of different fetches
/// can share one batch.
pub struct AbsRequest(pub(crate) Box<dyn Thunk>);

impl AbsRequest {
    /// The request is ready to be run.
    pub open(crate) spec fn wf(&self) -> bool {
        self.0.wf()
    }

    /// Runs the request and hands its result to the fetch that waits for it.
    pub fn run(self)
        requires
            self.wf(),
    {
        self.0.call()
    }

    /// Runs every request of the batch and returns when all of them have
    /// finished.
    ///
    /// Calls rayon's `into_par_iter` on the vector and `for_each` on the
    /// parallel iterator it gives, with [`AbsRequest::run`] as the operation.
    /// Nothing is claimed of the call: it returns no value.
    #[verifier::external_body]
    pub(crate) fn run_all(reqs: Vec<AbsRequest>)
        requires
            all_ready(reqs@),
    {
        reqs.into_par_iter().for_each(|req| req.run());
    }
}

/// Every request of the batch is ready to be run.
pub open spec fn all_ready(reqs: Seq<AbsRequest>) -> bool {
    forall|i: int| 0 <= i < reqs.len() ==> (#[trigger] reqs[i]).wf()
}

/// Joins two vectors into one, the shorter appended to the longer.
pub fn vec_merge<T>(a: Vec<T>, b: Vec<T>) -> (merged: Vec<T>)
    ensures
        merged@ == if a@.len() < b@.len() {
            b@ + a@
        } else {
            a@ + b@
        },
{
    let mut a = a;
    let mut b = b;
    if a.len() < b.len() {
        std::mem::swap(&mut a, &mut b);
    }
    a.append(&mut b);
    a
}

} // verus!
