//! The fetch value, its constructors and its evaluator.
use std::sync::Arc;
use vstd::prelude::*;
use vstd::std_specs::convert::FromSpec;

use crate::batch::all_ready;
use crate::batch::AbsRequest;
use crate::calls::determined0;
use crate::calls::result_of0;
use crate::cell::share;
use crate::cell::Job;
use crate::cell::StatusCell;
use crate::executor::grew_by;
use crate::executor::Executor;
use crate::request::Impossible;
use crate::request::Request;
use crate::trace::Trace;

verus! {

/// One step of a fetch: its end, or the requests it has to wait for. A fetch
/// that blocks keeps what is left of itself: it is its own continuation, to
/// be stepped again once the requests have run.
pub enum ReqResult<T, E> {
    /// The fetch ended with a value.
    Done(T),
    /// The fetch waits for these requests, of which there is at least one.
    Blocked(Vec<AbsRequest>),
    /// The fetch ended with an error.
    Throw(E),
}

impl<T, E> ReqResult<T, E> {
    /// The step is the first step of a fetch whose trace is `trace`.
    pub open spec fn begins(self, trace: Trace<T, E>) -> bool {
        match self {
            ReqResult::Done(a) => trace.batches.len() == 0 && trace.outcome == Ok::<T, E>(a),
            ReqResult::Throw(e) => trace.batches.len() == 0 && trace.outcome == Err::<T, E>(e),
            ReqResult::Blocked(reqs) => {
                &&& reqs@.len() > 0
                &&& all_ready(reqs@)
                &&& trace.batches.len() > 0
                &&& trace.batches[0] == reqs@.len()
            },
        }
    }
}

/// The worker pool was handed `reqs` and has returned.
pub closed spec fn pool_ran(reqs: Vec<AbsRequest>) -> bool {
    call_ensures(AbsRequest::run_all, (reqs,), ())
}

/// A suspended computation that can be advanced one step at a time.
///
/// A step either ends the computation or hands out the requests it waits
/// for; in the second case the computation itself becomes its continuation.
pub trait Suspended<T, E> {
    /// The computation can be stepped.
    spec fn wf(&self) -> bool;

    /// What stepping the computation to its end comes to.
    spec fn view(&self) -> Trace<T, E>;

    /// Advances the computation by one step.
    fn step(&mut self) -> (r: ReqResult<T, E>)
        requires
            old(self).wf(),
        ensures
            r.begins(old(self)@),
            r is Blocked ==> final(self).wf() && final(self)@ =~= old(self)@.rest(),
    ;
}

/// A suspended computation that yields a value of type `T`, a batch of
/// requests to wait for, or an error of type `E`.
#[verifier::reject_recursive_types(T)]
#[verifier::reject_recursive_types(E)]
pub struct Fetch<T, E = Impossible>(pub(crate) Box<dyn Suspended<T, E>>);

/// A fetch that holds its value.
struct Ready<T> {
    value: Option<T>,
}

impl<T, E> Suspended<T, E> for Ready<T> {
    closed spec fn wf(&self) -> bool {
        self.value is Some
    }

    closed spec fn view(&self) -> Trace<T, E> {
        Trace::pure(self.value->0)
    }

    fn step(&mut self) -> (r: ReqResult<T, E>) {
        ReqResult::Done(self.value.take().unwrap())
    }
}

/// A fetch that computes its value when it is stepped.
struct Deferred<F> {
    f: Option<F>,
}

impl<T, E, F: FnOnce() -> T> Suspended<T, E> for Deferred<F> {
    closed spec fn wf(&self) -> bool {
        self.f is Some && determined0(self.f->0)
    }

    closed spec fn view(&self) -> Trace<T, E> {
        Trace::pure(result_of0(self.f->0))
    }

    fn step(&mut self) -> (r: ReqResult<T, E>) {
        let f = self.f.take().unwrap();
        ReqResult::Done(f())
    }
}

/// A fetch that holds its error.
struct Thrown<E> {
    error: Option<E>,
}

impl<T, E> Suspended<T, E> for Thrown<E> {
    closed spec fn wf(&self) -> bool {
        self.error is Some
    }

    closed spec fn view(&self) -> Trace<T, E> {
        Trace::throw(self.error->0)
    }

    fn step(&mut self) -> (r: ReqResult<T, E>) {
        ReqResult::Throw(self.error.take().unwrap())
    }
}

/// A fetch made of one request: first the request itself, then, once it has
/// been handed out, the reading end of its status cell.
#[verifier::reject_recursive_types(R)]
#[verifier::reject_recursive_types(T)]
#[verifier::reject_recursive_types(E)]
struct Single<R, T, E> {
    request: Option<R>,
    cell: Option<Arc<StatusCell<R, T, E>>>,
    expected: Ghost<Result<T, E>>,
}

impl<R, T, E> Suspended<T, E> for Single<R, T, E> where
    R: Request<T, E> + Send + Sync + 'static,
    T: Send + Sync + 'static,
    E: Send + Sync + 'static,
 {
    closed spec fn wf(&self) -> bool {
        match self.request {
            Some(_) => true,
            None => self.cell is Some && (self.cell->0).guards(self.expected@),
        }
    }

    closed spec fn view(&self) -> Trace<T, E> {
        match self.request {
            Some(request) => Trace::request(request.outcome()),
            None => Trace { batches: Seq::empty(), outcome: self.expected@ },
        }
    }

    fn step(&mut self) -> (r: ReqResult<T, E>) {
        match self.request.take() {
            Some(request) => {
                let expected = Ghost(request.outcome());
                let cell = Arc::new(StatusCell::new(request));
                let job = Job { cell: share(&cell), expected };
                self.cell = Some(cell);
                self.expected = expected;
                let mut reqs: Vec<AbsRequest> = Vec::new();
                reqs.push(job.erase());
                ReqResult::Blocked(reqs)
            },
            None => {
                let cell = self.cell.take().unwrap();
                match cell.take() {
                    Ok(v) => ReqResult::Done(v),
                    Err(e) => ReqResult::Throw(e),
                }
            },
        }
    }
}

impl<T: 'static, E: 'static> Fetch<T, E> {
    /// The fetch can be stepped and run: every function stored in it may be
    /// called on the value it will be handed and has one result there, and
    /// every loop in it comes to an end.
    pub open(crate) spec fn wf(&self) -> bool {
        self.0.wf()
    }

    /// What running the fetch comes to.
    pub open(crate) spec fn view(&self) -> Trace<T, E> {
        self.0.view()
    }

    /// Advances the fetch by one step. After a `Blocked` step the fetch is
    /// its own continuation.
    pub fn get(&mut self) -> (r: ReqResult<T, E>)
        requires
            old(self).wf(),
        ensures
            r.begins(old(self)@),
            r is Blocked ==> final(self).wf() && final(self)@ =~= old(self)@.rest(),
    {
        self.0.step()
    }

    /// A fetch that yields `a` without any request.
    pub fn pure(a: T) -> (r: Fetch<T, E>)
        ensures
            r.wf(),
            r@ == Trace::<T, E>::pure(a),
    {
        Fetch(Box::new(Ready { value: Some(a) }))
    }

    /// A fetch that yields the value of `f`, computed when the fetch is
    /// stepped.
    pub fn pure_fn<F: FnOnce() -> T + 'static>(f: F) -> (r: Fetch<T, E>)
        ensures
            r.wf() == determined0(f),
            r@ == Trace::<T, E>::pure(result_of0(f)),
    {
        Fetch(Box::new(Deferred { f: Some(f) }))
    }

    /// Runs the fetch to its end on `executor`: steps it, hands each batch
    /// of requests it waits for to the executor, and steps it again, until
    /// it yields a value or an error.
    ///
    /// The executor is handed exactly the batches of the fetch, one after
    /// another and none of them empty, and nothing else. The result does not
    /// depend on how the executor runs a batch: a request that was not run
    /// when its result is needed is run then.
    pub fn run_with<X: Fn(Vec<AbsRequest>)>(self, executor: &mut Executor<X>) -> (r: Result<T, E>)
        requires
            self.wf(),
            old(executor).wf(),
        ensures
            r == self@.outcome,
            final(executor).wf(),
            final(executor).runner() == old(executor).runner(),
            grew_by(old(executor).handed(), final(executor).handed(), self@.batches),
    {
        let mut current = self;
        let ghost mut issued: Seq<nat> = Seq::empty();
        assert(executor.handed().take(executor.handed().len() as int) =~= executor.handed());
        loop
            invariant
                executor.wf(),
                executor.runner() == old(executor).runner(),
                current.wf(),
                current@.outcome == self@.outcome,
                self@.batches =~= issued + current@.batches,
                grew_by(old(executor).handed(), executor.handed(), issued),
            decreases current@.batches.len(),
        {
            match current.get() {
                ReqResult::Done(a) => {
                    return Ok(a);
                },
                ReqResult::Throw(e) => {
                    return Err(e);
                },
                ReqResult::Blocked(reqs) => {
                    let ghost before = executor.handed();
                    executor.hand(reqs);
                    proof {
                        let start = old(executor).handed().len() as int;
                        let earlier = issued;
                        issued = issued.push(reqs@.len() as nat);
                        assert(executor.handed().take(start) =~= before.take(start));
                        assert forall|i: int| 0 <= i < issued.len() implies (
                        #[trigger] executor.handed().skip(start)[i])@.len() == issued[i]
                            && issued[i] > 0 by {
                            if i < earlier.len() {
                                assert(before.skip(start)[i]@.len() == earlier[i]);
                            }
                        }
                    }
                },
            }
        }
    }

    /// Runs the fetch to its end on the worker pool and also returns the
    /// size of each batch that the pool was handed, first to last.
    pub fn run_logged(self) -> (r: (Result<T, E>, Vec<usize>))
        requires
            self.wf(),
        ensures
            r.0 == self@.outcome,
            r.1@.len() == self@.batches.len(),
            forall|i: int| 0 <= i < r.1@.len() ==> r.1@[i] == self@.batches[i] && r.1@[i] > 0,
            exists|handed: Seq<Vec<AbsRequest>>|
                grew_by(Seq::empty(), handed, self@.batches) && forall|i: int|
                    0 <= i < handed.len() ==> pool_ran(#[trigger] handed[i]) && r.1@[i]
                        == handed[i]@.len(),
    {
        let mut pool = Executor::new(AbsRequest::run_all);
        let r = self.run_with(&mut pool);
        proof {
            let handed = pool.handed();
            assert forall|i: int| 0 <= i < handed.len() implies pool_ran(#[trigger] handed[i])
                && pool.logged()[i] == handed[i]@.len() by {}
            assert forall|i: int| 0 <= i < handed.len() implies #[trigger] pool.logged()[i]
                == self@.batches[i] && self@.batches[i] > 0 by {
                assert(handed.skip(0)[i] == handed[i]);
            }
        }
        (r, pool.into_sizes())
    }

    /// Runs the fetch to its end on the worker pool: the pool is handed the
    /// batches of the fetch, one after another.
    pub fn run(self) -> (r: Result<T, E>)
        requires
            self.wf(),
        ensures
            r == self@.outcome,
            exists|handed: Seq<Vec<AbsRequest>>|
                grew_by(Seq::empty(), handed, self@.batches) && forall|i: int|
                    0 <= i < handed.len() ==> pool_ran(#[trigger] handed[i]),
    {
        self.run_logged().0
    }
}

impl<T: Send + Sync + 'static, E: Send + Sync + 'static> Fetch<T, E> {
    /// A fetch that issues `request` as a batch of its own and yields what
    /// the request produces.
    pub fn new<R: Request<T, E> + Send + Sync + 'static>(request: R) -> (r: Fetch<T, E>)
        ensures
            r.wf(),
            r@ == Trace::request(request.outcome()),
    {
        Fetch(
            Box::new(
                Single { request: Some(request), cell: None, expected: Ghost(request.outcome()) },
            ),
        )
    }
}

impl<T: 'static, E: 'static> vstd::std_specs::convert::FromSpecImpl<Result<T, E>> for Fetch<T, E> {
    open spec fn obeys_from_spec() -> bool {
        true
    }

    closed spec fn from_spec(res: Result<T, E>) -> Fetch<T, E> {
        match res {
            Ok(v) => Fetch(Box::new(Ready { value: Some(v) })),
            Err(e) => Fetch(Box::new(Thrown { error: Some(e) })),
        }
    }
}

/// The fetch made from a result issues no batch and ends with that result.
pub proof fn lemma_from_result<T: 'static, E: 'static>(res: Result<T, E>)
    ensures
        Fetch::<T, E>::from_spec(res).wf(),
        Fetch::<T, E>::from_spec(res)@ == (Trace { batches: Seq::<nat>::empty(), outcome: res }),
{
}

impl<T: 'static, E: 'static> From<Result<T, E>> for Fetch<T, E> {
    /// The fetch that a result stands for: its value, or its error thrown.
    fn from(res: Result<T, E>) -> (r: Fetch<T, E>) {
        match res {
            Ok(v) => Fetch(Box::new(Ready { value: Some(v) })),
            Err(e) => Fetch(Box::new(Thrown { error: Some(e) })),
        }
    }
}

impl<T: 'static, E: 'static> Fetch<T, E> {
    /// The fetch that a result stands for: its value, or its error thrown.
    pub fn from_result(res: Result<T, E>) -> (r: Fetch<T, E>)
        ensures
            r.wf(),
            r@ == (Trace { batches: Seq::<nat>::empty(), outcome: res }),
    {
        proof {
            lemma_from_result(res);
        }
        Fetch::from(res)
    }
}

/// A fetch that fails with `e` without any request.
pub fn throw<T: 'static, E: 'static>(e: E) -> (r: Fetch<T, E>)
    ensures
        r.wf(),
        r@ == Trace::<T, E>::throw(e),
{
    Fetch(Box::new(Thrown { error: Some(e) }))
}

} // verus!
