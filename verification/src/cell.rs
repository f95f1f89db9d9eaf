//! The status cell through which a request hands its result to the fetch
//! that waits for it.
//!
//! A cell has two owners: the opaque request, which runs the request and
//! writes what it produced, and the waiting fetch, which reads it. The cell
//! starts out holding the request itself. Its lock admits only statuses that
//! settle to the outcome of that request, so the reader learns that outcome
//! whichever status it finds: if the writer has been there it finds the
//! result, and if not it finds the request and runs it.
//!
//! The reader keeps the lock on the status for good, since it takes the
//! result away. A latch in front of the status keeps a writer that comes
//! later from waiting on that lock: the reader closes the latch before it
//! reads, and a writer that finds the latch closed leaves the status alone.
use std::sync::Arc;
use vstd::prelude::*;
use vstd::rwlock::RwLock;

use crate::batch::AbsRequest;
use crate::batch::Thunk;
use crate::request::Request;

verus! {

/// The state of one request.
pub(crate) enum FetchStatus<R, T, E> {
    /// The request has not run yet; the cell keeps it.
    NotFetched(R),
    /// The request ran and produced a value.
    FetchSuccess(T),
    /// The request ran and produced an error.
    FetchException(E),
}

impl<R, T, E> FetchStatus<R, T, E> {
    /// The status belongs to a request whose outcome is `outcome`: it holds
    /// either that result or a request that will produce it.
    pub(crate) open spec fn settles<>(self, outcome: Result<T, E>) -> bool where R: Request<T, E> {
        match self {
            FetchStatus::NotFetched(request) => request.outcome() == outcome,
            FetchStatus::FetchSuccess(v) => outcome == Ok::<T, E>(v),
            FetchStatus::FetchException(e) => outcome == Err::<T, E>(e),
        }
    }

    /// Brings the status to its settled form, running the request if it has
    /// not run yet.
    pub(crate) fn settle(self) -> (produced: Result<T, E>) where R: Request<T, E>
        ensures
            forall|outcome: Result<T, E>| self.settles(outcome) ==> produced == outcome,
    {
        match self {
            FetchStatus::NotFetched(request) => request.run(),
            FetchStatus::FetchSuccess(v) => Ok(v),
            FetchStatus::FetchException(e) => Err(e),
        }
    }
}

/// A second handle on the same shared value.
///
/// Calls `Arc::clone`, which returns another pointer to the same allocation.
#[verifier::external_body]
pub(crate) fn share<V>(cell: &Arc<V>) -> (other: Arc<V>)
    ensures
        other == *cell,
{
    Arc::clone(cell)
}

/// The status of one request behind its latch.
#[verifier::reject_recursive_types(R)]
#[verifier::reject_recursive_types(T)]
#[verifier::reject_recursive_types(E)]
pub(crate) struct StatusCell<R, T, E> {
    /// Whether the reader has been here.
    closed: RwLock<bool, spec_fn(bool) -> bool>,
    /// The status.
    status: RwLock<FetchStatus<R, T, E>, spec_fn(FetchStatus<R, T, E>) -> bool>,
}

impl<R: Request<T, E>, T, E> StatusCell<R, T, E> {
    /// The cell admits exactly the statuses that settle to `outcome`.
    pub(crate) closed spec fn guards(&self, outcome: Result<T, E>) -> bool {
        &&& forall|closed: bool| #[trigger] self.closed.inv(closed)
        &&& forall|status: FetchStatus<R, T, E>| #[trigger]
            self.status.inv(status) <==> status.settles(outcome)
    }

    /// A cell for `request`, which has not run yet.
    pub(crate) fn new(request: R) -> (cell: StatusCell<R, T, E>)
        ensures
            cell.guards(request.outcome()),
    {
        let ghost outcome = request.outcome();
        StatusCell {
            closed: RwLock::new(false, Ghost(|closed: bool| true)),
            status: RwLock::new(
                FetchStatus::NotFetched(request),
                Ghost(|status: FetchStatus<R, T, E>| status.settles(outcome)),
            ),
        }
    }

    /// The writer's part: runs the request, unless it has run already or the
    /// reader has been here, and stores what it produced.
    pub(crate) fn fill(&self)
        requires
            exists|outcome: Result<T, E>| self.guards(outcome),
    {
        let ghost outcome = choose|outcome: Result<T, E>| self.guards(outcome);
        let (closed, latch) = self.closed.acquire_write();
        if !closed {
            let (status, handle) = self.status.acquire_write();
            let next = match status.settle() {
                Ok(v) => FetchStatus::FetchSuccess(v),
                Err(e) => FetchStatus::FetchException(e),
            };
            handle.release_write(next);
        }
        latch.release_write(closed);
    }

    /// The reader's part: closes the latch and takes what the request
    /// produced, running the request here if no writer has.
    pub(crate) fn take(&self) -> (produced: Result<T, E>)
        requires
            exists|outcome: Result<T, E>| self.guards(outcome),
        ensures
            forall|outcome: Result<T, E>| self.guards(outcome) ==> produced == outcome,
    {
        let (_, latch) = self.closed.acquire_write();
        latch.release_write(true);
        let (status, _held) = self.status.acquire_write();
        status.settle()
    }
}

/// The writing end of a status cell: the work of one opaque request.
#[verifier::reject_recursive_types(R)]
#[verifier::reject_recursive_types(T)]
#[verifier::reject_recursive_types(E)]
pub(crate) struct Job<R, T, E> {
    pub(crate) cell: Arc<StatusCell<R, T, E>>,
    pub(crate) expected: Ghost<Result<T, E>>,
}

impl<R, T, E> Job<R, T, E> where
    R: Request<T, E> + Send + Sync + 'static,
    T: Send + Sync + 'static,
    E: Send + Sync + 'static,
 {
    /// The job as an opaque request.
    pub(crate) fn erase(self) -> (req: AbsRequest)
        ensures
            req.wf() == self.cell.guards(self.expected@),
    {
        AbsRequest(Box::new(self))
    }
}

impl<R, T, E> Thunk for Job<R, T, E> where
    R: Request<T, E> + Send + Sync + 'static,
    T: Send + Sync + 'static,
    E: Send + Sync + 'static,
 {
    closed spec fn wf(&self) -> bool {
        self.cell.guards(self.expected@)
    }

    fn call(self: Box<Self>) {
        let job = *self;
        job.cell.fill();
    }
}

} // verus!
