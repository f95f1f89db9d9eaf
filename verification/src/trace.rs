//! The mathematical meaning of a fetch.
//!
//! Evaluating a fetch issues a finite sequence of request batches and then
//! ends with a value or with an error. A [`Trace`] records exactly that: the
//! size of every batch, in the order of issue, and the terminal result. The
//! combinators of the library are defined here as functions on traces; the
//! executable combinators are proved to agree with them.
use vstd::prelude::*;

use crate::request::Impossible;

verus! {

/// The observable behaviour of a fetch: the batches it makes the evaluator
/// issue and the result it ends with.
#[verifier::ext_equal]
pub struct Trace<T, E> {
    /// Size of each batch, first issued first.
    pub batches: Seq<nat>,
    /// `Ok` for a terminal value, `Err` for a thrown error.
    pub outcome: Result<T, E>,
}

/// Size of the batch at round `i`, zero once the rounds are used up.
pub open spec fn batch_at(rounds: Seq<nat>, i: int) -> nat {
    if 0 <= i < rounds.len() {
        rounds[i]
    } else {
        0
    }
}

/// Round-by-round union of two batch sequences, cut after `len` rounds: the
/// frontiers of two fetches advanced side by side are issued together.
pub open spec fn merge_batches(left: Seq<nat>, right: Seq<nat>, len: nat) -> Seq<nat> {
    Seq::new(len, |i: int| batch_at(left, i) + batch_at(right, i))
}

/// The longer of two round counts.
pub open spec fn longer(a: nat, b: nat) -> nat {
    if a >= b {
        a
    } else {
        b
    }
}

impl<T, E> Trace<T, E> {
    /// No batch, then the value `a`.
    pub open spec fn pure(a: T) -> Self {
        Trace { batches: Seq::empty(), outcome: Ok(a) }
    }

    /// No batch, then the error `e`.
    pub open spec fn throw(e: E) -> Self {
        Trace { batches: Seq::empty(), outcome: Err(e) }
    }

    /// One batch holding a single request, then what that request produced.
    pub open spec fn request(produced: Result<T, E>) -> Self {
        Trace { batches: seq![1nat], outcome: produced }
    }

    /// What is left of the trace once its first batch has been run.
    pub open spec fn rest(self) -> Self {
        Trace { batches: self.batches.skip(1), outcome: self.outcome }
    }

    /// Same batches; `f` applied to a terminal value.
    pub open spec fn fmap<U>(self, f: spec_fn(T) -> U) -> Trace<U, E> {
        Trace {
            batches: self.batches,
            outcome: match self.outcome {
                Ok(a) => Ok(f(a)),
                Err(e) => Err(e),
            },
        }
    }

    /// Sequencing: every batch of `self` is issued before any batch of the
    /// trace that `k` gives for the value of `self`. An error of `self` ends
    /// the trace at once.
    pub open spec fn bind<U>(self, k: spec_fn(T) -> Trace<U, E>) -> Trace<U, E> {
        match self.outcome {
            Ok(a) => Trace { batches: self.batches + k(a).batches, outcome: k(a).outcome },
            Err(e) => Trace { batches: self.batches, outcome: Err(e) },
        }
    }

    /// Error handling: a value passes through; an error is replaced by the
    /// trace that `handler` gives for it, issued after the batches of `self`.
    pub open spec fn catch<E2>(self, handler: spec_fn(E) -> Trace<T, E2>) -> Trace<T, E2> {
        match self.outcome {
            Ok(a) => Trace { batches: self.batches, outcome: Ok(a) },
            Err(e) => Trace {
                batches: self.batches + handler(e).batches,
                outcome: handler(e).outcome,
            },
        }
    }

    /// Parallel composition. The two traces advance side by side and each
    /// round issues the union of their frontiers. An error of `self` ends the
    /// trace as soon as `self` ends, whatever `other` still had pending; an
    /// error of `other` is reported once `self` has ended with a value.
    pub open spec fn lift2<B, U>(self, other: Trace<B, E>, g: spec_fn(T, B) -> U) -> Trace<U, E> {
        match self.outcome {
            Err(e) => Trace {
                batches: merge_batches(self.batches, other.batches, self.batches.len()),
                outcome: Err(e),
            },
            Ok(a) => Trace {
                batches: merge_batches(
                    self.batches,
                    other.batches,
                    longer(self.batches.len(), other.batches.len()),
                ),
                outcome: match other.outcome {
                    Ok(b) => Ok(g(a, b)),
                    Err(e) => Err(e),
                },
            },
        }
    }

    /// Parallel composition that keeps both values.
    pub open spec fn pair<B>(self, other: Trace<B, E>) -> Trace<(T, B), E> {
        self.lift2(other, |a: T, b: B| (a, b))
    }
}

impl<A, U, E> Trace<spec_fn(A) -> U, E> {
    /// Application: parallel composition of a trace that yields a function
    /// with a trace that yields its argument.
    pub open spec fn ap(self, x: Trace<A, E>) -> Trace<U, E> {
        self.lift2(x, |f: spec_fn(A) -> U, a: A| f(a))
    }
}

impl<T> Trace<T, Impossible> {
    /// The same trace under another error type.
    pub open spec fn widen<E>(self) -> Trace<T, E> {
        Trace {
            batches: self.batches,
            outcome: match self.outcome {
                Ok(a) => Ok(a),
                Err(never) => Err(never.widened()),
            },
        }
    }
}

} // verus!
