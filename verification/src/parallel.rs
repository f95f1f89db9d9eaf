//! Parallel composition: `ap` and the `lift` family.
//!
//! Two fetches composed in parallel are stepped side by side, and the
//! requests they wait for are merged into one batch.
use vstd::prelude::*;

use crate::batch::all_ready;
use crate::batch::vec_merge;
use crate::batch::AbsRequest;
use crate::calls::determined;
use crate::calls::determined2;
use crate::calls::determined3;
use crate::calls::determined4;
use crate::calls::determined5;
use crate::calls::result_of;
use crate::calls::result_of2;
use crate::calls::result_of3;
use crate::calls::result_of4;
use crate::calls::result_of5;
use crate::fetch::throw;
use crate::fetch::Fetch;
use crate::fetch::ReqResult;
use crate::fetch::Suspended;
use crate::trace::Trace;

verus! {

/// A way of joining the values of two fetches into one value.
pub trait Join<A, B, U> {
    /// The two values can be joined.
    spec fn accepts(&self, a: A, b: B) -> bool;

    /// The value that joining `a` and `b` gives.
    spec fn joined(&self, a: A, b: B) -> U;

    /// Joins `a` and `b`.
    fn join(self, a: A, b: B) -> (u: U)
        requires
            self.accepts(a, b),
        ensures
            u == self.joined(a, b),
    ;
}

/// The joiner that calls `F` on the two values. What it gives is whatever
/// the call returns, named by [`result_of2`].
pub struct Call2<F>(pub F);

impl<A, B, U, F: FnOnce(A, B) -> U> Join<A, B, U> for Call2<F> {
    open spec fn accepts(&self, a: A, b: B) -> bool {
        determined2(self.0, a, b)
    }

    open spec fn joined(&self, a: A, b: B) -> U {
        result_of2(self.0, a, b)
    }

    fn join(self, a: A, b: B) -> (u: U) {
        (self.0)(a, b)
    }
}

/// The joiner that calls the first value, a function, on the second.
pub struct Apply;

impl<T, U, F: FnOnce(T) -> U> Join<F, T, U> for Apply {
    open spec fn accepts(&self, f: F, x: T) -> bool {
        determined(f, x)
    }

    open spec fn joined(&self, f: F, x: T) -> U {
        result_of(f, x)
    }

    fn join(self, f: F, x: T) -> (u: U) {
        f(x)
    }
}

/// The joiner that pairs the two values.
pub struct Pairing;

impl<A, B> Join<A, B, (A, B)> for Pairing {
    open spec fn accepts(&self, a: A, b: B) -> bool {
        true
    }

    open spec fn joined(&self, a: A, b: B) -> (A, B) {
        (a, b)
    }

    fn join(self, a: A, b: B) -> (u: (A, B)) {
        (a, b)
    }
}

/// The joiner that calls `F` on the two values of a pair and a third value.
pub struct Spread3<F>(pub F);

impl<A, B, C, U, F: FnOnce(A, B, C) -> U> Join<(A, B), C, U> for Spread3<F> {
    open spec fn accepts(&self, p: (A, B), c: C) -> bool {
        determined3(self.0, p.0, p.1, c)
    }

    open spec fn joined(&self, p: (A, B), c: C) -> U {
        result_of3(self.0, p.0, p.1, c)
    }

    fn join(self, p: (A, B), c: C) -> (u: U) {
        (self.0)(p.0, p.1, c)
    }
}

/// The joiner that calls `F` on the three values of a nested triple and a
/// fourth value.
pub struct Spread4<F>(pub F);

impl<A, B, C, D, U, F: FnOnce(A, B, C, D) -> U> Join<((A, B), C), D, U> for Spread4<F> {
    open spec fn accepts(&self, p: ((A, B), C), d: D) -> bool {
        determined4(self.0, p.0.0, p.0.1, p.1, d)
    }

    open spec fn joined(&self, p: ((A, B), C), d: D) -> U {
        result_of4(self.0, p.0.0, p.0.1, p.1, d)
    }

    fn join(self, p: ((A, B), C), d: D) -> (u: U) {
        (self.0)(p.0.0, p.0.1, p.1, d)
    }
}

/// The joiner that calls `F` on the four values of a nested quadruple and a
/// fifth value.
pub struct Spread5<F>(pub F);

impl<A, B, C, D, G, U, F: FnOnce(A, B, C, D, G) -> U> Join<(((A, B), C), D), G, U> for Spread5<F> {
    open spec fn accepts(&self, p: (((A, B), C), D), e: G) -> bool {
        determined5(self.0, p.0.0.0, p.0.0.1, p.0.1, p.1, e)
    }

    open spec fn joined(&self, p: (((A, B), C), D), e: G) -> U {
        result_of5(self.0, p.0.0.0, p.0.0.1, p.0.1, p.1, e)
    }

    fn join(self, p: (((A, B), C), D), e: G) -> (u: U) {
        (self.0)(p.0.0.0, p.0.0.1, p.0.1, p.1, e)
    }
}

/// All requests of two ready batches are ready, in either order.
proof fn lemma_merged_ready(a: Seq<AbsRequest>, b: Seq<AbsRequest>)
    requires
        all_ready(a),
        all_ready(b),
    ensures
        all_ready(a + b),
{
    assert forall|i: int| 0 <= i < (a + b).len() implies (#[trigger] (a + b)[i]).wf() by {}
}

/// Two fetches advanced side by side.
#[verifier::reject_recursive_types(A)]
#[verifier::reject_recursive_types(B)]
#[verifier::reject_recursive_types(E)]
struct Both<A, B, E, J> {
    left: Fetch<A, E>,
    right: Fetch<B, E>,
    joiner: Option<J>,
}

impl<A: 'static, B: 'static, U: 'static, E: 'static, J: Join<A, B, U>> Suspended<U, E> for Both<
    A,
    B,
    E,
    J,
> {
    closed spec fn wf(&self) -> bool {
        &&& self.left.wf()
        &&& self.right.wf()
        &&& self.joiner is Some
        &&& match (self.left@.outcome, self.right@.outcome) {
            (Ok(a), Ok(b)) => (self.joiner->0).accepts(a, b),
            _ => true,
        }
    }

    closed spec fn view(&self) -> Trace<U, E> {
        self.left@.lift2(self.right@, |a: A, b: B| (self.joiner->0).joined(a, b))
    }

    fn step(&mut self) -> (r: ReqResult<U, E>) {
        let l = self.left.get();
        let r = self.right.get();
        match (l, r) {
            (ReqResult::Done(a), ReqResult::Done(b)) => {
                let joiner = self.joiner.take().unwrap();
                ReqResult::Done(joiner.join(a, b))
            },
            (ReqResult::Done(a), ReqResult::Blocked(reqs)) => {
                self.left = Fetch::pure(a);
                ReqResult::Blocked(reqs)
            },
            (ReqResult::Blocked(reqs), ReqResult::Done(b)) => {
                self.right = Fetch::pure(b);
                ReqResult::Blocked(reqs)
            },
            (ReqResult::Blocked(reqs1), ReqResult::Blocked(reqs2)) => {
                proof {
                    lemma_merged_ready(reqs1@, reqs2@);
                    lemma_merged_ready(reqs2@, reqs1@);
                }
                ReqResult::Blocked(vec_merge(reqs1, reqs2))
            },
            (ReqResult::Done(_), ReqResult::Throw(e)) => ReqResult::Throw(e),
            (ReqResult::Throw(e), _) => ReqResult::Throw(e),
            (ReqResult::Blocked(reqs), ReqResult::Throw(e)) => {
                self.right = throw(e);
                ReqResult::Blocked(reqs)
            },
        }
    }
}

/// Parallel composition of two fetches under a joiner.
pub fn both<A: 'static, B: 'static, U: 'static, E: 'static, J: Join<A, B, U> + 'static>(
    left: Fetch<A, E>,
    right: Fetch<B, E>,
    joiner: J,
) -> (r: Fetch<U, E>)
    ensures
        r@ == left@.lift2(right@, |a: A, b: B| joiner.joined(a, b)),
        r.wf() <==> left.wf() && right.wf() && match (left@.outcome, right@.outcome) {
            (Ok(a), Ok(b)) => joiner.accepts(a, b),
            _ => true,
        },
{
    Fetch(Box::new(Both { left, right, joiner: Some(joiner) }))
}

/// Applicative composition: runs `f` and `x` side by side, their requests
/// merged round by round, and applies the function that `f` yields to the
/// value that `x` yields.
pub fn ap<T, U, F, E>(f: Fetch<F, E>, x: Fetch<T, E>) -> (r: Fetch<U, E>) where
    T: 'static,
    E: 'static,
    U: 'static,
    F: FnOnce(T) -> U + 'static,

    ensures
        r@ == f@.lift2(x@, |g: F, a: T| result_of(g, a)),
        r.wf() <==> f.wf() && x.wf() && match (f@.outcome, x@.outcome) {
            (Ok(g), Ok(a)) => determined(g, a),
            _ => true,
        },
{
    both(f, x, Apply)
}

/// Runs two fetches side by side and calls `f` on their values.
pub fn lift2<E, T1, T2, U, F>(f: F, x1: Fetch<T1, E>, x2: Fetch<T2, E>) -> (r: Fetch<U, E>) where
    E: 'static,
    T1: 'static,
    T2: 'static,
    U: 'static,
    F: FnOnce(T1, T2) -> U + 'static,

    ensures
        r@ == x1@.lift2(x2@, |a: T1, b: T2| result_of2(f, a, b)),
        r.wf() <==> x1.wf() && x2.wf() && match (x1@.outcome, x2@.outcome) {
            (Ok(a), Ok(b)) => determined2(f, a, b),
            _ => true,
        },
{
    both(x1, x2, Call2(f))
}

/// Runs three fetches side by side and calls `f` on their values.
pub fn lift3<E, T1, T2, T3, U, F>(f: F, x1: Fetch<T1, E>, x2: Fetch<T2, E>, x3: Fetch<T3, E>) -> (r:
    Fetch<U, E>) where
    E: 'static,
    T1: 'static,
    T2: 'static,
    T3: 'static,
    U: 'static,
    F: FnOnce(T1, T2, T3) -> U + 'static,

    ensures
        r@ == x1@.pair(x2@).lift2(x3@, |p: (T1, T2), c: T3| result_of3(f, p.0, p.1, c)),
        r.wf() <==> x1.wf() && x2.wf() && x3.wf() && match (
            x1@.outcome,
            x2@.outcome,
            x3@.outcome,
        ) {
            (Ok(a), Ok(b), Ok(c)) => determined3(f, a, b, c),
            _ => true,
        },
{
    both(both(x1, x2, Pairing), x3, Spread3(f))
}

/// Runs four fetches side by side and calls `f` on their values.
pub fn lift4<E, T1, T2, T3, T4, U, F>(
    f: F,
    x1: Fetch<T1, E>,
    x2: Fetch<T2, E>,
    x3: Fetch<T3, E>,
    x4: Fetch<T4, E>,
) -> (r: Fetch<U, E>) where
    E: 'static,
    T1: 'static,
    T2: 'static,
    T3: 'static,
    T4: 'static,
    U: 'static,
    F: FnOnce(T1, T2, T3, T4) -> U + 'static,

    ensures
        r@ == x1@.pair(x2@).pair(x3@).lift2(
            x4@,
            |p: ((T1, T2), T3), d: T4| result_of4(f, p.0.0, p.0.1, p.1, d),
        ),
        r.wf() <==> x1.wf() && x2.wf() && x3.wf() && x4.wf() && match (
            x1@.outcome,
            x2@.outcome,
            x3@.outcome,
            x4@.outcome,
        ) {
            (Ok(a), Ok(b), Ok(c), Ok(d)) => determined4(f, a, b, c, d),
            _ => true,
        },
{
    both(both(both(x1, x2, Pairing), x3, Pairing), x4, Spread4(f))
}

/// Runs five fetches side by side and calls `f` on their values.
pub fn lift5<E, T1, T2, T3, T4, T5, U, F>(
    f: F,
    x1: Fetch<T1, E>,
    x2: Fetch<T2, E>,
    x3: Fetch<T3, E>,
    x4: Fetch<T4, E>,
    x5: Fetch<T5, E>,
) -> (r: Fetch<U, E>) where
    E: 'static,
    T1: 'static,
    T2: 'static,
    T3: 'static,
    T4: 'static,
    T5: 'static,
    U: 'static,
    F: FnOnce(T1, T2, T3, T4, T5) -> U + 'static,

    ensures
        r@ == x1@.pair(x2@).pair(x3@).pair(x4@).lift2(
            x5@,
            |p: (((T1, T2), T3), T4), e: T5| result_of5(f, p.0.0.0, p.0.0.1, p.0.1, p.1, e),
        ),
        r.wf() <==> x1.wf() && x2.wf() && x3.wf() && x4.wf() && x5.wf() && match (
            x1@.outcome,
            x2@.outcome,
            x3@.outcome,
            x4@.outcome,
            x5@.outcome,
        ) {
            (Ok(a), Ok(b), Ok(c), Ok(d), Ok(e)) => determined5(f, a, b, c, d, e),
            _ => true,
        },
{
    both(both(both(both(x1, x2, Pairing), x3, Pairing), x4, Pairing), x5, Spread5(f))
}

} // verus!
