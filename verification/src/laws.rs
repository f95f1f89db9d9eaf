//! The algebra of fetches.
//!
//! Each law is stated over traces, the meaning that the contracts of the
//! executable combinators give to the fetches they build: two fetches with
//! the same trace issue the same batches and end with the same result.
//!
//! The laws come in two forms. The first is over functions on traces, and
//! is what the combinators that take a function object (`bind_with`,
//! `fmap_with`, `catch_with`, `both`) are stated in. The second, named
//! `.._of_fn`, is over Rust functions, and is what the combinators that take
//! a closure are stated in: there the result of a call is named by
//! `result_of`, and a law that needs the function to have a result says so.
use vstd::prelude::*;

use crate::calls::determined;
use crate::calls::lemma_result_of_is_a_result;
use crate::calls::result_of;
use crate::calls::has_result;
use crate::combinators::continues;
use crate::fetch::Fetch;
use crate::request::Impossible;
use crate::trace::Trace;

verus! {

/// Monad left identity: binding a pure value to `k` is `k` applied to that
/// value.
pub proof fn bind_left_identity<T, U, E>(a: T, k: spec_fn(T) -> Trace<U, E>)
    ensures
        Trace::<T, E>::pure(a).bind(k) == k(a),
{
}

/// Monad right identity: binding a fetch to `pure` is the fetch itself.
pub proof fn bind_right_identity<T, E>(m: Trace<T, E>)
    ensures
        m.bind(|a: T| Trace::<T, E>::pure(a)) == m,
{
}

/// Monad associativity: binding to `k` and then to `h` is binding to the
/// function that binds the result of `k` to `h`.
pub proof fn bind_associative<T, U, V, E>(
    m: Trace<T, E>,
    k: spec_fn(T) -> Trace<U, E>,
    h: spec_fn(U) -> Trace<V, E>,
)
    ensures
        m.bind(k).bind(h) == m.bind(|x: T| k(x).bind(h)),
{
}

/// Functor identity: mapping the identity over a fetch is the fetch itself.
pub proof fn fmap_identity<T, E>(m: Trace<T, E>)
    ensures
        m.fmap(|a: T| a) == m,
{
}

/// Functor composition: mapping `f` and then `g` is mapping their
/// composition.
pub proof fn fmap_composition<T, U, V, E>(m: Trace<T, E>, f: spec_fn(T) -> U, g: spec_fn(U) -> V)
    ensures
        m.fmap(f).fmap(g) == m.fmap(|a: T| g(f(a))),
{
}

/// Applicative homomorphism: applying a pure function to a pure argument is
/// the pure result of the application.
pub proof fn ap_homomorphism<A, U, E>(f: spec_fn(A) -> U, x: A)
    ensures
        Trace::<spec_fn(A) -> U, E>::pure(f).ap(Trace::<A, E>::pure(x)) == Trace::<U, E>::pure(
            f(x),
        ),
{
}

/// The same for any way of joining two values: composing two pure values in
/// parallel is the pure result of joining them.
pub proof fn lift2_homomorphism<A, B, U, E>(a: A, b: B, g: spec_fn(A, B) -> U)
    ensures
        Trace::<A, E>::pure(a).lift2(Trace::<B, E>::pure(b), g) == Trace::<U, E>::pure(g(a, b)),
{
}

/// Lifting a function of two arguments is applying it twice: the curried
/// function, taken as a pure fetch, applied to the first fetch and then to
/// the second.
pub proof fn lift2_is_two_applications<A, B, U, E>(
    x1: Trace<A, E>,
    x2: Trace<B, E>,
    g: spec_fn(A, B) -> U,
)
    ensures
        Trace::<spec_fn(A) -> spec_fn(B) -> U, E>::pure(|a: A| |b: B| g(a, b)).lift2(
            x1,
            |h: spec_fn(A) -> spec_fn(B) -> U, a: A| h(a),
        ).lift2(x2, |h: spec_fn(B) -> U, b: B| h(b)) == x1.lift2(x2, g),
{
    let applied_once = Trace::<spec_fn(A) -> spec_fn(B) -> U, E>::pure(|a: A| |b: B| g(a, b)).lift2(
        x1,
        |h: spec_fn(A) -> spec_fn(B) -> U, a: A| h(a),
    );
}

/// Lifting a function of three arguments is lifting over the first two and
/// then over the third: the nesting does not change the batches, and the
/// error of the leftmost failing fetch is the one reported.
pub proof fn lift3_is_three_applications<A, B, C, U, E>(
    x1: Trace<A, E>,
    x2: Trace<B, E>,
    x3: Trace<C, E>,
    g: spec_fn(A, B, C) -> U,
)
    ensures
        Trace::<spec_fn(A) -> spec_fn(B) -> spec_fn(C) -> U, E>::pure(
            |a: A| |b: B| |c: C| g(a, b, c),
        ).lift2(x1, |h: spec_fn(A) -> spec_fn(B) -> spec_fn(C) -> U, a: A| h(a)).lift2(
            x2,
            |h: spec_fn(B) -> spec_fn(C) -> U, b: B| h(b),
        ).lift2(x3, |h: spec_fn(C) -> U, c: C| h(c)) == x1.pair(x2).lift2(
            x3,
            |p: (A, B), c: C| g(p.0, p.1, c),
        ),
{
    let once = Trace::<spec_fn(A) -> spec_fn(B) -> spec_fn(C) -> U, E>::pure(
        |a: A| |b: B| |c: C| g(a, b, c),
    ).lift2(x1, |h: spec_fn(A) -> spec_fn(B) -> spec_fn(C) -> U, a: A| h(a));
    let twice = once.lift2(x2, |h: spec_fn(B) -> spec_fn(C) -> U, b: B| h(b));
}

/// Parallel composition commutes on batches: which fetch stands on the left
/// decides which error wins, not what is issued, as long as the left one
/// does not fail.
pub proof fn lift2_batches_commute<A, B, U, V, E>(
    x1: Trace<A, E>,
    x2: Trace<B, E>,
    g: spec_fn(A, B) -> U,
    h: spec_fn(B, A) -> V,
)
    requires
        x1.outcome is Ok,
        x2.outcome is Ok,
    ensures
        x1.lift2(x2, g).batches == x2.lift2(x1, h).batches,
{
}

/// Widening the error type changes neither the batches nor the value.
pub proof fn widen_keeps_the_trace<T, E>(m: Trace<T, Impossible>)
    ensures
        m.widen::<E>().batches == m.batches,
        m.outcome matches Ok(a) ==> m.widen::<E>().outcome == Ok::<T, E>(a),
{
}

/// Catch identity on values: catching around a pure value is that value;
/// the handler is not consulted.
pub proof fn catch_pure<T, E1, E2>(a: T, handler: spec_fn(E1) -> Trace<T, E2>)
    ensures
        Trace::<T, E1>::pure(a).catch(handler) == Trace::<T, E2>::pure(a),
{
}

/// Catch identity on errors: catching around a thrown error is the handler
/// applied to that error.
pub proof fn catch_throw<T, E1, E2>(e: E1, handler: spec_fn(E1) -> Trace<T, E2>)
    ensures
        Trace::<T, E1>::throw(e).catch(handler) == handler(e),
{
}

/// Batching: two single requests composed in parallel are issued as one
/// batch of size two, whatever they produce.
pub proof fn lift2_batches_two_requests<A, B, U, E>(
    first: Result<A, E>,
    second: Result<B, E>,
    g: spec_fn(A, B) -> U,
)
    ensures
        Trace::request(first).lift2(Trace::request(second), g).batches == seq![2nat],
{
}

/// Sequencing barrier: a single request that succeeds, followed in sequence
/// by another single request, gives two batches of size one.
pub proof fn bind_separates_two_requests<T, U, E>(first: Result<T, E>, second: Result<U, E>)
    requires
        first is Ok,
    ensures
        Trace::request(first).bind(|a: T| Trace::request(second)).batches == seq![1nat, 1nat],
{
}

/// A request that fails ends a sequence at once: what follows it is never
/// issued.
pub proof fn bind_stops_at_failed_request<T, U, E>(e: E, k: spec_fn(T) -> Trace<U, E>)
    ensures
        Trace::request(Err::<T, E>(e)).bind(k) == Trace::<U, E>::request(Err(e)),
{
}

/// Left identity for a function: binding a pure value to `k` is the fetch
/// that `k` returns for that value.
pub proof fn bind_left_identity_of_fn<T, U: 'static, E: 'static, K: FnOnce(T) -> Fetch<U, E>>(
    a: T,
    k: K,
    n: Fetch<U, E>,
)
    requires
        continues(k, a),
        call_ensures(k, (a,), n),
    ensures
        Trace::<T, E>::pure(a).bind(|x: T| result_of(k, x)@) == n@,
{
}

/// Right identity for a function: binding a fetch to a function that
/// returns the pure fetch of its argument is the fetch itself, and as well
/// formed as the fetch. The function has to return at the value of the
/// fetch: of a function that has no result there, nothing is known.
pub proof fn bind_right_identity_of_fn<T: 'static, E: 'static, K: FnOnce(T) -> Fetch<T, E>>(
    m: Trace<T, E>,
    k: K,
)
    requires
        forall|a: T| call_requires(k, (a,)),
        forall|a: T, n: Fetch<T, E>| #[trigger]
            call_ensures(k, (a,), n) ==> n.wf() && n@ == Trace::<T, E>::pure(a),
        m.outcome matches Ok(a) ==> has_result(k, a),
    ensures
        m.bind(|a: T| result_of(k, a)@) == m,
        m.outcome matches Ok(a) ==> continues(k, a),
{
    if let Ok(a) = m.outcome {
        lemma_result_of_is_a_result(k, a);
    }
}

/// Associativity for functions: binding to `k` and then to `h` is binding
/// to a function `g` that binds what `k` returns to `h`. The function `g`
/// has to return at the value of the fetch.
pub proof fn bind_associative_of_fn<T, U, V: 'static, E: 'static, K, H, G>(
    m: Trace<T, E>,
    k: K,
    h: H,
    g: G,
) where
    U: 'static,
    K: FnOnce(T) -> Fetch<U, E>,
    H: FnOnce(U) -> Fetch<V, E>,
    G: FnOnce(T) -> Fetch<V, E>,

    requires
        forall|x: T, n: Fetch<V, E>| #[trigger]
            call_ensures(g, (x,), n) ==> n@ == result_of(k, x)@.bind(|y: U| result_of(h, y)@),
        m.outcome matches Ok(x) ==> has_result(g, x),
    ensures
        m.bind(|x: T| result_of(k, x)@).bind(|y: U| result_of(h, y)@) == m.bind(
            |x: T| result_of(g, x)@,
        ),
{
    if let Ok(x) = m.outcome {
        lemma_result_of_is_a_result(g, x);
    }
}

/// Functor identity for a function: mapping a function that returns its
/// argument over a fetch is the fetch itself, and as well formed as the
/// fetch. The function has to return at the value of the fetch.
pub proof fn fmap_identity_of_fn<T, E, F: FnOnce(T) -> T>(m: Trace<T, E>, f: F)
    requires
        forall|a: T| call_requires(f, (a,)),
        forall|a: T, b: T| #[trigger] call_ensures(f, (a,), b) ==> b == a,
        m.outcome matches Ok(a) ==> has_result(f, a),
    ensures
        m.fmap(|a: T| result_of(f, a)) == m,
        m.outcome matches Ok(a) ==> determined(f, a),
{
    if let Ok(a) = m.outcome {
        lemma_result_of_is_a_result(f, a);
    }
}

/// Applicative homomorphism for a function: applying the pure fetch of `f`
/// to the pure fetch of `x` is the pure fetch of what `f` returns at `x`.
pub proof fn ap_homomorphism_of_fn<A, U, E, F: FnOnce(A) -> U>(f: F, x: A)
    ensures
        Trace::<F, E>::pure(f).lift2(Trace::<A, E>::pure(x), |g: F, a: A| result_of(g, a))
            == Trace::<U, E>::pure(result_of(f, x)),
{
}

/// Catch identities for a function: around a pure value the handler is not
/// consulted, and around a thrown error the fetch is the one that the
/// handler returns for it.
pub proof fn catch_identities_of_fn<T: 'static, E1, E2: 'static, H: FnOnce(E1) -> Fetch<T, E2>>(
    a: T,
    e: E1,
    handler: H,
)
    ensures
        Trace::<T, E1>::pure(a).catch(|e: E1| result_of(handler, e)@) == Trace::<T, E2>::pure(a),
        Trace::<T, E1>::throw(e).catch(|e: E1| result_of(handler, e)@) == result_of(handler, e)@,
{
}

} // verus!
