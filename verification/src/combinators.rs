//! Sequential composition: `fmap`, `bind` and `catch`.
use vstd::prelude::*;

use crate::calls::determined;
use crate::calls::result_of;
use crate::fetch::Fetch;
use crate::fetch::ReqResult;
use crate::fetch::Suspended;
use crate::request::Impossible;
use crate::trace::Trace;

verus! {

/// `k` may be called on `a`, every fetch it can return is well formed, and
/// all of them have the same trace.
pub open spec fn continues<A, U, E, K: FnOnce(A) -> Fetch<U, E>>(k: K, a: A) -> bool {
    &&& call_requires(k, (a,))
    &&& forall|n: Fetch<U, E>| #[trigger]
        call_ensures(k, (a,), n) ==> n.wf() && n@ == result_of(k, a)@
}

/// A function from values to values, used once.
pub trait Transform<A, B> {
    /// The function may be applied to `a`.
    spec fn accepts(&self, a: A) -> bool;

    /// The value of the function at `a`.
    spec fn image(&self, a: A) -> B;

    /// Applies the function to `a`.
    fn apply(self, a: A) -> (b: B)
        requires
            self.accepts(a),
        ensures
            b == self.image(a),
    ;
}

/// The function that calls `F`. Its value at `a` is whatever the call
/// returns there, named by [`result_of`].
pub struct Call1<F>(pub F);

impl<A, B, F: FnOnce(A) -> B> Transform<A, B> for Call1<F> {
    open spec fn accepts(&self, a: A) -> bool {
        determined(self.0, a)
    }

    open spec fn image(&self, a: A) -> B {
        result_of(self.0, a)
    }

    fn apply(self, a: A) -> (b: B) {
        (self.0)(a)
    }
}

/// A function from values to fetches, used once: what a fetch goes on with
/// once its value, or its error, is known.
pub trait Continue<A, U, E> {
    /// The function may be applied to `a`.
    spec fn accepts(&self, a: A) -> bool;

    /// The trace of the fetch that the function makes of `a`.
    spec fn next(&self, a: A) -> Trace<U, E>;

    /// Makes the fetch to go on with.
    fn proceed(self, a: A) -> (n: Fetch<U, E>)
        requires
            self.accepts(a),
        ensures
            n.wf(),
            n@ == self.next(a),
    ;
}

/// The continuation that calls `K`. The fetch it makes of `a` is whatever
/// the call returns there, named by [`result_of`].
pub struct CallOnce<K>(pub K);

impl<A, U, E, K: FnOnce(A) -> Fetch<U, E>> Continue<A, U, E> for CallOnce<K> {
    open spec fn accepts(&self, a: A) -> bool {
        continues(self.0, a)
    }

    open spec fn next(&self, a: A) -> Trace<U, E> {
        result_of(self.0, a)@
    }

    fn proceed(self, a: A) -> (n: Fetch<U, E>) {
        (self.0)(a)
    }
}

/// A fetch mapped through a function.
#[verifier::reject_recursive_types(T)]
#[verifier::reject_recursive_types(E)]
struct Fmap<T, E, M> {
    inner: Fetch<T, E>,
    f: Option<M>,
}

impl<T: 'static, U: 'static, E: 'static, M: Transform<T, U>> Suspended<U, E> for Fmap<T, E, M> {
    closed spec fn wf(&self) -> bool {
        &&& self.inner.wf()
        &&& self.f is Some
        &&& self.inner@.outcome matches Ok(a) ==> (self.f->0).accepts(a)
    }

    closed spec fn view(&self) -> Trace<U, E> {
        self.inner@.fmap(|a: T| (self.f->0).image(a))
    }

    fn step(&mut self) -> (r: ReqResult<U, E>) {
        match self.inner.get() {
            ReqResult::Done(a) => {
                let f = self.f.take().unwrap();
                ReqResult::Done(f.apply(a))
            },
            ReqResult::Blocked(reqs) => ReqResult::Blocked(reqs),
            ReqResult::Throw(e) => ReqResult::Throw(e),
        }
    }
}

/// A fetch followed by the fetch that a continuation makes of its value.
#[verifier::reject_recursive_types(T)]
#[verifier::reject_recursive_types(U)]
#[verifier::reject_recursive_types(E)]
struct Bind<T, U, E, K> {
    first: Fetch<T, E>,
    k: Option<K>,
    second: Option<Fetch<U, E>>,
}

impl<T: 'static, U: 'static, E: 'static, K: Continue<T, U, E>> Suspended<U, E> for Bind<T, U, E, K> {
    closed spec fn wf(&self) -> bool {
        match self.second {
            Some(n) => n.wf(),
            None => {
                &&& self.first.wf()
                &&& self.k is Some
                &&& self.first@.outcome matches Ok(a) ==> (self.k->0).accepts(a)
            },
        }
    }

    closed spec fn view(&self) -> Trace<U, E> {
        match self.second {
            Some(n) => n@,
            None => self.first@.bind(|a: T| (self.k->0).next(a)),
        }
    }

    fn step(&mut self) -> (r: ReqResult<U, E>) {
        match self.second.take() {
            Some(n) => {
                let mut n = n;
                let r = n.get();
                self.second = Some(n);
                r
            },
            None => match self.first.get() {
                ReqResult::Done(a) => {
                    let k = self.k.take().unwrap();
                    let mut n = k.proceed(a);
                    let r = n.get();
                    self.second = Some(n);
                    r
                },
                ReqResult::Blocked(reqs) => ReqResult::Blocked(reqs),
                ReqResult::Throw(e) => ReqResult::Throw(e),
            },
        }
    }
}

/// A fetch whose error, if it throws one, is replaced by the fetch that a
/// handler makes of it.
#[verifier::reject_recursive_types(T)]
#[verifier::reject_recursive_types(E1)]
#[verifier::reject_recursive_types(E2)]
struct Catch<T, E1, E2, H> {
    guarded: Fetch<T, E1>,
    handler: Option<H>,
    recovery: Option<Fetch<T, E2>>,
}

impl<T: 'static, E1: 'static, E2: 'static, H: Continue<E1, T, E2>> Suspended<T, E2> for Catch<
    T,
    E1,
    E2,
    H,
> {
    closed spec fn wf(&self) -> bool {
        match self.recovery {
            Some(n) => n.wf(),
            None => {
                &&& self.guarded.wf()
                &&& self.handler is Some
                &&& self.guarded@.outcome matches Err(e) ==> (self.handler->0).accepts(e)
            },
        }
    }

    closed spec fn view(&self) -> Trace<T, E2> {
        match self.recovery {
            Some(n) => n@,
            None => self.guarded@.catch(|e: E1| (self.handler->0).next(e)),
        }
    }

    fn step(&mut self) -> (r: ReqResult<T, E2>) {
        match self.recovery.take() {
            Some(n) => {
                let mut n = n;
                let r = n.get();
                self.recovery = Some(n);
                r
            },
            None => match self.guarded.get() {
                ReqResult::Done(a) => ReqResult::Done(a),
                ReqResult::Blocked(reqs) => ReqResult::Blocked(reqs),
                ReqResult::Throw(e) => {
                    let handler = self.handler.take().unwrap();
                    let mut n = handler.proceed(e);
                    let r = n.get();
                    self.recovery = Some(n);
                    r
                },
            },
        }
    }
}

/// A fetch that cannot fail, seen under another error type.
#[verifier::reject_recursive_types(T)]
struct Widen<T> {
    inner: Fetch<T, Impossible>,
}

impl<T: 'static, E> Suspended<T, E> for Widen<T> {
    closed spec fn wf(&self) -> bool {
        self.inner.wf()
    }

    closed spec fn view(&self) -> Trace<T, E> {
        self.inner@.widen()
    }

    fn step(&mut self) -> (r: ReqResult<T, E>) {
        match self.inner.get() {
            ReqResult::Done(a) => ReqResult::Done(a),
            ReqResult::Blocked(reqs) => ReqResult::Blocked(reqs),
            ReqResult::Throw(never) => ReqResult::Throw(never.widen()),
        }
    }
}

impl<T: 'static> Fetch<T, Impossible> {
    /// The same fetch under the error type `E`.
    pub fn into<E: 'static>(self) -> (r: Fetch<T, E>)
        ensures
            r@ == self@.widen::<E>(),
            r.wf() == self.wf(),
    {
        Fetch(Box::new(Widen { inner: self }))
    }
}

impl<T: 'static, E: 'static> Fetch<T, E> {
    /// Sequencing: runs `self`, then the fetch that `k` makes of its value.
    /// Requests of that fetch are never batched with requests of `self`.
    pub fn bind_with<U: 'static, K: Continue<T, U, E> + 'static>(self, k: K) -> (r: Fetch<U, E>)
        ensures
            r@ == self@.bind(|a: T| k.next(a)),
            r.wf() <==> self.wf() && (self@.outcome matches Ok(a) ==> k.accepts(a)),
    {
        Fetch(Box::new(Bind { first: self, k: Some(k), second: None }))
    }

    /// Sequencing with a function: [`Fetch::bind_with`] on the continuation
    /// that calls `k`.
    pub fn bind<U: 'static, K: FnOnce(T) -> Fetch<U, E> + 'static>(self, k: K) -> (r: Fetch<U, E>)
        ensures
            r@ == self@.bind(|a: T| result_of(k, a)@),
            r.wf() <==> self.wf() && (self@.outcome matches Ok(a) ==> continues(k, a)),
    {
        self.bind_with(CallOnce(k))
    }

    /// Applies `f` to the value of `self`; batches and errors are those of
    /// `self`.
    pub fn fmap_with<U: 'static, M: Transform<T, U> + 'static>(self, f: M) -> (r: Fetch<U, E>)
        ensures
            r@ == self@.fmap(|a: T| f.image(a)),
            r.wf() <==> self.wf() && (self@.outcome matches Ok(a) ==> f.accepts(a)),
    {
        Fetch(Box::new(Fmap { inner: self, f: Some(f) }))
    }

    /// Mapping with a function: [`Fetch::fmap_with`] on the function that
    /// calls `f`.
    pub fn fmap<U: 'static, F: FnOnce(T) -> U + 'static>(self, f: F) -> (r: Fetch<U, E>)
        ensures
            r@ == self@.fmap(|a: T| result_of(f, a)),
            r.wf() <==> self.wf() && (self@.outcome matches Ok(a) ==> determined(f, a)),
    {
        self.fmap_with(Call1(f))
    }
}

/// Error handling: runs `f`; if it throws, runs the fetch that `handler`
/// makes of the error in its place. The handler may change the error type.
pub fn catch_with<T, H, E1, E2>(f: Fetch<T, E1>, handler: H) -> (r: Fetch<T, E2>) where
    T: 'static,
    E1: 'static,
    E2: 'static,
    H: Continue<E1, T, E2> + 'static,

    ensures
        r@ == f@.catch(|e: E1| handler.next(e)),
        r.wf() <==> f.wf() && (f@.outcome matches Err(e) ==> handler.accepts(e)),
{
    Fetch(Box::new(Catch { guarded: f, handler: Some(handler), recovery: None }))
}

/// Error handling with a function: [`catch_with`] on the continuation that
/// calls `handler`.
pub fn catch<T, F, E1, E2>(f: Fetch<T, E1>, handler: F) -> (r: Fetch<T, E2>) where
    T: 'static,
    E1: 'static,
    E2: 'static,
    F: Fn(E1) -> Fetch<T, E2> + 'static,

    ensures
        r@ == f@.catch(|e: E1| result_of(handler, e)@),
        r.wf() <==> f.wf() && (f@.outcome matches Err(e) ==> continues(handler, e)),
{
    catch_with(f, CallOnce(handler))
}

} // verus!
