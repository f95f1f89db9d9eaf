//! What the library assumes of the functions its users hand to it.
//!
//! A combinator stores a user's function and calls it later, once, on a
//! value that is only known when the fetch runs. For the result of the
//! combinator to have a meaning, the call must be allowed on that value and
//! must have one possible result there. The predicates below say so; the
//! `result_of` functions name that result.
use vstd::prelude::*;

verus! {

/// The result of calling `f` with no argument.
pub open spec fn result_of0<B, F: FnOnce() -> B>(f: F) -> B {
    choose|b: B| call_ensures(f, (), b)
}

/// `f` may be called with no argument and has a single possible result.
pub open spec fn determined0<B, F: FnOnce() -> B>(f: F) -> bool {
    &&& call_requires(f, ())
    &&& forall|b: B| call_ensures(f, (), b) ==> b == result_of0(f)
}

/// The result of calling `f` on `a`.
pub open spec fn result_of<A, B, F: FnOnce(A) -> B>(f: F, a: A) -> B {
    choose|b: B| call_ensures(f, (a,), b)
}

/// `f` may be called on `a` and has a single possible result there.
pub open spec fn determined<A, B, F: FnOnce(A) -> B>(f: F, a: A) -> bool {
    &&& call_requires(f, (a,))
    &&& forall|b: B| call_ensures(f, (a,), b) ==> b == result_of(f, a)
}

/// `f` has a result at `a`: some call of it there returns.
pub open spec fn has_result<A, B, F: FnOnce(A) -> B>(f: F, a: A) -> bool {
    exists|b: B| call_ensures(f, (a,), b)
}

/// Where a function has a result, the result that [`result_of`] names is
/// one: whatever the function ensures of its results holds of it.
pub proof fn lemma_result_of_is_a_result<A, B, F: FnOnce(A) -> B>(f: F, a: A)
    requires
        has_result(f, a),
    ensures
        call_ensures(f, (a,), result_of(f, a)),
{
}

/// The result of calling `f` on `a` and `b`.
pub open spec fn result_of2<A, B, U, F: FnOnce(A, B) -> U>(f: F, a: A, b: B) -> U {
    choose|u: U| call_ensures(f, (a, b), u)
}

/// `f` may be called on `a` and `b` and has a single possible result there.
pub open spec fn determined2<A, B, U, F: FnOnce(A, B) -> U>(f: F, a: A, b: B) -> bool {
    &&& call_requires(f, (a, b))
    &&& forall|u: U| call_ensures(f, (a, b), u) ==> u == result_of2(f, a, b)
}

/// The result of calling `f` on `a`, `b` and `c`.
pub open spec fn result_of3<A, B, C, U, F: FnOnce(A, B, C) -> U>(f: F, a: A, b: B, c: C) -> U {
    choose|u: U| call_ensures(f, (a, b, c), u)
}

/// `f` may be called on `a`, `b` and `c` and has a single possible result
/// there.
pub open spec fn determined3<A, B, C, U, F: FnOnce(A, B, C) -> U>(f: F, a: A, b: B, c: C) -> bool {
    &&& call_requires(f, (a, b, c))
    &&& forall|u: U| call_ensures(f, (a, b, c), u) ==> u == result_of3(f, a, b, c)
}

/// The result of calling `f` on `a`, `b`, `c` and `d`.
pub open spec fn result_of4<A, B, C, D, U, F: FnOnce(A, B, C, D) -> U>(
    f: F,
    a: A,
    b: B,
    c: C,
    d: D,
) -> U {
    choose|u: U| call_ensures(f, (a, b, c, d), u)
}

/// `f` may be called on `a`, `b`, `c` and `d` and has a single possible
/// result there.
pub open spec fn determined4<A, B, C, D, U, F: FnOnce(A, B, C, D) -> U>(
    f: F,
    a: A,
    b: B,
    c: C,
    d: D,
) -> bool {
    &&& call_requires(f, (a, b, c, d))
    &&& forall|u: U| call_ensures(f, (a, b, c, d), u) ==> u == result_of4(f, a, b, c, d)
}

/// The result of calling `f` on `a`, `b`, `c`, `d` and `e`.
pub open spec fn result_of5<A, B, C, D, G, U, F: FnOnce(A, B, C, D, G) -> U>(
    f: F,
    a: A,
    b: B,
    c: C,
    d: D,
    e: G,
) -> U {
    choose|u: U| call_ensures(f, (a, b, c, d, e), u)
}

/// `f` may be called on `a`, `b`, `c`, `d` and `e` and has a single possible
/// result there.
pub open spec fn determined5<A, B, C, D, G, U, F: FnOnce(A, B, C, D, G) -> U>(
    f: F,
    a: A,
    b: B,
    c: C,
    d: D,
    e: G,
) -> bool {
    &&& call_requires(f, (a, b, c, d, e))
    &&& forall|u: U| call_ensures(f, (a, b, c, d, e), u) ==> u == result_of5(f, a, b, c, d, e)
}

} // verus!
