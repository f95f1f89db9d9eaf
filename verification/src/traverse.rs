//! Traversal: one fetch per element of a collection, all run side by side.
use vstd::prelude::*;

use crate::calls::result_of;
use crate::combinators::continues;
use crate::fetch::Fetch;
use crate::fetch::ReqResult;
use crate::fetch::Suspended;
use crate::list::List;
use crate::parallel::both;
use crate::parallel::Join;
use crate::trace::batch_at;
use crate::trace::longer;
use crate::trace::Trace;

verus! {

/// The joiner that adds a value at the end of a list.
pub struct Snoc;

impl<T> Join<List<T>, T, List<T>> for Snoc {
    open spec fn accepts(&self, list: List<T>, last: T) -> bool {
        true
    }

    open spec fn joined(&self, list: List<T>, last: T) -> List<T> {
        list.snoc(last)
    }

    fn join(self, list: List<T>, last: T) -> (u: List<T>) {
        list.push(last)
    }
}

/// Runs `ys` and `x` side by side and adds the value of `x` at the end of
/// the list that `ys` yields.
pub fn cons_f<T: 'static, E: 'static>(ys: Fetch<List<T>, E>, x: Fetch<T, E>) -> (r: Fetch<
    List<T>,
    E,
>)
    ensures
        r@ == ys@.lift2(x@, |list: List<T>, last: T| list.snoc(last)),
        r.wf() <==> ys.wf() && x.wf(),
{
    both(ys, x, Snoc)
}

/// The trace of a traversal whose elements have the traces `parts`: the
/// parts composed in parallel from the first to the last, each adding its
/// value at the end of the list gathered so far.
pub open spec fn traversal<T, E>(parts: Seq<Trace<T, E>>) -> Trace<List<T>, E>
    decreases parts.len(),
{
    if parts.len() == 0 {
        Trace::pure(List::Nil)
    } else {
        traversal(parts.drop_last()).lift2(parts.last(), |list: List<T>, last: T| list.snoc(last))
    }
}

/// A way of making a fetch out of an element.
pub trait Spawn<T, U, E> {
    /// A fetch can be made of `x`.
    spec fn accepts(&self, x: T) -> bool;

    /// The trace of the fetch made of `x`.
    spec fn spawned(&self, x: T) -> Trace<U, E>;

    /// Makes a fetch of `x`.
    fn spawn(&self, x: T) -> (n: Fetch<U, E>)
        requires
            self.accepts(x),
        ensures
            n.wf(),
            n@ == self.spawned(x),
    ;
}

/// The maker that calls `F` on an element. The fetch it makes is whatever
/// the call returns, named by [`result_of`].
pub struct CallEach<F>(pub F);

impl<T, U: 'static, E: 'static, F: Fn(T) -> Fetch<U, E>> Spawn<T, U, E> for CallEach<F> {
    open spec fn accepts(&self, x: T) -> bool {
        continues(self.0, x)
    }

    open spec fn spawned(&self, x: T) -> Trace<U, E> {
        result_of(self.0, x)@
    }

    fn spawn(&self, x: T) -> (n: Fetch<U, E>) {
        (self.0)(x)
    }
}

/// The maker for elements that are fetches already: it hands them on.
pub struct Itself;

impl<U: 'static, E: 'static> Spawn<Fetch<U, E>, U, E> for Itself {
    open spec fn accepts(&self, x: Fetch<U, E>) -> bool {
        x.wf()
    }

    open spec fn spawned(&self, x: Fetch<U, E>) -> Trace<U, E> {
        x@
    }

    fn spawn(&self, x: Fetch<U, E>) -> (n: Fetch<U, E>) {
        x
    }
}

/// The same elements, last to first.
pub fn reversed<T>(items: Vec<T>) -> (r: Vec<T>)
    ensures
        r@ == items@.reverse(),
{
    let mut rest = items;
    let mut r: Vec<T> = Vec::new();
    let ghost total = items@.len();
    loop
        invariant
            rest@.len() + r@.len() == total,
            total == items@.len(),
            rest@ == items@.take(rest@.len() as int),
            forall|i: int| 0 <= i < r@.len() ==> r@[i] == items@[total - 1 - i],
        decreases rest@.len(),
    {
        match rest.pop() {
            Some(x) => {
                r.push(x);
            },
            None => {
                return r;
            },
        }
    }
}

/// The traces of the fetches that `maker` makes of `items`.
pub open spec fn parts_of<T, U, E, M: Spawn<T, U, E>>(maker: M, items: Seq<T>) -> Seq<Trace<U, E>> {
    Seq::new(items.len(), |i: int| maker.spawned(items[i]))
}

/// `maker` can make a fetch of every one of `items`.
pub open spec fn accepts_all<T, U, E, M: Spawn<T, U, E>>(maker: M, items: Seq<T>) -> bool {
    forall|i: int| 0 <= i < items.len() ==> maker.accepts(#[trigger] items[i])
}

/// Makes a fetch of every element and composes them in parallel, first to
/// last.
fn gather<T, U: 'static, E: 'static, M: Spawn<T, U, E>>(items: Vec<T>, maker: &M) -> (r: Fetch<
    List<U>,
    E,
>)
    requires
        accepts_all(*maker, items@),
    ensures
        r.wf(),
        r@ == traversal(parts_of(*maker, items@)),
{
    let ghost parts = parts_of(*maker, items@);
    let mut acc: Fetch<List<U>, E> = Fetch::pure(List::new());
    let mut stack = reversed(items);
    loop
        invariant
            parts == parts_of(*maker, items@),
            accepts_all(*maker, items@),
            stack@.len() <= items@.len(),
            forall|j: int| 0 <= j < stack@.len() ==> stack@[j] == items@[items@.len() - 1 - j],
            acc.wf(),
            acc@ == traversal(parts.take(items@.len() - stack@.len())),
        decreases stack@.len(),
    {
        let ghost done = items@.len() - stack@.len();
        match stack.pop() {
            Some(x) => {
                let n = maker.spawn(x);
                proof {
                    let next = parts.take(done + 1);
                    assert(next.drop_last() =~= parts.take(done));
                }
                acc = cons_f(acc, n);
            },
            None => {
                assert(parts.take(done) =~= parts);
                return acc;
            },
        }
    }
}

/// A traversal: first the elements and the way to make fetches of them,
/// then, once it has been stepped, the fetches composed in parallel.
#[verifier::reject_recursive_types(U)]
#[verifier::reject_recursive_types(E)]
struct Traversal<T, U, E, M> {
    items: Option<Vec<T>>,
    maker: M,
    composed: Option<Fetch<List<U>, E>>,
}

impl<T, U: 'static, E: 'static, M: Spawn<T, U, E>> Suspended<List<U>, E> for Traversal<T, U, E, M> {
    closed spec fn wf(&self) -> bool {
        match self.composed {
            Some(n) => n.wf(),
            None => self.items is Some && accepts_all(self.maker, self.items->0@),
        }
    }

    closed spec fn view(&self) -> Trace<List<U>, E> {
        match self.composed {
            Some(n) => n@,
            None => traversal(parts_of(self.maker, self.items->0@)),
        }
    }

    fn step(&mut self) -> (r: ReqResult<List<U>, E>) {
        let mut n = match self.composed.take() {
            Some(n) => n,
            None => gather(self.items.take().unwrap(), &self.maker),
        };
        let r = n.get();
        self.composed = Some(n);
        r
    }
}

/// Makes a fetch of each of `items` with `maker` and runs them side by
/// side. The fetch yields their values in the order of the items.
pub fn traverse_with<T: 'static, U: 'static, E: 'static, M: Spawn<T, U, E> + 'static>(
    items: Vec<T>,
    maker: M,
) -> (r: Fetch<List<U>, E>)
    ensures
        r@ == traversal(parts_of(maker, items@)),
        r.wf() <==> accepts_all(maker, items@),
{
    Fetch(Box::new(Traversal { items: Some(items), maker, composed: None }))
}

/// The traces of the fetches that `f` returns for `items`.
pub open spec fn traces_of<T, U: 'static, E: 'static, F: Fn(T) -> Fetch<U, E>>(
    f: F,
    items: Seq<T>,
) -> Seq<Trace<U, E>> {
    Seq::new(items.len(), |i: int| result_of(f, items[i])@)
}

/// `f` may be called on every one of `items` and returns well-formed
/// fetches of one trace for each.
pub open spec fn continues_on_all<T, U: 'static, E: 'static, F: Fn(T) -> Fetch<U, E>>(
    f: F,
    items: Seq<T>,
) -> bool {
    forall|i: int| 0 <= i < items.len() ==> continues(f, #[trigger] items[i])
}

/// The traces of the fetches `items`.
pub open spec fn traces<U: 'static, E: 'static>(items: Seq<Fetch<U, E>>) -> Seq<Trace<U, E>> {
    Seq::new(items.len(), |i: int| items[i]@)
}

/// Every one of `items` is well formed.
pub open spec fn all_wf<U: 'static, E: 'static>(items: Seq<Fetch<U, E>>) -> bool {
    forall|i: int| 0 <= i < items.len() ==> (#[trigger] items[i]).wf()
}

/// Collections whose elements can each be turned into a fetch, all of them
/// run side by side.
pub trait Traversable<T> {
    /// The elements, in order.
    spec fn elements(&self) -> Seq<T>;

    /// Makes a fetch of each element with `f` and runs them side by side:
    /// [`traverse_with`] on the maker that calls `f`. The fetch yields their
    /// values in the order of the elements.
    fn traverse<T2: 'static, E: 'static, F: Fn(T) -> Fetch<T2, E> + 'static>(self, f: F) -> (r:
        Fetch<List<T2>, E>)
        ensures
            r@ == traversal(traces_of(f, self.elements())),
            r.wf() <==> continues_on_all(f, self.elements()),
    ;
}

impl<T: 'static> Traversable<T> for Vec<T> {
    open spec fn elements(&self) -> Seq<T> {
        self@
    }

    fn traverse<T2: 'static, E: 'static, F: Fn(T) -> Fetch<T2, E> + 'static>(self, f: F) -> (r:
        Fetch<List<T2>, E>) {
        assert(parts_of(CallEach(f), self@) =~= traces_of(f, self@));
        traverse_with(self, CallEach(f))
    }
}

/// Collections of fetches that can be run side by side.
pub trait Sequence<T, E> {
    /// The fetches, in order.
    spec fn members(&self) -> Seq<Fetch<T, E>>;

    /// Runs the fetches side by side. The fetch yields their values in the
    /// order of the fetches.
    fn sequence(self) -> (r: Fetch<List<T>, E>)
        ensures
            r@ == traversal(traces(self.members())),
            r.wf() <==> all_wf(self.members()),
    ;
}

impl<T: 'static, E: 'static> Sequence<T, E> for Vec<Fetch<T, E>> {
    open spec fn members(&self) -> Seq<Fetch<T, E>> {
        self@
    }

    fn sequence(self) -> (r: Fetch<List<T>, E>) {
        assert(parts_of(Itself, self@) =~= traces(self@));
        traverse_with(self, Itself)
    }
}

/// The number of rounds of the part that has the most.
pub open spec fn longest<T, E>(parts: Seq<Trace<T, E>>) -> nat
    decreases parts.len(),
{
    if parts.len() == 0 {
        0
    } else {
        longer(longest(parts.drop_last()), parts.last().batches.len())
    }
}

/// The number of requests that all parts together issue in round `i`.
pub open spec fn round_total<T, E>(parts: Seq<Trace<T, E>>, i: int) -> nat
    decreases parts.len(),
{
    if parts.len() == 0 {
        0
    } else {
        round_total(parts.drop_last(), i) + batch_at(parts.last().batches, i)
    }
}

/// The values that the parts yield, in the order of the parts.
pub open spec fn values_of<T, E>(parts: Seq<Trace<T, E>>) -> Seq<T> {
    Seq::new(parts.len(), |i: int| parts[i].outcome->Ok_0)
}

/// A traversal whose elements all succeed yields their values in the order
/// of the elements, runs for as many rounds as its longest element, and in
/// each round issues the requests of all its elements as one batch.
pub proof fn traversal_of_successes<T, E>(parts: Seq<Trace<T, E>>)
    requires
        forall|i: int| 0 <= i < parts.len() ==> (#[trigger] parts[i]).outcome is Ok,
    ensures
        traversal(parts).outcome is Ok,
        traversal(parts).outcome->Ok_0@ == values_of(parts),
        traversal(parts).batches.len() == longest(parts),
        forall|j: int|
            0 <= j < longest(parts) ==> #[trigger] traversal(parts).batches[j] == round_total(
                parts,
                j,
            ),
    decreases parts.len(),
{
    if parts.len() == 0 {
    } else {
        let front = parts.drop_last();
        traversal_of_successes(front);
        let gathered = traversal(front).outcome->Ok_0;
        let last = parts.last().outcome->Ok_0;
        gathered.lemma_snoc_view(last);
        assert forall|j: int| 0 <= j < longest(parts) implies #[trigger] traversal(
            parts,
        ).batches[j] == round_total(parts, j) by {
            if j >= longest(front) {
                lemma_round_total_past_end(front, j);
            }
        }
    }
}

/// No part issues anything in a round past the end of the longest part.
pub proof fn lemma_round_total_past_end<T, E>(parts: Seq<Trace<T, E>>, i: int)
    requires
        i >= longest(parts),
    ensures
        round_total(parts, i) == 0,
    decreases parts.len(),
{
    if parts.len() > 0 {
        lemma_round_total_past_end(parts.drop_last(), i);
    }
}

/// A traversal fails with the error of its first failing element, whatever
/// the elements after it come to.
pub proof fn traversal_first_error<T, E>(parts: Seq<Trace<T, E>>, at: int, e: E)
    requires
        0 <= at < parts.len(),
        parts[at].outcome == Err::<T, E>(e),
        forall|i: int| 0 <= i < at ==> (#[trigger] parts[i]).outcome is Ok,
    ensures
        traversal(parts).outcome == Err::<List<T>, E>(e),
    decreases parts.len(),
{
    let front = parts.drop_last();
    if at == parts.len() - 1 {
        traversal_of_successes(front);
    } else {
        traversal_first_error(front, at, e);
    }
}

} // verus!
